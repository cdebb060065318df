use vstd::prelude::*;
use crate::text::same_text;
use crate::timestamp::Timestamp;

verus! {

/// The objects present in the store when a run begins: each key with the
/// time it was last modified.
pub struct Snapshot {
    entries: Vec<(String, Timestamp)>,
    model: Ghost<Map<Seq<char>, Timestamp>>,
}

/// One object of a listing page; the store may leave either field out.
pub struct ListedObject {
    pub key: Option<String>,
    pub last_modified: Option<Timestamp>,
}

/// One page of a listing.
pub struct ListedPage {
    pub objects: Vec<ListedObject>,
    pub is_truncated: bool,
    pub next_token: Option<String>,
}

/// What the listing does after a page.
pub enum ListingStep {
    /// Request another page, passing this continuation token when there is one.
    Fetch(Option<String>),
    /// The listing is complete.
    Complete,
}

/// `m` with every listed object that has both a key and a timestamp entered
/// in order, a later entry replacing an earlier one under the same key.
pub open spec fn absorbed(m: Map<Seq<char>, Timestamp>, objects: Seq<ListedObject>) -> Map<
    Seq<char>,
    Timestamp,
>
    decreases objects.len(),
{
    if objects.len() == 0 {
        m
    } else {
        let prev = absorbed(m, objects.drop_last());
        let o = objects.last();
        if o.key is Some && o.last_modified is Some {
            prev.insert(o.key->0@, o.last_modified->0)
        } else {
            prev
        }
    }
}

/// The step that follows a page with the given pagination fields.
pub open spec fn step_after(is_truncated: bool, next_token: Option<String>) -> ListingStep {
    if is_truncated {
        ListingStep::Fetch(next_token)
    } else {
        ListingStep::Complete
    }
}

impl View for Snapshot {
    type V = Map<Seq<char>, Timestamp>;

    closed spec fn view(&self) -> Map<Seq<char>, Timestamp> {
        self.model@
    }
}

impl Snapshot {
    /// The entries hold exactly the model, one entry per key.
    pub closed spec fn wf(&self) -> bool {
        &&& forall|i: int|
            0 <= i < self.entries@.len() ==> {
                &&& #[trigger] self.model@.contains_key(self.entries@[i].0@)
                &&& self.model@[self.entries@[i].0@] == self.entries@[i].1
            }
        &&& forall|k: Seq<char>|
            #[trigger] self.model@.contains_key(k) ==> exists|i: int|
                0 <= i < self.entries@.len() && #[trigger] self.entries@[i].0@ == k
        &&& forall|i: int, j: int|
            0 <= i < j < self.entries@.len() ==> self.entries@[i].0@ != self.entries@[j].0@
    }

    /// An empty snapshot.
    pub fn new() -> (r: Snapshot)
        ensures
            r.wf(),
            r@ == Map::<Seq<char>, Timestamp>::empty(),
    {
        Snapshot { entries: Vec::new(), model: Ghost(Map::empty()) }
    }

    fn find(&self, key: &str) -> (r: Option<usize>)
        requires
            self.wf(),
        ensures
            match r {
                Some(i) => i < self.entries@.len() && self.entries@[i as int].0@ == key@,
                None => !self@.contains_key(key@),
            },
    {
        let n = self.entries.len();
        let mut i: usize = 0;
        while i < n
            invariant
                n == self.entries@.len(),
                i <= n,
                forall|j: int| 0 <= j < i ==> self.entries@[j].0@ != key@,
            decreases n - i,
        {
            if same_text(self.entries[i].0.as_str(), key) {
                return Some(i);
            }
            i = i + 1;
        }
        None
    }

    /// The last-modified time stored under `key`, if the key is present.
    pub fn get(&self, key: &str) -> (r: Option<Timestamp>)
        requires
            self.wf(),
        ensures
            r == (if self@.contains_key(key@) {
                Some(self@[key@])
            } else {
                None::<Timestamp>
            }),
    {
        match self.find(key) {
            Some(i) => Some(self.entries[i].1),
            None => None,
        }
    }

    /// Whether `key` is present.
    pub fn contains_key(&self, key: &str) -> (r: bool)
        requires
            self.wf(),
        ensures
            r == self@.contains_key(key@),
    {
        self.find(key).is_some()
    }

    /// Number of keys present.
    pub fn len(&self) -> (r: usize)
        requires
            self.wf(),
        ensures
            r == self@.len(),
    {
        proof { self.lemma_len(); }
        self.entries.len()
    }

    proof fn lemma_len(&self)
        requires
            self.wf(),
        ensures
            self.model@.dom().finite(),
            self.model@.len() == self.entries@.len(),
    {
        let keys = self.entries@.map_values(|e: (String, Timestamp)| e.0@);
        assert(keys.no_duplicates()) by {
            assert forall|i: int, j: int|
                0 <= i < keys.len() && 0 <= j < keys.len() && i != j implies keys[i]
                != keys[j] by {
                if i < j {
                } else {
                }
            }
        }
        assert(keys.to_set() =~= self.model@.dom()) by {
            assert forall|k: Seq<char>| self.model@.dom().contains(k) implies keys.to_set().contains(
                k,
            ) by {
                let i = choose|i: int| 0 <= i < self.entries@.len() && self.entries@[i].0@ == k;
                assert(keys[i] == k);
            }
            assert forall|k: Seq<char>| keys.to_set().contains(k) implies self.model@.dom().contains(
                k,
            ) by {
                let i = choose|i: int| 0 <= i < keys.len() && keys[i] == k;
                assert(self.model@.contains_key(self.entries@[i].0@));
            }
        }
        keys.unique_seq_to_set();
    }

    /// Stores `modified` under `key`, replacing what was there.
    pub fn insert(&mut self, key: String, modified: Timestamp)
        requires
            old(self).wf(),
        ensures
            final(self).wf(),
            final(self)@ == old(self)@.insert(key@, modified),
    {
        let ghost k = key@;
        let ghost mut at: int = 0;
        match self.find(key.as_str()) {
            Some(i) => {
                self.entries.set(i, (key, modified));
                proof { at = i as int; }
            },
            None => {
                self.entries.push((key, modified));
                proof { at = self.entries@.len() - 1; }
            },
        }
        assert(self.entries@[at].0@ == k);
        self.model = Ghost(self.model@.insert(k, modified));
        assert forall|q: Seq<char>| #[trigger] self.model@.contains_key(q) implies exists|j: int|
            0 <= j < self.entries@.len() && #[trigger] self.entries@[j].0@ == q by {
            if q != k {
                let j = choose|j: int|
                    0 <= j < old(self).entries@.len() && old(self).entries@[j].0@ == q;
                assert(self.entries@[j].0@ == q);
            } else {
                assert(self.entries@[at].0@ == q);
            }
        }
    }

    /// Enters the objects of one listing page and says whether another page
    /// must be requested.
    pub fn absorb_page(&mut self, page: &ListedPage) -> (r: ListingStep)
        requires
            old(self).wf(),
        ensures
            final(self).wf(),
            final(self)@ == absorbed(old(self)@, page.objects@),
            r == step_after(page.is_truncated, page.next_token),
    {
        let n = page.objects.len();
        let mut i: usize = 0;
        while i < n
            invariant
                n == page.objects@.len(),
                i <= n,
                self.wf(),
                self@ == absorbed(old(self)@, page.objects@.take(i as int)),
            decreases n - i,
        {
            assert(page.objects@.take(i + 1).drop_last() =~= page.objects@.take(i as int));
            let o = &page.objects[i];
            match (&o.key, &o.last_modified) {
                (Some(k), Some(t)) => {
                    self.insert(k.clone(), *t);
                },
                _ => {},
            }
            i = i + 1;
        }
        assert(page.objects@.take(n as int) =~= page.objects@);
        if page.is_truncated {
            ListingStep::Fetch(page.next_token.clone())
        } else {
            ListingStep::Complete
        }
    }
}

} // verus!
