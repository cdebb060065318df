use vstd::prelude::*;
use crate::key::{is_entry, is_entry_key, is_hidden, is_hidden_key, is_logo, is_logo_key};
use crate::snapshot::Snapshot;
use crate::timestamp::Timestamp;

verus! {

/// What the upload pass does with one local file.
#[derive(Clone, Copy, Debug, PartialEq, Eq, Structural)]
pub enum Decision {
    /// The entry document, which is published on its own after the pass.
    SkipEntryDocument,
    /// A file whose name begins with `.`.
    SkipHidden,
    /// A logo already in the store: its key names its content.
    SkipDeduplicated,
    /// The stored copy is at least as recent as the local file.
    SkipUpToDate,
    Upload,
}

/// The decision for the file with key `key`, modified at `local`, against
/// the objects in `remote`.
pub open spec fn decision_of(
    key: Seq<char>,
    remote: Map<Seq<char>, Timestamp>,
    local: Timestamp,
) -> Decision {
    if is_entry_key(key) {
        Decision::SkipEntryDocument
    } else if is_hidden_key(key) {
        Decision::SkipHidden
    } else if remote.contains_key(key) {
        if is_logo_key(key) {
            Decision::SkipDeduplicated
        } else if remote[key].as_nanos() >= local.as_nanos() {
            Decision::SkipUpToDate
        } else {
            Decision::Upload
        }
    } else {
        Decision::Upload
    }
}

/// The decision for the entry document, modified at `local`: only the
/// freshness of the stored copy counts.
pub open spec fn entry_decision_of(remote: Map<Seq<char>, Timestamp>, local: Timestamp) -> Decision {
    let key = crate::key::ENTRY_DOCUMENT@;
    if remote.contains_key(key) && remote[key].as_nanos() >= local.as_nanos() {
        Decision::SkipUpToDate
    } else {
        Decision::Upload
    }
}

/// Whether the decision for `key` depends on the local modification time.
pub open spec fn depends_on_local_time(key: Seq<char>, remote: Map<Seq<char>, Timestamp>) -> bool {
    !is_entry_key(key) && !is_hidden_key(key) && remote.contains_key(key) && !is_logo_key(key)
}

/// Decides what the upload pass does with the file under `key`, modified
/// at `local_modified`.
pub fn decide(key: &str, snapshot: &Snapshot, local_modified: Timestamp) -> (r: Decision)
    requires
        snapshot.wf(),
    ensures
        r == decision_of(key@, snapshot@, local_modified),
        !is_entry_key(key@) && !is_hidden_key(key@) && !snapshot@.contains_key(key@) ==> r
            == Decision::Upload,
        !is_entry_key(key@) && !is_hidden_key(key@) && is_logo_key(key@)
            && snapshot@.contains_key(key@) ==> r == Decision::SkipDeduplicated,
        !is_entry_key(key@) && !is_hidden_key(key@) && !is_logo_key(key@)
            && snapshot@.contains_key(key@) ==> (r == Decision::SkipUpToDate <==> snapshot@[key@].as_nanos()
            >= local_modified.as_nanos()) && (r == Decision::Upload <==> snapshot@[key@].as_nanos()
            < local_modified.as_nanos()),
        !is_entry_key(key@) && is_hidden_key(key@) ==> r == Decision::SkipHidden,
        is_entry_key(key@) <==> r == Decision::SkipEntryDocument,
{
    if is_entry(key) {
        return Decision::SkipEntryDocument;
    }
    if is_hidden(key) {
        return Decision::SkipHidden;
    }
    match snapshot.get(key) {
        Some(remote) => {
            if is_logo(key) {
                Decision::SkipDeduplicated
            } else if remote.is_at_least(&local_modified) {
                Decision::SkipUpToDate
            } else {
                Decision::Upload
            }
        },
        None => Decision::Upload,
    }
}

/// Whether the local modification time of the file under `key` is needed
/// to decide on it; when it is not, any time gives the same decision.
pub fn needs_local_time(key: &str, snapshot: &Snapshot) -> (r: bool)
    requires
        snapshot.wf(),
    ensures
        r == depends_on_local_time(key@, snapshot@),
        !r ==> forall|a: Timestamp, b: Timestamp|
            decision_of(key@, snapshot@, a) == decision_of(key@, snapshot@, b),
{
    !is_entry(key) && !is_hidden(key) && snapshot.contains_key(key) && !is_logo(key)
}

/// Decides whether the entry document, modified at `local_modified`, is
/// sent: only when the store has no copy at least as recent.
pub fn decide_entry(snapshot: &Snapshot, local_modified: Timestamp) -> (r: Decision)
    requires
        snapshot.wf(),
    ensures
        r == entry_decision_of(snapshot@, local_modified),
        r == Decision::Upload || r == Decision::SkipUpToDate,
{
    match snapshot.get(crate::key::ENTRY_DOCUMENT) {
        Some(remote) => {
            if remote.is_at_least(&local_modified) {
                Decision::SkipUpToDate
            } else {
                Decision::Upload
            }
        },
        None => Decision::Upload,
    }
}

/// Whether a run sends the file under `key`, modified at `local`: the entry
/// document by its own rule, every other file by the upload pass.
pub open spec fn run_sends(remote: Map<Seq<char>, Timestamp>, key: Seq<char>, local: Timestamp) -> bool {
    if is_entry_key(key) {
        entry_decision_of(remote, local) == Decision::Upload
    } else {
        decision_of(key, remote, local) == Decision::Upload
    }
}

/// The objects in the store after a run over the local `files` (key and
/// modification time of each) that began with `remote` and whose every
/// upload succeeded, the store stamping each object it received with `at`.
pub open spec fn after_run(
    remote: Map<Seq<char>, Timestamp>,
    files: Seq<(Seq<char>, Timestamp)>,
    at: Timestamp,
) -> Map<Seq<char>, Timestamp>
    decreases files.len(),
{
    if files.len() == 0 {
        remote
    } else {
        let prev = after_run(remote, files.drop_last(), at);
        let f = files.last();
        if run_sends(remote, f.0, f.1) {
            prev.insert(f.0, at)
        } else {
            prev
        }
    }
}

/// Local files with pairwise distinct keys.
pub open spec fn distinct_keys(files: Seq<(Seq<char>, Timestamp)>) -> bool {
    forall|i: int, j: int| 0 <= i < j < files.len() ==> files[i].0 != files[j].0
}

proof fn lemma_after_run_untouched(
    remote: Map<Seq<char>, Timestamp>,
    files: Seq<(Seq<char>, Timestamp)>,
    at: Timestamp,
    k: Seq<char>,
)
    requires
        forall|j: int| 0 <= j < files.len() ==> files[j].0 != k,
    ensures
        after_run(remote, files, at).contains_key(k) == remote.contains_key(k),
        remote.contains_key(k) ==> after_run(remote, files, at)[k] == remote[k],
    decreases files.len(),
{
    if files.len() > 0 {
        lemma_after_run_untouched(remote, files.drop_last(), at, k);
    }
}

proof fn lemma_after_run_at(
    remote: Map<Seq<char>, Timestamp>,
    files: Seq<(Seq<char>, Timestamp)>,
    at: Timestamp,
    i: int,
)
    requires
        distinct_keys(files),
        0 <= i < files.len(),
    ensures
        ({
            let m = after_run(remote, files, at);
            let k = files[i].0;
            if run_sends(remote, k, files[i].1) {
                m.contains_key(k) && m[k] == at
            } else {
                m.contains_key(k) == remote.contains_key(k) && (remote.contains_key(k) ==> m[k]
                    == remote[k])
            }
        }),
    decreases files.len(),
{
    let init = files.drop_last();
    if i == files.len() - 1 {
        lemma_after_run_untouched(remote, init, at, files[i].0);
    } else {
        lemma_after_run_at(remote, init, at, i);
    }
}

/// A second run over unchanged local files sends nothing, provided the first
/// run succeeded and the store stamped what it received no earlier than any
/// local modification.
pub proof fn lemma_second_run_sends_nothing(
    remote: Map<Seq<char>, Timestamp>,
    files: Seq<(Seq<char>, Timestamp)>,
    at: Timestamp,
)
    requires
        distinct_keys(files),
        forall|i: int| 0 <= i < files.len() ==> files[i].1.as_nanos() <= at.as_nanos(),
    ensures
        forall|i: int|
            0 <= i < files.len() ==> !run_sends(after_run(remote, files, at), files[i].0, files[i].1),
{
    assert forall|i: int| 0 <= i < files.len() implies !run_sends(
        after_run(remote, files, at),
        files[i].0,
        files[i].1,
    ) by {
        lemma_after_run_at(remote, files, at, i);
    }
}

} // verus!
