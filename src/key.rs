use vstd::prelude::*;
use crate::text::has_prefix;

verus! {

/// Name of the site's entry document, at the top of the local tree.
pub const ENTRY_DOCUMENT: &'static str = "index.html";

/// Key prefix of content-addressed logo assets.
pub const LOGOS_PREFIX: &'static str = "logos/";

/// `s` without the `/` characters it begins with.
pub open spec fn strip_leading_slashes(s: Seq<char>) -> Seq<char>
    decreases s.len(),
{
    if s.len() > 0 && s[0] == '/' {
        strip_leading_slashes(s.drop_first())
    } else {
        s
    }
}

/// The object key of the file at `path` in the tree rooted at `root`: the
/// path with the root prefix and then any leading separators removed.
pub open spec fn object_key_of(path: Seq<char>, root: Seq<char>) -> Seq<char> {
    let rest = if root.is_prefix_of(path) {
        path.skip(root.len() as int)
    } else {
        path
    };
    strip_leading_slashes(rest)
}

/// Index where the last path component of `key` begins.
pub open spec fn name_start(key: Seq<char>) -> int
    decreases key.len(),
{
    if key.len() == 0 {
        0
    } else if key.last() == '/' {
        key.len() as int
    } else {
        name_start(key.drop_last())
    }
}

/// A key whose file name begins with `.`.
pub open spec fn is_hidden_key(key: Seq<char>) -> bool {
    name_start(key) < key.len() && key[name_start(key)] == '.'
}

/// A key under the logos namespace.
pub open spec fn is_logo_key(key: Seq<char>) -> bool {
    LOGOS_PREFIX@.is_prefix_of(key)
}

/// The key of the entry document.
pub open spec fn is_entry_key(key: Seq<char>) -> bool {
    key == ENTRY_DOCUMENT@
}

/// Object key of the file at `path`, for the local tree rooted at `root`.
pub fn object_key(path: &str, root: &str) -> (r: String)
    ensures
        r@ == object_key_of(path@, root@),
{
    let n = path.unicode_len();
    let mut start: usize = if has_prefix(path, root) {
        root.unicode_len()
    } else {
        0
    };
    let ghost rest = path@.skip(start as int);
    assert(path@.skip(0) =~= path@);
    assert(object_key_of(path@, root@) == strip_leading_slashes(rest));
    while start < n && path.get_char(start) == '/'
        invariant
            n == path@.len(),
            start <= n,
            strip_leading_slashes(rest) == strip_leading_slashes(path@.skip(start as int)),
        decreases n - start,
    {
        assert(path@.skip(start as int).drop_first() =~= path@.skip(start + 1));
        start = start + 1;
    }
    let tail = path.substring_char(start, n);
    assert(tail@ =~= path@.skip(start as int));
    String::from_str(tail)
}

/// Whether the file name of `key` begins with `.`.
pub fn is_hidden(key: &str) -> (r: bool)
    ensures
        r == is_hidden_key(key@),
{
    let n = key.unicode_len();
    let mut i: usize = n;
    assert(key@.subrange(0, n as int) =~= key@);
    while i > 0 && key.get_char(i - 1) != '/'
        invariant
            n == key@.len(),
            i <= n,
            name_start(key@) == name_start(key@.subrange(0, i as int)),
        decreases i,
    {
        assert(key@.subrange(0, i as int).drop_last() =~= key@.subrange(0, i - 1));
        i = i - 1;
    }
    assert(name_start(key@) == i);
    i < n && key.get_char(i) == '.'
}

/// Whether `key` lies under the logos namespace.
pub fn is_logo(key: &str) -> (r: bool)
    ensures
        r == is_logo_key(key@),
{
    has_prefix(key, LOGOS_PREFIX)
}

/// Whether `key` is the key of the entry document.
pub fn is_entry(key: &str) -> (r: bool)
    ensures
        r == is_entry_key(key@),
{
    crate::text::same_text(key, ENTRY_DOCUMENT)
}

} // verus!
