use vstd::prelude::*;

verus! {

/// The part of `path` before its first `'.'`, or the whole of `path` where it
/// holds no `'.'`.
pub open spec fn path_stem(path: Seq<char>) -> Seq<char>
    decreases path.len(),
{
    if path.len() == 0 {
        path
    } else if path[0] == '.' {
        Seq::empty()
    } else {
        seq![path[0]] + path_stem(path.drop_first())
    }
}

/// The stem is the prefix up to any position `k` that holds the first `'.'`
/// (or that is the end of a path without one).
proof fn lemma_path_stem_is_prefix(path: Seq<char>, k: int)
    requires
        0 <= k <= path.len(),
        forall|j: int| 0 <= j < k ==> path[j] != '.',
        k == path.len() || path[k] == '.',
    ensures
        path_stem(path) == path.take(k),
    decreases k,
{
    if k == 0 {
        assert(path.take(0) =~= Seq::<char>::empty());
        if path.len() > 0 {
            assert(path[0] == '.');
        }
    } else {
        let rest = path.drop_first();
        assert forall|j: int| 0 <= j < k - 1 implies rest[j] != '.' by {
            assert(rest[j] == path[j + 1]);
        }
        lemma_path_stem_is_prefix(rest, k - 1);
        assert(path.take(k) =~= seq![path[0]] + rest.take(k - 1));
    }
}

/// The path that the conversion of the file at `path` is written to: the
/// part of `path` before its first `'.'`, followed by `_converted.md`.
///
/// Only the first `'.'` counts: `archive.tar.gz` gives
/// `archive_converted.md`, and `README` gives `README_converted.md`.
pub fn converted_path(path: &str) -> (r: String)
    ensures
        r@ == path_stem(path@) + "_converted.md"@,
{
    let n = path.unicode_len();
    let mut i: usize = 0;
    while i < n && path.get_char(i) != '.'
        invariant
            n == path@.len(),
            i <= n,
            forall|j: int| 0 <= j < i ==> path@[j] != '.',
        decreases n - i,
    {
        i = i + 1;
    }
    proof {
        lemma_path_stem_is_prefix(path@, i as int);
    }
    let stem = path.substring_char(0, i);
    let mut r = String::from_str(stem);
    r.append("_converted.md");
    r
}

} // verus!
