//! Path text: normalization and the volatile-root prefix test.
//!
//! Paths are plain text. The normalizer strips a single trailing separator;
//! the prefix test decides whether a resolved link destination lies under the
//! volatile storage root, which is what makes a symbolic link "volatile" for
//! the rest of the system.

use vstd::prelude::*;
use vstd::string::*;

verus! {

/// A path is absolute when it begins with a separator.
pub open spec fn is_absolute(p: Seq<char>) -> bool {
    p.len() > 0 && p[0] == '/'
}

/// The normalized form of a path: one trailing separator stripped, except
/// that a path of a single character (such as the filesystem root) is kept
/// as it is.
pub open spec fn normalized(p: Seq<char>) -> Seq<char> {
    if p.len() >= 2 && p[p.len() - 1] == '/' {
        p.subrange(0, p.len() - 1)
    } else {
        p
    }
}

/// The target path an orchestrator works on, given the current working
/// directory and the possibly relative, possibly slash-terminated input.
pub open spec fn resolved(cwd: Seq<char>, p: Seq<char>) -> Seq<char> {
    if is_absolute(p) {
        normalized(p)
    } else {
        normalized(cwd + "/"@ + p)
    }
}

/// `p` lies at or below `root`: it is `root` itself, or `root` followed by a
/// separator and more text.
pub open spec fn lies_under(root: Seq<char>, p: Seq<char>) -> bool {
    &&& p.len() >= root.len()
    &&& p.subrange(0, root.len() as int) == root
    &&& (p.len() == root.len() || p[root.len() as int] == '/')
}

/// The backing-store path for identifier `id`: `<root>/target<id>`.
pub open spec fn store_path_of(root: Seq<char>, id: Seq<char>) -> Seq<char> {
    root + "/target"@ + id
}

/// Resolution yields an absolute path whenever the working directory is
/// absolute, whatever the input path looks like.
pub proof fn lemma_resolved_absolute(cwd: Seq<char>, p: Seq<char>)
    requires
        is_absolute(cwd),
    ensures
        is_absolute(resolved(cwd, p)),
{
}

/// Normalization leaves no trailing separator behind, for every input that
/// does not end in two separators (only one is ever stripped); a
/// one-character result — the filesystem root — is exempt.
pub proof fn lemma_normalized_strips_separator(p: Seq<char>)
    requires
        !(p.len() >= 2 && p[p.len() - 1] == '/' && p[p.len() - 2] == '/'),
    ensures
        ({
            let q = normalized(p);
            q.len() >= 2 ==> q[q.len() - 1] != '/'
        }),
{
}

/// A backing-store path lies under the root it was built from.
pub proof fn lemma_store_path_lies_under(root: Seq<char>, id: Seq<char>)
    ensures
        lies_under(root, store_path_of(root, id)),
        store_path_of(root, id).len() > root.len(),
{
    reveal_strlit("/target");
    assert(store_path_of(root, id).subrange(0, root.len() as int) =~= root);
    assert(store_path_of(root, id)[root.len() as int] == '/');
}

/// Strips a single trailing separator, leaving a one-character path (the
/// filesystem root) untouched.
pub fn normalize_path(path: &str) -> (r: String)
    ensures
        r@ == normalized(path@),
{
    let n = path.unicode_len();
    if n >= 2 {
        let last = path.get_char(n - 1);
        if last == '/' {
            let head = path.substring_char(0, n - 1);
            return String::from_str(head);
        }
    }
    String::from_str(path)
}

/// Makes a path absolute against `cwd` and normalizes it.
pub fn resolve_target(cwd: &str, path: &str) -> (r: String)
    ensures
        r@ == resolved(cwd@, path@),
{
    let n = path.unicode_len();
    if n > 0 && path.get_char(0) == '/' {
        normalize_path(path)
    } else {
        let mut joined = String::from_str(cwd);
        joined.append("/");
        joined.append(path);
        normalize_path(joined.as_str())
    }
}

/// Decides whether `p` lies at or below `root`.
pub fn path_lies_under(root: &str, p: &str) -> (r: bool)
    ensures
        r == lies_under(root@, p@),
{
    let rn = root.unicode_len();
    let pn = p.unicode_len();
    if pn < rn {
        return false;
    }
    let mut i: usize = 0;
    while i < rn
        invariant
            0 <= i <= rn,
            rn == root@.len(),
            pn == p@.len(),
            pn >= rn,
            forall|j: int| 0 <= j < i ==> p@[j] == root@[j],
        decreases rn - i,
    {
        if p.get_char(i) != root.get_char(i) {
            assert(p@.subrange(0, rn as int) == root@ ==> p@.subrange(0, rn as int)[i as int]
                == root@[i as int]);
            return false;
        }
        i += 1;
    }
    assert(p@.subrange(0, rn as int) =~= root@);
    if pn == rn {
        true
    } else {
        p.get_char(rn) == '/'
    }
}

/// Builds the backing-store path `<root>/target<id>`.
pub fn store_path(root: &str, id: &str) -> (r: String)
    ensures
        r@ == store_path_of(root@, id@),
{
    let mut s = String::from_str(root);
    s.append("/target");
    s.append(id);
    s
}

} // verus!
