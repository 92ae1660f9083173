//! Where a store lives: its mirror directory and its ref.
use crate::text::same_text;
use vstd::prelude::*;

verus! {

/// The directory that holds every store's mirror, under the repository root.
pub open spec fn trunk_root_of(root: Seq<char>) -> Seq<char> {
    root + "/.trunk"@
}

/// The ignore file of the main repository.
pub open spec fn ignore_file_of(root: Seq<char>) -> Seq<char> {
    root + "/.gitignore"@
}

/// The ignore file of the repository whose root is `root`.
pub fn ignore_file(root: &str) -> (r: String)
    ensures
        r@ == ignore_file_of(root@),
{
    let mut r = String::from_str(root);
    r.append("/.gitignore");
    r
}

/// The mirror directory of `store`.
pub open spec fn mirror_dir_of(root: Seq<char>, store: Seq<char>) -> Seq<char> {
    root + "/.trunk/"@ + store
}

/// The ref that records `store` in the main repository and on remotes.
pub open spec fn ref_name_of(store: Seq<char>) -> Seq<char> {
    "refs/trunk/"@ + store
}

/// A store name names one directory and one ref: it is not empty, holds no
/// path separator and no `..`, and is not `.`.
pub open spec fn is_store_name(s: Seq<char>) -> bool {
    &&& s.len() > 0
    &&& forall|i: int| 0 <= i < s.len() ==> s[i] != '/' && s[i] != '\\'
    &&& forall|i: int| 0 <= i < s.len() - 1 ==> !(#[trigger] s[i] == '.' && s[i + 1] == '.')
    &&& s != "."@
}

/// The three names a store has once the repository root is known.
pub struct StorePaths {
    pub trunk_root: String,
    pub mirror_dir: String,
    pub ref_name: String,
}

/// Whether `s` is a usable store name.
pub fn check_store_name(s: &str) -> (r: bool)
    ensures
        r == is_store_name(s@),
{
    let n = s.unicode_len();
    if n == 0 || same_text(s, ".") {
        return false;
    }
    let mut i: usize = 0;
    while i < n
        invariant
            n == s@.len(),
            i <= n,
            forall|j: int| 0 <= j < i ==> s@[j] != '/' && s@[j] != '\\',
            forall|j: int| 0 <= j < i && j < n - 1 ==> !(#[trigger] s@[j] == '.' && s@[j + 1] == '.'),
        decreases n - i,
    {
        let c = s.get_char(i);
        if c == '/' || c == '\\' {
            return false;
        }
        if c == '.' && i + 1 < n && s.get_char(i + 1) == '.' {
            return false;
        }
        i = i + 1;
    }
    true
}

/// The ref name of `store`.
pub fn ref_name(store: &str) -> (r: String)
    ensures
        r@ == ref_name_of(store@),
{
    let mut r = String::from_str("refs/trunk/");
    r.append(store);
    r
}

/// The mirror root, mirror directory and ref of `store` in the repository
/// whose root is `root`.
pub fn resolve(root: &str, store: &str) -> (r: StorePaths)
    ensures
        r.trunk_root@ == trunk_root_of(root@),
        r.mirror_dir@ == mirror_dir_of(root@, store@),
        r.ref_name@ == ref_name_of(store@),
{
    let mut trunk_root = String::from_str(root);
    trunk_root.append("/.trunk");
    let mut mirror_dir = String::from_str(root);
    mirror_dir.append("/.trunk/");
    mirror_dir.append(store);
    StorePaths { trunk_root, mirror_dir, ref_name: ref_name(store) }
}

/// Two stores of one repository resolve to names that differ only where the
/// store name stands: the same prefix, followed by the store name.
pub proof fn lemma_resolve_substitution(root: Seq<char>, a: Seq<char>, b: Seq<char>)
    requires
        is_store_name(a),
        is_store_name(b),
    ensures
        ({
            let dir_prefix = root + "/.trunk/"@;
            &&& mirror_dir_of(root, a) == dir_prefix + a
            &&& mirror_dir_of(root, b) == dir_prefix + b
            &&& ref_name_of(a) == "refs/trunk/"@ + a
            &&& ref_name_of(b) == "refs/trunk/"@ + b
            &&& (mirror_dir_of(root, a) == mirror_dir_of(root, b) <==> a == b)
            &&& (ref_name_of(a) == ref_name_of(b) <==> a == b)
        }),
{
    let dir_prefix = root + "/.trunk/"@;
    if mirror_dir_of(root, a) == mirror_dir_of(root, b) {
        assert((dir_prefix + a).subrange(dir_prefix.len() as int, (dir_prefix + a).len() as int)
            =~= a);
        assert((dir_prefix + b).subrange(dir_prefix.len() as int, (dir_prefix + b).len() as int)
            =~= b);
    }
    let ref_prefix = "refs/trunk/"@;
    if ref_name_of(a) == ref_name_of(b) {
        assert((ref_prefix + a).subrange(ref_prefix.len() as int, (ref_prefix + a).len() as int)
            =~= a);
        assert((ref_prefix + b).subrange(ref_prefix.len() as int, (ref_prefix + b).len() as int)
            =~= b);
    }
}

} // verus!
