use vstd::prelude::*;

verus! {

/// A byte that separates path segments (forward or backward slash).
pub open spec fn is_sep(c: u8) -> bool {
    c == 47 || c == 92
}

/// A `..` segment begins at position `j` of `name`: two dots bounded by
/// separators or by the ends of the name.
pub open spec fn bad_dotdot_at(name: Seq<u8>, j: int) -> bool {
    &&& 0 <= j
    &&& j + 2 <= name.len()
    &&& name[j] == 46
    &&& name[j + 1] == 46
    &&& (j == 0 || is_sep(name[j - 1]))
    &&& (j + 2 == name.len() || is_sep(name[j + 2]))
}

/// An archive entry name that cannot resolve outside the directory it is
/// joined under: non-empty, relative (no leading separator), free of NUL
/// and of drive-letter colons, and without any `..` segment.
pub open spec fn entry_name_safe(name: Seq<u8>) -> bool {
    &&& name.len() > 0
    &&& !is_sep(name[0])
    &&& forall|i: int| 0 <= i < name.len() ==> name[i] != 58 && name[i] != 0
    &&& forall|j: int| 0 <= j < name.len() ==> !bad_dotdot_at(name, j)
}

/// A name with a trailing separator stands for a directory entry.
pub open spec fn is_dir_name(name: Seq<u8>) -> bool {
    name.len() > 0 && is_sep(name[name.len() - 1])
}

/// The root, one forward slash, then the entry name.
pub open spec fn joined_path(root: Seq<u8>, name: Seq<u8>) -> Seq<u8> {
    root + seq![47u8] + name
}

/// A destination path that stays inside `root`: it extends `root` with a
/// separator and a safe relative remainder, so resolving it cannot leave
/// the directory that `root` names.
pub open spec fn stays_within(root: Seq<u8>, path: Seq<u8>) -> bool {
    &&& path.len() > root.len() + 1
    &&& path.subrange(0, root.len() as int) == root
    &&& path[root.len() as int] == 47
    &&& entry_name_safe(path.subrange(root.len() + 1 as int, path.len() as int))
}

/// A safe name joined under a root always yields a path that stays within
/// that root.
pub proof fn lemma_join_stays_within(root: Seq<u8>, name: Seq<u8>)
    requires
        entry_name_safe(name),
    ensures
        stays_within(root, joined_path(root, name)),
{
    let path = joined_path(root, name);
    assert(path.subrange(0, root.len() as int) =~= root);
    assert(path.subrange(root.len() + 1 as int, path.len() as int) =~= name);
}

/// Decides `entry_name_safe` for a concrete name.
pub fn check_entry_name(name: &Vec<u8>) -> (r: bool)
    ensures
        r == entry_name_safe(name@),
{
    let n = name.len();
    if n == 0 {
        return false;
    }
    if name[0] == 47 || name[0] == 92 {
        return false;
    }
    let mut i: usize = 0;
    while i < n
        invariant
            name@.len() == n,
            0 <= i <= n,
            forall|k: int| 0 <= k < i ==> name@[k] != 58 && name@[k] != 0,
            forall|j: int| 0 <= j < i ==> !bad_dotdot_at(name@, j),
        decreases n - i,
    {
        let c = name[i];
        if c == 58 || c == 0 {
            return false;
        }
        if i < n - 1 && name[i] == 46 && name[i + 1] == 46 {
            let left_ok = i == 0 || name[i - 1] == 47 || name[i - 1] == 92;
            let right_ok = i + 2 == n || name[i + 2] == 47 || name[i + 2] == 92;
            if left_ok && right_ok {
                assert(bad_dotdot_at(name@, i as int));
                return false;
            }
        }
        assert(!bad_dotdot_at(name@, i as int));
        i += 1;
    }
    true
}

/// Decides `is_dir_name` for a concrete name.
pub fn check_dir_name(name: &Vec<u8>) -> (r: bool)
    ensures
        r == is_dir_name(name@),
{
    let n = name.len();
    if n == 0 {
        return false;
    }
    name[n - 1] == 47 || name[n - 1] == 92
}

/// Builds `joined_path(root@, name@)` as a concrete byte vector.
pub fn join_path(root: &Vec<u8>, name: &Vec<u8>) -> (r: Vec<u8>)
    ensures
        r@ == joined_path(root@, name@),
{
    let mut p: Vec<u8> = Vec::new();
    p.extend_from_slice(root.as_slice());
    p.push(47);
    p.extend_from_slice(name.as_slice());
    assert(p@ =~= joined_path(root@, name@));
    p
}

} // verus!
