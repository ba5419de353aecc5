//! Destination names inside the container.
//!
//! The container format stores relative names only, so one leading path
//! separator is stripped from a destination name before it is written.
//! A stripped name must also satisfy the container's naming rules; the
//! predicate [`tar_name_ok`] is a sufficient condition under which the
//! container writer stores the name unchanged and cannot fail.

use vstd::prelude::*;

verus! {

/// The destination name as it is written into the container: one leading
/// separator, if present, is removed.
pub open spec fn stripped_name(name: Seq<char>) -> Seq<char> {
    if name.len() > 0 && name[0] == '/' {
        name.subrange(1, name.len() as int)
    } else {
        name
    }
}

/// Backslashes would be rewritten to separators by the container writer,
/// and a NUL would truncate the stored name when it is read back.
pub open spec fn no_forbidden_chars(name: Seq<char>) -> bool {
    forall|i: int| 0 <= i < name.len() ==> name[i] != '\\' && name[i] != '\u{0}'
}

/// No two adjacent separators: an empty component would be dropped by the
/// container writer, so the stored name would differ from the given one.
pub open spec fn no_empty_component(name: Seq<char>) -> bool {
    forall|i: int| 0 <= i < name.len() - 1 ==> !(#[trigger] name[i] == '/' && name[i + 1] == '/')
}

/// A `.` or `..` component begins at index `i`.
pub open spec fn dot_component_at(name: Seq<char>, i: int) -> bool {
    &&& 0 <= i < name.len()
    &&& (i == 0 || name[i - 1] == '/')
    &&& name[i] == '.'
    &&& {
        ||| i + 1 == name.len()
        ||| name[i + 1] == '/'
        ||| (i + 1 < name.len() && name[i + 1] == '.' && (i + 2 == name.len() || name[i + 2]
            == '/'))
    }
}

/// `.` components are dropped by the container writer and `..` components
/// are rejected by it, so a name must contain neither.
pub open spec fn no_dot_components(name: Seq<char>) -> bool {
    forall|i: int| 0 <= i < name.len() ==> !dot_component_at(name, i)
}

/// A name that the container writer accepts and stores exactly as given:
/// non-empty, relative, with no empty or dot components and no characters
/// that the writer would rewrite.
pub open spec fn tar_name_ok(name: Seq<char>) -> bool {
    &&& name.len() > 0
    &&& name[0] != '/'
    &&& name[name.len() - 1] != '/'
    &&& no_forbidden_chars(name)
    &&& no_empty_component(name)
    &&& no_dot_components(name)
}

/// Strips one leading separator from a destination name.
pub fn strip_leading_separator(name: &str) -> (r: String)
    ensures
        r@ == stripped_name(name@),
{
    let n = name.unicode_len();
    if n > 0 && name.get_char(0) == '/' {
        let tail = name.substring_char(1, n);
        String::from_str(tail)
    } else {
        String::from_str(name)
    }
}

/// Decides [`tar_name_ok`] for a stripped destination name.
pub fn tar_name_valid(name: &str) -> (r: bool)
    ensures
        r == tar_name_ok(name@),
{
    let n = name.unicode_len();
    if n == 0 {
        return false;
    }
    if name.get_char(0) == '/' {
        return false;
    }
    if name.get_char(n - 1) == '/' {
        return false;
    }
    let mut i: usize = 0;
    while i < n
        invariant
            0 < n == name@.len(),
            0 <= i <= n,
            name@[0] != '/',
            name@[n - 1] != '/',
            forall|j: int| 0 <= j < i ==> name@[j] != '\\' && name@[j] != '\u{0}',
            forall|j: int| 0 <= j < i && j < n - 1 ==> !(#[trigger] name@[j] == '/' && name@[j + 1]
                == '/'),
            forall|j: int| 0 <= j < i ==> !dot_component_at(name@, j),
        decreases n - i,
    {
        let c = name.get_char(i);
        if c == '\\' || c == '\u{0}' {
            return false;
        }
        if c == '/' && i + 1 < n && name.get_char(i + 1) == '/' {
            return false;
        }
        if c == '.' && (i == 0 || name.get_char(i - 1) == '/') {
            if i + 1 == n {
                proof {
                    assert(dot_component_at(name@, i as int));
                }
                return false;
            }
            let c1 = name.get_char(i + 1);
            if c1 == '/' {
                proof {
                    assert(dot_component_at(name@, i as int));
                }
                return false;
            }
            if c1 == '.' && (i + 2 == n || name.get_char(i + 2) == '/') {
                proof {
                    assert(dot_component_at(name@, i as int));
                }
                return false;
            }
        }
        i += 1;
    }
    true
}

/// The archive name of a file found under a registered subtree: the
/// configured prefix, one separator, and the path relative to the root.
pub open spec fn joined_name(prefix: Seq<char>, rel: Seq<char>) -> Seq<char> {
    prefix + seq!['/'] + rel
}

/// Joins an archive prefix and a root-relative path with one separator.
pub fn join_under_prefix(prefix: &str, rel: &str) -> (r: String)
    ensures
        r@ == joined_name(prefix@, rel@),
{
    let mut s = String::from_str(prefix);
    s.append("/");
    s.append(rel);
    proof {
        reveal_strlit("/");
        assert(s@ =~= joined_name(prefix@, rel@));
    }
    s
}

/// The path of a walked file relative to the walked root: the walk yields
/// the root itself (relative name empty) or paths extending it by one
/// separator and a suffix; a root already ending in a separator extends
/// without a second one. Anything else has no relative name.
pub open spec fn rel_to_root(path: Seq<char>, root: Seq<char>) -> Option<Seq<char>> {
    if path == root {
        Some(Seq::<char>::empty())
    } else if root.len() > 0 && root.last() == '/' && path.len() > root.len() && path.subrange(
        0,
        root.len() as int,
    ) == root {
        Some(path.subrange(root.len() as int, path.len() as int))
    } else if path.len() > root.len() && path.subrange(0, root.len() as int) == root && path[root.len() as int]
        == '/' {
        Some(path.subrange(root.len() as int + 1, path.len() as int))
    } else {
        None
    }
}

/// Computes [`rel_to_root`] for a walked path.
pub fn relative_to_root(path: &str, root: &str) -> (r: Option<String>)
    ensures
        match r {
            Some(s) => rel_to_root(path@, root@) == Some(s@),
            None => rel_to_root(path@, root@) is None,
        },
{
    let np = path.unicode_len();
    let nr = root.unicode_len();
    let mut i: usize = 0;
    while i < nr && i < np
        invariant
            0 <= i <= nr,
            i <= np,
            np == path@.len(),
            nr == root@.len(),
            forall|j: int| 0 <= j < i ==> path@[j] == root@[j],
        decreases nr - i,
    {
        if path.get_char(i) != root.get_char(i) {
            proof {
                assert(path@ != root@);
                assert(path@.len() > root@.len() ==> path@.subrange(0, root@.len() as int)[i as int]
                    != root@[i as int]);
            }
            return None;
        }
        i += 1;
    }
    if np == nr {
        if i == nr {
            proof {
                assert(path@ =~= root@);
            }
            return Some(String::new());
        }
    }
    if np > nr && i == nr {
        proof {
            assert(path@.subrange(0, nr as int) =~= root@);
        }
        if nr > 0 && root.get_char(nr - 1) == '/' {
            let tail = path.substring_char(nr, np);
            return Some(String::from_str(tail));
        }
        if path.get_char(nr) == '/' {
            let tail = path.substring_char(nr + 1, np);
            return Some(String::from_str(tail));
        }
        proof {
            assert(path@ != root@);
        }
        return None;
    }
    proof {
        assert(np < nr ==> path@ != root@);
    }
    None
}

} // verus!
