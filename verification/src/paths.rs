//! Relative paths below a target's root.
use vstd::prelude::*;

verus! {

/// Whether `c` separates the components of a path.
pub open spec fn is_separator(c: char) -> bool {
    c == '/' || c == '\\'
}

/// Whether the component `..` stands at position `i` of `path`: two dots with a
/// separator, or an end of the path, on either side.
pub open spec fn parent_at(path: Seq<char>, i: int) -> bool {
    &&& 0 <= i
    &&& i + 2 <= path.len()
    &&& path[i] == '.'
    &&& path[i + 1] == '.'
    &&& (i == 0 || is_separator(path[i - 1]))
    &&& (i + 2 == path.len() || is_separator(path[i + 2]))
}

/// Whether `path` begins with a drive prefix: its second character is a colon.
pub open spec fn has_drive_prefix(path: Seq<char>) -> bool {
    path.len() >= 2 && path[1] == ':'
}

/// A path that stays below the root it is joined to, on any system: it does not
/// begin with a separator or a drive prefix, and none of its components is `..`.
pub open spec fn is_relative(path: Seq<char>) -> bool {
    &&& (path.len() > 0 ==> !is_separator(path[0]))
    &&& !has_drive_prefix(path)
    &&& forall|i: int| !parent_at(path, i)
}

/// Every path of `paths` stays below the root.
pub open spec fn all_relative(paths: Seq<Seq<char>>) -> bool {
    forall|k: int| 0 <= k < paths.len() ==> is_relative(#[trigger] paths[k])
}

/// Tells whether `path` stays below the root it is joined to.
pub fn is_relative_path(path: &str) -> (r: bool)
    ensures
        r == is_relative(path@),
{
    let n: usize = path.unicode_len();
    if n > 0 {
        let first: char = path.get_char(0);
        if first == '/' || first == '\\' {
            return false;
        }
    }
    if n < 2 {
        return true;
    }
    if path.get_char(1) == ':' {
        return false;
    }
    let mut i: usize = 0;
    while i <= n - 2
        invariant
            n == path@.len(),
            n >= 2,
            i <= n - 1,
            !is_separator(path@[0]),
            forall|j: int| 0 <= j < i ==> !parent_at(path@, j),
        decreases n - i,
    {
        let dots: bool = path.get_char(i) == '.' && path.get_char(i + 1) == '.';
        let opens: bool = i == 0 || separates(path.get_char(i - 1));
        let closes: bool = i + 2 == n || separates(path.get_char(i + 2));
        if dots && opens && closes {
            assert(parent_at(path@, i as int));
            return false;
        }
        i = i + 1;
    }
    true
}

/// Tells whether `c` separates the components of a path.
pub fn separates(c: char) -> (r: bool)
    ensures
        r == is_separator(c),
{
    c == '/' || c == '\\'
}

} // verus!
