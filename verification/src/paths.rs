//! Unix path joining on plain strings.

use crate::error::{RelayError, RelayResult};
use vstd::prelude::*;
use vstd::string::*;

verus! {

/// The path `part` below `base`: an absolute part stands for itself, and a separator is put
/// between the two unless `base` is empty or already ends in one.
pub open spec fn joined(base: Seq<char>, part: Seq<char>) -> Seq<char> {
    if part.len() > 0 && part[0] == '/' {
        part
    } else if base.len() == 0 || base.last() == '/' {
        base + part
    } else {
        base + seq!['/'] + part
    }
}

/// Joins `part` to `base`.
pub fn join(base: &str, part: &str) -> (path: String)
    ensures
        path@ == joined(base@, part@),
{
    let part_len: usize = part.unicode_len();
    if part_len > 0 && part.get_char(0) == '/' {
        return part.to_owned();
    }
    let base_len: usize = base.unicode_len();
    let mut path = base.to_owned();
    if base_len > 0 && base.get_char(base_len - 1) != '/' {
        path.append("/");
        proof {
            reveal_strlit("/");
            assert("/"@ =~= seq!['/']);
        }
    }
    path.append(part);
    path
}

/// The path starts at the root.
pub open spec fn absolute(path: Seq<char>) -> bool {
    path.len() > 0 && path[0] == '/'
}

/// Tells whether a path is absolute.
pub fn is_absolute(path: &str) -> (result: bool)
    ensures
        result == absolute(path@),
{
    path.unicode_len() > 0 && path.get_char(0) == '/'
}

/// Tells whether two strings are equal.
pub fn same_text(left: &str, right: &str) -> (same: bool)
    ensures
        same == (left@ == right@),
{
    left.to_owned() == right.to_owned()
}

/// The outcome of holding a configured path to be absolute.
pub open spec fn path_check(field: &'static str, path: Seq<char>) -> RelayResult<()> {
    if absolute(path) {
        Ok(())
    } else {
        Err(RelayError::InvalidConfiguration { field, reason: "must be an absolute path" })
    }
}

/// Holds a configured path to be absolute.
pub fn validate_absolute_path(field: &'static str, path: &str) -> (valid: RelayResult<()>)
    ensures
        valid == path_check(field, path@),
{
    if is_absolute(path) {
        Ok(())
    } else {
        Err(RelayError::InvalidConfiguration { field, reason: "must be an absolute path" })
    }
}

/// An absolute part stands for itself. Any other part comes last, after the base and exactly one
/// separator between the two.
pub proof fn law_parts_are_joined_by_one_separator(base: Seq<char>, part: Seq<char>)
    ensures
        absolute(part) ==> joined(base, part) == part,
        !absolute(part) && base.len() > 0 && base.last() != '/' ==> joined(base, part) == base.push(
            '/',
        ) + part,
        !absolute(part) && base.len() > 0 && base.last() == '/' ==> joined(base, part) == base
            + part,
        base.len() == 0 ==> joined(base, part) == part,
        absolute(base) ==> absolute(joined(base, part)),
{
    assert(base.push('/') =~= base + seq!['/']);
    if base.len() == 0 {
        assert(base + part =~= part);
    }
}

/// A path is accepted if and only if it starts with a separator; the refusal names its field.
pub proof fn law_paths_are_absolute(field: &'static str, path: Seq<char>)
    ensures
        path_check(field, path) is Ok <==> path.len() > 0 && path[0] == '/',
        path_check(field, path) matches Err(error) ==> error == (RelayError::InvalidConfiguration {
            field,
            reason: "must be an absolute path",
        }),
{
}

} // verus!
