//! Atomic replacement of the Manager's private files.

use crate::error::{IoKind, RelayError, RelayResult};
use crate::material::{path_prefix, split_path};
use crate::paths::{join, same_text};
use crate::text::write_decimal;
use vstd::prelude::*;

verus! {

/// The name under which a new version of a file is written.
pub open spec fn replacement_name(name: Seq<char>, process: u32, nonce: Seq<char>) -> Seq<char> {
    "."@ + name + ".tmp-"@ + crate::text::decimal_text(process as nat) + "-"@ + nonce
}

/// Why a path names no file that can be replaced; `None` where it does.
pub open spec fn replacement_refusal(path: Seq<char>) -> Option<RelayError> {
    let names = crate::material::path_names(path);
    if names.len() == 0 {
        Some(RelayError::Manager { reason: "atomic file has no parent" })
    } else if names.last() == ".."@ {
        Some(RelayError::Manager { reason: "atomic file has no name" })
    } else {
        None
    }
}

/// Where a new version of the file at an absolute path is written: in the same directory, under a
/// name that `process` and `nonce` make unique.
pub fn atomic_write(path: &str, process: u32, nonce: &str) -> (temporary: RelayResult<String>)
    requires
        crate::paths::absolute(path@),
    ensures
        match temporary {
            Ok(written) => {
                &&& replacement_refusal(path@) is None
                &&& written@ == crate::paths::joined(
                    crate::material::path_along(crate::material::path_names(path@).drop_last()),
                    replacement_name(crate::material::path_names(path@).last(), process, nonce@),
                )
            },
            Err(error) => replacement_refusal(path@) == Some(error),
        },
{
    let names = split_path(path);
    let ghost along = crate::material::path_names(path@);
    assert(along.len() == names@.len());
    if names.len() == 0 {
        return Err(RelayError::Manager { reason: "atomic file has no parent" });
    }
    let last: usize = names.len() - 1;
    if same_text(names[last].as_str(), "..") {
        return Err(RelayError::Manager { reason: "atomic file has no name" });
    }
    let mut name = ".".to_owned();
    name.append(names[last].as_str());
    name.append(".tmp-");
    name.append(write_decimal(process as u64).as_str());
    name.append("-");
    name.append(nonce);
    let directory = path_prefix(&names, last);
    assert(crate::material::texts(names@).take(last as int) =~= along.drop_last());
    Ok(join(directory.as_str(), name.as_str()))
}

/// What happens next in the replacement of a file.
#[derive(Clone, Copy, Debug, Eq, PartialEq)]
pub enum ReplaceStep {
    /// Create the temporary file, write it and bring it to the disk.
    Write,
    /// Rename the temporary file to the path.
    Install,
    /// Set the permissions of the file.
    Protect,
    /// The file is replaced.
    Replaced,
    /// Remove the temporary file and report the failure.
    Fail(RelayError),
}

/// The step that follows `step` when it ended with `outcome`.
pub open spec fn replace_next(step: ReplaceStep, outcome: Result<(), IoKind>) -> ReplaceStep {
    match (step, outcome) {
        (ReplaceStep::Replaced, _) => step,
        (ReplaceStep::Fail(_), _) => step,
        (ReplaceStep::Write, Ok(_)) => ReplaceStep::Install,
        (ReplaceStep::Install, Ok(_)) => ReplaceStep::Protect,
        (ReplaceStep::Protect, Ok(_)) => ReplaceStep::Replaced,
        (_, Err(kind)) => ReplaceStep::Fail(
            RelayError::Io {
                operation: match step {
                    ReplaceStep::Write => "writing atomic Manager file",
                    ReplaceStep::Install => "installing atomic Manager file",
                    _ => "protecting Manager file",
                },
                kind,
            },
        ),
    }
}

/// Goes on with the replacement of a file once `step` ended with `outcome`; it starts with
/// [`ReplaceStep::Write`].
pub fn replaced(step: ReplaceStep, outcome: Result<(), IoKind>) -> (next: ReplaceStep)
    ensures
        next == replace_next(step, outcome),
{
    match (step, outcome) {
        (ReplaceStep::Replaced, _) => step,
        (ReplaceStep::Fail(_), _) => step,
        (ReplaceStep::Write, Ok(_)) => ReplaceStep::Install,
        (ReplaceStep::Install, Ok(_)) => ReplaceStep::Protect,
        (ReplaceStep::Protect, Ok(_)) => ReplaceStep::Replaced,
        (ReplaceStep::Write, Err(kind)) => ReplaceStep::Fail(
            RelayError::Io { operation: "writing atomic Manager file", kind },
        ),
        (ReplaceStep::Install, Err(kind)) => ReplaceStep::Fail(
            RelayError::Io { operation: "installing atomic Manager file", kind },
        ),
        (ReplaceStep::Protect, Err(kind)) => ReplaceStep::Fail(
            RelayError::Io { operation: "protecting Manager file", kind },
        ),
    }
}

/// A file is replaced only by one that was written completely, and a replacement that fails at any
/// step reports it.
pub proof fn law_replacement_is_written_first(step: ReplaceStep, outcome: Result<(), IoKind>)
    ensures
        replace_next(step, outcome) == ReplaceStep::Install <==> step == ReplaceStep::Write
            && outcome is Ok,
        !(step is Replaced) && !(step is Fail) && outcome is Err ==> replace_next(
            step,
            outcome,
        ) is Fail,
        replace_next(step, outcome) == ReplaceStep::Replaced <==> step == ReplaceStep::Replaced || (
        step == ReplaceStep::Protect && outcome is Ok),
{
}

/// A replacement is written beside its file under a hidden name of its own: never that of the file,
/// and never that of another writer with another nonce.
pub proof fn law_replacement_has_its_own_name(
    name: Seq<char>,
    process: u32,
    nonce: Seq<char>,
    other: Seq<char>,
)
    ensures
        replacement_name(name, process, nonce) != name,
        replacement_name(name, process, nonce)[0] == '.',
        replacement_name(name, process, nonce).len() >= name.len() + nonce.len() + 8,
        replacement_name(name, process, nonce).subrange(
            replacement_name(name, process, nonce).len() - nonce.len(),
            replacement_name(name, process, nonce).len() as int,
        ) == nonce,
        replacement_name(name, process, nonce).subrange(1, 1 + name.len() as int) == name,
        nonce != other ==> replacement_name(name, process, nonce) != replacement_name(
            name,
            process,
            other,
        ),
{
    reveal_strlit(".");
    reveal_strlit(".tmp-");
    reveal_strlit("-");
    crate::text::law_decimal_text_reads_back(process as nat);
    let whole = replacement_name(name, process, nonce);
    let head = "."@ + name + ".tmp-"@ + crate::text::decimal_text(process as nat) + "-"@;
    assert(whole.subrange(whole.len() - nonce.len(), whole.len() as int) =~= nonce);
    assert(whole.subrange(1, 1 + name.len() as int) =~= name);
    if replacement_name(name, process, other) == whole {
        assert(whole.subrange(head.len() as int, whole.len() as int) =~= nonce);
        assert(replacement_name(name, process, other).subrange(
            head.len() as int,
            replacement_name(name, process, other).len() as int,
        ) =~= other);
    }
}

/// A file is replaced if and only if its path names something other than the directory above.
pub proof fn law_replaced_files_have_a_name(path: Seq<char>)
    ensures
        replacement_refusal(path) is None <==> crate::material::path_names(path).len() > 0
            && crate::material::path_names(path).last() != ".."@,
{
}

/// A step that fails names itself: writing, installing or protecting the file.
pub proof fn law_replacement_failures_name_their_step(step: ReplaceStep, kind: IoKind)
    ensures
        step == ReplaceStep::Write ==> replace_next(step, Err(kind)) == ReplaceStep::Fail(
            RelayError::Io { operation: "writing atomic Manager file", kind },
        ),
        step == ReplaceStep::Install ==> replace_next(step, Err(kind)) == ReplaceStep::Fail(
            RelayError::Io { operation: "installing atomic Manager file", kind },
        ),
        step == ReplaceStep::Protect ==> replace_next(step, Err(kind)) == ReplaceStep::Fail(
            RelayError::Io { operation: "protecting Manager file", kind },
        ),
        replace_next(
            replace_next(replace_next(ReplaceStep::Write, Ok(())), Ok(())),
            Ok(()),
        ) == ReplaceStep::Replaced,
{
}

} // verus!
