//! Rules on protected files: where they may lie, who owns them and what they may hold.

use crate::certificates::text_from_utf8;
use crate::error::{RelayError, RelayResult};
use crate::paths::{join, same_text, validate_absolute_path};
use crate::text::{push_char, write_decimal};
use vstd::prelude::*;
use vstd::string::*;

verus! {

/// Bound on a public certificate chain.
pub const MAX_PUBLIC_MATERIAL_BYTES: u64 = 131072;

/// Bound on public material or a staged executable.
pub const MAX_PUBLIC_PROTECTED_FILE_BYTES: u64 = 134217728;

/// Bound on a private key.
pub const MAX_PRIVATE_MATERIAL_BYTES: u64 = 65536;

/// Bound on a serialized allowlist.
pub const MAX_ALLOWLIST_BYTES: u64 = 262144;

/// Write access of the group and of others.
pub const SHARED_WRITE: u32 = 0o022;

/// Any access of the group and of others.
pub const SHARED_ACCESS: u32 = 0o077;

/// Read access of the owner.
pub const OWNER_READ: u32 = 0o400;

/// Only the owner of an entry may remove it from the directory.
pub const STICKY: u32 = 0o1000;

/// Every permission bit.
pub const PERMISSIONS: u32 = 0o7777;

/// Permissions that a protected file is written with: those of its owner alone.
pub const WRITTEN_MODE: u32 = 0o600;

/// Class of a protected file.
#[derive(Clone, Copy, Debug, Eq, PartialEq, Structural)]
pub enum ProtectedFileKind {
    /// Public material, which only its owner may write.
    Public,
    /// Private key material, which only its owner may use.
    Private,
    /// An allowlist, which only its owner may use.
    Allowlist,
}

impl ProtectedFileKind {
    /// Bound on the bytes of a file of this class.
    pub open spec fn bound(self) -> u64 {
        match self {
            ProtectedFileKind::Public => MAX_PUBLIC_PROTECTED_FILE_BYTES,
            ProtectedFileKind::Private => MAX_PRIVATE_MATERIAL_BYTES,
            ProtectedFileKind::Allowlist => MAX_ALLOWLIST_BYTES,
        }
    }

    /// Bound on the bytes of a file of this class.
    pub fn max_bytes(self) -> (bytes: u64)
        ensures
            bytes == self.bound(),
    {
        match self {
            ProtectedFileKind::Public => MAX_PUBLIC_PROTECTED_FILE_BYTES,
            ProtectedFileKind::Private => MAX_PRIVATE_MATERIAL_BYTES,
            ProtectedFileKind::Allowlist => MAX_ALLOWLIST_BYTES,
        }
    }

    /// A file of this class may have this mode.
    pub open spec fn allows_mode(self, mode: u32) -> bool {
        &&& mode & OWNER_READ == OWNER_READ
        &&& match self {
            ProtectedFileKind::Public => mode & SHARED_WRITE == 0,
            _ => mode & SHARED_ACCESS == 0,
        }
    }
}

/// What the host says of a file, not following a final link.
#[derive(Clone, Copy, Debug, Eq, PartialEq, Structural)]
pub struct FileMetadata {
    /// It is a regular file.
    pub is_file: bool,
    /// It is a directory.
    pub is_dir: bool,
    /// It is a symbolic link.
    pub is_symlink: bool,
    /// Its device.
    pub dev: u64,
    /// Its number on the device.
    pub ino: u64,
    /// Its owner.
    pub uid: u32,
    /// Its mode.
    pub mode: u32,
    /// Its length.
    pub len: u64,
}

/// What comes of asking the host for a file.
#[derive(Clone, Copy, Debug, Eq, PartialEq, Structural)]
pub enum Lookup {
    /// It exists.
    Found(FileMetadata),
    /// It does not exist.
    NotFound,
    /// The host does not say.
    Failed,
}

/// The outcome of holding a file to its class.
pub open spec fn file_check(
    metadata: FileMetadata,
    expected_uid: u32,
    kind: ProtectedFileKind,
    max_bytes: u64,
) -> RelayResult<()> {
    if !metadata.is_file || metadata.uid != expected_uid || metadata.len == 0 || metadata.len
        > max_bytes || metadata.len > kind.bound() {
        Err(RelayError::ConfigurationRead)
    } else if !kind.allows_mode(metadata.mode) {
        Err(
            RelayError::InvalidConfiguration {
                field: "protected.file",
                reason: "file ownership or permissions are unsafe",
            },
        )
    } else {
        Ok(())
    }
}

/// Holds a file to its class: its type, owner, length and mode.
pub fn validate_file_metadata(
    metadata: &FileMetadata,
    expected_uid: u32,
    kind: ProtectedFileKind,
    max_bytes: u64,
) -> (valid: RelayResult<()>)
    ensures
        valid == file_check(*metadata, expected_uid, kind, max_bytes),
{
    if !metadata.is_file || metadata.uid != expected_uid || metadata.len == 0 || metadata.len
        > max_bytes || metadata.len > kind.max_bytes() {
        return Err(RelayError::ConfigurationRead);
    }
    let valid_mode = match kind {
        ProtectedFileKind::Public => metadata.mode & SHARED_WRITE == 0 && metadata.mode & OWNER_READ
            == OWNER_READ,
        ProtectedFileKind::Private | ProtectedFileKind::Allowlist => {
            metadata.mode & SHARED_ACCESS == 0 && metadata.mode & OWNER_READ == OWNER_READ
        },
    };
    if valid_mode {
        Ok(())
    } else {
        Err(
            RelayError::InvalidConfiguration {
                field: "protected.file",
                reason: "file ownership or permissions are unsafe",
            },
        )
    }
}

/// The outcome of holding a directory to be controlled by its owner.
pub open spec fn directory_check(lookup: Lookup, expected_uid: u32) -> RelayResult<()> {
    match lookup {
        Lookup::Found(metadata) => if metadata.is_dir && metadata.uid == expected_uid
            && metadata.mode & SHARED_WRITE == 0 {
            Ok(())
        } else {
            Err(
                RelayError::InvalidConfiguration {
                    field: "protected.directory",
                    reason: "directory ownership or permissions are unsafe",
                },
            )
        },
        _ => Err(RelayError::ConfigurationRead),
    }
}

fn check_directory(lookup: Lookup, expected_uid: u32) -> (valid: RelayResult<()>)
    ensures
        valid == directory_check(lookup, expected_uid),
{
    match lookup {
        Lookup::Found(metadata) => {
            if metadata.is_dir && metadata.uid == expected_uid && metadata.mode & SHARED_WRITE
                == 0 {
                Ok(())
            } else {
                Err(
                    RelayError::InvalidConfiguration {
                        field: "protected.directory",
                        reason: "directory ownership or permissions are unsafe",
                    },
                )
            }
        },
        _ => Err(RelayError::ConfigurationRead),
    }
}

/// Holds the directory at a path to be controlled by its owner.
pub fn validate_directory(path: &str, expected_uid: u32, lookup: Lookup) -> (valid: RelayResult<
    (),
>)
    ensures
        valid == (match crate::paths::path_check("protected.directory", path@) {
            Err(error) => Err(error),
            Ok(_) => directory_check(lookup, expected_uid),
        }),
{
    match validate_absolute_path("protected.directory", path) {
        Err(error) => Err(error),
        Ok(_) => check_directory(lookup, expected_uid),
    }
}

/// Holds a directory tree that the host was asked to create to be controlled by its owner.
pub fn ensure_directory(path: &str, expected_uid: u32, created: bool, lookup: Lookup) -> (valid:
    RelayResult<()>)
    ensures
        valid == (match crate::paths::path_check("protected.directory", path@) {
            Err(error) => Err(error),
            Ok(_) => if created {
                directory_check(lookup, expected_uid)
            } else {
                Err(RelayError::ConfigurationRead)
            },
        }),
{
    match validate_absolute_path("protected.directory", path) {
        Err(error) => Err(error),
        Ok(_) => if created {
            check_directory(lookup, expected_uid)
        } else {
            Err(RelayError::ConfigurationRead)
        },
    }
}

/// The pieces of a path between its separators.
pub open spec fn pieces(path: Seq<char>) -> Seq<Seq<char>>
    decreases path.len(),
{
    if path.len() == 0 {
        seq![Seq::empty()]
    } else {
        let before = pieces(path.drop_last());
        if path.last() == '/' {
            before.push(Seq::empty())
        } else {
            before.drop_last().push(before.last().push(path.last()))
        }
    }
}

/// The pieces that name something: neither empty nor a single dot.
pub open spec fn named(parts: Seq<Seq<char>>) -> Seq<Seq<char>>
    decreases parts.len(),
{
    if parts.len() == 0 {
        Seq::empty()
    } else if names_something(parts.last()) {
        named(parts.drop_last()).push(parts.last())
    } else {
        named(parts.drop_last())
    }
}

/// The piece is neither empty nor a single dot.
pub open spec fn names_something(piece: Seq<char>) -> bool {
    piece.len() > 0 && piece != "."@
}

/// The names along a path.
pub open spec fn path_names(path: Seq<char>) -> Seq<Seq<char>> {
    named(pieces(path))
}

/// The texts of a list of strings.
pub open spec fn texts(list: Seq<String>) -> Seq<Seq<char>> {
    Seq::new(list.len(), |i: int| list[i]@)
}

/// The absolute path along these names.
pub open spec fn path_along(names: Seq<Seq<char>>) -> Seq<char>
    decreases names.len(),
{
    if names.len() == 0 {
        "/"@
    } else {
        crate::paths::joined(path_along(names.drop_last()), names.last())
    }
}

fn keep_piece(names: &mut Vec<String>, piece: String)
    ensures
        texts(final(names)@) == (if names_something(piece@) {
            texts(old(names)@).push(piece@)
        } else {
            texts(old(names)@)
        }),
{
    if piece.as_str().unicode_len() > 0 && !same_text(piece.as_str(), ".") {
        names.push(piece);
        assert(texts(names@) =~= texts(old(names)@).push(piece@));
    }
}

/// Splits a path into the names along it.
pub fn split_path(path: &str) -> (names: Vec<String>)
    ensures
        texts(names@) == path_names(path@),
{
    let length: usize = path.unicode_len();
    let mut names: Vec<String> = Vec::new();
    let mut piece = String::new();
    let mut i: usize = 0;
    proof {
        assert(path@.take(0) =~= Seq::<char>::empty());
        assert(pieces(path@.take(0)) =~= seq![piece@]);
        assert(texts(names@) =~= named(pieces(path@.take(0)).drop_last()));
    }
    while i < length
        invariant
            i <= length,
            length == path@.len(),
            pieces(path@.take(i as int)).len() > 0,
            piece@ == pieces(path@.take(i as int)).last(),
            texts(names@) == named(pieces(path@.take(i as int)).drop_last()),
        decreases length - i,
    {
        let character: char = path.get_char(i);
        let ghost before = pieces(path@.take(i as int));
        proof {
            assert(path@.take(i + 1).drop_last() =~= path@.take(i as int));
            assert(path@.take(i + 1).last() == character);
        }
        if character == '/' {
            proof {
                assert(before.push(Seq::empty()).drop_last() =~= before);
            }
            keep_piece(&mut names, piece);
            piece = String::new();
        } else {
            push_char(&mut piece, character);
            proof {
                assert(before.drop_last().push(before.last().push(character)).drop_last()
                    =~= before.drop_last());
            }
        }
        i = i + 1;
    }
    proof {
        assert(path@.take(length as int) =~= path@);
    }
    keep_piece(&mut names, piece);
    names
}

/// The absolute path along the first `count` names.
pub fn path_prefix(names: &Vec<String>, count: usize) -> (path: String)
    requires
        count <= names@.len(),
    ensures
        path@ == path_along(texts(names@).take(count as int)),
{
    let mut path = "/".to_owned();
    let mut i: usize = 0;
    assert(texts(names@).take(0) =~= Seq::empty());
    while i < count
        invariant
            i <= count,
            count <= names@.len(),
            path@ == path_along(texts(names@).take(i as int)),
        decreases count - i,
    {
        proof {
            let longer = texts(names@).take(i + 1);
            assert(longer.drop_last() =~= texts(names@).take(i as int));
            assert(longer.last() == names@[i as int]@);
        }
        path = join(path.as_str(), names[i].as_str());
        i = i + 1;
    }
    path
}

/// The outcome of one entry along a protected path; the last one may be missing.
pub open spec fn entry_check(lookup: Lookup, last: bool) -> RelayResult<()> {
    match lookup {
        Lookup::Found(metadata) => if metadata.is_symlink && (last || metadata.uid != 0) {
            Err(
                RelayError::InvalidConfiguration {
                    field: "protected.file",
                    reason: "path contains an unsafe symlink component",
                },
            )
        } else if !last && !metadata.is_dir && !metadata.is_symlink {
            Err(RelayError::ConfigurationRead)
        } else {
            Ok(())
        },
        Lookup::NotFound => if last {
            Ok(())
        } else {
            Err(RelayError::ConfigurationRead)
        },
        Lookup::Failed => Err(RelayError::ConfigurationRead),
    }
}

/// The first refusal of the entries from this one on.
pub open spec fn entries_check(entries: Seq<Lookup>, from: int) -> RelayResult<()>
    decreases entries.len() - from,
{
    if from < 0 || from >= entries.len() {
        Ok(())
    } else {
        match entry_check(entries[from], from + 1 == entries.len()) {
            Err(error) => Err(error),
            Ok(_) => entries_check(entries, from + 1),
        }
    }
}

/// The directory lets nobody but its owner, or root, replace what lies below.
pub open spec fn safe_ancestor(metadata: FileMetadata, expected_uid: u32) -> bool {
    if metadata.is_symlink {
        metadata.uid == 0
    } else {
        metadata.is_dir && (metadata.uid == expected_uid || metadata.mode & SHARED_WRITE == 0
            || metadata.mode & STICKY != 0)
    }
}

/// The first refusal of the ancestors from this one on.
pub open spec fn ancestors_check(ancestors: Seq<Lookup>, expected_uid: u32, from: int) -> RelayResult<
    (),
>
    decreases ancestors.len() - from,
{
    if from < 0 || from >= ancestors.len() {
        Ok(())
    } else {
        match ancestors[from] {
            Lookup::Found(metadata) => if safe_ancestor(metadata, expected_uid) {
                ancestors_check(ancestors, expected_uid, from + 1)
            } else {
                Err(
                    RelayError::InvalidConfiguration {
                        field: "protected.file",
                        reason: "path contains an unsafe ancestor directory",
                    },
                )
            },
            _ => Err(RelayError::ConfigurationRead),
        }
    }
}

/// The outcome of holding a path to be protected.
pub open spec fn protected_check(
    path: Seq<char>,
    expected_uid: u32,
    entries: Seq<Lookup>,
    parent: Lookup,
    ancestors: Seq<Lookup>,
) -> RelayResult<()> {
    match crate::paths::path_check("protected.file", path) {
        Err(error) => Err(error),
        Ok(_) => if path_names(path).contains(".."@) {
            Err(
                RelayError::InvalidConfiguration {
                    field: "protected.file",
                    reason: "path contains dot components",
                },
            )
        } else {
            match entries_check(entries, 0) {
                Err(error) => Err(error),
                Ok(_) => if path_names(path).len() == 0 {
                    Err(RelayError::ConfigurationRead)
                } else {
                    match directory_check(parent, expected_uid) {
                        Err(error) => Err(error),
                        Ok(_) => ancestors_check(ancestors, expected_uid, 0),
                    }
                },
            }
        },
    }
}

fn check_entry(lookup: Lookup, last: bool) -> (valid: RelayResult<()>)
    ensures
        valid == entry_check(lookup, last),
{
    match lookup {
        Lookup::Found(metadata) => {
            if metadata.is_symlink && (last || metadata.uid != 0) {
                Err(
                    RelayError::InvalidConfiguration {
                        field: "protected.file",
                        reason: "path contains an unsafe symlink component",
                    },
                )
            } else if !last && !metadata.is_dir && !metadata.is_symlink {
                Err(RelayError::ConfigurationRead)
            } else {
                Ok(())
            }
        },
        Lookup::NotFound => if last {
            Ok(())
        } else {
            Err(RelayError::ConfigurationRead)
        },
        Lookup::Failed => Err(RelayError::ConfigurationRead),
    }
}

fn check_entries(entries: &Vec<Lookup>) -> (valid: RelayResult<()>)
    ensures
        valid == entries_check(entries@, 0),
{
    let mut i: usize = 0;
    while i < entries.len()
        invariant
            i <= entries@.len(),
            entries_check(entries@, 0) == entries_check(entries@, i as int),
        decreases entries@.len() - i,
    {
        if let Err(error) = check_entry(entries[i], i + 1 == entries.len()) {
            return Err(error);
        }
        i = i + 1;
    }
    Ok(())
}

fn check_ancestors(ancestors: &Vec<Lookup>, expected_uid: u32) -> (valid: RelayResult<()>)
    ensures
        valid == ancestors_check(ancestors@, expected_uid, 0),
{
    let mut i: usize = 0;
    while i < ancestors.len()
        invariant
            i <= ancestors@.len(),
            ancestors_check(ancestors@, expected_uid, 0) == ancestors_check(
                ancestors@,
                expected_uid,
                i as int,
            ),
        decreases ancestors@.len() - i,
    {
        match ancestors[i] {
            Lookup::Found(metadata) => {
                let safe = if metadata.is_symlink {
                    metadata.uid == 0
                } else {
                    metadata.is_dir && (metadata.uid == expected_uid || metadata.mode & SHARED_WRITE
                        == 0 || metadata.mode & STICKY != 0)
                };
                if !safe {
                    return Err(
                        RelayError::InvalidConfiguration {
                            field: "protected.file",
                            reason: "path contains an unsafe ancestor directory",
                        },
                    );
                }
            },
            _ => {
                return Err(RelayError::ConfigurationRead);
            },
        }
        i = i + 1;
    }
    Ok(())
}

fn holds_parent_name(names: &Vec<String>) -> (found: bool)
    ensures
        found == texts(names@).contains(".."@),
{
    let mut i: usize = 0;
    while i < names.len()
        invariant
            i <= names@.len(),
            forall|j: int| 0 <= j < i ==> (#[trigger] names@[j])@ != ".."@,
        decreases names@.len() - i,
    {
        if same_text(names[i].as_str(), "..") {
            assert(texts(names@)[i as int] == ".."@);
            return true;
        }
        i = i + 1;
    }
    proof {
        assert forall|j: int| 0 <= j < texts(names@).len() implies texts(names@)[j] != ".."@ by {
            assert(names@[j]@ != ".."@);
        }
    }
    false
}

/// Holds a path to be protected. The host was asked for every entry along the path in order, then
/// for the directory that holds the last one, then for every directory above that one but the
/// root, from the nearest on.
pub fn validate_protected_path(
    path: &str,
    expected_uid: u32,
    entries: &Vec<Lookup>,
    parent: Lookup,
    ancestors: &Vec<Lookup>,
) -> (valid: RelayResult<()>)
    requires
        entries@.len() == path_names(path@).len(),
        ancestors@.len() == (if path_names(path@).len() >= 2 {
            path_names(path@).len() - 2
        } else {
            0
        }),
    ensures
        valid == protected_check(path@, expected_uid, entries@, parent, ancestors@),
{
    if let Err(error) = validate_absolute_path("protected.file", path) {
        return Err(error);
    }
    let names = split_path(path);
    if holds_parent_name(&names) {
        return Err(
            RelayError::InvalidConfiguration {
                field: "protected.file",
                reason: "path contains dot components",
            },
        );
    }
    if let Err(error) = check_entries(entries) {
        return Err(error);
    }
    assert(texts(names@).len() == names@.len());
    if names.len() == 0 {
        return Err(RelayError::ConfigurationRead);
    }
    if let Err(error) = check_directory(parent, expected_uid) {
        return Err(error);
    }
    check_ancestors(ancestors, expected_uid)
}

/// A link along an accepted path belongs to root and is not the last entry.
pub proof fn law_links_along_the_path_are_roots(
    path: Seq<char>,
    expected_uid: u32,
    entries: Seq<Lookup>,
    parent: Lookup,
    ancestors: Seq<Lookup>,
    i: int,
)
    requires
        protected_check(path, expected_uid, entries, parent, ancestors) is Ok,
        0 <= i < entries.len(),
    ensures
        entries[i] matches Lookup::Found(metadata) ==> metadata.is_symlink ==> metadata.uid == 0
            && i + 1 < entries.len(),
{
    lemma_accepted_entry(entries, 0, i);
}

proof fn lemma_accepted_entry(entries: Seq<Lookup>, from: int, i: int)
    requires
        entries_check(entries, from) is Ok,
        0 <= from <= i < entries.len(),
    ensures
        entry_check(entries[i], i + 1 == entries.len()) is Ok,
    decreases i - from,
{
    if from < i {
        lemma_accepted_entry(entries, from + 1, i);
    }
}

/// The two looks at a file found the same one, unchanged.
pub open spec fn same_file(expected: FileMetadata, opened: FileMetadata) -> bool {
    &&& expected.dev == opened.dev
    &&& expected.ino == opened.ino
    &&& expected.uid == opened.uid
    &&& expected.mode == opened.mode
    &&& expected.len == opened.len
}

/// Tells whether two looks at a file found the same one, unchanged.
pub fn same_file_identity(expected: &FileMetadata, opened: &FileMetadata) -> (same: bool)
    ensures
        same == same_file(*expected, *opened),
{
    expected.dev == opened.dev && expected.ino == opened.ino && expected.uid == opened.uid
        && expected.mode == opened.mode && expected.len == opened.len
}

/// How opening and reading a file went.
pub enum ReadOutcome {
    /// It could not be opened.
    NotOpened,
    /// It was opened and found to be this, but could not be read.
    NotRead(FileMetadata),
    /// It was opened, found to be this and read to its end.
    Read {
        /// What was opened.
        opened: FileMetadata,
        /// What was read.
        bytes: Vec<u8>,
    },
}

/// A protected path before its file is opened.
pub open spec fn openable(
    protected: RelayResult<()>,
    lookup: Lookup,
    expected_uid: u32,
    kind: ProtectedFileKind,
    max_bytes: u64,
) -> RelayResult<FileMetadata> {
    match protected {
        Err(error) => Err(error),
        Ok(_) => match lookup {
            Lookup::Found(metadata) => match file_check(metadata, expected_uid, kind, max_bytes) {
                Err(error) => Err(error),
                Ok(_) => Ok(metadata),
            },
            _ => Err(RelayError::ConfigurationRead),
        },
    }
}

/// Decides whether the file at a protected path may be opened, and as what; `protected` is what
/// the path was held to be.
pub fn may_open(
    protected: RelayResult<()>,
    lookup: Lookup,
    expected_uid: u32,
    kind: ProtectedFileKind,
    max_bytes: u64,
) -> (expected: RelayResult<FileMetadata>)
    ensures
        expected == openable(protected, lookup, expected_uid, kind, max_bytes),
{
    if let Err(error) = protected {
        return Err(error);
    }
    match lookup {
        Lookup::Found(metadata) => match validate_file_metadata(
            &metadata,
            expected_uid,
            kind,
            max_bytes,
        ) {
            Err(error) => Err(error),
            Ok(_) => Ok(metadata),
        },
        _ => Err(RelayError::ConfigurationRead),
    }
}

/// The outcome of holding an opened file to what was expected.
pub open spec fn opened_check(
    expected: FileMetadata,
    opened: FileMetadata,
    expected_uid: u32,
    kind: ProtectedFileKind,
    max_bytes: u64,
) -> RelayResult<()> {
    match file_check(opened, expected_uid, kind, max_bytes) {
        Err(error) => Err(error),
        Ok(_) => if same_file(expected, opened) {
            Ok(())
        } else {
            Err(RelayError::ConfigurationRead)
        },
    }
}

/// What reading a file gives that was expected to be `expected`.
pub open spec fn file_content(
    expected: FileMetadata,
    outcome: ReadOutcome,
    expected_uid: u32,
    kind: ProtectedFileKind,
    max_bytes: u64,
) -> RelayResult<Seq<u8>> {
    match outcome {
        ReadOutcome::NotOpened => Err(RelayError::ConfigurationRead),
        ReadOutcome::NotRead(opened) => match opened_check(
            expected,
            opened,
            expected_uid,
            kind,
            max_bytes,
        ) {
            Err(error) => Err(error),
            Ok(_) => Err(RelayError::ConfigurationRead),
        },
        ReadOutcome::Read { opened, bytes } => match opened_check(
            expected,
            opened,
            expected_uid,
            kind,
            max_bytes,
        ) {
            Err(error) => Err(error),
            Ok(_) => if bytes@.len() == opened.len {
                Ok(bytes@)
            } else {
                Err(RelayError::ConfigurationRead)
            },
        },
    }
}

/// Decides on the bytes of a protected file that was opened and read.
pub fn read_protected_file(
    expected: &FileMetadata,
    outcome: ReadOutcome,
    expected_uid: u32,
    kind: ProtectedFileKind,
    max_bytes: u64,
) -> (result: RelayResult<Vec<u8>>)
    ensures
        match (outcome, result) {
            (ReadOutcome::NotOpened, Err(error)) => error == RelayError::ConfigurationRead,
            (ReadOutcome::NotRead(opened), Err(error)) => error == (match opened_check(
                *expected,
                opened,
                expected_uid,
                kind,
                max_bytes,
            ) {
                Err(refusal) => refusal,
                Ok(_) => RelayError::ConfigurationRead,
            }),
            (ReadOutcome::Read { opened, bytes }, Err(error)) => match opened_check(
                *expected,
                opened,
                expected_uid,
                kind,
                max_bytes,
            ) {
                Err(refusal) => error == refusal,
                Ok(_) => error == RelayError::ConfigurationRead && bytes@.len() != opened.len,
            },
            (ReadOutcome::Read { opened, bytes }, Ok(content)) => {
                &&& opened_check(*expected, opened, expected_uid, kind, max_bytes) is Ok
                &&& bytes@.len() == opened.len
                &&& content@ == bytes@
            },
            (_, Ok(_)) => false,
        },
        match file_content(*expected, outcome, expected_uid, kind, max_bytes) {
            Ok(content) => result matches Ok(bytes) && bytes@ == content,
            Err(error) => result matches Err(told) && told == error,
        },
{
    let (opened, content) = match outcome {
        ReadOutcome::NotOpened => {
            return Err(RelayError::ConfigurationRead);
        },
        ReadOutcome::NotRead(opened) => (opened, None),
        ReadOutcome::Read { opened, bytes } => (opened, Some(bytes)),
    };
    if let Err(error) = validate_file_metadata(&opened, expected_uid, kind, max_bytes) {
        return Err(error);
    }
    if !same_file_identity(expected, &opened) {
        return Err(RelayError::ConfigurationRead);
    }
    match content {
        None => Err(RelayError::ConfigurationRead),
        Some(bytes) => {
            if bytes.len() as u64 != opened.len {
                return Err(RelayError::ConfigurationRead);
            }
            Ok(bytes)
        },
    }
}

/// How a protected file is written: under another name first, then renamed.
pub struct WritePlan {
    /// Path that is created.
    pub temporary: String,
    /// Permissions that it is created with.
    pub mode: u32,
}

/// The name under which a protected file is created.
pub open spec fn temporary_name(name: Seq<char>, process: u32, token: u64) -> Seq<char> {
    "."@ + name + ".tmp-"@ + crate::text::decimal_text(process as nat) + "-"@
        + crate::text::decimal_text(token as nat)
}

/// Permissions that a file of any class is written with: neither the group nor others may use it.
pub fn required_mode(kind: ProtectedFileKind) -> (mode: u32)
    ensures
        mode == WRITTEN_MODE,
        mode & SHARED_ACCESS == 0,
{
    assert(0o600u32 & 0o077u32 == 0) by (bit_vector);
    match kind {
        ProtectedFileKind::Public
        | ProtectedFileKind::Private
        | ProtectedFileKind::Allowlist => WRITTEN_MODE,
    }
}

/// Why a protected file is not written, if it is not.
pub open spec fn write_refusal(
    path: Seq<char>,
    expected_uid: u32,
    length: nat,
    max_bytes: u64,
    parent: Lookup,
) -> Option<RelayError> {
    match crate::paths::path_check("protected.file", path) {
        Err(error) => Some(error),
        Ok(_) => if length == 0 || length > max_bytes || path_names(path).len() == 0 {
            Some(RelayError::ConfigurationRead)
        } else {
            match directory_check(parent, expected_uid) {
                Err(error) => Some(error),
                Ok(_) => if path_names(path).last() == ".."@ {
                    Some(RelayError::ConfigurationRead)
                } else {
                    None
                },
            }
        },
    }
}

/// Plans the write of a protected file; `parent` is what the host says of the directory that holds
/// it, `process` and `token` make the temporary name unique.
pub fn write_protected_file(
    path: &str,
    expected_uid: u32,
    bytes: &[u8],
    kind: ProtectedFileKind,
    max_bytes: u64,
    parent: Lookup,
    process: u32,
    token: u64,
) -> (plan: RelayResult<WritePlan>)
    ensures
        match plan {
            Ok(write) => {
                &&& write_refusal(path@, expected_uid, bytes@.len(), max_bytes, parent) is None
                &&& write.mode == WRITTEN_MODE
                &&& write.mode & SHARED_ACCESS == 0
                &&& write.temporary@ == crate::paths::joined(
                    path_along(path_names(path@).drop_last()),
                    temporary_name(path_names(path@).last(), process, token),
                )
            },
            Err(error) => write_refusal(path@, expected_uid, bytes@.len(), max_bytes, parent)
                == Some(error),
        },
{
    if let Err(error) = validate_absolute_path("protected.file", path) {
        return Err(error);
    }
    assert(bytes.len() == bytes@.len());
    if bytes.len() == 0 || bytes.len() as u64 > max_bytes {
        return Err(RelayError::ConfigurationRead);
    }
    let names = split_path(path);
    assert(texts(names@).len() == names@.len());
    if names.len() == 0 {
        return Err(RelayError::ConfigurationRead);
    }
    if let Err(error) = check_directory(parent, expected_uid) {
        return Err(error);
    }
    let last: usize = names.len() - 1;
    if same_text(names[last].as_str(), "..") {
        return Err(RelayError::ConfigurationRead);
    }
    let mut name = ".".to_owned();
    name.append(names[last].as_str());
    name.append(".tmp-");
    name.append(write_decimal(process as u64).as_str());
    name.append("-");
    name.append(write_decimal(token).as_str());
    let directory = path_prefix(&names, last);
    proof {
        assert(texts(names@).take(last as int) =~= path_names(path@).drop_last());
    }
    let temporary = join(directory.as_str(), name.as_str());
    Ok(WritePlan { temporary, mode: required_mode(kind) })
}

/// A file that was written for its class is read back: if the host made a regular file of this
/// owner with the planned permissions and the written length, and the length is within the bound
/// of the class, then it may be opened, and what was written is what is read.
pub proof fn law_written_file_is_read_back(
    path: Seq<char>,
    content: Seq<u8>,
    kind: ProtectedFileKind,
    max_bytes: u64,
    parent: Lookup,
    written: FileMetadata,
)
    requires
        write_refusal(path, written.uid, content.len(), max_bytes, parent) is None,
        content.len() <= kind.bound(),
        written.is_file,
        written.len == content.len(),
        written.mode & PERMISSIONS == WRITTEN_MODE,
    ensures
        openable(Ok(()), Lookup::Found(written), written.uid, kind, max_bytes) == Ok::<
            FileMetadata,
            RelayError,
        >(written),
        opened_check(written, written, written.uid, kind, max_bytes) is Ok,
{
    let mode = written.mode;
    assert(mode & 0o7777 == 0o600 ==> mode & 0o077 == 0 && mode & 0o022 == 0 && mode & 0o400
        == 0o400) by (bit_vector);
}

/// A private file that the group or others may use in any way is refused.
pub proof fn law_shared_private_file_is_refused(
    metadata: FileMetadata,
    expected_uid: u32,
    kind: ProtectedFileKind,
    max_bytes: u64,
)
    requires
        kind != ProtectedFileKind::Public,
        metadata.mode & SHARED_ACCESS != 0,
    ensures
        file_check(metadata, expected_uid, kind, max_bytes) is Err,
{
}

/// The character is white space.
pub open spec fn white(character: char) -> bool {
    ||| '\u{9}' <= character <= '\u{d}'
    ||| character == '\u{20}'
    ||| character == '\u{85}'
    ||| character == '\u{a0}'
    ||| character == '\u{1680}'
    ||| '\u{2000}' <= character <= '\u{200a}'
    ||| character == '\u{2028}'
    ||| character == '\u{2029}'
    ||| character == '\u{202f}'
    ||| character == '\u{205f}'
    ||| character == '\u{3000}'
}

fn is_white(character: char) -> (result: bool)
    ensures
        result == white(character),
{
    ('\u{9}' <= character && character <= '\u{d}') || character == '\u{20}' || character
        == '\u{85}' || character == '\u{a0}' || character == '\u{1680}' || ('\u{2000}' <= character
        && character <= '\u{200a}') || character == '\u{2028}' || character == '\u{2029}'
        || character == '\u{202f}' || character == '\u{205f}' || character == '\u{3000}'
}

/// The text without the white space at its ends.
pub open spec fn trimmed(text: Seq<char>) -> Seq<char>
    decreases text.len(),
{
    if text.len() > 0 && white(text[0]) {
        trimmed(text.drop_first())
    } else if text.len() > 0 && white(text.last()) {
        trimmed(text.drop_last())
    } else {
        text
    }
}

/// The character is a decimal digit.
pub open spec fn digit(character: char) -> bool {
    '0' <= character <= '9'
}

/// The number that decimal digits denote.
pub open spec fn decimal_value(digits: Seq<char>) -> nat
    decreases digits.len(),
{
    if digits.len() == 0 {
        0
    } else {
        10 * decimal_value(digits.drop_last()) + (digits.last() as u32 - 48) as nat
    }
}

/// The digits of a number that may start with a plus sign.
pub open spec fn number_digits(text: Seq<char>) -> Seq<char> {
    if text.len() > 0 && text[0] == '+' {
        text.drop_first()
    } else {
        text
    }
}

/// The number that a text denotes, if it denotes one that fits.
pub open spec fn number_of(text: Seq<char>) -> Option<u32> {
    let digits = number_digits(text);
    if digits.len() > 0 && (forall|i: int| 0 <= i < digits.len() ==> digit(#[trigger] digits[i]))
        && decimal_value(digits) <= u32::MAX {
        Some(decimal_value(digits) as u32)
    } else {
        None
    }
}

/// What the host printed when it was asked for the owner of this process.
pub struct PrintedUid {
    /// The host reported success.
    pub success: bool,
    /// What it printed.
    pub output: Vec<u8>,
}

/// The owner that the host printed.
pub open spec fn printed_uid(output: Seq<u8>) -> Option<u32> {
    if vstd::utf8::valid_utf8(output) {
        number_of(trimmed(vstd::utf8::decode_utf8(output)))
    } else {
        None
    }
}

proof fn lemma_value_grows(digits: Seq<char>, count: int)
    requires
        0 <= count <= digits.len(),
    ensures
        decimal_value(digits.take(count)) <= decimal_value(digits),
    decreases digits.len() - count,
{
    if count == digits.len() {
        assert(digits.take(count) =~= digits);
    } else {
        let longer = digits.take(count + 1);
        assert(longer.drop_last() =~= digits.take(count));
        lemma_value_grows(digits, count + 1);
    }
}

fn read_number(text: &str, start: usize, end: usize) -> (number: Option<u32>)
    requires
        start <= end <= text@.len(),
    ensures
        number == number_of(text@.subrange(start as int, end as int)),
{
    let ghost whole = text@.subrange(start as int, end as int);
    let mut first: usize = start;
    if start < end && text.get_char(start) == '+' {
        first = start + 1;
    }
    let ghost digits = number_digits(whole);
    assert(digits =~= text@.subrange(first as int, end as int));
    if first == end {
        return None;
    }
    let mut value: u64 = 0;
    let mut i: usize = first;
    let mut fits = true;
    assert(digits.take(0) =~= Seq::empty());
    while i < end
        invariant
            first <= i <= end,
            end <= text@.len(),
            whole == text@.subrange(start as int, end as int),
            digits == text@.subrange(first as int, end as int),
            digits == number_digits(whole),
            number_of(whole) is Some ==> digits.len() > 0,
            forall|j: int| 0 <= j < i - first ==> digit(#[trigger] digits[j]),
            fits ==> value == decimal_value(digits.take(i - first)) && value <= u32::MAX,
            !fits ==> decimal_value(digits) > u32::MAX,
        decreases end - i,
    {
        let character: char = text.get_char(i);
        assert(digits[i - first] == character);
        if !('0' <= character && character <= '9') {
            assert(!digit(digits[i - first]));
            return None;
        }
        proof {
            let longer = digits.take(i - first + 1);
            assert(longer.drop_last() =~= digits.take(i - first));
            assert(longer.last() == character);
            lemma_value_grows(digits, i - first + 1);
        }
        if fits {
            value = 10 * value + (character as u32 - 48) as u64;
            if value > 4294967295 {
                fits = false;
            }
        }
        i = i + 1;
    }
    assert(digits.take(i - first) =~= digits);
    if fits {
        Some(value as u32)
    } else {
        None
    }
}

/// Reads the owner of this process from what the host printed; `None` says that the host could not
/// be asked.
pub fn current_uid(printed: &Option<PrintedUid>) -> (uid: RelayResult<u32>)
    ensures
        uid == (match *printed {
            Some(answer) => if answer.success {
                match printed_uid(answer.output@) {
                    Some(value) => Ok(value),
                    None => Err(RelayError::ConfigurationRead),
                }
            } else {
                Err(RelayError::ConfigurationRead)
            },
            None => Err(RelayError::ConfigurationRead),
        }),
{
    let output = match printed {
        Some(answer) => {
            if !answer.success {
                return Err(RelayError::ConfigurationRead);
            }
            &answer.output
        },
        None => {
            return Err(RelayError::ConfigurationRead);
        },
    };
    let text = match text_from_utf8(output.as_slice()) {
        Some(text) => text,
        None => {
            return Err(RelayError::ConfigurationRead);
        },
    };
    proof {
        vstd::utf8::encode_utf8_decode_utf8(text@);
    }
    let mut start: usize = 0;
    let mut end: usize = text.unicode_len();
    assert(text@.subrange(0, end as int) =~= text@);
    while start < end && is_white(text.get_char(start))
        invariant
            start <= end,
            end == text@.len(),
            trimmed(text@) == trimmed(text@.subrange(start as int, end as int)),
        ensures
            start == end || !white(text@[start as int]),
        decreases end - start,
    {
        proof {
            let part = text@.subrange(start as int, end as int);
            assert(part.drop_first() =~= text@.subrange(start + 1, end as int));
        }
        start = start + 1;
    }
    while start < end && is_white(text.get_char(end - 1))
        invariant
            start <= end <= text@.len(),
            start == end || !white(text@[start as int]),
            trimmed(text@) == trimmed(text@.subrange(start as int, end as int)),
        ensures
            start == end || !white(text@[end - 1]),
        decreases end - start,
    {
        proof {
            let part = text@.subrange(start as int, end as int);
            assert(part.drop_last() =~= text@.subrange(start as int, end - 1));
        }
        end = end - 1;
    }
    match read_number(text, start, end) {
        Some(value) => Ok(value),
        None => Err(RelayError::ConfigurationRead),
    }
}

/// A number that was printed in decimal digits is read back.
pub proof fn law_printed_number_is_read_back(value: u32)
    ensures
        number_of(crate::text::decimal_text(value as nat)) == Some(value),
{
    lemma_printed_digits(value as nat);
    let text = crate::text::decimal_text(value as nat);
    assert(digit(text[0]));
}

proof fn lemma_printed_digits(value: nat)
    ensures
        crate::text::decimal_text(value).len() > 0,
        decimal_value(crate::text::decimal_text(value)) == value,
        forall|i: int|
            0 <= i < crate::text::decimal_text(value).len() ==> digit(
                #[trigger] crate::text::decimal_text(value)[i],
            ),
    decreases value,
{
    let text = crate::text::decimal_text(value);
    if value >= 10 {
        lemma_printed_digits(value / 10);
        assert(text.drop_last() =~= crate::text::decimal_text(value / 10));
    } else {
        assert(text.drop_last() =~= Seq::empty());
        assert(decimal_value(text.drop_last()) == 0);
    }
    assert(text.last() as u32 == 48 + value % 10);
}

/// A file is accepted if and only if it is a regular one of its owner, is not empty and within both
/// bounds, can be read by its owner, and is not shared: a public one with nobody who writes, any other
/// with nobody at all.
pub proof fn law_accepted_files_are_the_owners(
    metadata: FileMetadata,
    expected_uid: u32,
    kind: ProtectedFileKind,
    max_bytes: u64,
)
    ensures
        file_check(metadata, expected_uid, kind, max_bytes) is Ok <==> {
            &&& metadata.is_file
            &&& metadata.uid == expected_uid
            &&& 1 <= metadata.len <= max_bytes
            &&& kind == ProtectedFileKind::Public ==> metadata.len <= 128 * 1024 * 1024
            &&& kind == ProtectedFileKind::Private ==> metadata.len <= 64 * 1024
            &&& kind == ProtectedFileKind::Allowlist ==> metadata.len <= 256 * 1024
            &&& metadata.mode & 0o400 == 0o400
            &&& kind == ProtectedFileKind::Public ==> metadata.mode & 0o022 == 0
            &&& kind != ProtectedFileKind::Public ==> metadata.mode & 0o077 == 0
        },
{
}

/// A directory is accepted if and only if it was found, is one of its owner, and nobody else writes
/// in it.
pub proof fn law_accepted_directories_are_the_owners(lookup: Lookup, expected_uid: u32)
    ensures
        directory_check(lookup, expected_uid) is Ok <==> (lookup matches Lookup::Found(metadata)
            && metadata.is_dir && metadata.uid == expected_uid && metadata.mode & 0o022 == 0),
        !(lookup is Found) ==> directory_check(lookup, expected_uid) == Err::<(), RelayError>(
            RelayError::ConfigurationRead,
        ),
{
}

/// An entry along a path is accepted if and only if it is a directory or a link of the superuser; the
/// last one may be anything but a link, and may be missing.
pub proof fn law_accepted_entries(lookup: Lookup, last: bool)
    ensures
        entry_check(lookup, last) is Ok <==> (match lookup {
            Lookup::Found(metadata) => if last {
                !metadata.is_symlink
            } else if metadata.is_symlink {
                metadata.uid == 0
            } else {
                metadata.is_dir
            },
            Lookup::NotFound => last,
            Lookup::Failed => false,
        }),
{
}

/// The entries of a path are accepted if and only if each of them is.
pub proof fn law_every_entry_is_checked(entries: Seq<Lookup>)
    ensures
        entries_check(entries, 0) is Ok <==> forall|i: int|
            0 <= i < entries.len() ==> entry_check(#[trigger] entries[i], i + 1 == entries.len())
                is Ok,
{
    lemma_entries_checked(entries, 0);
}

/// From a place on the entries are accepted if and only if each of them is.
proof fn lemma_entries_checked(entries: Seq<Lookup>, from: int)
    requires
        0 <= from <= entries.len(),
    ensures
        entries_check(entries, from) is Ok <==> forall|i: int|
            from <= i < entries.len() ==> entry_check(#[trigger] entries[i], i + 1 == entries.len())
                is Ok,
    decreases entries.len() - from,
{
    if from < entries.len() {
        lemma_entries_checked(entries, from + 1);
        let own = entry_check(entries[from], from + 1 == entries.len()) is Ok;
        let rest = entries_check(entries, from + 1) is Ok;
        assert(entries_check(entries, from) is Ok <==> own && rest);
        if own && rest {
            assert forall|i: int| from <= i < entries.len() implies entry_check(
                #[trigger] entries[i],
                i + 1 == entries.len(),
            ) is Ok by {
                if i != from {
                    assert(from + 1 <= i);
                }
            }
        } else if !rest {
            let i = choose|i: int|
                from + 1 <= i < entries.len() && entry_check(
                    #[trigger] entries[i],
                    i + 1 == entries.len(),
                ) is Err;
            assert(entry_check(entries[i], i + 1 == entries.len()) is Err);
        }
    }
}

/// An ancestor is safe if and only if it is a link of the superuser, or a directory that is the
/// owner's, that nobody else writes in, or that is sticky. The ancestors of a path are accepted if and
/// only if each was found and is safe.
pub proof fn law_every_ancestor_is_safe(
    ancestors: Seq<Lookup>,
    expected_uid: u32,
    metadata: FileMetadata,
)
    ensures
        metadata.is_symlink ==> (safe_ancestor(metadata, expected_uid) <==> metadata.uid == 0),
        !metadata.is_symlink ==> (safe_ancestor(metadata, expected_uid) <==> metadata.is_dir && (
        metadata.uid == expected_uid || metadata.mode & 0o022 == 0 || metadata.mode & 0o1000 != 0)),
        ancestors_check(ancestors, expected_uid, 0) is Ok <==> forall|i: int|
            0 <= i < ancestors.len() ==> ((#[trigger] ancestors[i]) is Found && safe_ancestor(
                ancestors[i]->Found_0,
                expected_uid,
            )),
{
    lemma_ancestors_checked(ancestors, expected_uid, 0);
}

/// From a place on the ancestors are accepted if and only if each was found and is safe.
proof fn lemma_ancestors_checked(ancestors: Seq<Lookup>, expected_uid: u32, from: int)
    requires
        0 <= from <= ancestors.len(),
    ensures
        ancestors_check(ancestors, expected_uid, from) is Ok <==> forall|i: int|
            from <= i < ancestors.len() ==> ((#[trigger] ancestors[i]) is Found && safe_ancestor(
                ancestors[i]->Found_0,
                expected_uid,
            )),
    decreases ancestors.len() - from,
{
    if from < ancestors.len() {
        lemma_ancestors_checked(ancestors, expected_uid, from + 1);
        let own = ancestors[from] is Found && safe_ancestor(ancestors[from]->Found_0, expected_uid);
        let rest = ancestors_check(ancestors, expected_uid, from + 1) is Ok;
        assert(ancestors_check(ancestors, expected_uid, from) is Ok <==> own && rest);
        if own && rest {
            assert forall|i: int| from <= i < ancestors.len() implies ((#[trigger] ancestors[i])
                is Found && safe_ancestor(ancestors[i]->Found_0, expected_uid)) by {
                if i != from {
                    assert(from + 1 <= i);
                }
            }
        } else if !rest {
            let i = choose|i: int|
                from + 1 <= i < ancestors.len() && !((#[trigger] ancestors[i]) is Found
                    && safe_ancestor(ancestors[i]->Found_0, expected_uid));
            assert(!(ancestors[i] is Found && safe_ancestor(ancestors[i]->Found_0, expected_uid)));
        }
    }
}

/// A path is accepted if and only if it is absolute, names something and nowhere the directory above,
/// and its entries, its directory and its ancestors are.
pub proof fn law_protected_paths_are_checked_whole(
    path: Seq<char>,
    expected_uid: u32,
    entries: Seq<Lookup>,
    parent: Lookup,
    ancestors: Seq<Lookup>,
)
    ensures
        protected_check(path, expected_uid, entries, parent, ancestors) is Ok <==> {
            &&& path.len() > 0 && path[0] == '/'
            &&& !path_names(path).contains(".."@)
            &&& path_names(path).len() > 0
            &&& entries_check(entries, 0) is Ok
            &&& directory_check(parent, expected_uid) is Ok
            &&& ancestors_check(ancestors, expected_uid, 0) is Ok
        },
{
}

/// A file is opened if and only if its path is accepted and it was found and accepted. What was opened
/// is read on if and only if it is accepted and the same file, unchanged.
pub proof fn law_opened_files_are_the_expected_ones(
    protected: RelayResult<()>,
    lookup: Lookup,
    expected: FileMetadata,
    opened: FileMetadata,
    expected_uid: u32,
    kind: ProtectedFileKind,
    max_bytes: u64,
)
    ensures
        openable(protected, lookup, expected_uid, kind, max_bytes) is Ok <==> protected is Ok && (
        lookup matches Lookup::Found(metadata) && file_check(
            metadata,
            expected_uid,
            kind,
            max_bytes,
        ) is Ok),
        openable(protected, lookup, expected_uid, kind, max_bytes) matches Ok(found) ==> lookup
            == Lookup::Found(found),
        protected matches Err(error) ==> openable(protected, lookup, expected_uid, kind, max_bytes)
            == Err::<FileMetadata, RelayError>(error),
        opened_check(expected, opened, expected_uid, kind, max_bytes) is Ok <==> file_check(
            opened,
            expected_uid,
            kind,
            max_bytes,
        ) is Ok && expected.dev == opened.dev && expected.ino == opened.ino && expected.uid
            == opened.uid && expected.mode == opened.mode && expected.len == opened.len,
{
}

/// A file gives its content if and only if it was opened and read, is the expected one, and has as
/// many bytes as it said; the content is all of what was read.
pub proof fn law_content_is_all_of_the_expected_file(
    expected: FileMetadata,
    outcome: ReadOutcome,
    expected_uid: u32,
    kind: ProtectedFileKind,
    max_bytes: u64,
)
    ensures
        file_content(expected, outcome, expected_uid, kind, max_bytes) is Ok <==> (outcome matches
            ReadOutcome::Read { opened, bytes } && opened_check(
            expected,
            opened,
            expected_uid,
            kind,
            max_bytes,
        ) is Ok && bytes@.len() == opened.len),
        file_content(expected, outcome, expected_uid, kind, max_bytes) matches Ok(content) ==> (
        outcome matches ReadOutcome::Read { opened, bytes } && content == bytes@ && content.len()
            == expected.len && 1 <= content.len() <= max_bytes),
{
}

/// A file is written if and only if its path is absolute and names a file, its content is not empty
/// and within the bound, and its directory is accepted.
pub proof fn law_files_are_written_where_they_can(
    path: Seq<char>,
    expected_uid: u32,
    length: nat,
    max_bytes: u64,
    parent: Lookup,
)
    ensures
        write_refusal(path, expected_uid, length, max_bytes, parent) is None <==> {
            &&& path.len() > 0 && path[0] == '/'
            &&& 1 <= length <= max_bytes
            &&& path_names(path).len() > 0
            &&& path_names(path).last() != ".."@
            &&& directory_check(parent, expected_uid) is Ok
        },
        WRITTEN_MODE == 0o600,
{
}

/// A file is written under a hidden name beside its own, which is never its own name and holds it.
pub proof fn law_temporary_name_is_not_the_files(name: Seq<char>, process: u32, token: u64)
    ensures
        temporary_name(name, process, token) != name,
        temporary_name(name, process, token)[0] == '.',
        temporary_name(name, process, token).subrange(1, 1 + name.len() as int) == name,
        temporary_name(name, process, token) == "."@ + name + ".tmp-"@ + crate::text::decimal_text(
            process as nat,
        ) + "-"@ + crate::text::decimal_text(token as nat),
{
    reveal_strlit(".");
    reveal_strlit(".tmp-");
    assert(temporary_name(name, process, token).subrange(1, 1 + name.len() as int) =~= name);
}

/// A name along a path holds no separator and is neither empty nor the directory itself. A path that
/// is made of such names has exactly these names.
pub proof fn law_paths_are_made_of_their_names(names: Seq<Seq<char>>)
    requires
        forall|i: int| 0 <= i < names.len() ==> plain_name(#[trigger] names[i]),
    ensures
        path_names(path_along(names)) == names,
        crate::paths::absolute(path_along(names)),
    decreases names.len(),
{
    reveal_strlit("/");
    if names.len() == 0 {
        assert("/"@ =~= Seq::<char>::empty().push('/'));
        assert("/"@.drop_last() =~= Seq::<char>::empty());
        reveal_with_fuel(pieces, 2);
        reveal_with_fuel(named, 3);
        let parts = pieces("/"@);
        assert(parts =~= seq![Seq::<char>::empty(), Seq::<char>::empty()]);
        assert(parts.drop_last() =~= seq![Seq::<char>::empty()]);
        assert(parts.drop_last().drop_last() =~= Seq::<Seq<char>>::empty());
        assert(path_names(path_along(names)) =~= names);
    } else {
        let rest = names.drop_last();
        let name = names.last();
        assert forall|i: int| 0 <= i < rest.len() implies plain_name(#[trigger] rest[i]) by {
            assert(rest[i] == names[i]);
        }
        assert(plain_name(names[names.len() - 1]));
        law_paths_are_made_of_their_names(rest);
        let above = path_along(rest);
        let path = path_along(names);
        if above.last() == '/' {
            let base = above.drop_last();
            assert(above =~= base.push('/'));
            lemma_pieces_of_name(base, name);
            assert(path =~= base.push('/') + name);
            assert(pieces(above) == pieces(base).push(Seq::empty()));
            assert(pieces(base).push(Seq::<char>::empty()).drop_last() =~= pieces(base));
            assert(named(pieces(above)) == named(pieces(base)));
        } else {
            lemma_pieces_of_name(above, name);
            assert(path =~= above.push('/') + name);
        }
        let whole = if above.last() == '/' {
            above.drop_last()
        } else {
            above
        };
        assert(pieces(path) == pieces(whole).push(name));
        assert(pieces(whole).push(name).drop_last() =~= pieces(whole));
        assert(path_names(path) =~= names);
    }
}

/// The name stands for something and holds no separator.
pub open spec fn plain_name(name: Seq<char>) -> bool {
    names_something(name) && forall|i: int| 0 <= i < name.len() ==> #[trigger] name[i] != '/'
}

/// What comes behind a separator and holds none is a piece of its own.
proof fn lemma_pieces_of_name(base: Seq<char>, name: Seq<char>)
    requires
        forall|i: int| 0 <= i < name.len() ==> #[trigger] name[i] != '/',
    ensures
        pieces(base.push('/') + name) == pieces(base).push(name),
    decreases name.len(),
{
    let path = base.push('/') + name;
    if name.len() == 0 {
        assert(path =~= base.push('/'));
        assert(path.drop_last() =~= base);
        assert(name =~= Seq::<char>::empty());
    } else {
        let rest = name.drop_last();
        assert forall|i: int| 0 <= i < rest.len() implies #[trigger] rest[i] != '/' by {
            assert(rest[i] == name[i]);
        }
        lemma_pieces_of_name(base, rest);
        assert(path.drop_last() =~= base.push('/') + rest);
        assert(path.last() == name[name.len() - 1]);
        let before = pieces(base).push(rest);
        assert(before.drop_last() =~= pieces(base));
        assert(rest.push(name.last()) =~= name);
    }
}

/// Trimming takes white characters off both ends, and nothing else: what is returned counts those
/// that were taken off the front.
pub proof fn law_trimming_takes_white_ends(text: Seq<char>) -> (front: int)
    ensures
        0 <= front <= text.len() - trimmed(text).len(),
        text.subrange(front, front + trimmed(text).len()) == trimmed(text),
        forall|i: int| 0 <= i < front ==> white(#[trigger] text[i]),
        forall|i: int|
            front + trimmed(text).len() <= i < text.len() ==> white(#[trigger] text[i]),
        trimmed(text).len() > 0 ==> !white(trimmed(text)[0]) && !white(trimmed(text).last()),
    decreases text.len(),
{
    let kept = trimmed(text).len() as int;
    if text.len() > 0 && white(text[0]) {
        let rest = text.drop_first();
        let front = law_trimming_takes_white_ends(rest);
        assert(text.subrange(front + 1, front + 1 + kept) =~= rest.subrange(front, front + kept));
        assert forall|i: int| 0 <= i < front + 1 implies white(#[trigger] text[i]) by {
            if i > 0 {
                assert(rest[i - 1] == text[i]);
            }
        }
        assert forall|i: int| front + 1 + kept <= i < text.len() implies white(
            #[trigger] text[i],
        ) by {
            assert(rest[i - 1] == text[i]);
        }
        front + 1
    } else if text.len() > 0 && white(text.last()) {
        let rest = text.drop_last();
        let front = law_trimming_takes_white_ends(rest);
        assert(text.subrange(front, front + kept) =~= rest.subrange(front, front + kept));
        assert forall|i: int| 0 <= i < front implies white(#[trigger] text[i]) by {
            assert(rest[i] == text[i]);
        }
        assert forall|i: int| front + kept <= i < text.len() implies white(#[trigger] text[i]) by {
            if i < rest.len() {
                assert(rest[i] == text[i]);
            }
        }
        front
    } else {
        assert(text.subrange(0, text.len() as int) =~= text);
        0
    }
}

/// A number is read if and only if it is digits alone, behind a sign at most, and fits; a user is read
/// from a number that was printed on a line of its own.
pub proof fn law_printed_users_are_read_back(text: Seq<char>, value: u32)
    ensures
        number_of(text) matches Some(number) ==> {
            let digits = if text.len() > 0 && text[0] == '+' {
                text.subrange(1, text.len() as int)
            } else {
                text
            };
            &&& digits.len() > 0
            &&& forall|i: int| 0 <= i < digits.len() ==> '0' <= #[trigger] digits[i] <= '9'
            &&& decimal_value(digits) == number
        },
        printed_uid(
            vstd::utf8::encode_utf8(crate::text::decimal_text(value as nat).push('\n')),
        ) == Some(value),
{
    if text.len() > 0 {
        assert(text.drop_first() =~= text.subrange(1, text.len() as int));
    }
    if number_of(text) is Some {
        let digits = number_digits(text);
        assert forall|i: int| 0 <= i < digits.len() implies '0' <= #[trigger] digits[i] <= '9' by {
            assert(digit(digits[i]));
        }
    }
    let shown = crate::text::decimal_text(value as nat);
    crate::text::law_decimal_text_reads_back(value as nat);
    let line = shown.push('\n');
    vstd::utf8::encode_utf8_valid_utf8(line);
    vstd::utf8::encode_utf8_decode_utf8(line);
    assert(line.drop_last() =~= shown);
    assert(line[0] == shown[0]);
    assert('0' <= shown[shown.len() - 1] <= '9');
    reveal_with_fuel(trimmed, 3);
    assert(trimmed(line) == shown);
    law_printed_number_is_read_back(value);
}

} // verus!
