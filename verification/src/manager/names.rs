//! Session names, fingerprints and lease tokens.

use crate::bytes::same_bytes;
use crate::error::{IoKind, RelayError, RelayResult};
use crate::paths::same_text;
use crate::random::random_32;
use crate::text::{is_session_text, read_hex_32, write_hex};
use vstd::prelude::*;

verus! {

/// Bytes of a stored fingerprint.
pub const FINGERPRINT_TEXT_BYTES: usize = 64;

/// A normalized Herdr session name.
#[derive(Debug, Eq, Hash, Ord, PartialEq, PartialOrd)]
pub struct SessionName(String);

impl View for SessionName {
    type V = Seq<char>;

    closed spec fn view(&self) -> Seq<char> {
        self.0@
    }
}

/// The name that a caller's value stands for: an empty one is the default session.
pub open spec fn normalized(value: Seq<char>) -> Seq<char> {
    if value.len() == 0 {
        "default"@
    } else {
        value
    }
}

/// `name` is what normalizing `value` gives.
pub open spec fn normalizes(name: RelayResult<SessionName>, value: Seq<char>) -> bool {
    match name {
        Ok(session) => crate::text::session_text(normalized(value)) && session@ == normalized(
            value,
        ),
        Err(error) => !crate::text::session_text(normalized(value)) && error == (
        RelayError::InvalidConfiguration {
            field: "session",
            reason: "must be default or 1..64 ASCII letters, numbers, '.', '_' or '-'",
        }),
    }
}

impl SessionName {
    #[verifier::type_invariant]
    spec fn valid(&self) -> bool {
        crate::text::session_text(self.0@)
    }

    /// Normalizes a session value, mapping an empty one to `default`.
    pub fn normalize(value: &str) -> (name: RelayResult<Self>)
        ensures
            normalizes(name, value@),
    {
        let wanted = if value.is_empty() {
            "default"
        } else {
            value
        };
        if is_session_text(wanted) {
            Ok(SessionName(wanted.to_owned()))
        } else {
            Err(
                RelayError::InvalidConfiguration {
                    field: "session",
                    reason: "must be default or 1..64 ASCII letters, numbers, '.', '_' or '-'",
                },
            )
        }
    }

    /// The name as a wire or path component.
    pub fn as_str(&self) -> (text: &str)
        ensures
            text@ == self@,
            crate::text::session_text(self@),
    {
        proof {
            use_type_invariant(self);
        }
        self.0.as_str()
    }

    /// Tells whether this is the default session.
    pub fn is_default(&self) -> (default: bool)
        ensures
            default == (self@ == "default"@),
    {
        same_text(self.0.as_str(), "default")
    }

    /// Tells whether two names are the same.
    pub fn same(&self, other: &Self) -> (same: bool)
        ensures
            same == (self@ == other@),
    {
        same_text(self.0.as_str(), other.0.as_str())
    }
}

impl Clone for SessionName {
    /// Copies the name.
    fn clone(&self) -> (copy: Self)
        ensures
            copy@ == self@,
    {
        proof {
            use_type_invariant(self);
        }
        SessionName(self.0.as_str().to_owned())
    }
}

/// Normalizing a normalized name changes nothing.
pub proof fn law_normalization_is_idempotent(value: Seq<char>)
    requires
        crate::text::session_text(normalized(value)),
    ensures
        normalized(normalized(value)) == normalized(value),
{
}

/// A session fingerprint; it is never part of a diagnostic.
#[derive(Clone, Copy, Eq, Hash, PartialEq)]
pub struct SessionFingerprint([u8; 32]);

impl View for SessionFingerprint {
    type V = Seq<u8>;

    closed spec fn view(&self) -> Seq<u8> {
        self.0@
    }
}

impl SessionFingerprint {
    /// Wraps fixed-width bytes.
    pub fn from_bytes(bytes: [u8; 32]) -> (fingerprint: Self)
        ensures
            fingerprint@ == bytes@,
    {
        SessionFingerprint(bytes)
    }

    /// The bytes.
    pub fn as_bytes(&self) -> (bytes: &[u8; 32])
        ensures
            bytes@ == self@,
    {
        &self.0
    }

    /// Draws the fingerprint of a new session directory; nothing is claimed of its bytes.
    pub fn generate() -> (fingerprint: Self) {
        SessionFingerprint(random_32())
    }

    /// Tells whether two fingerprints are the same.
    pub fn same(&self, other: &Self) -> (same: bool)
        ensures
            same == (self@ == other@),
    {
        same_bytes(&self.0, &other.0)
    }
}

/// A lease token; it is never part of a diagnostic.
#[derive(Clone, Copy, Eq, Hash, PartialEq)]
pub struct LeaseToken([u8; 32]);

impl View for LeaseToken {
    type V = Seq<u8>;

    closed spec fn view(&self) -> Seq<u8> {
        self.0@
    }
}

impl LeaseToken {
    /// Wraps fixed-width bytes.
    pub fn from_bytes(bytes: [u8; 32]) -> (token: Self)
        ensures
            token@ == bytes@,
    {
        LeaseToken(bytes)
    }

    /// The bytes.
    pub fn as_bytes(&self) -> (bytes: &[u8; 32])
        ensures
            bytes@ == self@,
    {
        &self.0
    }

    /// Draws a token; nothing is claimed of its bytes.
    pub fn generate() -> (token: Self) {
        LeaseToken(random_32())
    }
}

/// Encodes a fingerprint in lowercase hexadecimal digits.
pub fn encode_fingerprint(fingerprint: SessionFingerprint) -> (text: String)
    ensures
        text@ == crate::text::hex_text(fingerprint@),
{
    write_hex(&fingerprint.0)
}

/// Decodes a stored fingerprint: exactly 64 hexadecimal digits of either case.
pub fn decode_fingerprint(bytes: &[u8]) -> (fingerprint: RelayResult<SessionFingerprint>)
    ensures
        match fingerprint {
            Ok(decoded) => {
                &&& bytes@.len() == FINGERPRINT_TEXT_BYTES
                &&& crate::text::all_hex(bytes@, false)
                &&& decoded@ == crate::text::hex_bytes(bytes@, false)
            },
            Err(error) => {
                &&& bytes@.len() != FINGERPRINT_TEXT_BYTES || !crate::text::all_hex(bytes@, false)
                &&& error == RelayError::InvalidFingerprint
            },
        },
{
    match read_hex_32(bytes, false) {
        Some(decoded) => Ok(SessionFingerprint(decoded)),
        None => Err(RelayError::InvalidFingerprint),
    }
}

/// A stored fingerprint is read back.
pub proof fn law_fingerprint_round_trip(fingerprint: SessionFingerprint)
    ensures
        ({
            let stored = vstd::utf8::encode_utf8(crate::text::hex_text(fingerprint@));
            &&& stored.len() == FINGERPRINT_TEXT_BYTES
            &&& crate::text::all_hex(stored, false)
            &&& crate::text::hex_bytes(stored, false) == fingerprint@
        }),
{
    crate::text::law_hex_round_trip(fingerprint@, false);
}

/// Type, owner and permissions of a file.
#[derive(Clone, Copy, Debug, Eq, PartialEq, Structural)]
pub struct FileFacts {
    /// It is a regular file.
    pub is_file: bool,
    /// Its owner.
    pub uid: u32,
    /// Its mode bits.
    pub mode: u32,
}

/// What has to be done next to obtain the fingerprint of a session.
pub enum FingerprintStep {
    /// Read the stored fingerprint.
    Read,
    /// Create the file of a new fingerprint with mode 0600, if no other process does.
    Create(SessionFingerprint),
    /// The fingerprint.
    Done(SessionFingerprint),
    /// The failure.
    Fail(RelayError),
}

/// Storage of session fingerprints of one owner.
#[derive(Clone, Copy, Debug, Eq, PartialEq, Structural)]
pub struct FingerprintStore {
    expected_uid: u32,
}

/// What follows once the file of a fingerprint was created, or could not be.
pub open spec fn creation_step(
    fingerprint: SessionFingerprint,
    outcome: Result<(), IoKind>,
) -> FingerprintStep {
    match outcome {
        Ok(_) => FingerprintStep::Done(fingerprint),
        Err(kind) => if kind == IoKind::AlreadyExists {
            FingerprintStep::Read
        } else {
            FingerprintStep::Fail(
                RelayError::Io { operation: "creating session fingerprint", kind },
            )
        },
    }
}

/// The file of a fingerprint can be trusted: it is a regular one of the owner alone.
pub open spec fn fingerprint_file_trusted(facts: FileFacts, uid: u32) -> bool {
    facts.is_file && facts.uid == uid && facts.mode & 0o777 == 0o600
}

/// The fingerprint that its file and its content give, or why they give none.
pub open spec fn fingerprint_read(
    uid: u32,
    file: Result<FileFacts, IoKind>,
    content: Result<Seq<u8>, IoKind>,
) -> RelayResult<Seq<u8>> {
    match file {
        Err(kind) => Err(RelayError::Io { operation: "reading session fingerprint", kind }),
        Ok(facts) => if !fingerprint_file_trusted(facts, uid) {
            Err(RelayError::InvalidFingerprint)
        } else {
            match content {
                Err(kind) => Err(RelayError::Io { operation: "reading session fingerprint", kind }),
                Ok(bytes) => if bytes.len() == FINGERPRINT_TEXT_BYTES && crate::text::all_hex(
                    bytes,
                    false,
                ) {
                    Ok(crate::text::hex_bytes(bytes, false))
                } else {
                    Err(RelayError::InvalidFingerprint)
                },
            }
        },
    }
}

impl FingerprintStore {
    /// The owner that stored fingerprints must have.
    pub closed spec fn uid(&self) -> u32 {
        self.expected_uid
    }

    /// A store of one owner.
    pub fn new(expected_uid: u32) -> (store: Self)
        ensures
            store.uid() == expected_uid,
    {
        FingerprintStore { expected_uid }
    }

    /// Decides how the fingerprint of a session is obtained; a new one is drawn if none is stored.
    pub fn load_or_create(&self, stored: bool) -> (step: FingerprintStep)
        ensures
            stored ==> step is Read,
            !stored ==> step is Create,
    {
        if stored {
            FingerprintStep::Read
        } else {
            FingerprintStep::Create(SessionFingerprint::generate())
        }
    }

    /// Decides what creating the file of a new fingerprint led to; where another process was
    /// faster, its fingerprint is read.
    pub fn created(&self, fingerprint: SessionFingerprint, outcome: Result<(), IoKind>) -> (step:
        FingerprintStep)
        ensures
            step == (match outcome {
                Ok(_) => FingerprintStep::Done(fingerprint),
                Err(IoKind::AlreadyExists) => FingerprintStep::Read,
                Err(kind) => FingerprintStep::Fail(
                    RelayError::Io { operation: "creating session fingerprint", kind },
                ),
            }),
            step == creation_step(fingerprint, outcome),
    {
        match outcome {
            Ok(_) => FingerprintStep::Done(fingerprint),
            Err(IoKind::AlreadyExists) => FingerprintStep::Read,
            Err(kind) => FingerprintStep::Fail(
                RelayError::Io { operation: "creating session fingerprint", kind },
            ),
        }
    }

    /// Decides on a stored fingerprint: a private regular file of the owner that holds 64
    /// hexadecimal digits.
    pub fn read(&self, file: Result<FileFacts, IoKind>, content: Result<Vec<u8>, IoKind>) -> (step:
        FingerprintStep)
        ensures
            match file {
                Err(kind) => step == FingerprintStep::Fail(
                    RelayError::Io { operation: "reading session fingerprint", kind },
                ),
                Ok(facts) => if facts.uid != self.uid() || facts.mode & 0o777 != 0o600
                    || !facts.is_file {
                    step == FingerprintStep::Fail(RelayError::InvalidFingerprint)
                } else {
                    match content {
                        Err(kind) => step == FingerprintStep::Fail(
                            RelayError::Io { operation: "reading session fingerprint", kind },
                        ),
                        Ok(bytes) => if bytes@.len() == FINGERPRINT_TEXT_BYTES
                            && crate::text::all_hex(bytes@, false) {
                            step matches FingerprintStep::Done(fingerprint) && fingerprint@
                                == crate::text::hex_bytes(bytes@, false)
                        } else {
                            step == FingerprintStep::Fail(RelayError::InvalidFingerprint)
                        },
                    }
                },
            },
            match fingerprint_read(
                self.uid(),
                file,
                match content {
                    Ok(bytes) => Ok(bytes@),
                    Err(kind) => Err(kind),
                },
            ) {
                Ok(bytes) => step matches FingerprintStep::Done(fingerprint) && fingerprint@ == bytes,
                Err(error) => step == FingerprintStep::Fail(error),
            },
    {
        let facts = match file {
            Ok(found) => found,
            Err(kind) => {
                return FingerprintStep::Fail(
                    RelayError::Io { operation: "reading session fingerprint", kind },
                );
            },
        };
        if facts.uid != self.expected_uid || facts.mode & 0o777 != 0o600 || !facts.is_file {
            return FingerprintStep::Fail(RelayError::InvalidFingerprint);
        }
        match content {
            Err(kind) => FingerprintStep::Fail(
                RelayError::Io { operation: "reading session fingerprint", kind },
            ),
            Ok(bytes) => match decode_fingerprint(bytes.as_slice()) {
                Ok(fingerprint) => FingerprintStep::Done(fingerprint),
                Err(error) => FingerprintStep::Fail(error),
            },
        }
    }
}

/// An empty name is that of the default session, and every other name stands for itself. A name is
/// accepted if and only if what it stands for is a plain session name.
pub proof fn law_names_stand_for_themselves(name: RelayResult<SessionName>, value: Seq<char>)
    requires
        normalizes(name, value),
    ensures
        value.len() == 0 ==> (name matches Ok(session) && session@ == "default"@),
        value.len() > 0 ==> (name is Ok <==> crate::text::session_text(value)),
        value.len() > 0 ==> (name matches Ok(session) ==> session@ == value),
{
    reveal_strlit("default");
    let text = "default"@;
    assert(text.len() == 7);
    assert forall|i: int| 0 <= i < text.len() implies crate::text::session_char(
        #[trigger] text[i],
    ) by {}
    assert(crate::text::session_text(text));
}

/// A new fingerprint is used once its file was created; where another process was first, its
/// fingerprint is read instead.
pub proof fn law_created_fingerprints_are_used(
    fingerprint: SessionFingerprint,
    outcome: Result<(), IoKind>,
)
    ensures
        creation_step(fingerprint, outcome) == FingerprintStep::Done(fingerprint) <==> outcome is Ok,
        creation_step(fingerprint, outcome) == FingerprintStep::Read <==> outcome == Err::<
            (),
            IoKind,
        >(IoKind::AlreadyExists),
        outcome matches Err(kind) ==> (kind != IoKind::AlreadyExists ==> creation_step(
            fingerprint,
            outcome,
        ) == FingerprintStep::Fail(
            RelayError::Io { operation: "creating session fingerprint", kind },
        )),
{
}

/// A stored fingerprint is read if and only if its file is a regular one of the owner alone and holds
/// 64 hexadecimal digits. What was stored of a fingerprint is read back as the fingerprint.
pub proof fn law_stored_fingerprints_are_read_back(
    uid: u32,
    facts: FileFacts,
    bytes: Seq<u8>,
    fingerprint: SessionFingerprint,
)
    ensures
        fingerprint_read(uid, Ok(facts), Ok(bytes)) is Ok <==> facts.is_file && facts.uid == uid
            && facts.mode & 0o777 == 0o600 && bytes.len() == 64 && crate::text::all_hex(
            bytes,
            false,
        ),
        facts.is_file && facts.uid == uid && facts.mode & 0o777 == 0o600 ==> fingerprint_read(
            uid,
            Ok(facts),
            Ok(vstd::utf8::encode_utf8(crate::text::hex_text(fingerprint@))),
        ) == Ok::<Seq<u8>, RelayError>(fingerprint@),
        fingerprint_read(uid, Ok(facts), Ok(bytes)) matches Err(error) ==> error
            == RelayError::InvalidFingerprint,
{
    law_fingerprint_round_trip(fingerprint);
}

} // verus!
