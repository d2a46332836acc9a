//! The HDP1 control frame.

use crate::bytes::{push_be, read_be, same_bytes};
use vstd::prelude::*;

verus! {

/// HDP1 application-control version.
pub const HDP1_VERSION: u16 = 1;

/// Largest complete HDP1 or HDQM frame.
pub const HDP1_MAX_FRAME_BYTES: usize = 65536;

/// Bytes of an HDP1 frame before its payload: magic, version, kind and payload length.
pub const HDP1_HEADER_BYTES: usize = 11;

/// The letters `HDP1`.
pub const HDP1_MAGIC: [u8; 4] = [72, 68, 80, 49];

/// HDP1 control kinds exchanged on the one control stream.
#[derive(Clone, Copy, Debug, Eq, PartialEq, Structural)]
pub enum HdpKind {
    /// Starts or resumes the bounded pairing exchange.
    PairingStart,
    /// Carries one transient six-digit pairing code.
    PairingSubmit,
    /// Reports successful application pairing.
    PairingAccepted,
    /// Reports a sanitized pairing rejection category.
    PairingRejected,
    /// Reports that the connection may request bounded sessions.
    ConnectionReady,
    /// Requests bounded connection shutdown.
    GoAway,
}

/// HDP1 frame validation failures.
#[derive(Clone, Copy, Debug, Eq, PartialEq, Structural)]
pub enum HdpFrameError {
    /// The frame did not contain a complete fixed header.
    FrameTooShort,
    /// The frame magic did not match HDP1.
    InvalidMagic,
    /// The frame version is not supported.
    UnsupportedVersion,
    /// The frame kind is not registered.
    UnknownKind,
    /// The complete frame exceeded the fixed bound.
    FrameTooLarge,
    /// The declared payload length did not match the bytes supplied.
    LengthMismatch,
}

/// The number that stands for a kind on the wire.
pub open spec fn kind_code(kind: HdpKind) -> u8 {
    match kind {
        HdpKind::PairingStart => 1,
        HdpKind::PairingSubmit => 2,
        HdpKind::PairingAccepted => 3,
        HdpKind::PairingRejected => 4,
        HdpKind::ConnectionReady => 5,
        HdpKind::GoAway => 6,
    }
}

/// The kind that a number stands for, if any.
pub open spec fn kind_of(code: u8) -> Option<HdpKind> {
    if code == 1 {
        Some(HdpKind::PairingStart)
    } else if code == 2 {
        Some(HdpKind::PairingSubmit)
    } else if code == 3 {
        Some(HdpKind::PairingAccepted)
    } else if code == 4 {
        Some(HdpKind::PairingRejected)
    } else if code == 5 {
        Some(HdpKind::ConnectionReady)
    } else if code == 6 {
        Some(HdpKind::GoAway)
    } else {
        None
    }
}

impl HdpFrameError {
    /// Fixed description of the failure.
    pub fn message(&self) -> (text: &'static str)
        ensures
            text == (match self {
                HdpFrameError::FrameTooShort => "HDP1 frame is too short",
                HdpFrameError::InvalidMagic => "HDP1 frame magic is invalid",
                HdpFrameError::UnsupportedVersion => "HDP1 version is unsupported",
                HdpFrameError::UnknownKind => "HDP1 kind is unknown",
                HdpFrameError::FrameTooLarge => "HDP1 frame exceeds the bounded limit",
                HdpFrameError::LengthMismatch => "HDP1 frame length is invalid",
            }),
    {
        match self {
            HdpFrameError::FrameTooShort => "HDP1 frame is too short",
            HdpFrameError::InvalidMagic => "HDP1 frame magic is invalid",
            HdpFrameError::UnsupportedVersion => "HDP1 version is unsupported",
            HdpFrameError::UnknownKind => "HDP1 kind is unknown",
            HdpFrameError::FrameTooLarge => "HDP1 frame exceeds the bounded limit",
            HdpFrameError::LengthMismatch => "HDP1 frame length is invalid",
        }
    }
}

impl HdpKind {
    /// The number that stands for the kind on the wire.
    pub fn code(&self) -> (code: u8)
        ensures
            code == kind_code(*self),
    {
        match self {
            HdpKind::PairingStart => 1,
            HdpKind::PairingSubmit => 2,
            HdpKind::PairingAccepted => 3,
            HdpKind::PairingRejected => 4,
            HdpKind::ConnectionReady => 5,
            HdpKind::GoAway => 6,
        }
    }

    /// Decodes one registered kind.
    pub fn try_from(value: u8) -> (kind: Result<HdpKind, HdpFrameError>)
        ensures
            kind == (match kind_of(value) {
                Some(known) => Ok::<HdpKind, HdpFrameError>(known),
                None => Err(HdpFrameError::UnknownKind),
            }),
    {
        match value {
            1 => Ok(HdpKind::PairingStart),
            2 => Ok(HdpKind::PairingSubmit),
            3 => Ok(HdpKind::PairingAccepted),
            4 => Ok(HdpKind::PairingRejected),
            5 => Ok(HdpKind::ConnectionReady),
            6 => Ok(HdpKind::GoAway),
            _ => Err(HdpFrameError::UnknownKind),
        }
    }
}

/// Mathematical value of a frame.
#[verifier::ext_equal]
pub struct HdpFrameView {
    /// Control kind.
    pub kind: HdpKind,
    /// Payload.
    pub payload: Seq<u8>,
}

/// One bounded HDP1 frame.
pub struct HdpFrame {
    kind: HdpKind,
    payload: Vec<u8>,
}

impl View for HdpFrame {
    type V = HdpFrameView;

    closed spec fn view(&self) -> HdpFrameView {
        HdpFrameView { kind: self.kind, payload: self.payload@ }
    }
}

/// What a diagnostic says of a frame.
#[derive(Clone, Copy, Debug, Eq, PartialEq, Structural)]
pub struct HdpFrameSummary {
    /// Control kind.
    pub kind: HdpKind,
    /// Bytes of the payload.
    pub payload_len: usize,
}

/// The bytes of a frame on the wire.
pub open spec fn hdp_bytes(frame: HdpFrameView) -> Seq<u8> {
    HDP1_MAGIC@ + crate::bytes::be_bytes(HDP1_VERSION as nat, 2) + seq![kind_code(frame.kind)]
        + crate::bytes::be_bytes(frame.payload.len(), 4) + frame.payload
}

/// The frame fits the bound.
pub open spec fn hdp_fits(payload_len: nat) -> bool {
    HDP1_HEADER_BYTES + payload_len <= HDP1_MAX_FRAME_BYTES
}

/// The failure of decoding `bytes`, if any.
pub open spec fn hdp_failure(bytes: Seq<u8>) -> Option<HdpFrameError> {
    let announced = crate::bytes::be_value(bytes.subrange(7, 11));
    if bytes.len() < HDP1_HEADER_BYTES {
        Some(HdpFrameError::FrameTooShort)
    } else if bytes.subrange(0, 4) != HDP1_MAGIC@ {
        Some(HdpFrameError::InvalidMagic)
    } else if crate::bytes::be_value(bytes.subrange(4, 6)) != HDP1_VERSION {
        Some(HdpFrameError::UnsupportedVersion)
    } else if kind_of(bytes[6]) is None {
        Some(HdpFrameError::UnknownKind)
    } else if !hdp_fits(announced) {
        Some(HdpFrameError::FrameTooLarge)
    } else if bytes.len() != HDP1_HEADER_BYTES + announced {
        Some(HdpFrameError::LengthMismatch)
    } else {
        None
    }
}

/// The frame that well-formed `bytes` hold.
pub open spec fn hdp_frame(bytes: Seq<u8>) -> HdpFrameView {
    HdpFrameView {
        kind: kind_of(bytes[6])->Some_0,
        payload: bytes.subrange(HDP1_HEADER_BYTES as int, bytes.len() as int),
    }
}

impl HdpFrame {
    /// Makes a frame for a Relay control operation.
    pub fn new(kind: HdpKind, payload: Vec<u8>) -> (frame: Self)
        ensures
            frame@ == (HdpFrameView { kind, payload: payload@ }),
    {
        HdpFrame { kind, payload }
    }

    /// Makes a status frame: its payload is the reason, or empty for reason zero.
    pub fn status(kind: HdpKind, reason: u8) -> (frame: Self)
        ensures
            frame@ == (HdpFrameView {
                kind,
                payload: if reason == 0 {
                    Seq::empty()
                } else {
                    seq![reason]
                },
            }),
    {
        let mut payload: Vec<u8> = Vec::new();
        if reason != 0 {
            payload.push(reason);
        }
        assert(payload@ =~= if reason == 0 {
            Seq::empty()
        } else {
            seq![reason]
        });
        HdpFrame { kind, payload }
    }

    /// The control kind.
    pub fn kind(&self) -> (kind: HdpKind)
        ensures
            kind == self@.kind,
    {
        self.kind
    }

    /// Bytes of the payload.
    pub fn payload_len(&self) -> (len: usize)
        ensures
            len == self@.payload.len(),
    {
        self.payload.len()
    }

    /// The payload.
    pub fn payload(&self) -> (payload: &[u8])
        ensures
            payload@ == self@.payload,
    {
        self.payload.as_slice()
    }

    /// What a diagnostic says of the frame: no byte of its payload.
    pub fn summary(&self) -> (summary: HdpFrameSummary)
        ensures
            summary.kind == self@.kind,
            summary.payload_len == self@.payload.len(),
    {
        HdpFrameSummary { kind: self.kind, payload_len: self.payload.len() }
    }

    /// Overwrites the payload with zeroes once its control operation is over.
    pub fn clear(&mut self)
        ensures
            final(self)@.kind == old(self)@.kind,
            final(self)@.payload == Seq::new(old(self)@.payload.len(), |i: int| 0u8),
    {
        let mut i: usize = 0;
        while i < self.payload.len()
            invariant
                i <= self.payload@.len(),
                self.payload@.len() == old(self).payload@.len(),
                self.kind == old(self).kind,
                forall|j: int| 0 <= j < i ==> self.payload@[j] == 0,
            decreases self.payload@.len() - i,
        {
            self.payload.set(i, 0);
            i = i + 1;
        }
        assert(self.payload@ =~= Seq::new(old(self).payload@.len(), |i: int| 0u8));
    }

    /// Encodes one complete bounded frame.
    pub fn encode(&self) -> (bytes: Result<Vec<u8>, HdpFrameError>)
        ensures
            match bytes {
                Ok(encoded) => hdp_fits(self@.payload.len()) && encoded@ == hdp_bytes(self@),
                Err(error) => !hdp_fits(self@.payload.len()) && error
                    == HdpFrameError::FrameTooLarge,
            },
    {
        if self.payload.len() > HDP1_MAX_FRAME_BYTES - HDP1_HEADER_BYTES {
            return Err(HdpFrameError::FrameTooLarge);
        }
        let mut bytes: Vec<u8> = Vec::new();
        let magic = HDP1_MAGIC;
        bytes.extend_from_slice(&magic);
        push_be(&mut bytes, HDP1_VERSION as u64, 2);
        bytes.push(self.kind.code());
        push_be(&mut bytes, self.payload.len() as u64, 4);
        bytes.extend_from_slice(self.payload.as_slice());
        assert(bytes@ =~= hdp_bytes(self@));
        Ok(bytes)
    }

    /// Decodes one complete frame.
    pub fn decode(bytes: &[u8]) -> (frame: Result<Self, HdpFrameError>)
        ensures
            match frame {
                Ok(decoded) => hdp_failure(bytes@) is None && decoded@ == hdp_frame(bytes@),
                Err(error) => hdp_failure(bytes@) == Some(error),
            },
    {
        if bytes.len() < HDP1_HEADER_BYTES {
            return Err(HdpFrameError::FrameTooShort);
        }
        assert(bytes.len() == bytes@.len());
        let magic = HDP1_MAGIC;
        if !same_bytes(vstd::slice::slice_subrange(bytes, 0, 4), &magic) {
            return Err(HdpFrameError::InvalidMagic);
        }
        if read_be(bytes, 4, 2) != HDP1_VERSION as u64 {
            return Err(HdpFrameError::UnsupportedVersion);
        }
        let kind = match HdpKind::try_from(bytes[6]) {
            Ok(known) => known,
            Err(error) => {
                return Err(error);
            },
        };
        let announced: u64 = read_be(bytes, 7, 4);
        if announced > (HDP1_MAX_FRAME_BYTES - HDP1_HEADER_BYTES) as u64 {
            return Err(HdpFrameError::FrameTooLarge);
        }
        if bytes.len() != HDP1_HEADER_BYTES + announced as usize {
            return Err(HdpFrameError::LengthMismatch);
        }
        let payload = vstd::slice::slice_to_vec(
            vstd::slice::slice_subrange(bytes, HDP1_HEADER_BYTES, bytes.len()),
        );
        assert(payload@ =~= hdp_frame(bytes@).payload);
        Ok(HdpFrame { kind, payload })
    }
}

/// The payload length that a header announces, held to both bounds.
pub fn hdp_payload_len(header: &[u8; 11], max_frame_bytes: usize) -> (length: Result<
    usize,
    HdpFrameError,
>)
    ensures
        ({
            let announced = crate::bytes::be_value(header@.subrange(7, 11));
            match length {
                Ok(bytes) => {
                    &&& bytes == announced
                    &&& hdp_fits(announced)
                    &&& HDP1_HEADER_BYTES + announced <= max_frame_bytes
                },
                Err(error) => {
                    &&& error == HdpFrameError::FrameTooLarge
                    &&& !hdp_fits(announced) || HDP1_HEADER_BYTES + announced > max_frame_bytes
                },
            }
        }),
{
    let announced: u64 = read_be(header, 7, 4);
    if announced > (HDP1_MAX_FRAME_BYTES - HDP1_HEADER_BYTES) as u64 {
        return Err(HdpFrameError::FrameTooLarge);
    }
    let total: usize = HDP1_HEADER_BYTES + announced as usize;
    if total > max_frame_bytes {
        return Err(HdpFrameError::FrameTooLarge);
    }
    Ok(announced as usize)
}

/// The payload length that an HDQM header announces, held to the magic and both bounds.
pub fn hdqm_payload_len(header: &[u8; 27], magic: &[u8; 4], max_frame_bytes: usize) -> (length:
    Result<usize, HdpFrameError>)
    ensures
        ({
            let announced = crate::quic_wire::hdqm_payload_len(header@);
            let total = crate::quic_wire::HDQM_HEADER_BYTES + announced;
            length == (if header@.subrange(0, 4) != magic@ {
                Err::<usize, HdpFrameError>(HdpFrameError::InvalidMagic)
            } else if total > max_frame_bytes || total > HDP1_MAX_FRAME_BYTES {
                Err(HdpFrameError::FrameTooLarge)
            } else {
                Ok(announced as usize)
            })
        }),
{
    if !same_bytes(vstd::slice::slice_subrange(header.as_slice(), 0, 4), magic) {
        return Err(HdpFrameError::InvalidMagic);
    }
    let announced: u64 = read_be(header, 23, 4);
    if announced > (HDP1_MAX_FRAME_BYTES - crate::quic_wire::HDQM_HEADER_BYTES) as u64 {
        return Err(HdpFrameError::FrameTooLarge);
    }
    let total: usize = crate::quic_wire::HDQM_HEADER_BYTES + announced as usize;
    if total > max_frame_bytes {
        return Err(HdpFrameError::FrameTooLarge);
    }
    Ok(announced as usize)
}

/// What is encoded is read back: the bytes of a bounded frame decode to the same frame.
pub proof fn law_hdp_round_trip(frame: HdpFrameView)
    requires
        hdp_fits(frame.payload.len()),
    ensures
        hdp_failure(hdp_bytes(frame)) is None,
        hdp_frame(hdp_bytes(frame)) == frame,
        hdp_bytes(frame).len() <= HDP1_MAX_FRAME_BYTES,
{
    let bytes = hdp_bytes(frame);
    crate::bytes::lemma_be_bytes_len(HDP1_VERSION as nat, 2);
    crate::bytes::lemma_be_bytes_len(frame.payload.len(), 4);
    reveal_with_fuel(crate::bytes::radix_pow, 5);
    crate::bytes::lemma_be_value_of_bytes(HDP1_VERSION as nat, 2);
    crate::bytes::lemma_be_value_of_bytes(frame.payload.len(), 4);
    assert(bytes.subrange(0, 4) =~= HDP1_MAGIC@);
    assert(bytes.subrange(4, 6) =~= crate::bytes::be_bytes(HDP1_VERSION as nat, 2));
    assert(bytes.subrange(7, 11) =~= crate::bytes::be_bytes(frame.payload.len(), 4));
    assert(bytes.subrange(11, bytes.len() as int) =~= frame.payload);
}

/// Only one string of bytes stands for a frame: what decodes is the encoding of what it decodes
/// to.
pub proof fn law_hdp_encoding_is_unique(bytes: Seq<u8>)
    requires
        hdp_failure(bytes) is None,
    ensures
        hdp_fits(hdp_frame(bytes).payload.len()),
        hdp_bytes(hdp_frame(bytes)) == bytes,
{
    let frame = hdp_frame(bytes);
    crate::bytes::lemma_be_bytes_of_value(bytes.subrange(4, 6));
    crate::bytes::lemma_be_bytes_of_value(bytes.subrange(7, 11));
    crate::bytes::lemma_be_bytes_len(HDP1_VERSION as nat, 2);
    crate::bytes::lemma_be_bytes_len(frame.payload.len(), 4);
    assert(crate::bytes::be_bytes(HDP1_VERSION as nat, 2) == bytes.subrange(4, 6));
    assert(crate::bytes::be_bytes(frame.payload.len(), 4) == bytes.subrange(7, 11));
    assert(hdp_bytes(frame) =~= bytes);
}

/// A frame is the four letters of its protocol, the version one, the code of its kind, the length of
/// its payload and the payload.
pub proof fn law_hdp_frame_layout(frame: HdpFrameView)
    requires
        frame.payload.len() <= 65525,
    ensures
        ({
            let bytes = hdp_bytes(frame);
            &&& bytes.len() == 11 + frame.payload.len()
            &&& bytes[0] == 72 && bytes[1] == 68 && bytes[2] == 80 && bytes[3] == 49
            &&& bytes[4] == 0 && bytes[5] == 1
            &&& bytes[6] == (match frame.kind {
                HdpKind::PairingStart => 1u8,
                HdpKind::PairingSubmit => 2u8,
                HdpKind::PairingAccepted => 3u8,
                HdpKind::PairingRejected => 4u8,
                HdpKind::ConnectionReady => 5u8,
                HdpKind::GoAway => 6u8,
            })
            &&& 16777216 * bytes[7] + 65536 * bytes[8] + 256 * bytes[9] + bytes[10]
                == frame.payload.len()
            &&& bytes.subrange(11, bytes.len() as int) == frame.payload
        }),
{
    let bytes = hdp_bytes(frame);
    law_hdp_round_trip(frame);
    crate::bytes::lemma_be_bytes_len(HDP1_VERSION as nat, 2);
    crate::bytes::lemma_be_bytes_len(frame.payload.len(), 4);
    reveal_with_fuel(crate::bytes::be_bytes, 5);
    let length = crate::bytes::be_bytes(frame.payload.len(), 4);
    assert(crate::bytes::be_bytes(1, 2) =~= seq![0u8, 1u8]);
    assert(HDP1_MAGIC@ =~= seq![72u8, 68u8, 80u8, 49u8]);
    assert(length[0] == bytes[7] && length[1] == bytes[8] && length[2] == bytes[9] && length[3]
        == bytes[10]);
}

/// A frame fits if and only if its payload has at most 65525 bytes, so that it has 65536 at most.
pub proof fn law_hdp_frames_are_bounded(payload_len: nat)
    ensures
        hdp_fits(payload_len) <==> payload_len <= 65525,
        hdp_fits(payload_len) <==> payload_len + 11 <= 65536,
{
}

/// Each kind has its own code, and no other code is one of a kind.
pub proof fn law_hdp_kinds_have_their_code(kind: HdpKind, code: u8)
    ensures
        kind_of(code) == Some(kind) <==> kind_code(kind) == code,
        kind_of(code) is Some <==> 1 <= code <= 6,
        1 <= kind_code(kind) <= 6,
{
}

/// A frame is read if and only if it has a whole header with the letters and the version of the
/// protocol and a known kind, is within the bound, and holds exactly the payload that it announces.
/// Each defect is told apart, in this order.
pub proof fn law_hdp_defects_are_told_apart(bytes: Seq<u8>)
    ensures
        bytes.len() < 11 <==> hdp_failure(bytes) == Some(HdpFrameError::FrameTooShort),
        bytes.len() >= 11 ==> {
            let announced = 16777216 * bytes[7] + 65536 * bytes[8] + 256 * bytes[9] + bytes[10];
            let named = bytes[0] == 72 && bytes[1] == 68 && bytes[2] == 80 && bytes[3] == 49;
            let current = bytes[4] == 0 && bytes[5] == 1;
            let known = 1 <= bytes[6] <= 6;
            &&& hdp_failure(bytes) == Some(HdpFrameError::InvalidMagic) <==> !named
            &&& hdp_failure(bytes) == Some(HdpFrameError::UnsupportedVersion) <==> named && !current
            &&& hdp_failure(bytes) == Some(HdpFrameError::UnknownKind) <==> named && current
                && !known
            &&& hdp_failure(bytes) == Some(HdpFrameError::FrameTooLarge) <==> named && current
                && known && announced > 65525
            &&& hdp_failure(bytes) == Some(HdpFrameError::LengthMismatch) <==> named && current
                && known && announced <= 65525 && bytes.len() != 11 + announced
            &&& hdp_failure(bytes) is None <==> named && current && known && announced <= 65525
                && bytes.len() == 11 + announced
        },
{
    if bytes.len() >= 11 {
        reveal_with_fuel(crate::bytes::be_value, 5);
        let magic = bytes.subrange(0, 4);
        let version = bytes.subrange(4, 6);
        let length = bytes.subrange(7, 11);
        assert(HDP1_MAGIC@ =~= seq![72u8, 68u8, 80u8, 49u8]);
        if bytes[0] == 72 && bytes[1] == 68 && bytes[2] == 80 && bytes[3] == 49 {
            assert(magic =~= HDP1_MAGIC@);
        } else {
            assert(magic[0] == bytes[0] && magic[1] == bytes[1] && magic[2] == bytes[2] && magic[3]
                == bytes[3]);
        }
        assert(version.drop_last().last() == bytes[4]);
        assert(length.drop_last().last() == bytes[9]);
        assert(length.drop_last().drop_last().last() == bytes[8]);
        assert(length.drop_last().drop_last().drop_last().last() == bytes[7]);
    }
}

} // verus!
