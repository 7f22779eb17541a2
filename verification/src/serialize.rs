//! DER serialization of the coarse choice value.
//!
//! The chosen alternative is written as an implicit, context-specific tag
//! whose number is the hour, followed by the DER INTEGER contents of the
//! minute payload. Implicit tagging replaces the INTEGER's universal tag
//! rather than wrapping it, so the output is a single TLV.

use vstd::prelude::*;

use crate::coarse::CompactTimeCoarse;
use crate::coarse::choice_of;
use crate::coarse::lemma_hour_choice_bijection;
use crate::coarse::payload_of;
use crate::coarse::tag_of;
use crate::time::DosTime;

verus! {

/// A rejection by the underlying DER writer: opaque and non-recoverable.
/// Reserved in the result type; the writer has no failing path for the
/// values this library hands it.
#[derive(Clone, Copy, Debug, PartialEq, Eq, Structural)]
pub enum EncodeError {
    EncodeFailure,
}

#[verifier::external_type_specification]
#[verifier::external_body]
pub struct ExDerError(der::Error);

/// The DER TLV of an implicitly tagged, context-specific, primitive value
/// whose contents are the DER INTEGER encoding of one unsigned byte: the tag
/// octet is the context-specific class bits joined with the tag number, the
/// length octet follows, then the minimal non-negative integer contents,
/// with a leading zero octet exactly when the payload's high bit is set.
pub open spec fn der_tlv(tag: u8, payload: u8) -> Seq<u8>
    recommends
        tag <= 30,
{
    if payload < 0x80 {
        seq![(0x80 + tag) as u8, 0x01u8, payload]
    } else {
        seq![(0x80 + tag) as u8, 0x02u8, 0x00u8, payload]
    }
}

/// The DER bytes of a choice value: its variant index as the context-specific
/// tag number, its payload as the integer contents.
pub open spec fn spec_der_bytes(c: CompactTimeCoarse) -> Seq<u8> {
    der_tlv(tag_of(c), payload_of(c))
}

/// Relies on `der::Encode::to_der` for `der::asn1::ContextSpecific<u8>` with
/// `TagMode::Implicit`: the encoding is the single-octet context-specific
/// primitive tag (tag numbers up to 30 fit one octet), a short-form length
/// octet, and the minimal DER INTEGER contents of the payload, which gain a
/// leading zero octet when the payload is 0x80 or more. For tag numbers up
/// to 30 the call cannot fail: the output buffer is sized from the computed
/// length before writing, and every other error path needs a tag above 30.
#[verifier::external_body]
fn encode_implicit_context_u8(tag: u8, payload: u8) -> (r: Result<Vec<u8>, der::Error>)
    requires
        tag <= 30,
    ensures
        r is Ok,
        r matches Ok(bytes) ==> bytes@ == der_tlv(tag, payload),
{
    let field = der::asn1::ContextSpecific {
        tag_number: der::TagNumber(tag as u32),
        tag_mode: der::TagMode::Implicit,
        value: payload,
    };
    der::Encode::to_der(&field)
}

impl CompactTimeCoarse {
    /// Serializes this choice value to DER. Serialization succeeds for
    /// every choice value, and the result is exactly the TLV with the
    /// variant index as context-specific tag number and the payload as
    /// integer contents. A writer failure would surface as
    /// `EncodeError::EncodeFailure`, but the in-memory writer has no
    /// failing path for these bounded values.
    pub fn to_der_bytes(&self) -> (r: Result<Vec<u8>, EncodeError>)
        ensures
            r is Ok,
            r matches Ok(bytes) ==> bytes@ == spec_der_bytes(*self),
    {
        let (tag, payload) = self.tag_and_payload();
        proof {
            lemma_hour_choice_bijection();
        }
        match encode_implicit_context_u8(tag, payload) {
            Ok(bytes) => Ok(bytes),
            Err(_) => Err(EncodeError::EncodeFailure),
        }
    }
}

/// Encoding the same validated time twice yields identical DER bytes: the
/// choice value is determined by the time, and any two successful
/// serializations of it are byte-for-byte equal.
pub proof fn lemma_encoding_deterministic(
    t: DosTime,
    c1: CompactTimeCoarse,
    c2: CompactTimeCoarse,
    b1: Seq<u8>,
    b2: Seq<u8>,
)
    requires
        t.wf(),
        c1 == choice_of(t.spec_hours(), t.spec_minutes()),
        c2 == choice_of(t.spec_hours(), t.spec_minutes()),
        b1 == spec_der_bytes(c1),
        b2 == spec_der_bytes(c2),
    ensures
        c1 == c2,
        b1 == b2,
{
}

} // verus!
