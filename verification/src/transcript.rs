//! The Round-2 agreement transcript.
//!
//! Every accepted Round-1 payload is absorbed, field by field, into a
//! `merlin` transcript seeded with the label `"Frost DKG - Round 2
//! Transcript"`, and a 32-byte challenge is extracted under the label
//! `"round 2 result"`. The transcript is modeled by the sequence of framed
//! (tag, message) pairs it has absorbed: each merlin label used here is
//! assigned one fixed tag byte, and the challenge is a function of the
//! absorbed sequence alone, so peers that absorbed the same payloads derive
//! the same hash.

use vstd::prelude::*;
use crate::bytes::{push_u16be, u16be, u64le};
use crate::data::{Round1Data, Round1DataV};

verus! {

#[verifier::external_type_specification]
#[verifier::external_body]
pub struct ExTranscript(merlin::Transcript);

/// What a transcript has absorbed, in this library's framing: one `frame`
/// per `append_message` or `append_u64` call made on it.
pub uninterp spec fn transcript_data(t: merlin::Transcript) -> Seq<u8>;

/// The 32 challenge bytes extracted under the label `"round 2 result"` from
/// a transcript that absorbed `data`.
pub uninterp spec fn challenge_of(data: Seq<u8>) -> Seq<u8>;

/// The framing of one absorbed message: its label's tag byte, the message
/// length, and the message bytes.
pub open spec fn frame(tag: u8, msg: Seq<u8>) -> Seq<u8> {
    seq![tag] + u16be(msg.len() as nat) + msg
}

/// Tag byte standing for the merlin label `"sender_ordinal"`.
pub open spec fn tag_sender_ordinal() -> u8 {
    1u8
}

/// Tag byte standing for the merlin label `"sender_id"`.
pub open spec fn tag_sender_id() -> u8 {
    2u8
}

/// Tag byte standing for the merlin label `"sender_type"`.
pub open spec fn tag_sender_type() -> u8 {
    3u8
}

/// Tag byte standing for the merlin label `"signature.r"`.
pub open spec fn tag_signature_r() -> u8 {
    4u8
}

/// Tag byte standing for the merlin label `"signature.s"`.
pub open spec fn tag_signature_s() -> u8 {
    5u8
}

/// Tag byte standing for the merlin label `"feldman_commitments.len()"`.
pub open spec fn tag_commitments_len() -> u8 {
    6u8
}

/// Tag byte standing for the merlin label `"feldman_commitments_index"`.
pub open spec fn tag_commitment_index() -> u8 {
    7u8
}

/// Tag byte standing for the merlin label `"feldman_commitment"`.
pub open spec fn tag_commitment() -> u8 {
    8u8
}

/// Relies on `merlin::Transcript::new` with the label
/// `"Frost DKG - Round 2 Transcript"`; the fresh transcript has absorbed
/// nothing.
#[verifier::external_body]
pub(crate) fn transcript_new() -> (t: merlin::Transcript)
    ensures
        transcript_data(t) == Seq::<u8>::empty(),
{
    merlin::Transcript::new(b"Frost DKG - Round 2 Transcript")
}

/// Relies on `merlin::Transcript::append_message` with label `"sender_ordinal"`.
#[verifier::external_body]
pub(crate) fn append_sender_ordinal(t: &mut merlin::Transcript, m: &Vec<u8>)
    requires
        m@.len() < 65536,
    ensures
        transcript_data(*final(t)) == transcript_data(*old(t)) + frame(tag_sender_ordinal(), m@),
{
    t.append_message(b"sender_ordinal", m.as_slice());
}

/// Relies on `merlin::Transcript::append_message` with label `"sender_id"`.
#[verifier::external_body]
pub(crate) fn append_sender_id(t: &mut merlin::Transcript, m: &Vec<u8>)
    requires
        m@.len() < 65536,
    ensures
        transcript_data(*final(t)) == transcript_data(*old(t)) + frame(tag_sender_id(), m@),
{
    t.append_message(b"sender_id", m.as_slice());
}

/// Relies on `merlin::Transcript::append_message` with label `"sender_type"`.
#[verifier::external_body]
pub(crate) fn append_sender_type(t: &mut merlin::Transcript, m: &Vec<u8>)
    requires
        m@.len() < 65536,
    ensures
        transcript_data(*final(t)) == transcript_data(*old(t)) + frame(tag_sender_type(), m@),
{
    t.append_message(b"sender_type", m.as_slice());
}

/// Relies on `merlin::Transcript::append_message` with label `"signature.r"`.
#[verifier::external_body]
pub(crate) fn append_signature_r(t: &mut merlin::Transcript, m: &Vec<u8>)
    requires
        m@.len() < 65536,
    ensures
        transcript_data(*final(t)) == transcript_data(*old(t)) + frame(tag_signature_r(), m@),
{
    t.append_message(b"signature.r", m.as_slice());
}

/// Relies on `merlin::Transcript::append_message` with label `"signature.s"`.
#[verifier::external_body]
pub(crate) fn append_signature_s(t: &mut merlin::Transcript, m: &Vec<u8>)
    requires
        m@.len() < 65536,
    ensures
        transcript_data(*final(t)) == transcript_data(*old(t)) + frame(tag_signature_s(), m@),
{
    t.append_message(b"signature.s", m.as_slice());
}

/// Relies on `merlin::Transcript::append_message` with label
/// `"feldman_commitments.len()"`.
#[verifier::external_body]
pub(crate) fn append_commitments_len(t: &mut merlin::Transcript, m: &Vec<u8>)
    requires
        m@.len() < 65536,
    ensures
        transcript_data(*final(t)) == transcript_data(*old(t)) + frame(tag_commitments_len(), m@),
{
    t.append_message(b"feldman_commitments.len()", m.as_slice());
}

/// Relies on `merlin::Transcript::append_u64` with label
/// `"feldman_commitments_index"`; merlin absorbs the little-endian bytes.
#[verifier::external_body]
pub(crate) fn append_commitment_index(t: &mut merlin::Transcript, i: u64)
    ensures
        transcript_data(*final(t)) == transcript_data(*old(t)) + frame(
            tag_commitment_index(),
            u64le(i as nat),
        ),
{
    t.append_u64(b"feldman_commitments_index", i);
}

/// Relies on `merlin::Transcript::append_message` with label
/// `"feldman_commitment"`.
#[verifier::external_body]
pub(crate) fn append_commitment(t: &mut merlin::Transcript, m: &Vec<u8>)
    requires
        m@.len() < 65536,
    ensures
        transcript_data(*final(t)) == transcript_data(*old(t)) + frame(tag_commitment(), m@),
{
    t.append_message(b"feldman_commitment", m.as_slice());
}

/// Relies on `merlin::Transcript::challenge_bytes` with label
/// `"round 2 result"`: 32 bytes determined by the absorbed data alone.
#[verifier::external_body]
pub(crate) fn transcript_challenge(t: merlin::Transcript) -> (r: Vec<u8>)
    ensures
        r@ == challenge_of(transcript_data(t)),
        r@.len() == 32,
{
    let mut t = t;
    let mut buf = [0u8; 32];
    t.challenge_bytes(b"round 2 result", &mut buf);
    buf.to_vec()
}

/// The frames contributed by the first `n` commitments of a payload.
pub open spec fn com_frames_upto(coms: Seq<Seq<u8>>, n: int) -> Seq<u8>
    decreases n,
{
    if n <= 0 {
        Seq::empty()
    } else {
        com_frames_upto(coms, n - 1) + frame(tag_commitment_index(), u64le((n - 1) as nat))
            + frame(tag_commitment(), coms[n - 1])
    }
}

/// All frames contributed by one Round-1 payload, in absorption order.
pub open spec fn r1_frames(v: Round1DataV) -> Seq<u8> {
    frame(tag_sender_ordinal(), u16be(v.sender_ordinal)) + frame(tag_sender_id(), v.sender_id)
        + frame(tag_sender_type(), u16be(v.sender_type.num() as nat)) + frame(
        tag_signature_r(),
        v.signature.r,
    ) + frame(tag_signature_s(), v.signature.s) + frame(
        tag_commitments_len(),
        u16be(v.feldman_commitments.len() as nat),
    ) + com_frames_upto(v.feldman_commitments, v.feldman_commitments.len() as int)
}

/// The whole transcript input over an ordinal-indexed buffer of accepted
/// Round-1 payloads, in ordinal order.
pub open spec fn transcript_input(s: Seq<Option<Round1DataV>>) -> Seq<u8>
    decreases s.len(),
{
    if s.len() == 0 {
        Seq::empty()
    } else {
        transcript_input(s.drop_last()) + match s.last() {
            Some(v) => r1_frames(v),
            None => Seq::empty(),
        }
    }
}

impl Round1Data {
    /// Absorb this payload into the transcript, field by field.
    pub(crate) fn add_to_transcript(&self, t: &mut merlin::Transcript)
        requires
            self.sender_ordinal < 65536,
            self.feldman_commitments@.len() < 65536,
        ensures
            transcript_data(*final(t)) == transcript_data(*old(t)) + r1_frames(self@),
    {
        let mut m: Vec<u8> = Vec::new();
        push_u16be(&mut m, self.sender_ordinal as u16);
        append_sender_ordinal(t, &m);
        let idb = self.sender_id.to_bytes();
        append_sender_id(t, &idb);
        let mut tm: Vec<u8> = Vec::new();
        push_u16be(&mut tm, self.sender_type.as_u8() as u16);
        append_sender_type(t, &tm);
        let rb = self.signature.r.to_bytes();
        append_signature_r(t, &rb);
        let sb = self.signature.s.to_bytes();
        append_signature_s(t, &sb);
        let mut cm: Vec<u8> = Vec::new();
        push_u16be(&mut cm, self.feldman_commitments.len() as u16);
        append_commitments_len(t, &cm);
        let ghost base = transcript_data(*t);
        let n = self.feldman_commitments.len();
        let mut i: usize = 0;
        while i < n
            invariant
                i <= n,
                n == self.feldman_commitments@.len(),
                n < 65536,
                transcript_data(*t) == base + com_frames_upto(
                    crate::data::points_view(self.feldman_commitments@),
                    i as int,
                ),
            decreases n - i,
        {
            append_commitment_index(t, i as u64);
            let cb = self.feldman_commitments[i].to_bytes();
            append_commitment(t, &cb);
            proof {
                let pv = crate::data::points_view(self.feldman_commitments@);
                assert(transcript_data(*t) =~= base + com_frames_upto(pv, i + 1));
            }
            i += 1;
        }
        proof {
            assert(transcript_data(*t) =~= transcript_data(*old(t)) + r1_frames(self@));
        }
    }
}

} // verus!
