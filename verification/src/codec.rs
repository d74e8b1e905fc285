//! The deterministic wire format of the two round payloads.
//!
//! A transmitted message is one round-tag byte followed by the body encoded
//! here. All fields are fixed width except the commitment list, which is
//! length-prefixed; scalars and points are carried in their canonical
//! encodings and anything non-canonical is rejected on decode.

use vstd::prelude::*;
use crate::bytes::{append_bytes, be_val, copy_range, push_u16be, read_u16be, u16be};
use crate::data::{points_view, ParticipantType, Round1Data, Round1DataV, Round2Data, Round2DataV, Signature, SignatureV, SecretShare, SecretShareV};
use crate::group::{pt_canon, scalar_canon, GroupElement, Scalar};

verus! {

/// Concatenation of a sequence of byte strings.
pub open spec fn concat_bytes(s: Seq<Seq<u8>>) -> Seq<u8>
    decreases s.len(),
{
    if s.len() == 0 {
        Seq::empty()
    } else {
        s.first() + concat_bytes(s.drop_first())
    }
}

/// Every entry is the canonical 33-byte encoding of a group element.
pub open spec fn all_points(s: Seq<Seq<u8>>) -> bool {
    forall|i: int| 0 <= i < s.len() ==> (#[trigger] s[i]).len() == 33 && pt_canon(s[i])
}

/// Length of the concatenation of `n` 33-byte strings.
pub proof fn lemma_concat_points_len(s: Seq<Seq<u8>>)
    requires
        all_points(s),
    ensures
        concat_bytes(s).len() == 33 * s.len(),
    decreases s.len(),
{
    if s.len() > 0 {
        assert(all_points(s.drop_first())) by {
            assert(forall|i: int| 0 <= i < s.drop_first().len() ==> s.drop_first()[i] == s[i + 1]);
        }
        lemma_concat_points_len(s.drop_first());
    }
}

/// The `i`-th 33-byte window of the concatenation is the `i`-th entry.
pub proof fn lemma_concat_points_window(s: Seq<Seq<u8>>, i: int)
    requires
        all_points(s),
        0 <= i < s.len(),
    ensures
        concat_bytes(s).len() == 33 * s.len(),
        concat_bytes(s).subrange(33 * i, 33 * i + 33) == s[i],
    decreases i,
{
    lemma_concat_points_len(s);
    let rest = s.drop_first();
    assert(all_points(rest)) by {
        assert(forall|j: int| 0 <= j < rest.len() ==> rest[j] == s[j + 1]);
    }
    lemma_concat_points_len(rest);
    if i == 0 {
        assert(concat_bytes(s).subrange(0, 33) =~= s[0]);
    } else {
        lemma_concat_points_window(rest, i - 1);
        assert(concat_bytes(s).subrange(33 * i, 33 * i + 33) =~= concat_bytes(rest).subrange(
            33 * (i - 1),
            33 * (i - 1) + 33,
        ));
        assert(rest[i - 1] == s[i]);
    }
}

/// The wire tag of a participant type.
pub open spec fn type_byte(t: ParticipantType) -> u8 {
    match t {
        ParticipantType::Secret => 1u8,
        ParticipantType::Refresh => 2u8,
    }
}

/// The participant type of a wire tag (meaningful for tags 1 and 2 only).
pub open spec fn byte_type(x: u8) -> ParticipantType {
    if x == 1 {
        ParticipantType::Secret
    } else {
        ParticipantType::Refresh
    }
}

/// A Round-1 view that the wire format can carry.
pub open spec fn wf_r1(v: Round1DataV) -> bool {
    &&& v.sender_ordinal < 65536
    &&& scalar_canon(v.sender_id)
    &&& v.feldman_commitments.len() < 65536
    &&& all_points(v.feldman_commitments)
    &&& v.signature.r.len() == 33 && pt_canon(v.signature.r)
    &&& scalar_canon(v.signature.s)
}

/// The body of a Round-1 message.
pub open spec fn enc_r1(v: Round1DataV) -> Seq<u8> {
    u16be(v.sender_ordinal) + v.sender_id + seq![type_byte(v.sender_type)] + u16be(
        v.feldman_commitments.len() as nat,
    ) + concat_bytes(v.feldman_commitments) + v.signature.r + v.signature.s
}

/// Decoding of a Round-1 body; `None` for anything `enc_r1` cannot produce.
pub open spec fn dec_r1(b: Seq<u8>) -> Option<Round1DataV> {
    if b.len() < 37 {
        None
    } else {
        let ord = be_val(b.subrange(0, 2));
        let id = b.subrange(2, 34);
        let tb = b[34];
        let cnt = be_val(b.subrange(35, 37)) as int;
        if !scalar_canon(id) || (tb != 1 && tb != 2) || b.len() != 102 + 33 * cnt {
            None
        } else {
            let coms = Seq::new(cnt as nat, |i: int| b.subrange(37 + 33 * i, 70 + 33 * i));
            let rr = b.subrange(37 + 33 * cnt, 70 + 33 * cnt);
            let ss = b.subrange(70 + 33 * cnt, 102 + 33 * cnt);
            if all_points(coms) && pt_canon(rr) && scalar_canon(ss) {
                Some(
                    Round1DataV {
                        sender_ordinal: ord,
                        sender_id: id,
                        sender_type: byte_type(tb),
                        feldman_commitments: coms,
                        signature: SignatureV { r: rr, s: ss },
                    },
                )
            } else {
                None
            }
        }
    }
}

/// Encoding then decoding a Round-1 payload is the identity.
pub proof fn lemma_r1_round_trip(v: Round1DataV)
    requires
        wf_r1(v),
    ensures
        dec_r1(enc_r1(v)) == Some(v),
{
    let b = enc_r1(v);
    let n = v.feldman_commitments.len() as int;
    lemma_concat_points_len(v.feldman_commitments);
    assert(b.len() == 102 + 33 * n);
    assert(b.subrange(0, 2) =~= u16be(v.sender_ordinal));
    crate::bytes::lemma_u16be_val(v.sender_ordinal);
    assert(b.subrange(2, 34) =~= v.sender_id);
    assert(b[34] == type_byte(v.sender_type));
    assert(b.subrange(35, 37) =~= u16be(v.feldman_commitments.len() as nat));
    crate::bytes::lemma_u16be_val(v.feldman_commitments.len() as nat);
    assert forall|i: int| 0 <= i < n implies b.subrange(37 + 33 * i, 70 + 33 * i)
        == v.feldman_commitments[i] by {
        lemma_concat_points_window(v.feldman_commitments, i);
        assert(b.subrange(37 + 33 * i, 70 + 33 * i) =~= concat_bytes(v.feldman_commitments).subrange(
            33 * i,
            33 * i + 33,
        ));
    }
    let coms = Seq::new(n as nat, |i: int| b.subrange(37 + 33 * i, 70 + 33 * i));
    assert(coms =~= v.feldman_commitments);
    assert(b.subrange(37 + 33 * n, 70 + 33 * n) =~= v.signature.r);
    assert(b.subrange(70 + 33 * n, 102 + 33 * n) =~= v.signature.s);
    assert(byte_type(type_byte(v.sender_type)) == v.sender_type);
    assert(dec_r1(b).unwrap() =~= v);
}

/// Concatenation distributes over appending one entry.
pub proof fn lemma_concat_snoc(s: Seq<Seq<u8>>, x: Seq<u8>)
    ensures
        concat_bytes(s.push(x)) == concat_bytes(s) + x,
    decreases s.len(),
{
    if s.len() == 0 {
        let e = Seq::<Seq<u8>>::empty();
        assert(concat_bytes(e) == Seq::<u8>::empty());
        assert(s.push(x).drop_first() =~= e);
        assert(s.push(x).first() == x);
        assert(concat_bytes(s.push(x)) == x + concat_bytes(e));
        assert(s =~= e);
        assert(x + Seq::<u8>::empty() =~= Seq::<u8>::empty() + x);
        assert(concat_bytes(s.push(x)) =~= concat_bytes(s) + x);
    } else {
        assert(s.push(x).drop_first() =~= s.drop_first().push(x));
        lemma_concat_snoc(s.drop_first(), x);
        assert(concat_bytes(s.push(x)) =~= concat_bytes(s) + x);
    }
}

/// Encode the body of a Round-1 message.
pub fn encode_round1(d: &Round1Data) -> (r: Vec<u8>)
    requires
        d.sender_ordinal < 65536,
        d.feldman_commitments@.len() < 65536,
    ensures
        r@ == enc_r1(d@),
{
    let mut out: Vec<u8> = Vec::new();
    push_u16be(&mut out, d.sender_ordinal as u16);
    let idb = d.sender_id.to_bytes();
    append_bytes(&mut out, &idb);
    out.push(d.sender_type.as_u8());
    push_u16be(&mut out, d.feldman_commitments.len() as u16);
    let ghost pre = out@;
    let n = d.feldman_commitments.len();
    let mut i: usize = 0;
    while i < n
        invariant
            i <= n,
            n == d.feldman_commitments@.len(),
            out@ == pre + concat_bytes(points_view(d.feldman_commitments@).take(i as int)),
        decreases n - i,
    {
        let cb = d.feldman_commitments[i].to_bytes();
        append_bytes(&mut out, &cb);
        proof {
            let pv = points_view(d.feldman_commitments@);
            lemma_concat_snoc(pv.take(i as int), pv[i as int]);
            assert(pv.take(i + 1) =~= pv.take(i as int).push(pv[i as int]));
            assert(out@ =~= pre + concat_bytes(pv.take(i + 1)));
        }
        i += 1;
    }
    proof {
        let pv = points_view(d.feldman_commitments@);
        assert(pv.take(n as int) =~= pv);
    }
    let rb = d.signature.r.to_bytes();
    append_bytes(&mut out, &rb);
    let sb = d.signature.s.to_bytes();
    append_bytes(&mut out, &sb);
    proof {
        assert((d.sender_ordinal as u16) as nat == d.sender_ordinal as nat);
        assert(out@ =~= enc_r1(d@));
    }
    out
}

/// Decode the body of a Round-1 message; accepts exactly what
/// `encode_round1` produces.
pub fn decode_round1(b: &Vec<u8>) -> (r: Option<Round1Data>)
    ensures
        r is Some <==> dec_r1(b@) is Some,
        r is Some ==> Some(r.unwrap()@) == dec_r1(b@),
{
    if b.len() < 37 {
        return None;
    }
    let ord = read_u16be(b[0], b[1]);
    proof {
        assert(seq![b@[0], b@[1]] =~= b@.subrange(0, 2));
    }
    let idb = copy_range(b, 2, 34);
    let sender_id = match Scalar::from_bytes(&idb) {
        Option::Some(s) => s,
        Option::None => {
            return None;
        },
    };
    let tb = b[34];
    let sender_type = match ParticipantType::from_u8(tb) {
        Option::Some(t) => t,
        Option::None => {
            return None;
        },
    };
    let cntu = read_u16be(b[35], b[36]);
    proof {
        assert(seq![b@[35], b@[36]] =~= b@.subrange(35, 37));
    }
    let cnt = cntu as usize;
    if b.len() != 102 + 33 * cnt {
        return None;
    }
    let ghost scoms = Seq::new(cnt as nat, |k: int| b@.subrange(37 + 33 * k, 70 + 33 * k));
    let mut coms: Vec<GroupElement> = Vec::new();
    let mut i: usize = 0;
    while i < cnt
        invariant
            i <= cnt,
            cnt < 65536,
            b@.len() == 102 + 33 * cnt,
            scoms == Seq::new(cnt as nat, |k: int| b@.subrange(37 + 33 * k, 70 + 33 * k)),
            coms@.len() == i,
            points_view(coms@) == scoms.take(i as int),
            forall|j: int| 0 <= j < i ==> (#[trigger] scoms[j]).len() == 33 && pt_canon(scoms[j]),
        decreases cnt - i,
    {
        let chunk = copy_range(b, 37 + 33 * i, 70 + 33 * i);
        match GroupElement::from_bytes(&chunk) {
            Option::Some(g) => {
                coms.push(g);
                proof {
                    assert(scoms[i as int] == chunk@);
                    assert(points_view(coms@) =~= scoms.take(i + 1));
                }
            },
            Option::None => {
                proof {
                    assert(scoms[i as int] == chunk@);
                    assert(!(scoms[i as int].len() == 33 && pt_canon(scoms[i as int])));
                    assert(!all_points(scoms));
                }
                return None;
            },
        }
        i += 1;
    }
    proof {
        assert(scoms.take(cnt as int) =~= scoms);
        assert(all_points(scoms)) by {
            assert(forall|j: int|
                0 <= j < cnt ==> #[trigger] scoms[j] == points_view(coms@)[j]);
        }
    }
    let rrb = copy_range(b, 37 + 33 * cnt, 70 + 33 * cnt);
    let sig_r = match GroupElement::from_bytes(&rrb) {
        Option::Some(g) => g,
        Option::None => {
            return None;
        },
    };
    let ssb = copy_range(b, 70 + 33 * cnt, 102 + 33 * cnt);
    let sig_s = match Scalar::from_bytes(&ssb) {
        Option::Some(s) => s,
        Option::None => {
            return None;
        },
    };
    let out = Round1Data {
        sender_ordinal: ord as usize,
        sender_id,
        sender_type,
        feldman_commitments: coms,
        signature: Signature { r: sig_r, s: sig_s },
    };
    proof {
        assert(out@ =~= dec_r1(b@).unwrap());
    }
    Some(out)
}

/// Encode the body of a Round-2 message.
pub fn encode_round2(d: &Round2Data) -> (r: Vec<u8>)
    requires
        d.sender_ordinal < 65536,
    ensures
        r@ == enc_r2(d@),
{
    let mut out: Vec<u8> = Vec::new();
    push_u16be(&mut out, d.sender_ordinal as u16);
    let idb = d.sender_id.to_bytes();
    append_bytes(&mut out, &idb);
    out.push(d.sender_type.as_u8());
    let sid = d.secret_share.identifier.to_bytes();
    append_bytes(&mut out, &sid);
    let sval = d.secret_share.value.to_bytes();
    append_bytes(&mut out, &sval);
    append_bytes(&mut out, &d.transcript_hash);
    proof {
        assert((d.sender_ordinal as u16) as nat == d.sender_ordinal as nat);
        assert(out@ =~= enc_r2(d@));
    }
    out
}

/// Decode the body of a Round-2 message; accepts exactly what
/// `encode_round2` produces.
pub fn decode_round2(b: &Vec<u8>) -> (r: Option<Round2Data>)
    ensures
        r is Some <==> dec_r2(b@) is Some,
        r is Some ==> Some(r.unwrap()@) == dec_r2(b@),
{
    if b.len() != 131 {
        return None;
    }
    let ord = read_u16be(b[0], b[1]);
    proof {
        assert(seq![b@[0], b@[1]] =~= b@.subrange(0, 2));
    }
    let idb = copy_range(b, 2, 34);
    let sender_id = match Scalar::from_bytes(&idb) {
        Option::Some(s) => s,
        Option::None => {
            return None;
        },
    };
    let tb = b[34];
    let sender_type = match ParticipantType::from_u8(tb) {
        Option::Some(t) => t,
        Option::None => {
            return None;
        },
    };
    let sidb = copy_range(b, 35, 67);
    let share_id = match Scalar::from_bytes(&sidb) {
        Option::Some(s) => s,
        Option::None => {
            return None;
        },
    };
    let svalb = copy_range(b, 67, 99);
    let share_val = match Scalar::from_bytes(&svalb) {
        Option::Some(s) => s,
        Option::None => {
            return None;
        },
    };
    let hash = copy_range(b, 99, 131);
    let out = Round2Data {
        sender_ordinal: ord as usize,
        sender_id,
        sender_type,
        secret_share: SecretShare { identifier: share_id, value: share_val },
        transcript_hash: hash,
    };
    proof {
        assert(out@ =~= dec_r2(b@).unwrap());
    }
    Some(out)
}

/// A Round-2 view that the wire format can carry.
pub open spec fn wf_r2(v: Round2DataV) -> bool {
    &&& v.sender_ordinal < 65536
    &&& scalar_canon(v.sender_id)
    &&& scalar_canon(v.secret_share.identifier)
    &&& scalar_canon(v.secret_share.value)
    &&& v.transcript_hash.len() == 32
}

/// The body of a Round-2 message.
pub open spec fn enc_r2(v: Round2DataV) -> Seq<u8> {
    u16be(v.sender_ordinal) + v.sender_id + seq![type_byte(v.sender_type)]
        + v.secret_share.identifier + v.secret_share.value + v.transcript_hash
}

/// Decoding of a Round-2 body; `None` for anything `enc_r2` cannot produce.
pub open spec fn dec_r2(b: Seq<u8>) -> Option<Round2DataV> {
    if b.len() != 131 {
        None
    } else {
        let ord = be_val(b.subrange(0, 2));
        let id = b.subrange(2, 34);
        let tb = b[34];
        let sid = b.subrange(35, 67);
        let sval = b.subrange(67, 99);
        let hash = b.subrange(99, 131);
        if scalar_canon(id) && (tb == 1 || tb == 2) && scalar_canon(sid) && scalar_canon(sval) {
            Some(
                Round2DataV {
                    sender_ordinal: ord,
                    sender_id: id,
                    sender_type: byte_type(tb),
                    secret_share: SecretShareV { identifier: sid, value: sval },
                    transcript_hash: hash,
                },
            )
        } else {
            None
        }
    }
}

/// Encoding then decoding a Round-2 payload is the identity.
pub proof fn lemma_r2_round_trip(v: Round2DataV)
    requires
        wf_r2(v),
    ensures
        dec_r2(enc_r2(v)) == Some(v),
{
    let b = enc_r2(v);
    assert(b.len() == 131);
    assert(b.subrange(0, 2) =~= u16be(v.sender_ordinal));
    crate::bytes::lemma_u16be_val(v.sender_ordinal);
    assert(b.subrange(2, 34) =~= v.sender_id);
    assert(b[34] == type_byte(v.sender_type));
    assert(b.subrange(35, 67) =~= v.secret_share.identifier);
    assert(b.subrange(67, 99) =~= v.secret_share.value);
    assert(b.subrange(99, 131) =~= v.transcript_hash);
    assert(byte_type(type_byte(v.sender_type)) == v.sender_type);
    assert(dec_r2(b).unwrap() =~= v);
}

} // verus!
