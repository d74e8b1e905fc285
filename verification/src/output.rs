//! Per-round fan-out: the finite sequence of point-to-point messages a
//! participant must send after each successful `run`.

use vstd::prelude::*;
use crate::codec::{enc_r1, enc_r2, encode_round1, encode_round2};
use crate::data::{
    points_view, ParticipantRoundOutput, ParticipantType, Round1DataV, Round2DataV, SecretShare,
    SecretShareV, Signature, SignatureV,
};
use crate::group::Scalar;
use crate::data::Round1Data;

verus! {

/// What a Round-1 generator sends to every other participant.
pub struct Round1OutputGenerator {
    /// All participant identifiers, by ordinal.
    pub participant_ids: Vec<Scalar>,
    /// The sender's participant type.
    pub sender_type: ParticipantType,
    /// The sender's ordinal.
    pub sender_ordinal: usize,
    /// The sender's identifier.
    pub sender_id: Scalar,
    /// The sender's Feldman commitment vector.
    pub feldman_commitments: Vec<crate::group::GroupElement>,
    /// The sender's Schnorr signature.
    pub signature: Signature,
}

/// What a Round-2 generator sends to each participant whose Round 1 was
/// accepted.
pub struct Round2OutputGenerator {
    /// The accepted identifiers, by ordinal; `None` where Round 1 was not
    /// accepted.
    pub participant_ids: Vec<Option<Scalar>>,
    /// The sender's ordinal.
    pub sender_ordinal: usize,
    /// The sender's identifier.
    pub sender_id: Scalar,
    /// The sender's participant type.
    pub sender_type: ParticipantType,
    /// One share per recipient ordinal.
    pub secret_shares: Vec<SecretShare>,
    /// The sender's transcript hash.
    pub transcript_hash: Vec<u8>,
}

/// The output of one `run` call: what to send, per recipient.
pub enum RoundOutputGenerator {
    /// Broadcast of the Round-1 payload.
    Round1(Round1OutputGenerator),
    /// Point-to-point distribution of the Round-2 payloads.
    Round2(Round2OutputGenerator),
    /// Nothing left to send; the protocol is complete.
    Round3,
}

/// The one message a Round-1 generator sends (the same bytes go to every
/// recipient): the round tag followed by the encoded payload.
pub open spec fn round1_msg(g: Round1OutputGenerator) -> Seq<u8> {
    seq![1u8] + enc_r1(
        Round1DataV {
            sender_ordinal: g.sender_ordinal as nat,
            sender_id: g.sender_id@,
            sender_type: g.sender_type,
            feldman_commitments: points_view(g.feldman_commitments@),
            signature: g.signature@,
        },
    )
}

/// The message a Round-2 generator sends to recipient ordinal `o`: the round
/// tag followed by the encoded payload carrying that recipient's share.
pub open spec fn round2_msg(g: Round2OutputGenerator, o: int) -> Seq<u8> {
    seq![2u8] + enc_r2(
        Round2DataV {
            sender_ordinal: g.sender_ordinal as nat,
            sender_id: g.sender_id@,
            sender_type: g.sender_type,
            secret_share: g.secret_shares@[o]@,
            transcript_hash: g.transcript_hash@,
        },
    )
}

impl RoundOutputGenerator {
    /// The messages to send, in recipient-ordinal order: in Round 1 the
    /// broadcast payload for every other participant, in Round 2 the
    /// per-recipient payload for every other accepted participant, and
    /// nothing after Round 3.
    pub fn iter(&self) -> (r: Vec<ParticipantRoundOutput>)
        requires
            self matches RoundOutputGenerator::Round1(g) ==> (g.sender_ordinal
                < g.participant_ids@.len() && g.sender_ordinal < 65536
                && g.feldman_commitments@.len() < 65536),
            self matches RoundOutputGenerator::Round2(g) ==> (g.sender_ordinal < 65536
                && g.secret_shares@.len() == g.participant_ids@.len()),
        ensures
            (forall|k1: int, k2: int|
                0 <= k1 < k2 < r@.len() ==> r@[k1].dst_ordinal < r@[k2].dst_ordinal),
            self matches RoundOutputGenerator::Round1(g) ==> {
                &&& r@.len() == g.participant_ids@.len() - 1
                &&& (forall|k: int|
                    0 <= k < r@.len() ==> {
                        let m = #[trigger] r@[k];
                        &&& m.dst_ordinal == (if k < g.sender_ordinal {
                            k
                        } else {
                            k + 1
                        })
                        &&& m.dst_id@ == g.participant_ids@[m.dst_ordinal as int]@
                        &&& m.data@ == round1_msg(*g)
                    })
            },
            self matches RoundOutputGenerator::Round2(g) ==> {
                &&& (forall|k: int|
                    0 <= k < r@.len() ==> {
                        let m = #[trigger] r@[k];
                        &&& m.dst_ordinal < g.participant_ids@.len()
                        &&& m.dst_ordinal != g.sender_ordinal
                        &&& g.participant_ids@[m.dst_ordinal as int] is Some
                        &&& m.dst_id@ == g.participant_ids@[m.dst_ordinal as int]->0@
                        &&& m.data@ == round2_msg(*g, m.dst_ordinal as int)
                    })
                &&& (forall|o: int|
                    0 <= o < g.participant_ids@.len() && o != g.sender_ordinal
                        && (#[trigger] g.participant_ids@[o]) is Some ==> exists|k: int|
                        0 <= k < r@.len() && (#[trigger] r@[k]).dst_ordinal == o)
            },
            self is Round3 ==> r@.len() == 0,
    {
        let mut out: Vec<ParticipantRoundOutput> = Vec::new();
        match self {
            RoundOutputGenerator::Round1(g) => {
                let payload = Round1Data {
                    sender_ordinal: g.sender_ordinal,
                    sender_id: g.sender_id.duplicate(),
                    sender_type: g.sender_type,
                    feldman_commitments: {
                        let mut cs: Vec<crate::group::GroupElement> = Vec::new();
                        let cn = g.feldman_commitments.len();
                        let mut k: usize = 0;
                        while k < cn
                            invariant
                                k <= cn,
                                cn == g.feldman_commitments@.len(),
                                cs@.len() == k,
                                forall|j: int|
                                    0 <= j < k ==> (#[trigger] cs@[j])@
                                        == g.feldman_commitments@[j]@,
                            decreases cn - k,
                        {
                            cs.push(g.feldman_commitments[k].duplicate());
                            k += 1;
                        }
                        cs
                    },
                    signature: g.signature.duplicate(),
                };
                let mut body = encode_round1(&payload);
                proof {
                    assert(points_view(payload.feldman_commitments@) =~= points_view(
                        g.feldman_commitments@,
                    ));
                    assert(payload@ =~= Round1DataV {
                        sender_ordinal: g.sender_ordinal as nat,
                        sender_id: g.sender_id@,
                        sender_type: g.sender_type,
                        feldman_commitments: points_view(g.feldman_commitments@),
                        signature: g.signature@,
                    });
                }
                let mut msg: Vec<u8> = Vec::new();
                msg.push(1u8);
                crate::bytes::append_bytes(&mut msg, &body);
                proof {
                    assert(msg@ =~= round1_msg(*g));
                }
                let n = g.participant_ids.len();
                let mut o: usize = 0;
                while o < n
                    invariant
                        o <= n,
                        n == g.participant_ids@.len(),
                        msg@ == round1_msg(*g),
                        g.sender_ordinal < n,
                        out@.len() == (if o <= g.sender_ordinal {
                            o as int
                        } else {
                            o - 1
                        }),
                        forall|k: int|
                            0 <= k < out@.len() ==> {
                                let m = #[trigger] out@[k];
                                &&& m.dst_ordinal == (if k < g.sender_ordinal {
                                    k
                                } else {
                                    k + 1
                                })
                                &&& m.dst_ordinal < o
                                &&& m.dst_id@ == g.participant_ids@[m.dst_ordinal as int]@
                                &&& m.data@ == round1_msg(*g)
                            },
                    decreases n - o,
                {
                    if o != g.sender_ordinal {
                        let mut data: Vec<u8> = Vec::new();
                        crate::bytes::append_bytes(&mut data, &msg);
                        proof {
                            assert(data@ =~= msg@);
                        }
                        out.push(
                            ParticipantRoundOutput {
                                dst_ordinal: o,
                                dst_id: g.participant_ids[o].duplicate(),
                                data,
                            },
                        );
                    }
                    o += 1;
                }
            },
            RoundOutputGenerator::Round2(g) => {
                let n = g.participant_ids.len();
                let mut o: usize = 0;
                while o < n
                    invariant
                        o <= n,
                        n == g.participant_ids@.len(),
                        n == g.secret_shares@.len(),
                        g.sender_ordinal < 65536,
                        forall|k1: int, k2: int|
                            0 <= k1 < k2 < out@.len() ==> out@[k1].dst_ordinal
                                < out@[k2].dst_ordinal,
                        forall|k: int|
                            0 <= k < out@.len() ==> {
                                let m = #[trigger] out@[k];
                                &&& m.dst_ordinal < o
                                &&& m.dst_ordinal != g.sender_ordinal
                                &&& g.participant_ids@[m.dst_ordinal as int] is Some
                                &&& m.dst_id@ == g.participant_ids@[m.dst_ordinal as int]->0@
                                &&& m.data@ == round2_msg(*g, m.dst_ordinal as int)
                            },
                        forall|oo: int|
                            0 <= oo < o && oo != g.sender_ordinal
                                && (#[trigger] g.participant_ids@[oo]) is Some ==> exists|k: int|
                                0 <= k < out@.len() && (#[trigger] out@[k]).dst_ordinal == oo,
                    decreases n - o,
                {
                    if o != g.sender_ordinal {
                        match &g.participant_ids[o] {
                            Option::Some(dst_id) => {
                                let payload = crate::data::Round2Data {
                                    sender_ordinal: g.sender_ordinal,
                                    sender_id: g.sender_id.duplicate(),
                                    sender_type: g.sender_type,
                                    secret_share: g.secret_shares[o].duplicate(),
                                    transcript_hash: {
                                        let mut h: Vec<u8> = Vec::new();
                                        crate::bytes::append_bytes(&mut h, &g.transcript_hash);
                                        proof {
                                            assert(h@ =~= g.transcript_hash@);
                                        }
                                        h
                                    },
                                };
                                let body = encode_round2(&payload);
                                let mut data: Vec<u8> = Vec::new();
                                data.push(2u8);
                                crate::bytes::append_bytes(&mut data, &body);
                                proof {
                                    assert(payload@ =~= Round2DataV {
                                        sender_ordinal: g.sender_ordinal as nat,
                                        sender_id: g.sender_id@,
                                        sender_type: g.sender_type,
                                        secret_share: g.secret_shares@[o as int]@,
                                        transcript_hash: g.transcript_hash@,
                                    });
                                    assert(data@ =~= round2_msg(*g, o as int));
                                }
                                let ghost out0 = out@;
                                out.push(
                                    ParticipantRoundOutput {
                                        dst_ordinal: o,
                                        dst_id: dst_id.duplicate(),
                                        data,
                                    },
                                );
                                proof {
                                    assert(forall|k: int|
                                        0 <= k < out0.len() ==> out@[k] == out0[k]);
                                    assert(out@[out@.len() - 1].dst_ordinal == o as int);
                                    assert(forall|oo: int|
                                        0 <= oo < o && oo != g.sender_ordinal
                                            && (#[trigger] g.participant_ids@[oo]) is Some
                                            ==> exists|k: int|
                                            0 <= k < out0.len() && (#[trigger] out0[k]).dst_ordinal
                                                == oo);
                                }
                            },
                            Option::None => {},
                        }
                    }
                    o += 1;
                }
            },
            RoundOutputGenerator::Round3 => {},
        }
        out
    }
}

} // verus!
