//! Round 1: commit to the local polynomial and prove knowledge of its
//! constant coefficient; accept and validate the peers' commitments.

use vstd::prelude::*;
use crate::bytes::{append_bytes, push_u16be, u16be};
use crate::codec::{concat_bytes, lemma_concat_snoc};
use crate::data::{points_view, scalars_view, ParticipantType, Round, Round1Data, Round1DataV};
use crate::error::{DkgResult, Error};
use crate::group::{
    h2s_of, identity_enc, pt_mul, pt_mul_of, pt_sub, pt_sub_of, sc_hash_to_scalar, sc_random,
    scalar_order, GroupElement, Scalar,
};
use crate::output::{Round1OutputGenerator, RoundOutputGenerator};
use crate::participant::Participant;

verus! {

/// The domain-separated byte string whose hash is the Schnorr challenge:
/// the claimed identifier, ordinal, type, the ceremony shape, the base, the
/// full identifier list, the commitment `R`, and the Feldman commitments.
pub open spec fn schnorr_bytes(
    id: Seq<u8>,
    ordinal: nat,
    ptype: ParticipantType,
    threshold: nat,
    limit: nat,
    base: Seq<u8>,
    all_ids: Seq<Seq<u8>>,
    big_r: Seq<u8>,
    commitments: Seq<Seq<u8>>,
) -> Seq<u8> {
    id + u16be(ordinal) + u16be(ptype.num() as nat) + u16be(threshold) + u16be(limit) + base
        + concat_bytes(all_ids) + big_r + concat_bytes(commitments)
}

impl Participant {
    /// The Schnorr verification equation, over a Round-1 payload as this
    /// participant sees it: `H*s - C0*c` equals the claimed `R`, where `c`
    /// hashes the domain-separated bytes.
    pub open spec fn schnorr_ok(&self, d: Round1DataV) -> bool {
        let c = h2s_of(
            schnorr_bytes(
                d.sender_id,
                d.sender_ordinal,
                d.sender_type,
                self.threshold as nat,
                self.limit as nat,
                self.message_generator@,
                scalars_view(self.all_participant_ids@),
                d.signature.r,
                d.feldman_commitments,
            ),
        );
        pt_sub_of(
            pt_mul_of(self.message_generator@, d.signature.s),
            pt_mul_of(d.feldman_commitments[0], c),
        ) == d.signature.r
    }

    /// Build the domain-separated bytes for the Schnorr challenge.
    #[verifier::loop_isolation(false)]
    pub(crate) fn bytes_for_schnorr(
        &self,
        ordinal: usize,
        id: &Scalar,
        ptype: ParticipantType,
        feldman_verifiers: &Vec<GroupElement>,
        big_r: &GroupElement,
    ) -> (b: Vec<u8>)
        requires
            self.wf(),
            ordinal < 65536,
        ensures
            b@ == schnorr_bytes(
                id@,
                ordinal as nat,
                ptype,
                self.threshold as nat,
                self.limit as nat,
                self.message_generator@,
                scalars_view(self.all_participant_ids@),
                big_r@,
                points_view(feldman_verifiers@),
            ),
    {
        let mut b: Vec<u8> = Vec::new();
        let idb = id.to_bytes();
        append_bytes(&mut b, &idb);
        push_u16be(&mut b, ordinal as u16);
        push_u16be(&mut b, ptype.as_u8() as u16);
        push_u16be(&mut b, self.threshold as u16);
        push_u16be(&mut b, self.limit as u16);
        let mgb = self.message_generator.to_bytes();
        append_bytes(&mut b, &mgb);
        let ghost pre = b@;
        let n = self.all_participant_ids.len();
        let mut i: usize = 0;
        while i < n
            invariant
                i <= n,
                b@ == pre + concat_bytes(scalars_view(self.all_participant_ids@).take(i as int)),
            decreases n - i,
        {
            let xb = self.all_participant_ids[i].to_bytes();
            append_bytes(&mut b, &xb);
            proof {
                let sv = scalars_view(self.all_participant_ids@);
                lemma_concat_snoc(sv.take(i as int), sv[i as int]);
                assert(sv.take(i + 1) =~= sv.take(i as int).push(sv[i as int]));
                assert(b@ =~= pre + concat_bytes(sv.take(i + 1)));
            }
            i += 1;
        }
        proof {
            let sv = scalars_view(self.all_participant_ids@);
            assert(sv.take(n as int) =~= sv);
        }
        let rb = big_r.to_bytes();
        append_bytes(&mut b, &rb);
        let ghost pre2 = b@;
        let cn = feldman_verifiers.len();
        let mut k: usize = 0;
        while k < cn
            invariant
                k <= cn,
                b@ == pre2 + concat_bytes(points_view(feldman_verifiers@).take(k as int)),
            decreases cn - k,
        {
            let cb = feldman_verifiers[k].to_bytes();
            append_bytes(&mut b, &cb);
            proof {
                let pv = points_view(feldman_verifiers@);
                lemma_concat_snoc(pv.take(k as int), pv[k as int]);
                assert(pv.take(k + 1) =~= pv.take(k as int).push(pv[k as int]));
                assert(b@ =~= pre2 + concat_bytes(pv.take(k + 1)));
            }
            k += 1;
        }
        proof {
            let pv = points_view(feldman_verifiers@);
            assert(pv.take(cn as int) =~= pv);
            assert(b@ =~= schnorr_bytes(
                id@,
                ordinal as nat,
                ptype,
                self.threshold as nat,
                self.limit as nat,
                self.message_generator@,
                scalars_view(self.all_participant_ids@),
                big_r@,
                points_view(feldman_verifiers@),
            ));
        }
        b
    }

    /// Produce the Schnorr signature `(R, s)` with `s = k + c * a0` over
    /// this participant's own commitments.
    pub(crate) fn compute_signature(&self, k: &Scalar, big_r: &GroupElement) -> (sig:
        crate::data::Signature)
        requires
            self.wf(),
        ensures
            sig.r@ == big_r@,
            sig.s.val() == (k.val() + (crate::bytes::be_val(
                h2s_of(
                    schnorr_bytes(
                        self.id@,
                        self.ordinal as nat,
                        self.ptype,
                        self.threshold as nat,
                        self.limit as nat,
                        self.message_generator@,
                        scalars_view(self.all_participant_ids@),
                        big_r@,
                        points_view(self.feldman_verifiers@),
                    ),
                ),
            ) * self.contribution_val()) % scalar_order()) % scalar_order(),
    {
        let bytes = self.bytes_for_schnorr(
            self.ordinal,
            &self.id,
            self.ptype,
            &self.feldman_verifiers,
            big_r,
        );
        let challenge = sc_hash_to_scalar(&bytes);
        let s = crate::group::sc_add(k, &crate::group::sc_mul(&challenge, &self.secret));
        crate::data::Signature { r: big_r.duplicate(), s }
    }

    /// Verify a peer's Schnorr signature, exactly: `Ok` when the
    /// verification equation holds of the payload.
    pub(crate) fn verify_signature(&self, data: &Round1Data) -> (r: DkgResult<()>)
        requires
            self.wf(),
            data.sender_ordinal < 65536,
            data.feldman_commitments@.len() > 0,
        ensures
            r is Ok <==> self.schnorr_ok(data@),
            r is Err ==> r->Err_0 is RoundError,
    {
        let bytes = self.bytes_for_schnorr(
            data.sender_ordinal,
            &data.sender_id,
            data.sender_type,
            &data.feldman_commitments,
            &data.signature.r,
        );
        let challenge = sc_hash_to_scalar(&bytes);
        let lhs = pt_mul(&self.message_generator, &data.signature.s);
        let rhs = pt_mul(&data.feldman_commitments[0], &challenge);
        let computed = pt_sub(&lhs, &rhs);
        if data.signature.r.eq_elem(&computed) {
            Ok(())
        } else {
            Err(Error::RoundError("invalid round 1 signature".to_owned()))
        }
    }

    /// A well-formed own Schnorr signature: for some canonically encoded
    /// nonce, the commitment is `H * nonce` and the response is the nonce
    /// plus the challenge times the participant's polynomial constant.
    pub open spec fn own_signature_ok(pre: Participant, sig: crate::data::SignatureV) -> bool {
        exists|nonce: Seq<u8>|
            #![trigger pt_mul_of(pre.message_generator@, nonce)]
            {
                &&& crate::group::scalar_canon(nonce)
                &&& sig.r == pt_mul_of(pre.message_generator@, nonce)
                &&& crate::bytes::be_val(sig.s) == (crate::bytes::be_val(nonce) + (
                crate::bytes::be_val(
                    h2s_of(
                        schnorr_bytes(
                            pre.id@,
                            pre.ordinal as nat,
                            pre.ptype,
                            pre.threshold as nat,
                            pre.limit as nat,
                            pre.message_generator@,
                            scalars_view(pre.all_participant_ids@),
                            sig.r,
                            points_view(pre.feldman_verifiers@),
                        ),
                    ),
                ) * pre.contribution_val()) % scalar_order()) % scalar_order()
            }
    }

    /// What Round 1 does: record the participant's own payload (with its
    /// full commitment vector) under its own ordinal and move to Round 2.
    pub open spec fn round1_transition(
        pre: Participant,
        post: Participant,
        out: RoundOutputGenerator,
    ) -> bool {
        &&& post.round == Round::Two
        &&& !post.completed
        &&& post.received_round1_data@.len() == pre.received_round1_data@.len()
        &&& (forall|o: int|
            0 <= o < pre.limit && o != pre.ordinal ==> post.received_round1_data@[o]
                == pre.received_round1_data@[o])
        &&& (post.received_round1_data@[pre.ordinal as int] matches Some(d) && {
            &&& d.sender_ordinal == pre.ordinal
            &&& d.sender_id@ == pre.id@
            &&& d.sender_type == pre.ptype
            &&& points_view(d.feldman_commitments@) == points_view(pre.feldman_verifiers@)
            &&& Self::own_signature_ok(pre, d.signature@)
            &&& (out matches RoundOutputGenerator::Round1(g) && {
                &&& g.participant_ids@.len() == pre.limit
                &&& g.feldman_commitments@.len() == pre.threshold
                &&& scalars_view(g.participant_ids@) == scalars_view(pre.all_participant_ids@)
                &&& g.sender_type == pre.ptype
                &&& g.sender_ordinal == pre.ordinal
                &&& g.sender_id@ == pre.id@
                &&& points_view(g.feldman_commitments@) == points_view(pre.feldman_verifiers@)
                &&& g.signature@ == d.signature@
            })
        })
        &&& post.ordinal == pre.ordinal
        &&& post.id@ == pre.id@
        &&& post.threshold == pre.threshold
        &&& post.limit == pre.limit
        &&& post.ptype == pre.ptype
        &&& post.contribution() == pre.contribution()
        &&& post.secret_shares == pre.secret_shares
        &&& post.feldman_verifiers == pre.feldman_verifiers
        &&& post.message_generator == pre.message_generator
        &&& post.powers_of_i == pre.powers_of_i
        &&& post.all_participant_ids == pre.all_participant_ids
        &&& post.received_round2_data == pre.received_round2_data
        &&& post.valid_participant_ids == pre.valid_participant_ids
        &&& post.secret_share == pre.secret_share
        &&& post.public_key == pre.public_key
    }

    /// Run Round 1: draw the Schnorr nonce (zero for a refresh
    /// participant, as its constant coefficient is zero too), sign, store
    /// the participant's own payload, and fan the broadcast out.
    pub(crate) fn round1(&mut self) -> (r: DkgResult<RoundOutputGenerator>)
        requires
            old(self).wf(),
            old(self).round == Round::One,
        ensures
            final(self).wf(),
            r is Ok,
            Self::round1_transition(*old(self), *final(self), r->Ok_0),
    {
        let k = match self.ptype {
            ParticipantType::Secret => sc_random(),
            ParticipantType::Refresh => Scalar::zero(),
        };
        k.canonical_facts();
        let big_r = pt_mul(&self.message_generator, &k);
        let signature = self.compute_signature(&k, &big_r);
        proof {
            assert(signature@.r == pt_mul_of(self.message_generator@, k@));
            assert(Self::own_signature_ok(*self, signature@));
        }
        let own = Round1Data {
            sender_ordinal: self.ordinal,
            sender_id: self.id.duplicate(),
            sender_type: self.ptype,
            feldman_commitments: crate::data::clone_points(&self.feldman_verifiers),
            signature: signature.duplicate(),
        };
        self.received_round1_data.set(self.ordinal, Some(own));
        self.round = Round::Two;
        let generator = Round1OutputGenerator {
            participant_ids: crate::data::clone_scalars(&self.all_participant_ids),
            sender_type: self.ptype,
            sender_ordinal: self.ordinal,
            sender_id: self.id.duplicate(),
            feldman_commitments: crate::data::clone_points(&self.feldman_verifiers),
            signature,
        };
        Ok(RoundOutputGenerator::Round1(generator))
    }

    /// The acceptance rule for a peer's Round-1 payload: still in
    /// Round 1 or 2, a sane and fresh sender, exactly `t` commitments with
    /// no identity beyond the first, the first matching the sender's type,
    /// and a valid Schnorr proof.
    pub open spec fn r1_accept(&self, d: Round1DataV) -> bool {
        &&& self.round.num() <= 2
        &&& self.sender_ok(d.sender_ordinal as int, d.sender_id)
        &&& self.received_round1_data@[d.sender_ordinal as int] is None
        &&& d.feldman_commitments.len() > 0
        &&& d.feldman_commitments.len() == self.threshold
        &&& (forall|kk: int|
            1 <= kk < d.feldman_commitments.len() ==> (#[trigger] d.feldman_commitments[kk])
                != identity_enc())
        &&& (d.sender_type == ParticipantType::Secret ==> d.feldman_commitments[0]
            != identity_enc())
        &&& (d.sender_type == ParticipantType::Refresh ==> d.feldman_commitments[0]
            == identity_enc())
        &&& self.schnorr_ok(d)
    }

    /// Accept or reject a peer's Round-1 payload, exactly by `r1_accept`;
    /// rejection leaves the participant unchanged, so an honest
    /// retransmission can still be accepted later.
    #[verifier::loop_isolation(false)]
    pub(crate) fn receive_round1data(&mut self, data: Round1Data) -> (r: DkgResult<()>)
        requires
            old(self).wf(),
        ensures
            final(self).wf(),
            r is Ok <==> old(self).r1_accept(data@),
            r is Ok ==> ((*final(self) == (Participant {
                received_round1_data: final(self).received_round1_data,
                ..*old(self)
            })) && final(self).received_round1_data@ == old(
                self,
            ).received_round1_data@.update(data.sender_ordinal as int, Some(data))),
            r is Err ==> *final(self) == *old(self) && r->Err_0 is RoundError,
    {
        if self.round.as_u8() > 2 {
            return Err(Error::RoundError("invalid round payload received".to_owned()));
        }
        match self.check_sending_participant_id(data.sender_ordinal, &data.sender_id) {
            Ok(()) => {},
            Err(e) => {
                return Err(e);
            },
        }
        if self.received_round1_data[data.sender_ordinal].is_some() {
            return Err(Error::RoundError("sender has already sent data".to_owned()));
        }
        if data.feldman_commitments.len() == 0 {
            return Err(Error::RoundError("feldman commitments are empty".to_owned()));
        }
        if data.feldman_commitments.len() != self.threshold {
            return Err(
                Error::RoundError(
                    "feldman commitments length is not equal to threshold".to_owned(),
                ),
            );
        }
        let cn = data.feldman_commitments.len();
        let mut kk: usize = 1;
        while kk < cn
            invariant
                1 <= kk <= cn,
                forall|j: int|
                    1 <= j < kk ==> (#[trigger] data.feldman_commitments@[j])@ != identity_enc(),
            decreases cn - kk,
        {
            if data.feldman_commitments[kk].is_identity() {
                proof {
                    assert(data@.feldman_commitments[kk as int] == identity_enc());
                    assert(!self.r1_accept(data@));
                }
                return Err(
                    Error::RoundError(
                        "feldman commitments contain the identity point".to_owned(),
                    ),
                );
            }
            kk += 1;
        }
        let first_ok = match data.sender_type {
            ParticipantType::Secret => !data.feldman_commitments[0].is_identity(),
            ParticipantType::Refresh => data.feldman_commitments[0].is_identity(),
        };
        if !first_ok {
            return Err(
                Error::RoundError("feldman commitment is not a valid verifier".to_owned()),
            );
        }
        match self.verify_signature(&data) {
            Ok(()) => {},
            Err(e) => {
                return Err(e);
            },
        }
        proof {
            assert(data.sender_ordinal != self.ordinal);
        }
        self.received_round1_data.set(data.sender_ordinal, Some(data));
        Ok(())
    }
}

} // verus!
