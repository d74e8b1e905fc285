//! Round 2: agree on the honest set via the transcript hash and distribute
//! the point-to-point shares; accept and verify the peers' shares against
//! their committed polynomials.

use vstd::prelude::*;
use crate::data::{points_view, scalars_view, Round, Round2Data, SecretShare};
use crate::error::{DkgResult, Error};
use crate::group::{
    identity_enc, pt_add, pt_add_of, pt_identity, pt_mul, pt_mul_of, pt_sub, pt_sub_of,
    GroupElement, Scalar,
};
use crate::output::{Round2OutputGenerator, RoundOutputGenerator};
use crate::participant::{count_some, r1_view, Participant};
use crate::transcript::{challenge_of, transcript_challenge, transcript_data, transcript_input, transcript_new};

verus! {

/// The committed evaluation of a sender's polynomial at this participant's
/// identifier: the sum over `k` of `powers[k] * commitments[k]`, folded in
/// index order from the identity.
pub open spec fn sum_prod(powers: Seq<Seq<u8>>, coms: Seq<Seq<u8>>, n: int) -> Seq<u8>
    decreases n,
{
    if n <= 0 {
        identity_enc()
    } else {
        pt_add_of(sum_prod(powers, coms, n - 1), pt_mul_of(coms[n - 1], powers[n - 1]))
    }
}

impl Participant {
    /// The share-verification equation: `H * share_value` equals
    /// the committed evaluation, i.e. their difference is the identity.
    pub open spec fn share_ok(&self, d: crate::data::Round2DataV) -> bool {
        let coms = points_view(
            self.received_round1_data@[d.sender_ordinal as int]->0.feldman_commitments@,
        );
        pt_sub_of(
            pt_mul_of(self.message_generator@, d.secret_share.value),
            sum_prod(scalars_view(self.powers_of_i@), coms, self.threshold as int),
        ) == identity_enc()
    }

    /// What a successful Round 2 does: freeze the valid set, record the
    /// participant's own Round-2 payload (carrying its share-to-self and the
    /// transcript hash over all accepted Round-1 payloads), and move to
    /// Round 3.
    pub open spec fn round2_transition(
        pre: Participant,
        post: Participant,
        out: RoundOutputGenerator,
    ) -> bool {
        &&& post.round == Round::Three
        &&& !post.completed
        &&& post.valid_participant_ids@.len() == pre.limit
        &&& (forall|o: int|
            0 <= o < pre.limit ==> ((#[trigger] post.valid_participant_ids@[o]) is Some
                <==> pre.received_round1_data@[o] is Some))
        &&& (forall|o: int|
            0 <= o < pre.limit && (#[trigger] post.valid_participant_ids@[o]) is Some
                ==> post.valid_participant_ids@[o]->0@ == pre.all_participant_ids@[o]@)
        &&& post.received_round2_data@.len() == pre.limit
        &&& (forall|o: int|
            0 <= o < pre.limit && o != pre.ordinal ==> post.received_round2_data@[o]
                == pre.received_round2_data@[o])
        &&& (post.received_round2_data@[pre.ordinal as int] matches Some(d) && {
            &&& d.sender_ordinal == pre.ordinal
            &&& d.sender_id@ == pre.id@
            &&& d.sender_type == pre.ptype
            &&& d.secret_share@ == pre.secret_shares@[pre.ordinal as int]@
            &&& d.transcript_hash@ == challenge_of(
                transcript_input(r1_view(pre.received_round1_data@)),
            )
            &&& (out matches RoundOutputGenerator::Round2(g) && {
                &&& g.participant_ids@.len() == pre.limit
                &&& (forall|o: int|
                    0 <= o < pre.limit ==> ((#[trigger] g.participant_ids@[o]) is Some
                        <==> pre.received_round1_data@[o] is Some))
                &&& (forall|o: int|
                    0 <= o < pre.limit && (#[trigger] g.participant_ids@[o]) is Some
                        ==> g.participant_ids@[o]->0@ == pre.all_participant_ids@[o]@)
                &&& g.sender_ordinal == pre.ordinal
                &&& g.sender_id@ == pre.id@
                &&& g.sender_type == pre.ptype
                &&& (forall|o: int|
                    0 <= o < pre.limit ==> (#[trigger] g.secret_shares@[o])@
                        == pre.secret_shares@[o]@)
                &&& g.secret_shares@.len() == pre.limit
                &&& g.transcript_hash@ == d.transcript_hash@
            })
        })
        &&& post.ordinal == pre.ordinal
        &&& post.id@ == pre.id@
        &&& post.threshold == pre.threshold
        &&& post.limit == pre.limit
        &&& post.ptype == pre.ptype
        &&& post.contribution() == pre.contribution()
        &&& post.secret_shares == pre.secret_shares
        &&& post.feldman_verifiers == pre.feldman_verifiers
        &&& post.message_generator == pre.message_generator
        &&& post.powers_of_i == pre.powers_of_i
        &&& post.all_participant_ids == pre.all_participant_ids
        &&& post.received_round1_data == pre.received_round1_data
        &&& post.secret_share == pre.secret_share
        &&& post.public_key == pre.public_key
    }

    /// Run Round 2. Fails, leaving the participant unchanged, while fewer
    /// than `t` Round-1 payloads (its own included) have been accepted: this
    /// is the quorum gate.
    #[verifier::loop_isolation(false)]
    pub(crate) fn round2(&mut self) -> (r: DkgResult<RoundOutputGenerator>)
        requires
            old(self).wf(),
            old(self).round == Round::Two,
        ensures
            final(self).wf(),
            count_some(old(self).received_round1_data@) < old(self).threshold ==> (r is Err
                && r->Err_0 is RoundError && *final(self) == *old(self)),
            count_some(old(self).received_round1_data@) >= old(self).threshold ==> (r is Ok
                && Self::round2_transition(*old(self), *final(self), r->Ok_0)),
    {
        let present = crate::participant::count_present(&self.received_round1_data);
        if present < self.threshold {
            return Err(
                Error::RoundError(
                    "round 2 is not ready, not enough data from other participants".to_owned(),
                ),
            );
        }
        let limit = self.limit;
        let mut valid: Vec<Option<Scalar>> = Vec::new();
        let mut t = transcript_new();
        let mut o: usize = 0;
        while o < limit
            invariant
                o <= limit,
                valid@.len() == o,
                forall|j: int|
                    0 <= j < o ==> ((#[trigger] valid@[j]) is Some
                        <==> self.received_round1_data@[j] is Some),
                forall|j: int|
                    0 <= j < o && (#[trigger] valid@[j]) is Some ==> valid@[j]->0@
                        == self.all_participant_ids@[j]@,
                transcript_data(t) == transcript_input(
                    r1_view(self.received_round1_data@).take(o as int),
                ),
            decreases limit - o,
        {
            match &self.received_round1_data[o] {
                Option::Some(d) => {
                    d.add_to_transcript(&mut t);
                    valid.push(Some(self.all_participant_ids[o].duplicate()));
                },
                Option::None => {
                    valid.push(None);
                },
            }
            proof {
                let rv = r1_view(self.received_round1_data@);
                assert(rv.take(o + 1).drop_last() =~= rv.take(o as int));
                assert(rv.take(o + 1).last() == rv[o as int]);
            }
            o += 1;
        }
        proof {
            let rv = r1_view(self.received_round1_data@);
            assert(rv.take(limit as int) =~= rv);
        }
        let transcript_hash = transcript_challenge(t);
        let own = Round2Data {
            sender_ordinal: self.ordinal,
            sender_id: self.id.duplicate(),
            sender_type: self.ptype,
            secret_share: self.secret_shares[self.ordinal].duplicate(),
            transcript_hash: crate::bytes::copy_range(&transcript_hash, 0, transcript_hash.len()),
        };
        proof {
            assert(own.transcript_hash@ =~= transcript_hash@);
        }
        let generator = Round2OutputGenerator {
            participant_ids: {
                let mut vv: Vec<Option<Scalar>> = Vec::new();
                let mut i: usize = 0;
                while i < limit
                    invariant
                        i <= limit,
                        valid@.len() == limit,
                        vv@.len() == i,
                        forall|j: int|
                            0 <= j < i ==> ((#[trigger] vv@[j]) is Some <==> valid@[j] is Some),
                        forall|j: int|
                            0 <= j < i && (#[trigger] vv@[j]) is Some ==> vv@[j]->0@
                                == valid@[j]->0@,
                    decreases limit - i,
                {
                    match &valid[i] {
                        Option::Some(x) => {
                            vv.push(Some(x.duplicate()));
                        },
                        Option::None => {
                            vv.push(None);
                        },
                    }
                    i += 1;
                }
                vv
            },
            sender_ordinal: self.ordinal,
            sender_id: self.id.duplicate(),
            sender_type: self.ptype,
            secret_shares: {
                let mut ss: Vec<SecretShare> = Vec::new();
                let mut i: usize = 0;
                while i < limit
                    invariant
                        i <= limit,
                        ss@.len() == i,
                        forall|j: int|
                            0 <= j < i ==> (#[trigger] ss@[j])@ == self.secret_shares@[j]@,
                    decreases limit - i,
                {
                    ss.push(self.secret_shares[i].duplicate());
                    i += 1;
                }
                ss
            },
            transcript_hash,
        };
        self.valid_participant_ids = valid;
        self.received_round2_data.set(self.ordinal, Some(own));
        self.round = Round::Three;
        Ok(RoundOutputGenerator::Round2(generator))
    }

    /// The acceptance rule for a peer's Round-2 payload: not yet
    /// terminal, a sane sender that belongs to the frozen valid set and has
    /// not sent yet, agreement on the transcript hash, and a share that
    /// verifies against the sender's committed polynomial.
    pub open spec fn r2_accept(&self, d: crate::data::Round2DataV) -> bool {
        &&& self.round.num() <= 3
        &&& self.sender_ok(d.sender_ordinal as int, d.sender_id)
        &&& self.valid_participant_ids@[d.sender_ordinal as int] is Some
        &&& self.received_round2_data@[d.sender_ordinal as int] is None
        &&& self.received_round2_data@[self.ordinal as int] is Some
        &&& d.transcript_hash == self.received_round2_data@[self.ordinal as int]->0.transcript_hash@
        &&& self.received_round1_data@[d.sender_ordinal as int] is Some
        &&& self.share_ok(d)
    }

    /// Accept or reject a peer's Round-2 payload, exactly by `r2_accept`;
    /// rejection leaves the participant unchanged.
    #[verifier::loop_isolation(false)]
    pub(crate) fn receive_round2data(&mut self, data: Round2Data) -> (r: DkgResult<()>)
        requires
            old(self).wf(),
        ensures
            final(self).wf(),
            r is Ok <==> old(self).r2_accept(data@),
            r is Ok ==> ((*final(self) == (Participant {
                received_round2_data: final(self).received_round2_data,
                ..*old(self)
            })) && final(self).received_round2_data@ == old(
                self,
            ).received_round2_data@.update(data.sender_ordinal as int, Some(data))),
            r is Err ==> *final(self) == *old(self) && r->Err_0 is RoundError,
    {
        if self.round.as_u8() > 3 {
            return Err(Error::RoundError("invalid round payload received".to_owned()));
        }
        match self.check_sending_participant_id(data.sender_ordinal, &data.sender_id) {
            Ok(()) => {},
            Err(e) => {
                return Err(e);
            },
        }
        if self.valid_participant_ids[data.sender_ordinal].is_none() {
            return Err(Error::RoundError("not a valid participant".to_owned()));
        }
        if self.received_round2_data[data.sender_ordinal].is_some() {
            return Err(Error::RoundError("sender has already sent data".to_owned()));
        }
        let own_hash = match &self.received_round2_data[self.ordinal] {
            Option::Some(own) => &own.transcript_hash,
            Option::None => {
                return Err(Error::RoundError("self does not have round 2 data".to_owned()));
            },
        };
        if !crate::bytes::eq_bytes(&data.transcript_hash, own_hash) {
            return Err(Error::RoundError("transcript hash does not match".to_owned()));
        }
        let coms = match &self.received_round1_data[data.sender_ordinal] {
            Option::Some(d) => &d.feldman_commitments,
            Option::None => {
                return Err(Error::RoundError("sender has not sent round 1 data".to_owned()));
            },
        };
        let t = self.threshold;
        let mut rhs = pt_identity();
        let mut k: usize = 0;
        while k < t
            invariant
                k <= t,
                rhs@ == sum_prod(
                    scalars_view(self.powers_of_i@),
                    points_view(coms@),
                    k as int,
                ),
            decreases t - k,
        {
            let term = pt_mul(&coms[k], &self.powers_of_i[k]);
            rhs = pt_add(&rhs, &term);
            k += 1;
        }
        let lhs = pt_mul(&self.message_generator, &data.secret_share.value);
        let diff = pt_sub(&lhs, &rhs);
        if !diff.is_identity() {
            return Err(
                Error::RoundError(
                    "the share does not verify with the given commitments".to_owned(),
                ),
            );
        }
        self.received_round2_data.set(data.sender_ordinal, Some(data));
        Ok(())
    }
}

} // verus!
