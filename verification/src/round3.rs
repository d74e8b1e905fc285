//! Round 3: aggregate the accepted contributions into the final share and
//! the joint public key, with the refresh-consistency and trivial-aggregate
//! checks.

use vstd::prelude::*;
use crate::bytes::{be_val, lemma_be_val_injective};
use crate::data::{ParticipantType, Round, Round1DataV, Round2DataV, SecretShare};
use crate::error::{DkgResult, Error};
use crate::group::{
    identity_enc, pt_add, pt_add_of, pt_identity, scalar_canon, scalar_order, sc_add,
    GroupElement, Scalar,
};
use crate::output::RoundOutputGenerator;
use crate::participant::{count_some, r1_view, r2_view, Participant};

verus! {

/// The joint public key accumulated over the first `n` ordinals: the sum of
/// the first Feldman commitment of every contributor (every ordinal whose
/// Round-2 payload was accepted), folded in ordinal order from the identity.
pub open spec fn pk_sum(
    r1: Seq<Option<Round1DataV>>,
    r2: Seq<Option<Round2DataV>>,
    n: int,
) -> Seq<u8>
    decreases n,
{
    if n <= 0 {
        identity_enc()
    } else if r2[n - 1] is Some {
        pt_add_of(pk_sum(r1, r2, n - 1), r1[n - 1]->0.feldman_commitments[0])
    } else {
        pk_sum(r1, r2, n - 1)
    }
}

/// The final share value accumulated over the first `n` ordinals: the sum,
/// modulo the group order, of every contributor's share value.
pub open spec fn share_sum(r2: Seq<Option<Round2DataV>>, n: int) -> nat
    decreases n,
{
    if n <= 0 {
        0
    } else if r2[n - 1] is Some {
        (share_sum(r2, n - 1) + be_val(r2[n - 1]->0.secret_share.value)) % scalar_order()
    } else {
        share_sum(r2, n - 1)
    }
}

/// Whether every contributor among the first `n` ordinals is a refresh
/// participant.
pub open spec fn all_refresh(
    r1: Seq<Option<Round1DataV>>,
    r2: Seq<Option<Round2DataV>>,
    n: int,
) -> bool
    decreases n,
{
    if n <= 0 {
        true
    } else {
        all_refresh(r1, r2, n - 1) && (r2[n - 1] is Some ==> r1[n - 1]->0.sender_type
            == ParticipantType::Refresh)
    }
}

impl Participant {
    /// The Round-3 consistency condition: the aggregate public
    /// key is the identity exactly when every contributor was a refresh.
    pub open spec fn round3_consistent(&self) -> bool {
        all_refresh(
            r1_view(self.received_round1_data@),
            r2_view(self.received_round2_data@),
            self.limit as int,
        ) <==> (pk_sum(
            r1_view(self.received_round1_data@),
            r2_view(self.received_round2_data@),
            self.limit as int,
        ) == identity_enc())
    }

    /// The trivial-aggregate condition: the aggregated value
    /// equals this participant's own share-to-self, implying no peer
    /// actually contributed.
    pub open spec fn round3_trivial(&self) -> bool {
        share_sum(r2_view(self.received_round2_data@), self.limit as int) == be_val(
            self.secret_shares@[self.ordinal as int]@.value,
        )
    }

    /// What a successful Round 3 does: commit the aggregated share and the
    /// joint public key and become complete.
    pub open spec fn round3_transition(
        pre: Participant,
        post: Participant,
        out: RoundOutputGenerator,
    ) -> bool {
        &&& post.round == Round::Four
        &&& post.completed
        &&& out is Round3
        &&& post.public_key@ == pk_sum(
            r1_view(pre.received_round1_data@),
            r2_view(pre.received_round2_data@),
            pre.limit as int,
        )
        &&& post.secret_share@.identifier == pre.id@
        &&& post.secret_share.value.val() == share_sum(
            r2_view(pre.received_round2_data@),
            pre.limit as int,
        )
        &&& post.ordinal == pre.ordinal
        &&& post.id@ == pre.id@
        &&& post.threshold == pre.threshold
        &&& post.limit == pre.limit
        &&& post.ptype == pre.ptype
        &&& post.contribution() == pre.contribution()
        &&& post.secret_shares == pre.secret_shares
        &&& post.feldman_verifiers == pre.feldman_verifiers
        &&& post.message_generator == pre.message_generator
        &&& post.powers_of_i == pre.powers_of_i
        &&& post.all_participant_ids == pre.all_participant_ids
        &&& post.received_round1_data == pre.received_round1_data
        &&& post.received_round2_data == pre.received_round2_data
        &&& post.valid_participant_ids == pre.valid_participant_ids
    }

    /// Run Round 3. Fails, leaving the participant unchanged, while fewer
    /// than `t` Round-2 payloads have been accepted, when the
    /// refresh-consistency check fails, or when the aggregate is trivial.
    #[verifier::loop_isolation(false)]
    pub(crate) fn round3(&mut self) -> (r: DkgResult<RoundOutputGenerator>)
        requires
            old(self).wf(),
            old(self).round == Round::Three,
        ensures
            final(self).wf(),
            count_some(old(self).received_round2_data@) < old(self).threshold ==> (r is Err
                && r->Err_0 is RoundError && *final(self) == *old(self)),
            (count_some(old(self).received_round2_data@) >= old(self).threshold && !old(
                self,
            ).round3_consistent()) ==> (r is Err && r->Err_0 is RoundError && *final(self)
                == *old(self)),
            (count_some(old(self).received_round2_data@) >= old(self).threshold && old(
                self,
            ).round3_consistent() && old(self).round3_trivial()) ==> (r is Err
                && r->Err_0 is RoundError && *final(self) == *old(self)),
            (count_some(old(self).received_round2_data@) >= old(self).threshold && old(
                self,
            ).round3_consistent() && !old(self).round3_trivial()) ==> (r is Ok
                && Self::round3_transition(*old(self), *final(self), r->Ok_0)),
    {
        let present = crate::participant::count_present(&self.received_round2_data);
        if present < self.threshold {
            return Err(
                Error::RoundError(
                    "round 3 is not ready, not enough data from other participants".to_owned(),
                ),
            );
        }
        let limit = self.limit;
        let mut public_key = pt_identity();
        let mut value = Scalar::zero();
        let mut refresh_only = true;
        let mut o: usize = 0;
        while o < limit
            invariant
                o <= limit,
                public_key@ == pk_sum(
                    r1_view(self.received_round1_data@),
                    r2_view(self.received_round2_data@),
                    o as int,
                ),
                value.val() == share_sum(r2_view(self.received_round2_data@), o as int),
                refresh_only == all_refresh(
                    r1_view(self.received_round1_data@),
                    r2_view(self.received_round2_data@),
                    o as int,
                ),
            decreases limit - o,
        {
            match &self.received_round2_data[o] {
                Option::Some(r2d) => {
                    match &self.received_round1_data[o] {
                        Option::Some(r1d) => {
                            match r1d.sender_type {
                                ParticipantType::Refresh => {},
                                ParticipantType::Secret => {
                                    refresh_only = false;
                                },
                            }
                            public_key = pt_add(&public_key, &r1d.feldman_commitments[0]);
                            value = sc_add(&value, &r2d.secret_share.value);
                        },
                        Option::None => {
                            proof {
                                assert(false);
                            }
                            return Err(Error::RoundError("missing round 1 data".to_owned()));
                        },
                    }
                },
                Option::None => {},
            }
            o += 1;
        }
        let pk_identity = public_key.is_identity();
        if (refresh_only && !pk_identity) || (!refresh_only && pk_identity) {
            return Err(Error::RoundError("the resulting public key is invalid".to_owned()));
        }
        let own_value = &self.secret_shares[self.ordinal].value;
        own_value.canonical_facts();
        value.canonical_facts();
        let trivial = crate::group::sc_ct_eq(&value, own_value);
        proof {
            if value@ != own_value@ && value.val() == be_val(own_value@) {
                lemma_be_val_injective(value@, own_value@);
            }
        }
        if trivial {
            return Err(
                Error::RoundError("the resulting secret key share is invalid".to_owned()),
            );
        }
        self.secret_share = SecretShare { identifier: self.id.duplicate(), value };
        self.public_key = public_key;
        self.round = Round::Four;
        self.completed = true;
        Ok(RoundOutputGenerator::Round3)
    }
}

} // verus!
