//! The per-participant DKG state machine: construction, state, and the
//! acceptance checks shared by the rounds.

use vstd::prelude::*;
use crate::data::{
    scalars_view, ParticipantType, Round, Round1Data, Round1DataV, Round2Data, Round2DataV,
    SecretShare,
};
use crate::error::{DkgResult, Error};
use crate::feldman::feldman_split;
use crate::group::{
    identity_enc, pow_mod, scalar_order, sc_mul, sc_random, sub_mod, GroupElement, Scalar,
};
use crate::parameters::Parameters;
use crate::bytes::be_val;

verus! {

/// How many entries of an ordinal-indexed buffer are filled.
pub open spec fn count_some<T>(s: Seq<Option<T>>) -> nat
    decreases s.len(),
{
    if s.len() == 0 {
        0
    } else {
        count_some(s.drop_last()) + (if s.last() is Some {
            1nat
        } else {
            0nat
        })
    }
}

/// The view of an ordinal-indexed buffer of Round-1 payloads.
pub open spec fn r1_view(s: Seq<Option<Round1Data>>) -> Seq<Option<Round1DataV>> {
    Seq::new(
        s.len(),
        |i: int|
            match s[i] {
                Some(d) => Some(d@),
                None => None,
            },
    )
}

/// The view of an ordinal-indexed buffer of Round-2 payloads.
pub open spec fn r2_view(s: Seq<Option<Round2Data>>) -> Seq<Option<Round2DataV>> {
    Seq::new(
        s.len(),
        |i: int|
            match s[i] {
                Some(d) => Some(d@),
                None => None,
            },
    )
}

/// Counting over a one-longer prefix.
pub proof fn lemma_count_some_take<T>(s: Seq<Option<T>>, i: int)
    requires
        0 <= i < s.len(),
    ensures
        count_some(s.take(i + 1)) == count_some(s.take(i)) + (if s[i] is Some {
            1nat
        } else {
            0nat
        }),
{
    assert(s.take(i + 1).drop_last() =~= s.take(i));
    assert(s.take(i + 1).last() == s[i]);
}

/// How many entries of the buffer are filled.
pub fn count_present<T>(v: &Vec<Option<T>>) -> (c: usize)
    ensures
        c == count_some(v@),
{
    let n = v.len();
    let mut c: usize = 0;
    let mut i: usize = 0;
    while i < n
        invariant
            i <= n,
            n == v@.len(),
            c <= i,
            c == count_some(v@.take(i as int)),
        decreases n - i,
    {
        proof {
            lemma_count_some_take(v@, i as int);
        }
        if v[i].is_some() {
            c += 1;
        }
        i += 1;
    }
    proof {
        assert(v@.take(n as int) =~= v@);
    }
    c
}

/// A buffer of `n` empty slots.
fn none_buf<T>(n: usize) -> (r: Vec<Option<T>>)
    ensures
        r@.len() == n,
        forall|i: int| 0 <= i < n ==> r@[i] is None,
{
    let mut r: Vec<Option<T>> = Vec::new();
    let mut i: usize = 0;
    while i < n
        invariant
            i <= n,
            r@.len() == i,
            forall|j: int| 0 <= j < i ==> r@[j] is None,
        decreases n - i,
    {
        r.push(None);
        i += 1;
    }
    r
}

/// A DKG participant: a four-state machine owning its polynomial artifacts,
/// the per-round buffers, and, at completion, the aggregated share and the
/// joint public key.
///
/// The fields are public so that the contracts — well-formedness, the round
/// transition relations, the acceptance rules — can speak of the state
/// directly. A host must treat the record as read-only between calls and
/// `secret` as opaque: nothing proved here holds of a state mutated by
/// hand.
pub struct Participant {
    /// The index of this participant in the ordered identifier set.
    pub ordinal: usize,
    /// This participant's identifier; a nonzero scalar.
    pub id: Scalar,
    /// The threshold `t`.
    pub threshold: usize,
    /// The limit `n`.
    pub limit: usize,
    /// The current round.
    pub round: Round,
    /// True exactly in the terminal round.
    pub completed: bool,
    /// Whether this participant contributes a secret or a refresh (zero).
    pub ptype: ParticipantType,
    /// The constant coefficient of the local polynomial. Owned by this
    /// participant alone; hosts must treat it as opaque.
    pub secret: Scalar,
    /// One share of the local polynomial per recipient ordinal.
    pub secret_shares: Vec<SecretShare>,
    /// The Feldman commitments to the local polynomial's coefficients.
    pub feldman_verifiers: Vec<GroupElement>,
    /// The aggregated share; meaningful only once `completed`.
    pub secret_share: SecretShare,
    /// The commitment base `H`.
    pub message_generator: GroupElement,
    /// The joint public key; meaningful only once `completed`.
    pub public_key: GroupElement,
    /// The powers `1, id, id^2, ..., id^(t-1)`.
    pub powers_of_i: Vec<Scalar>,
    /// Accepted Round-1 payloads, by sender ordinal.
    pub received_round1_data: Vec<Option<Round1Data>>,
    /// Accepted Round-2 payloads, by sender ordinal.
    pub received_round2_data: Vec<Option<Round2Data>>,
    /// All participant identifiers, by ordinal.
    pub all_participant_ids: Vec<Scalar>,
    /// The identifiers whose Round 1 was accepted; fixed at the Round-2 boundary.
    pub valid_participant_ids: Vec<Option<Scalar>>,
}

impl Participant {
    /// Structural well-formedness: buffer sizes, index bounds, and the
    /// round-dependent shape of the buffers.
    pub open spec fn wf(&self) -> bool {
        &&& 1 <= self.threshold <= self.limit <= 65535
        &&& self.ordinal < self.limit
        &&& self.all_participant_ids@.len() == self.limit
        &&& self.secret_shares@.len() == self.limit
        &&& self.received_round1_data@.len() == self.limit
        &&& self.received_round2_data@.len() == self.limit
        &&& self.valid_participant_ids@.len() == self.limit
        &&& self.powers_of_i@.len() == self.threshold
        &&& self.feldman_verifiers@.len() == self.threshold
        &&& self.id@ == self.all_participant_ids@[self.ordinal as int]@
        &&& be_val(self.id@) != 0
        &&& self.secret_share@.identifier == self.id@
        &&& (forall|k: int|
            0 <= k < self.threshold ==> (#[trigger] self.powers_of_i@[k]).val() == pow_mod(
                self.id.val(),
                k as nat,
            ))
        &&& (self.completed <==> self.round == Round::Four)
        &&& (forall|o: int|
            0 <= o < self.limit && (#[trigger] self.received_round1_data@[o]) is Some ==> {
                let d = self.received_round1_data@[o]->0;
                &&& d.sender_ordinal == o
                &&& d.sender_id@ == self.all_participant_ids@[o]@
                &&& d.feldman_commitments@.len() == self.threshold
            })
        &&& (forall|o: int|
            0 <= o < self.limit && (#[trigger] self.received_round2_data@[o]) is Some ==> {
                let d = self.received_round2_data@[o]->0;
                &&& d.sender_ordinal == o
                &&& d.transcript_hash@.len() == 32
                &&& self.received_round1_data@[o] is Some
            })
        &&& ((self.round == Round::One || self.round == Round::Two) ==> (forall|o: int|
            0 <= o < self.limit ==> (#[trigger] self.received_round2_data@[o]) is None
                && (#[trigger] self.valid_participant_ids@[o]) is None))
        &&& ((self.round == Round::Three || self.round == Round::Four) ==> {
            &&& self.received_round2_data@[self.ordinal as int] is Some
            &&& self.received_round1_data@[self.ordinal as int] is Some
            &&& (forall|o: int|
                0 <= o < self.limit ==> ((#[trigger] self.valid_participant_ids@[o]) is Some
                    <==> self.received_round1_data@[o] is Some))
            &&& (forall|o: int|
                0 <= o < self.limit && (#[trigger] self.valid_participant_ids@[o]) is Some
                    ==> self.valid_participant_ids@[o]->0@ == self.all_participant_ids@[o]@)
        })
        &&& ((self.round == Round::Two || self.round == Round::Three || self.round
            == Round::Four) ==> self.received_round1_data@[self.ordinal as int] is Some)
        &&& (forall|o: int|
            0 <= o < self.limit ==> (#[trigger] self.secret_shares@[o])@.identifier
                == self.all_participant_ids@[o]@)
    }

    /// The encoding of this participant's polynomial constant (its
    /// contribution to the joint secret).
    pub open spec fn contribution(&self) -> Seq<u8> {
        self.secret@
    }

    /// The value of this participant's polynomial constant.
    pub open spec fn contribution_val(&self) -> nat {
        be_val(self.contribution())
    }

    /// The ordinal index of this participant.
    pub fn get_ordinal(&self) -> (r: usize)
        ensures
            r == self.ordinal,
    {
        self.ordinal
    }

    /// The identifier associated with this participant.
    pub fn get_id(&self) -> (r: Scalar)
        ensures
            r@ == self.id@,
    {
        self.id.duplicate()
    }

    /// True once all rounds have been run.
    pub fn completed(&self) -> (r: bool)
        ensures
            r == self.completed,
    {
        self.completed
    }

    /// The current round.
    pub fn get_round(&self) -> (r: Round)
        ensures
            r == self.round,
    {
        self.round
    }

    /// The threshold parameter.
    pub fn get_threshold(&self) -> (r: usize)
        ensures
            r == self.threshold,
    {
        self.threshold
    }

    /// The limit parameter.
    pub fn get_limit(&self) -> (r: usize)
        ensures
            r == self.limit,
    {
        self.limit
    }

    /// The aggregated share, once the protocol has completed; `None` before.
    /// The returned share is addressed to this participant's own identifier.
    pub fn get_secret_share(&self) -> (r: Option<SecretShare>)
        requires
            self.wf(),
        ensures
            self.completed ==> (r matches Some(s) && s@ == self.secret_share@ && s@.identifier
                == self.id@),
            !self.completed ==> r is None,
    {
        if self.completed {
            Some(self.secret_share.duplicate())
        } else {
            None
        }
    }

    /// The joint public key, once the protocol has completed; `None` before.
    pub fn get_public_key(&self) -> (r: Option<GroupElement>)
        ensures
            self.completed ==> (r matches Some(g) && g@ == self.public_key@),
            !self.completed ==> r is None,
    {
        if self.completed {
            Some(self.public_key.duplicate())
        } else {
            None
        }
    }

    /// All participant identifiers, by ordinal.
    pub fn get_all_participant_ids(&self) -> (r: &Vec<Scalar>)
        ensures
            r == &self.all_participant_ids,
    {
        &self.all_participant_ids
    }

    /// The identifiers whose Round-1 payload was accepted, by ordinal.
    pub fn get_valid_participant_ids(&self) -> (r: &Vec<Option<Scalar>>)
        ensures
            r == &self.valid_participant_ids,
    {
        &self.valid_participant_ids
    }

    /// A copy of the Feldman commitment vector.
    pub fn get_feldman_verifiers(&self) -> (r: Vec<GroupElement>)
        ensures
            crate::data::points_view(r@) == crate::data::points_view(self.feldman_verifiers@),
    {
        let mut r: Vec<GroupElement> = Vec::new();
        let n = self.feldman_verifiers.len();
        let mut i: usize = 0;
        while i < n
            invariant
                i <= n,
                n == self.feldman_verifiers@.len(),
                r@.len() == i,
                forall|j: int| 0 <= j < i ==> (#[trigger] r@[j])@ == self.feldman_verifiers@[j]@,
            decreases n - i,
        {
            r.push(self.feldman_verifiers[i].duplicate());
            i += 1;
        }
        proof {
            assert(crate::data::points_view(r@) =~= crate::data::points_view(
                self.feldman_verifiers@,
            ));
        }
        r
    }

    /// The sender-sanity condition applied to every incoming payload: the
    /// ordinal is known, the claimed identifier is the one registered for
    /// that ordinal, is nonzero, and is not this participant's own.
    pub open spec fn sender_ok(&self, sender_ordinal: int, sender_id: Seq<u8>) -> bool {
        &&& 0 <= sender_ordinal < self.all_participant_ids@.len()
        &&& self.all_participant_ids@[sender_ordinal]@ == sender_id
        &&& be_val(sender_id) != 0
        &&& sender_id != self.id@
    }

    /// Check the sender-sanity condition, exactly.
    pub(crate) fn check_sending_participant_id(
        &self,
        sender_ordinal: usize,
        sender_id: &Scalar,
    ) -> (r: DkgResult<()>)
        ensures
            r is Ok <==> self.sender_ok(sender_ordinal as int, sender_id@),
            r is Err ==> r->Err_0 is RoundError,
    {
        if sender_ordinal >= self.all_participant_ids.len() {
            return Err(Error::RoundError("unknown sender ordinal".to_owned()));
        }
        let expected = &self.all_participant_ids[sender_ordinal];
        if !expected.eq_scalar(sender_id) {
            return Err(Error::RoundError("sender id mismatch".to_owned()));
        }
        if sender_id.is_zero() {
            return Err(Error::RoundError("sender id is zero".to_owned()));
        }
        if self.id.eq_scalar(sender_id) {
            return Err(Error::RoundError("sender id is equal to our id".to_owned()));
        }
        Ok(())
    }

    /// Parameters (or an identifier) that construction rejects outright.
    pub open spec fn params_rejected(parameters: Parameters, id: Seq<u8>) -> bool {
        ||| parameters.threshold > parameters.limit
        ||| parameters.threshold < 1
        ||| parameters.limit > 65535
        ||| parameters.participant_ids@.len() != parameters.limit
        ||| parameters.message_generator@ == identity_enc()
        ||| be_val(id) == 0
        ||| exists|j: int|
            0 <= j < parameters.participant_ids@.len() && be_val(
                (#[trigger] parameters.participant_ids@[j])@,
            ) == 0
    }

    /// What holds of a freshly constructed participant.
    pub open spec fn fresh_state(
        p: Participant,
        id: Seq<u8>,
        parameters: Parameters,
        ptype: ParticipantType,
    ) -> bool {
        &&& p.wf()
        &&& p.round == Round::One
        &&& !p.completed
        &&& p.ptype == ptype
        &&& p.threshold == parameters.threshold
        &&& p.limit == parameters.limit
        &&& p.id@ == id
        &&& p.message_generator@ == parameters.message_generator@
        &&& scalars_view(p.all_participant_ids@) == scalars_view(parameters.participant_ids@)
        &&& parameters.participant_ids@[p.ordinal as int]@ == id
        &&& (forall|j: int|
            0 <= j < p.ordinal ==> (#[trigger] parameters.participant_ids@[j])@ != id)
        &&& (forall|o: int|
            0 <= o < p.limit ==> (#[trigger] p.received_round1_data@[o]) is None)
        &&& (forall|o: int|
            0 <= o < p.limit ==> (#[trigger] p.received_round2_data@[o]) is None)
        &&& p.feldman_verifiers@[0]@ == crate::group::pt_mul_of(
            parameters.message_generator@,
            p.contribution(),
        )
        &&& (ptype == ParticipantType::Secret ==> p.feldman_verifiers@[0]@ != identity_enc())
        &&& (ptype == ParticipantType::Refresh ==> p.feldman_verifiers@[0]@ == identity_enc()
            && p.contribution_val() == 0)
    }

    /// Construct a participant from an explicit polynomial constant.
    #[verifier::loop_isolation(false)]
    fn initialize(
        id: Scalar,
        parameters: &Parameters,
        secret: Scalar,
        ptype: ParticipantType,
    ) -> (r: DkgResult<Participant>)
        ensures
            Self::params_rejected(*parameters, id@) ==> r is Err,
            (!Self::params_rejected(*parameters, id@) && !(exists|j: int|
                0 <= j < parameters.participant_ids@.len()
                    && (#[trigger] parameters.participant_ids@[j])@ == id@)) ==> r is Err,
            (!Self::params_rejected(*parameters, id@) && parameters.threshold == 1 && (exists|j: int|
                0 <= j < parameters.participant_ids@.len()
                    && (#[trigger] parameters.participant_ids@[j])@ == id@) && ((ptype
                == ParticipantType::Refresh) <==> secret.val() == 0)) ==> r is Ok,
            r matches Ok(p) ==> Self::fresh_state(p, id@, *parameters, ptype)
                && p.contribution() == secret@,
            r is Err ==> r->Err_0 is InitializationError,
    {
        if parameters.threshold > parameters.limit {
            return Err(Error::InitializationError("Threshold greater than limit".to_owned()));
        }
        if parameters.threshold < 1 {
            return Err(Error::InitializationError("Threshold less than 1".to_owned()));
        }
        if parameters.limit > 65535 {
            return Err(Error::InitializationError("Limit too large for the wire format".to_owned()));
        }
        if parameters.participant_ids.len() != parameters.limit {
            return Err(
                Error::InitializationError("Wrong number of participant ids".to_owned()),
            );
        }
        if parameters.message_generator.is_identity() {
            return Err(Error::InitializationError("Invalid message generator".to_owned()));
        }
        if id.is_zero() {
            return Err(Error::InitializationError("Participant id is zero".to_owned()));
        }
        let mut z: usize = 0;
        while z < parameters.participant_ids.len()
            invariant
                z <= parameters.participant_ids@.len(),
                forall|j: int|
                    0 <= j < z ==> be_val((#[trigger] parameters.participant_ids@[j])@) != 0,
            decreases parameters.participant_ids@.len() - z,
        {
            if parameters.participant_ids[z].is_zero() {
                return Err(
                    Error::InitializationError("A participant id is zero".to_owned()),
                );
            }
            z += 1;
        }
        let t = parameters.threshold;
        let mut powers_of_i: Vec<Scalar> = Vec::new();
        powers_of_i.push(Scalar::one());
        let mut k: usize = 1;
        while k < t
            invariant
                1 <= k <= t,
                powers_of_i@.len() == k,
                forall|j: int|
                    0 <= j < k ==> (#[trigger] powers_of_i@[j]).val() == pow_mod(
                        id.val(),
                        j as nat,
                    ),
            decreases t - k,
        {
            let prev = &powers_of_i[k - 1];
            let nxt = sc_mul(prev, &id);
            powers_of_i.push(nxt);
            k += 1;
        }
        let (shares, feldman_verifiers) = match feldman_split(
            t,
            parameters.limit,
            &secret,
            &parameters.message_generator,
            &parameters.participant_ids,
        ) {
            Ok(pair) => pair,
            Err(e) => {
                return Err(e);
            },
        };
        let mut k: usize = 1;
        while k < feldman_verifiers.len()
            invariant
                1 <= k,
                feldman_verifiers@.len() == t,
            decreases feldman_verifiers@.len() - k,
        {
            if feldman_verifiers[k].is_identity() {
                return Err(Error::InitializationError("Invalid feldman verifier".to_owned()));
            }
            k += 1;
        }
        let first_ok = match ptype {
            ParticipantType::Secret => !feldman_verifiers[0].is_identity(),
            ParticipantType::Refresh => feldman_verifiers[0].is_identity(),
        };
        if !first_ok {
            return Err(Error::InitializationError("Invalid feldman verifier".to_owned()));
        }
        let limit = parameters.limit;
        let mut ordinal: usize = limit;
        let mut i: usize = 0;
        while i < limit
            invariant
                i <= limit,
                shares@.len() == limit,
                parameters.participant_ids@.len() == limit,
                forall|j: int|
                    0 <= j < limit ==> (#[trigger] shares@[j])@.identifier
                        == parameters.participant_ids@[j]@,
                ordinal == limit ==> forall|j: int|
                    0 <= j < i ==> (#[trigger] parameters.participant_ids@[j])@ != id@,
                ordinal != limit ==> (ordinal < i && parameters.participant_ids@[ordinal as int]@
                    == id@ && forall|j: int|
                    0 <= j < ordinal ==> (#[trigger] parameters.participant_ids@[j])@ != id@),
            decreases limit - i,
        {
            if ordinal == limit && shares[i].identifier.eq_scalar(&id) {
                ordinal = i;
            }
            i += 1;
        }
        if ordinal == limit {
            return Err(
                Error::InitializationError(
                    "Participant id is not in the generated set of shares".to_owned(),
                ),
            );
        }
        let mut all_participant_ids: Vec<Scalar> = Vec::new();
        let mut i: usize = 0;
        while i < limit
            invariant
                i <= limit,
                shares@.len() == limit,
                all_participant_ids@.len() == i,
                forall|j: int|
                    0 <= j < i ==> (#[trigger] all_participant_ids@[j])@ == shares@[j]@.identifier,
            decreases limit - i,
        {
            all_participant_ids.push(shares[i].identifier.duplicate());
            i += 1;
        }
        let own_id = id.duplicate();
        let p = Participant {
            ordinal,
            id,
            threshold: t,
            limit,
            round: Round::One,
            completed: false,
            ptype,
            secret,
            secret_shares: shares,
            feldman_verifiers,
            secret_share: SecretShare { identifier: own_id, value: Scalar::zero() },
            message_generator: parameters.message_generator.duplicate(),
            public_key: crate::group::pt_identity(),
            powers_of_i,
            received_round1_data: none_buf(limit),
            received_round2_data: none_buf(limit),
            all_participant_ids,
            valid_participant_ids: none_buf(limit),
        };
        proof {
            assert(scalars_view(p.all_participant_ids@) =~= scalars_view(
                parameters.participant_ids@,
            ));
        }
        Ok(p)
    }

    /// Create a participant that contributes a fresh random secret.
    pub fn new_secret(id: Scalar, parameters: &Parameters) -> (r: DkgResult<Participant>)
        ensures
            Self::params_rejected(*parameters, id@) ==> r is Err,
            (!Self::params_rejected(*parameters, id@) && !(exists|j: int|
                0 <= j < parameters.participant_ids@.len()
                    && (#[trigger] parameters.participant_ids@[j])@ == id@)) ==> r is Err,
            r matches Ok(p) ==> Self::fresh_state(p, id@, *parameters, ParticipantType::Secret),
            r is Err ==> r->Err_0 is InitializationError,
    {
        Self::new(id, parameters, ParticipantType::Secret)
    }

    /// Create a participant that contributes zero, refreshing the shares
    /// without moving the public key.
    pub fn new_refresh(id: Scalar, parameters: &Parameters) -> (r: DkgResult<Participant>)
        ensures
            Self::params_rejected(*parameters, id@) ==> r is Err,
            (!Self::params_rejected(*parameters, id@) && !(exists|j: int|
                0 <= j < parameters.participant_ids@.len()
                    && (#[trigger] parameters.participant_ids@[j])@ == id@)) ==> r is Err,
            (!Self::params_rejected(*parameters, id@) && parameters.threshold == 1 && (exists|j: int|
                0 <= j < parameters.participant_ids@.len()
                    && (#[trigger] parameters.participant_ids@[j])@ == id@)) ==> r is Ok,
            r matches Ok(p) ==> Self::fresh_state(p, id@, *parameters, ParticipantType::Refresh),
            r is Err ==> r->Err_0 is InitializationError,
    {
        Self::new(id, parameters, ParticipantType::Refresh)
    }

    /// Create a participant of the given type: a `Secret` participant draws
    /// its polynomial constant at random, a `Refresh` participant uses zero.
    pub fn new(id: Scalar, parameters: &Parameters, ptype: ParticipantType) -> (r: DkgResult<
        Participant,
    >)
        ensures
            Self::params_rejected(*parameters, id@) ==> r is Err,
            (!Self::params_rejected(*parameters, id@) && !(exists|j: int|
                0 <= j < parameters.participant_ids@.len()
                    && (#[trigger] parameters.participant_ids@[j])@ == id@)) ==> r is Err,
            (!Self::params_rejected(*parameters, id@) && parameters.threshold == 1 && (exists|j: int|
                0 <= j < parameters.participant_ids@.len()
                    && (#[trigger] parameters.participant_ids@[j])@ == id@) && ptype
                == ParticipantType::Refresh) ==> r is Ok,
            r matches Ok(p) ==> Self::fresh_state(p, id@, *parameters, ptype),
            r is Err ==> r->Err_0 is InitializationError,
    {
        let secret = match ptype {
            ParticipantType::Secret => sc_random(),
            ParticipantType::Refresh => Scalar::zero(),
        };
        Self::initialize(id, parameters, secret, ptype)
    }

    /// Migrate a share from a previous epoch: the new polynomial constant is
    /// `old_share.value` times the Lagrange coefficient of `old_share` with
    /// respect to the previous epoch's identifiers, so that the combined
    /// secret is preserved.
    pub fn with_secret(
        new_identifier: Scalar,
        old_share: &SecretShare,
        parameters: &Parameters,
        share_ids: &Vec<Scalar>,
    ) -> (r: DkgResult<Participant>)
        ensures
            Self::params_rejected(*parameters, new_identifier@) ==> r is Err,
            (!Self::params_rejected(*parameters, new_identifier@) && !(exists|j: int|
                0 <= j < parameters.participant_ids@.len()
                    && (#[trigger] parameters.participant_ids@[j])@ == new_identifier@))
                ==> r is Err,
            (!Self::params_rejected(*parameters, new_identifier@) && parameters.threshold == 1 && (
            exists|j: int|
                0 <= j < parameters.participant_ids@.len()
                    && (#[trigger] parameters.participant_ids@[j])@ == new_identifier@) && (be_val(
                old_share@.value,
            ) * Self::lagrange_num(
                old_share.identifier@,
                scalars_view(share_ids@),
                share_ids@.len() as int,
            )) % scalar_order() != 0) ==> r is Ok,
            r matches Ok(p) ==> Self::fresh_state(
                p,
                new_identifier@,
                *parameters,
                ParticipantType::Secret,
            ),
            r matches Ok(p) ==> {
                let ids = scalars_view(share_ids@);
                let n = share_ids@.len() as int;
                let den = Self::lagrange_den(old_share.identifier@, ids, n);
                let num = Self::lagrange_num(old_share.identifier@, ids, n);
                &&& den != 0
                &&& (p.contribution_val() * den) % scalar_order() == (be_val(old_share@.value)
                    * num) % scalar_order()
            },
            r is Err ==> r->Err_0 is InitializationError,
    {
        let lambda = Self::lagrange(old_share, share_ids);
        let secret = sc_mul(&old_share.value, &lambda);
        proof {
            let ids = scalars_view(share_ids@);
            let n = share_ids@.len() as int;
            let den = Self::lagrange_den(old_share.identifier@, ids, n);
            let num = Self::lagrange_num(old_share.identifier@, ids, n);
            let ov = be_val(old_share@.value);
            crate::group::lemma_mul_mod3(ov, lambda.val(), den);
            vstd::arithmetic::div_mod::lemma_mul_mod_noop_general(
                ov as int,
                num as int,
                scalar_order() as int,
            );
            // The migrated constant is zero exactly when old_value * num is.
            if secret.val() == 0 {
                assert((ov * num) % scalar_order() == (secret.val() * den) % scalar_order());
                vstd::arithmetic::div_mod::lemma_mul_mod_noop_general(
                    0int,
                    den as int,
                    scalar_order() as int,
                );
            }
        }
        let r = Self::initialize(new_identifier, parameters, secret, ParticipantType::Secret);
        r
    }

    /// Run the next step of the protocol: Round 1, 2 or 3 by the current
    /// state; an error once the protocol is complete.
    pub fn run(&mut self) -> (r: DkgResult<crate::output::RoundOutputGenerator>)
        requires
            old(self).wf(),
        ensures
            final(self).wf(),
            old(self).round == Round::One ==> (r is Ok && Self::round1_transition(
                *old(self),
                *final(self),
                r->Ok_0,
            )),
            old(self).round == Round::Two ==> {
                &&& count_some(old(self).received_round1_data@) < old(self).threshold ==> (r is Err
                    && r->Err_0 is RoundError && *final(self) == *old(self))
                &&& count_some(old(self).received_round1_data@) >= old(self).threshold ==> (r is Ok
                    && Self::round2_transition(*old(self), *final(self), r->Ok_0))
            },
            old(self).round == Round::Three ==> {
                &&& count_some(old(self).received_round2_data@) < old(self).threshold ==> (r is Err
                    && r->Err_0 is RoundError && *final(self) == *old(self))
                &&& (count_some(old(self).received_round2_data@) >= old(self).threshold && !old(
                    self,
                ).round3_consistent()) ==> (r is Err && r->Err_0 is RoundError && *final(self)
                    == *old(self))
                &&& (count_some(old(self).received_round2_data@) >= old(self).threshold && old(
                    self,
                ).round3_consistent() && old(self).round3_trivial()) ==> (r is Err
                    && r->Err_0 is RoundError && *final(self) == *old(self))
                &&& (count_some(old(self).received_round2_data@) >= old(self).threshold && old(
                    self,
                ).round3_consistent() && !old(self).round3_trivial()) ==> (r is Ok
                    && Self::round3_transition(*old(self), *final(self), r->Ok_0))
            },
            old(self).round == Round::Four ==> (r is Err && r->Err_0 is RoundError && *final(self)
                == *old(self)),
    {
        match self.round {
            Round::One => self.round1(),
            Round::Two => self.round2(),
            Round::Three => self.round3(),
            Round::Four => Err(Error::RoundError("protocol is complete".to_owned())),
        }
    }

    /// Deliver one payload received from a peer: the round-tag byte selects
    /// the payload kind, the body is decoded by the wire format, and the
    /// round's acceptance rule is applied, exactly. Anything rejected
    /// leaves the participant unchanged.
    pub fn receive(&mut self, data: &[u8]) -> (r: DkgResult<()>)
        requires
            old(self).wf(),
        ensures
            final(self).wf(),
            data@.len() == 0 ==> (r is Err && r->Err_0 is InitializationError && *final(self)
                == *old(self)),
            (data@.len() > 0 && data@[0] == 1) ==> {
                let dec = crate::codec::dec_r1(data@.subrange(1, data@.len() as int));
                &&& (dec is None ==> (r is Err && r->Err_0 is SerializationError && *final(self)
                    == *old(self)))
                &&& (dec matches Some(v) ==> {
                    &&& (r is Ok <==> old(self).r1_accept(v))
                    &&& (r is Ok ==> ((*final(self) == (Participant {
                        received_round1_data: final(self).received_round1_data,
                        ..*old(self)
                    })) && r1_view(final(self).received_round1_data@) == r1_view(
                        old(self).received_round1_data@,
                    ).update(v.sender_ordinal as int, Some(v))))
                    &&& (r is Err ==> *final(self) == *old(self))
                })
            },
            (data@.len() > 0 && data@[0] == 2) ==> {
                let dec = crate::codec::dec_r2(data@.subrange(1, data@.len() as int));
                &&& (dec is None ==> (r is Err && r->Err_0 is SerializationError && *final(self)
                    == *old(self)))
                &&& (dec matches Some(v) ==> {
                    &&& (r is Ok <==> old(self).r2_accept(v))
                    &&& (r is Ok ==> ((*final(self) == (Participant {
                        received_round2_data: final(self).received_round2_data,
                        ..*old(self)
                    })) && r2_view(final(self).received_round2_data@) == r2_view(
                        old(self).received_round2_data@,
                    ).update(v.sender_ordinal as int, Some(v))))
                    &&& (r is Err ==> *final(self) == *old(self))
                })
            },
            (data@.len() > 0 && (data@[0] == 3 || data@[0] == 4)) ==> (r is Err
                && r->Err_0 is RoundError && *final(self) == *old(self)),
            (data@.len() > 0 && data@[0] != 1 && data@[0] != 2 && data@[0] != 3 && data@[0] != 4)
                ==> (r is Err && r->Err_0 is InitializationError && *final(self) == *old(self)),
    {
        if data.len() == 0 {
            return Err(Error::InitializationError("invalid round".to_owned()));
        }
        let tag = data[0];
        let n = data.len();
        let mut body: Vec<u8> = Vec::new();
        let mut i: usize = 1;
        while i < n
            invariant
                1 <= i <= n,
                n == data@.len(),
                body@ == data@.subrange(1, i as int),
            decreases n - i,
        {
            body.push(data[i]);
            proof {
                assert(body@ =~= data@.subrange(1, i + 1));
            }
            i += 1;
        }
        if tag == 1 {
            match crate::codec::decode_round1(&body) {
                Option::Some(d) => {
                    let ghost v = d@;
                    let res = self.receive_round1data(d);
                    proof {
                        if res is Ok {
                            assert(r1_view(self.received_round1_data@) =~= r1_view(
                                old(self).received_round1_data@,
                            ).update(v.sender_ordinal as int, Some(v)));
                        }
                    }
                    res
                },
                Option::None => Err(
                    Error::SerializationError("malformed round 1 payload".to_owned()),
                ),
            }
        } else if tag == 2 {
            match crate::codec::decode_round2(&body) {
                Option::Some(d) => {
                    let ghost v = d@;
                    let res = self.receive_round2data(d);
                    proof {
                        if res is Ok {
                            assert(r2_view(self.received_round2_data@) =~= r2_view(
                                old(self).received_round2_data@,
                            ).update(v.sender_ordinal as int, Some(v)));
                        }
                    }
                    res
                },
                Option::None => Err(
                    Error::SerializationError("malformed round 2 payload".to_owned()),
                ),
            }
        } else if tag == 3 || tag == 4 {
            Err(Error::RoundError("protocol is complete".to_owned()))
        } else {
            Err(Error::InitializationError("invalid round".to_owned()))
        }
    }

    /// The running numerator of the Lagrange coefficient of `id` over the
    /// first `n` identifiers: the product of every other identifier.
    pub open spec fn lagrange_num(id: Seq<u8>, ids: Seq<Seq<u8>>, n: int) -> nat
        decreases n,
    {
        if n <= 0 {
            1
        } else if ids[n - 1] == id {
            Self::lagrange_num(id, ids, n - 1)
        } else {
            (Self::lagrange_num(id, ids, n - 1) * be_val(ids[n - 1])) % scalar_order()
        }
    }

    /// The running denominator of the Lagrange coefficient of `id`: the
    /// product of the differences to every other identifier.
    pub open spec fn lagrange_den(id: Seq<u8>, ids: Seq<Seq<u8>>, n: int) -> nat
        decreases n,
    {
        if n <= 0 {
            1
        } else if ids[n - 1] == id {
            Self::lagrange_den(id, ids, n - 1)
        } else {
            (Self::lagrange_den(id, ids, n - 1) * sub_mod(be_val(ids[n - 1]), be_val(id)))
                % scalar_order()
        }
    }

    /// The Lagrange coefficient of `share.identifier` with respect to the
    /// identifier multiset `share_ids`: the unique field element whose
    /// product with the denominator equals the numerator. Total: entries
    /// equal to `share.identifier` are skipped, so the denominator is a
    /// product of nonzero field elements and never zero.
    #[verifier::loop_isolation(false)]
    pub(crate) fn lagrange(share: &SecretShare, share_ids: &Vec<Scalar>) -> (lambda: Scalar)
        ensures
            ({
                let n = share_ids@.len() as int;
                let ids = scalars_view(share_ids@);
                &&& Self::lagrange_den(share.identifier@, ids, n) != 0
                &&& (lambda.val() * Self::lagrange_den(share.identifier@, ids, n)) % scalar_order()
                    == Self::lagrange_num(share.identifier@, ids, n) % scalar_order()
            }),
    {
        let n = share_ids.len();
        share.identifier.canonical_facts();
        let mut num = Scalar::one();
        let mut den = Scalar::one();
        let mut j: usize = 0;
        while j < n
            invariant
                j <= n,
                num.val() == Self::lagrange_num(
                    share.identifier@,
                    scalars_view(share_ids@),
                    j as int,
                ),
                den.val() == Self::lagrange_den(
                    share.identifier@,
                    scalars_view(share_ids@),
                    j as int,
                ),
                den.val() != 0,
            decreases n - j,
        {
            let x = &share_ids[j];
            x.canonical_facts();
            if !x.eq_scalar(&share.identifier) {
                proof {
                    if x.val() == share.identifier.val() {
                        crate::bytes::lemma_be_val_injective(x@, share.identifier@);
                    }
                    crate::group::lemma_sub_mod_nonzero(x.val(), share.identifier.val());
                }
                num = sc_mul(&num, x);
                den = sc_mul(&den, &crate::group::sc_sub(x, &share.identifier));
            }
            proof {
                assert(scalars_view(share_ids@)[j as int] == share_ids@[j as int]@);
            }
            j += 1;
        }
        match crate::group::sc_invert(&den) {
            Option::Some(inv) => {
                let lambda = sc_mul(&num, &inv);
                proof {
                    let ids = scalars_view(share_ids@);
                    let nn = n as int;
                    let dv = Self::lagrange_den(share.identifier@, ids, nn);
                    let nv = Self::lagrange_num(share.identifier@, ids, nn);
                    assert((lambda.val() * dv) % scalar_order() == nv % scalar_order()) by {
                        crate::group::lemma_mul_inverse_cancels(
                            nv,
                            dv,
                            inv.val(),
                            lambda.val(),
                        );
                    }
                }
                lambda
            },
            Option::None => {
                proof {
                    assert(false);
                }
                num
            },
        }
    }
}

/// The behavior of a secret-contributing participant: the polynomial
/// constant is drawn at random, and an acceptable first Feldman commitment
/// is anything but the identity.
pub struct SecretParticipantImpl;

impl SecretParticipantImpl {
    /// The type tag of this behavior.
    pub fn get_type(&self) -> (r: ParticipantType)
        ensures
            r == ParticipantType::Secret,
    {
        ParticipantType::Secret
    }

    /// Draw a polynomial constant: a random scalar.
    pub fn random_value() -> (r: Scalar)
        ensures
            crate::group::scalar_canon(r@),
    {
        sc_random()
    }

    /// Whether a first Feldman commitment fits this type: it must not be
    /// the identity.
    pub fn check_feldman_verifier(verifier: &GroupElement) -> (r: bool)
        ensures
            r == (verifier@ != identity_enc()),
    {
        !verifier.is_identity()
    }
}

/// The behavior of a refresh participant: the polynomial constant is zero,
/// and the first Feldman commitment must be the identity.
pub struct RefreshParticipantImpl;

impl RefreshParticipantImpl {
    /// The type tag of this behavior.
    pub fn get_type(&self) -> (r: ParticipantType)
        ensures
            r == ParticipantType::Refresh,
    {
        ParticipantType::Refresh
    }

    /// Draw a polynomial constant: always zero.
    pub fn random_value() -> (r: Scalar)
        ensures
            r.val() == 0,
    {
        Scalar::zero()
    }

    /// Whether a first Feldman commitment fits this type: it must be the
    /// identity.
    pub fn check_feldman_verifier(verifier: &GroupElement) -> (r: bool)
        ensures
            r == (verifier@ == identity_enc()),
    {
        verifier.is_identity()
    }
}

} // verus!
