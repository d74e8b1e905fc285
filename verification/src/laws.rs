//! Cross-function guarantees of the protocol, stated and proved as lemmas.

use vstd::prelude::*;
use crate::data::{Round1DataV, Round2DataV};
use crate::participant::{r1_view, r2_view, Participant};
use crate::round3::pk_sum;
use crate::transcript::{challenge_of, transcript_input};

verus! {

/// The aggregated public key is determined by the accepted Round-1 payloads
/// and the set of contributing ordinals alone.
pub proof fn lemma_pk_sum_congruence(
    r1: Seq<Option<Round1DataV>>,
    r2a: Seq<Option<Round2DataV>>,
    r2b: Seq<Option<Round2DataV>>,
    n: int,
)
    requires
        forall|o: int| 0 <= o < n ==> ((#[trigger] r2a[o]) is Some <==> r2b[o] is Some),
    ensures
        pk_sum(r1, r2a, n) == pk_sum(r1, r2b, n),
    decreases n,
{
    if n > 0 {
        lemma_pk_sum_congruence(r1, r2a, r2b, n - 1);
    }
}

/// All completed participants of one run agree on the transcript hash and
/// on the public key: two well-formed completed participants that accepted
/// the same Round-1 payloads, aggregated the same set of contributors, and
/// hold the transcript hash and public key the rounds computed (as the
/// contracts of `run` guarantee), hold the same hash and the same key.
pub proof fn lemma_completed_agreement(a: &Participant, b: &Participant)
    requires
        a.wf(),
        b.wf(),
        a.completed,
        b.completed,
        a.limit == b.limit,
        r1_view(a.received_round1_data@) == r1_view(b.received_round1_data@),
        forall|o: int|
            0 <= o < a.limit ==> ((#[trigger] a.received_round2_data@[o]) is Some
                <==> b.received_round2_data@[o] is Some),
        a.received_round2_data@[a.ordinal as int]->0.transcript_hash@ == challenge_of(
            transcript_input(r1_view(a.received_round1_data@)),
        ),
        b.received_round2_data@[b.ordinal as int]->0.transcript_hash@ == challenge_of(
            transcript_input(r1_view(b.received_round1_data@)),
        ),
        a.public_key@ == pk_sum(
            r1_view(a.received_round1_data@),
            r2_view(a.received_round2_data@),
            a.limit as int,
        ),
        b.public_key@ == pk_sum(
            r1_view(b.received_round1_data@),
            r2_view(b.received_round2_data@),
            b.limit as int,
        ),
    ensures
        a.received_round2_data@[a.ordinal as int]->0.transcript_hash@
            == b.received_round2_data@[b.ordinal as int]->0.transcript_hash@,
        a.public_key@ == b.public_key@,
{
    assert(forall|o: int|
        0 <= o < a.limit ==> ((#[trigger] r2_view(a.received_round2_data@)[o]) is Some
            <==> r2_view(b.received_round2_data@)[o] is Some));
    lemma_pk_sum_congruence(
        r1_view(a.received_round1_data@),
        r2_view(a.received_round2_data@),
        r2_view(b.received_round2_data@),
        a.limit as int,
    );
}

/// A pure-refresh run ends with the identity public key, and a run with at
/// least one secret contributor does not: for a completed participant whose
/// state the rounds produced (the consistency check passed and the key is
/// the aggregate, as the contracts of `run` guarantee), the key is the
/// identity exactly when every contributor was a refresh participant.
pub proof fn lemma_refresh_runs_and_the_public_key(p: &Participant)
    requires
        p.wf(),
        p.completed,
        p.round3_consistent(),
        p.public_key@ == crate::round3::pk_sum(
            r1_view(p.received_round1_data@),
            r2_view(p.received_round2_data@),
            p.limit as int,
        ),
    ensures
        crate::round3::all_refresh(
            r1_view(p.received_round1_data@),
            r2_view(p.received_round2_data@),
            p.limit as int,
        ) <==> p.public_key@ == crate::group::identity_enc(),
{
}

/// Reordering accepted Round-1 payloads within a round does not change the
/// outcome: if two payloads from distinct senders are both acceptable, the
/// second is still accepted after the first has been recorded, and either
/// delivery order leaves the same buffer.
pub proof fn lemma_r1_delivery_commutes(
    p: &Participant,
    q: &Participant,
    v1: Round1DataV,
    v2: Round1DataV,
)
    requires
        p.wf(),
        p.r1_accept(v1),
        p.r1_accept(v2),
        v1.sender_ordinal != v2.sender_ordinal,
        *q == (Participant { received_round1_data: q.received_round1_data, ..*p }),
        q.received_round1_data@.len() == p.received_round1_data@.len(),
        r1_view(q.received_round1_data@) == r1_view(p.received_round1_data@).update(
            v1.sender_ordinal as int,
            Some(v1),
        ),
    ensures
        q.r1_accept(v2),
        r1_view(q.received_round1_data@).update(v2.sender_ordinal as int, Some(v2)) == r1_view(
            p.received_round1_data@,
        ).update(v2.sender_ordinal as int, Some(v2)).update(v1.sender_ordinal as int, Some(v1)),
{
    let o1 = v1.sender_ordinal as int;
    let o2 = v2.sender_ordinal as int;
    assert(r1_view(q.received_round1_data@)[o2] == r1_view(p.received_round1_data@)[o2]);
    assert(r1_view(p.received_round1_data@)[o2] is None);
    assert(q.received_round1_data@[o2] is None);
    assert(r1_view(q.received_round1_data@).update(o2, Some(v2)) =~= r1_view(
        p.received_round1_data@,
    ).update(o2, Some(v2)).update(o1, Some(v1)));
}

/// The same commutation for Round-2 payloads: acceptance of one payload
/// does not disturb the acceptability of another from a distinct sender,
/// and either delivery order leaves the same buffer.
pub proof fn lemma_r2_delivery_commutes(
    p: &Participant,
    q: &Participant,
    v1: Round2DataV,
    v2: Round2DataV,
)
    requires
        p.wf(),
        p.r2_accept(v1),
        p.r2_accept(v2),
        v1.sender_ordinal != v2.sender_ordinal,
        *q == (Participant { received_round2_data: q.received_round2_data, ..*p }),
        q.received_round2_data@.len() == p.received_round2_data@.len(),
        r2_view(q.received_round2_data@) == r2_view(p.received_round2_data@).update(
            v1.sender_ordinal as int,
            Some(v1),
        ),
    ensures
        q.r2_accept(v2),
        r2_view(q.received_round2_data@).update(v2.sender_ordinal as int, Some(v2)) == r2_view(
            p.received_round2_data@,
        ).update(v2.sender_ordinal as int, Some(v2)).update(v1.sender_ordinal as int, Some(v1)),
{
    let o1 = v1.sender_ordinal as int;
    let o2 = v2.sender_ordinal as int;
    let own = p.ordinal as int;
    assert(r2_view(q.received_round2_data@)[o2] == r2_view(p.received_round2_data@)[o2]);
    assert(q.received_round2_data@[o2] is None);
    assert(o1 != own);
    assert(r2_view(q.received_round2_data@)[own] == r2_view(p.received_round2_data@)[own]);
    assert(q.received_round2_data@[own] is Some);
    assert(q.received_round2_data@[own]->0@.transcript_hash == p.received_round2_data@[own]->0@.transcript_hash);
    assert(r2_view(q.received_round2_data@).update(o2, Some(v2)) =~= r2_view(
        p.received_round2_data@,
    ).update(o2, Some(v2)).update(o1, Some(v1)));
}

} // verus!
