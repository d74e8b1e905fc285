//! Protocol parameters, shared verbatim by every participant of a ceremony.

use vstd::prelude::*;
use crate::group::{generator_enc, pt_generator, sc_from_u64, scalar_canon, GroupElement, Scalar};
use crate::data::scalars_view;

verus! {

/// The immutable configuration of one ceremony: threshold, participant
/// limit, the commitment base `H`, and the ordered participant identifiers.
/// All participants must be constructed from equal parameters, or the
/// protocol aborts at the transcript check.
pub struct Parameters {
    /// The threshold `t`: how many shares reconstruct the secret.
    pub threshold: usize,
    /// The limit `n`: how many participants take part.
    pub limit: usize,
    /// The commitment base `H`.
    pub message_generator: GroupElement,
    /// The ordered participant identifiers, one per ordinal.
    pub participant_ids: Vec<Scalar>,
}

impl Parameters {
    /// Assemble parameters. A missing generator defaults to the group's
    /// standard generator; a missing identifier list defaults to the
    /// sequence `1, 2, ..., limit`. Nothing is validated here; construction
    /// of a participant rejects inconsistent parameters.
    pub fn new(
        threshold: usize,
        limit: usize,
        message_generator: Option<GroupElement>,
        participant_ids: Option<Vec<Scalar>>,
    ) -> (r: Parameters)
        requires
            limit <= 65535,
        ensures
            r.threshold == threshold,
            r.limit == limit,
            match message_generator {
                Some(g) => r.message_generator@ == g@,
                None => r.message_generator@ == generator_enc(),
            },
            match participant_ids {
                Some(ids) => scalars_view(r.participant_ids@) == scalars_view(ids@),
                None => r.participant_ids@.len() == limit && forall|i: int|
                    0 <= i < limit ==> (#[trigger] r.participant_ids@[i]).val() == i + 1,
            },
    {
        let message_generator = match message_generator {
            Option::Some(g) => g,
            Option::None => pt_generator(),
        };
        let participant_ids = match participant_ids {
            Option::Some(ids) => ids,
            Option::None => {
                let mut ids: Vec<Scalar> = Vec::new();
                let mut i: usize = 0;
                while i < limit
                    invariant
                        i <= limit,
                        limit <= 65535,
                        ids@.len() == i,
                        forall|j: int| 0 <= j < i ==> (#[trigger] ids@[j]).val() == j + 1,
                    decreases limit - i,
                {
                    ids.push(sc_from_u64((i as u64) + 1));
                    i += 1;
                }
                ids
            },
        };
        Parameters { threshold, limit, message_generator, participant_ids }
    }

    /// The threshold parameter.
    pub fn threshold(&self) -> (r: usize)
        ensures
            r == self.threshold,
    {
        self.threshold
    }

    /// The limit parameter: the number of participants.
    pub fn limit(&self) -> (r: usize)
        ensures
            r == self.limit,
    {
        self.limit
    }

    /// The commitment base `H`.
    pub fn message_generator(&self) -> (r: GroupElement)
        ensures
            r@ == self.message_generator@,
    {
        self.message_generator.duplicate()
    }

    /// The ordered participant identifiers, one per ordinal.
    pub fn participant_number_generator(&self) -> (r: &Vec<Scalar>)
        ensures
            r@.len() == self.participant_ids@.len(),
            scalars_view(r@) == scalars_view(self.participant_ids@),
    {
        &self.participant_ids
    }
}

} // verus!
