//! The Feldman verifiable-secret-sharing collaborator.
//!
//! Splitting the local secret into one share per participant, with the
//! commitment vector to the polynomial's coefficients, is delegated to the
//! `vsss_rs` crate through one trusted wrapper; its error type is carried
//! out opaquely and mapped to this library's error.

use vstd::prelude::*;
use elliptic_curve::PrimeField;
use elliptic_curve::group::GroupEncoding;
use k256::CompressedPoint;
use k256::FieldBytes;
use k256::ProjectivePoint as Pp;
use k256::Scalar as Ks;
use rand_core::OsRng;
use vsss_rs::DefaultShare as Ds;
use vsss_rs::IdentifierPrimeField as Ipf;
use vsss_rs::ParticipantIdGeneratorType;
use vsss_rs::ShareVerifierGroup as Svg;
use vsss_rs::ValueGroup;
use vsss_rs::Error as SplitError;
use vsss_rs::feldman::split_secret_with_participant_generator;
use crate::data::SecretShare;
use crate::error::Error;
use crate::group::{identity_enc, pt_canon, pt_mul_of, scalar_canon, GroupElement, Scalar};

verus! {

#[verifier::external_type_specification]
#[verifier::external_body]
pub struct ExVsssError(SplitError);

#[verifier::external_type_specification]
#[verifier::external_body]
pub struct ExK256Scalar(Ks);

#[verifier::external_type_specification]
#[verifier::external_body]
pub struct ExK256Point(Pp);

/// Relies on `k256::Scalar::from_repr`, applied to a canonically encoded
/// scalar of this library.
#[verifier::external_body]
fn to_ks(s: &Scalar) -> Ks {
    Ks::from_repr(FieldBytes::clone_from_slice(&s.b)).unwrap()
}

/// Relies on `k256::Scalar::to_repr`: the canonical 32-byte encoding.
#[verifier::external_body]
fn from_ks(x: &Ks) -> Scalar {
    Scalar { b: x.to_repr().to_vec() }
}

/// Relies on `k256::ProjectivePoint::from_bytes`, applied to a canonically
/// encoded group element of this library.
#[verifier::external_body]
fn to_pp(g: &GroupElement) -> Pp {
    Pp::from_bytes(&CompressedPoint::clone_from_slice(&g.b)).unwrap()
}

/// Relies on `k256::ProjectivePoint::to_bytes`: the canonical compressed
/// encoding.
#[verifier::external_body]
fn from_pp(x: &Pp) -> GroupElement {
    GroupElement { b: x.to_bytes().to_vec() }
}

/// Relies on `vsss_rs::feldman::split_secret_with_participant_generator`
/// with an explicit identifier list: given nonzero identifiers (the crate's
/// id iterator stops at a zero element, which would starve the share set),
/// it fails exactly when `threshold < 2`, `limit < threshold`, or the base
/// is the identity; on success it returns one share per identifier, in
/// order, evaluated from a random polynomial with constant coefficient
/// `secret`, and `threshold` commitments whose first entry is
/// `base * secret` (the identity exactly when `secret` is zero, the base
/// being no identity and the group of prime order). The verifier set the
/// crate returns carries the base itself at index 0
/// (`FeldmanVerifierSet::verifiers` is the tail), so only the tail is
/// handed out.
#[verifier::external_body]
fn split_secret_call(
    threshold: usize,
    limit: usize,
    secret: &Scalar,
    base: &GroupElement,
    ids: &Vec<Scalar>,
) -> (r: Result<(Vec<SecretShare>, Vec<GroupElement>), SplitError>)
    requires
        ids@.len() == limit,
        forall|i: int| 0 <= i < limit ==> crate::bytes::be_val((#[trigger] ids@[i])@) != 0,
    ensures
        r is Ok <==> (2 <= threshold <= limit && base@ != identity_enc()),
        r is Ok ==> {
            let (shares, verifiers) = r->Ok_0;
            &&& shares@.len() == limit
            &&& forall|i: int|
                0 <= i < limit ==> (#[trigger] shares@[i])@.identifier == ids@[i]@
                    && scalar_canon(shares@[i]@.value)
            &&& verifiers@.len() == threshold
            &&& forall|k: int|
                0 <= k < threshold ==> ((#[trigger] verifiers@[k])@.len() == 33 && pt_canon(
                    verifiers@[k]@,
                ))
            &&& verifiers@[0]@ == pt_mul_of(base@, secret@)
            &&& (secret.val() == 0 <==> verifiers@[0]@ == identity_enc())
        },
{
    let idk: Vec<Ipf<Ks>> = ids.iter().map(|s| Ipf(to_ks(s))).collect();
    let (sh, vf) = split_secret_with_participant_generator::<Ds<Ipf<Ks>, Ipf<Ks>>, Svg<Pp>>(
        threshold, limit, &Ipf(to_ks(secret)), Some(ValueGroup(to_pp(base))), OsRng,
        &[ParticipantIdGeneratorType::List { list: &idk }],
    )?;
    Ok((
        sh.iter().map(|s| SecretShare { identifier: from_ks(&s.identifier.0), value: from_ks(&s.value.0) }).collect(),
        vf[1..].iter().map(|v| from_pp(&v.0)).collect(),
    ))
}

/// Split `secret` into `limit` shares with `threshold` Feldman commitments
/// over `base`, addressed to the given (nonzero) identifiers; a failure of
/// the sharing scheme is reported as `VsssError`. A threshold of one is
/// handled here: the collaborator refuses thresholds below two, but the
/// protocol admits a degenerate constant polynomial, whose split is spelled
/// out directly — every share is the secret itself and the single
/// commitment is `base * secret`.
pub(crate) fn feldman_split(
    threshold: usize,
    limit: usize,
    secret: &Scalar,
    base: &GroupElement,
    ids: &Vec<Scalar>,
) -> (r: Result<(Vec<SecretShare>, Vec<GroupElement>), Error>)
    requires
        ids@.len() == limit,
        forall|i: int| 0 <= i < limit ==> crate::bytes::be_val((#[trigger] ids@[i])@) != 0,
    ensures
        r is Ok <==> (1 <= threshold <= limit && base@ != identity_enc()),
        r is Ok ==> {
            let (shares, verifiers) = r->Ok_0;
            &&& shares@.len() == limit
            &&& forall|i: int|
                0 <= i < limit ==> (#[trigger] shares@[i])@.identifier == ids@[i]@
                    && scalar_canon(shares@[i]@.value)
            &&& verifiers@.len() == threshold
            &&& forall|k: int|
                0 <= k < threshold ==> ((#[trigger] verifiers@[k])@.len() == 33 && pt_canon(
                    verifiers@[k]@,
                ))
            &&& verifiers@[0]@ == pt_mul_of(base@, secret@)
            &&& (secret.val() == 0 <==> verifiers@[0]@ == identity_enc())
        },
        r is Err ==> r->Err_0 is VsssError,
{
    if threshold == 1 {
        if limit < 1 || base.is_identity() {
            return Err(
                Error::VsssError("the sharing scheme rejected the request".to_owned()),
            );
        }
        secret.canonical_facts();
        let mut shares: Vec<SecretShare> = Vec::new();
        let mut i: usize = 0;
        while i < limit
            invariant
                i <= limit,
                limit == ids@.len(),
                shares@.len() == i,
                forall|j: int|
                    0 <= j < i ==> (#[trigger] shares@[j])@.identifier == ids@[j]@
                        && shares@[j]@.value == secret@,
            decreases limit - i,
        {
            shares.push(SecretShare { identifier: ids[i].duplicate(), value: secret.duplicate() });
            i += 1;
        }
        let mut verifiers: Vec<GroupElement> = Vec::new();
        verifiers.push(crate::group::pt_mul(base, secret));
        return Ok((shares, verifiers));
    }
    match split_secret_call(threshold, limit, secret, base, ids) {
        Ok(pair) => Ok(pair),
        Err(_) => Err(Error::VsssError("the sharing scheme rejected the request".to_owned())),
    }
}

} // verus!
