//! End-to-end protocol scenarios: key generation, migration, refresh,
//! resharing, and the boundary cases.

use elliptic_curve::PrimeField;
use elliptic_curve::group::GroupEncoding;
use frost_dkg::ScalarHash;
use frost_dkg::{GroupElement, Parameters, Participant, Round, Scalar};

fn to_k256(s: &Scalar) -> k256::Scalar {
    let b = s.to_bytes();
    k256::Scalar::from_repr(k256::FieldBytes::clone_from_slice(&b)).unwrap()
}

fn from_k256(s: &k256::Scalar) -> Scalar {
    Scalar::from_bytes(&s.to_repr().to_vec()).unwrap()
}

fn clone_ids(v: &[Scalar]) -> Vec<Scalar> {
    v.iter().map(|s| s.duplicate()).collect()
}

fn random_scalar() -> Scalar {
    from_k256(&<k256::Scalar as elliptic_curve::Field>::random(&mut rand_core::OsRng))
}

/// Lagrange interpolation at zero over the given (id, value) pairs.
fn combine(shares: &[(k256::Scalar, k256::Scalar)]) -> k256::Scalar {
    let mut acc = k256::Scalar::ZERO;
    for (i, (xi, yi)) in shares.iter().enumerate() {
        let mut num = k256::Scalar::ONE;
        let mut den = k256::Scalar::ONE;
        for (j, (xj, _)) in shares.iter().enumerate() {
            if i != j {
                num *= xj;
                den *= *xj - *xi;
            }
        }
        acc += *yi * num * den.invert().unwrap();
    }
    acc
}

fn combined_share_secret(participants: &[Participant], pick: &[usize]) -> k256::Scalar {
    let shares: Vec<(k256::Scalar, k256::Scalar)> = pick
        .iter()
        .map(|&i| {
            let s = participants[i].get_secret_share().unwrap();
            (to_k256(&s.identifier), to_k256(&s.value))
        })
        .collect();
    combine(&shares)
}

fn next_round(participants: &mut [Participant]) -> Vec<frost_dkg::RoundOutputGenerator> {
    let mut generators = Vec::new();
    for p in participants.iter_mut() {
        generators.push(p.run().unwrap());
    }
    generators
}

fn deliver(participants: &mut [Participant], generators: &[frost_dkg::RoundOutputGenerator]) {
    for g in generators {
        for out in g.iter() {
            let res = participants[out.dst_ordinal].receive(&out.data);
            if let Err(e) = res {
                panic!("delivery to {} failed: {:?}", out.dst_ordinal, e);
            }
        }
    }
}

fn run_to_completion(participants: &mut [Participant]) {
    for _ in 0..3 {
        let generators = next_round(participants);
        deliver(participants, &generators);
    }
    for p in participants.iter() {
        assert!(p.completed());
    }
}

#[test]
fn works() {
    let parameters = Parameters::new(2, 3, None, None);
    let ids = clone_ids(parameters.participant_number_generator());
    let mut participants: Vec<Participant> = ids
        .into_iter()
        .map(|id| Participant::new_secret(id, &parameters).unwrap())
        .collect();

    for _ in [Round::One, Round::Two, Round::Three] {
        let generators = next_round(&mut participants);
        deliver(&mut participants, &generators);
    }

    let secret = combined_share_secret(&participants, &[0, 1, 2]);
    let expected_pk = k256::ProjectivePoint::GENERATOR * secret;
    assert_eq!(
        participants[1].get_public_key().unwrap().to_bytes(),
        expected_pk.to_bytes().to_vec()
    );
}

#[test]
fn happy_path_all_pairs_reconstruct() {
    let parameters = Parameters::new(2, 3, None, None);
    let ids = clone_ids(parameters.participant_number_generator());
    let mut participants: Vec<Participant> = ids
        .into_iter()
        .map(|id| Participant::new_secret(id, &parameters).unwrap())
        .collect();
    run_to_completion(&mut participants);

    let s01 = combined_share_secret(&participants, &[0, 1]);
    let s02 = combined_share_secret(&participants, &[0, 2]);
    let s12 = combined_share_secret(&participants, &[1, 2]);
    assert_eq!(s01, s02);
    assert_eq!(s01, s12);
    let expected_pk = (k256::ProjectivePoint::GENERATOR * s01).to_bytes().to_vec();
    for p in &participants {
        assert_eq!(p.get_public_key().unwrap().to_bytes(), expected_pk);
        assert_eq!(
            p.get_secret_share().unwrap().identifier.to_bytes(),
            p.get_id().to_bytes()
        );
    }
}

#[test]
fn migration_preserves_secret() {
    let old_ids: Vec<Scalar> = (0..3).map(|_| random_scalar()).collect();
    let parameters = Parameters::new(2, 3, None, Some(clone_ids(&old_ids)));
    let mut epoch0: Vec<Participant> = clone_ids(&old_ids)
        .into_iter()
        .map(|id| Participant::new_secret(id, &parameters).unwrap())
        .collect();
    run_to_completion(&mut epoch0);
    let secret = combined_share_secret(&epoch0, &[0, 1]);

    let new_ids: Vec<Scalar> = (0..3).map(|_| random_scalar()).collect();
    let parameters1 = Parameters::new(2, 3, None, Some(clone_ids(&new_ids)));
    let mut epoch1: Vec<Participant> = (0..3)
        .map(|i| {
            let old_share = epoch0[i].get_secret_share().unwrap();
            Participant::with_secret(
                new_ids[i].duplicate(),
                &old_share,
                &parameters1,
                &old_ids,
            )
            .unwrap()
        })
        .collect();
    run_to_completion(&mut epoch1);

    let migrated = combined_share_secret(&epoch1, &[0, 2]);
    assert_eq!(secret, migrated);
    let expected_pk = (k256::ProjectivePoint::GENERATOR * secret).to_bytes().to_vec();
    assert_eq!(epoch1[0].get_public_key().unwrap().to_bytes(), expected_pk);
}

#[test]
fn pure_refresh_yields_identity_key() {
    let parameters = Parameters::new(3, 5, None, None);
    let ids = clone_ids(parameters.participant_number_generator());
    let mut participants: Vec<Participant> = ids
        .into_iter()
        .map(|id| Participant::new_refresh(id, &parameters).unwrap())
        .collect();
    run_to_completion(&mut participants);

    let identity = vec![0u8; 33];
    for p in &participants {
        assert_eq!(p.get_public_key().unwrap().to_bytes(), identity);
        assert!(!p.get_secret_share().unwrap().value.is_zero());
    }
    let zero = combined_share_secret(&participants, &[0, 2, 4]);
    assert_eq!(zero, k256::Scalar::ZERO);
    let zero2 = combined_share_secret(&participants, &[1, 2, 3]);
    assert_eq!(zero2, k256::Scalar::ZERO);
}

#[test]
fn add_participants_and_raise_threshold() {
    let parameters = Parameters::new(3, 5, None, None);
    let ids = clone_ids(parameters.participant_number_generator());
    let mut epoch0: Vec<Participant> = clone_ids(&ids)
        .into_iter()
        .map(|id| Participant::new_secret(id, &parameters).unwrap())
        .collect();
    run_to_completion(&mut epoch0);
    let pk0 = epoch0[0].get_public_key().unwrap().to_bytes();

    let parameters1 = Parameters::new(5, 7, None, None);
    let new_ids = clone_ids(parameters1.participant_number_generator());
    let mut epoch1: Vec<Participant> = Vec::new();
    for i in 0..5 {
        let old_share = epoch0[i].get_secret_share().unwrap();
        epoch1.push(
            Participant::with_secret(
                new_ids[i].duplicate(),
                &old_share,
                &parameters1,
                &ids,
            )
            .unwrap(),
        );
    }
    for i in 5..7 {
        epoch1.push(Participant::new_refresh(new_ids[i].duplicate(), &parameters1).unwrap());
    }
    run_to_completion(&mut epoch1);

    for p in &epoch1 {
        assert_eq!(p.get_public_key().unwrap().to_bytes(), pk0);
    }
    let secret = combined_share_secret(&epoch1, &[0, 1, 2, 3, 4]);
    assert_eq!((k256::ProjectivePoint::GENERATOR * secret).to_bytes().to_vec(), pk0);
}

#[test]
fn remove_participants_keeps_public_key() {
    let parameters = Parameters::new(3, 5, None, None);
    let ids = clone_ids(parameters.participant_number_generator());
    let mut epoch0: Vec<Participant> = clone_ids(&ids)
        .into_iter()
        .map(|id| Participant::new_secret(id, &parameters).unwrap())
        .collect();
    run_to_completion(&mut epoch0);
    let pk0 = epoch0[0].get_public_key().unwrap().to_bytes();

    // Keep the participants with identifiers 1, 3 and 4 only.
    let keep = [0usize, 2, 3];
    let new_ids: Vec<Scalar> = keep.iter().map(|&i| ids[i].duplicate()).collect();
    let parameters1 = Parameters::new(3, 3, None, Some(clone_ids(&new_ids)));
    let mut epoch1: Vec<Participant> = keep
        .iter()
        .map(|&i| {
            let old_share = epoch0[i].get_secret_share().unwrap();
            Participant::with_secret(
                ids[i].duplicate(),
                &old_share,
                &parameters1,
                &new_ids,
            )
            .unwrap()
        })
        .collect();
    run_to_completion(&mut epoch1);

    for p in &epoch1 {
        assert_eq!(p.get_public_key().unwrap().to_bytes(), pk0);
    }
    let secret = combined_share_secret(&epoch1, &[0, 1, 2]);
    assert_eq!((k256::ProjectivePoint::GENERATOR * secret).to_bytes().to_vec(), pk0);
}

#[test]
fn quorum_gate_blocks_round2() {
    let parameters = Parameters::new(2, 3, None, None);
    let ids = clone_ids(parameters.participant_number_generator());
    let mut participants: Vec<Participant> = ids
        .into_iter()
        .map(|id| Participant::new_secret(id, &parameters).unwrap())
        .collect();
    // Everyone advances through Round 1, but nothing is delivered.
    for p in participants.iter_mut() {
        p.run().unwrap();
    }
    for p in participants.iter_mut() {
        let res = p.run();
        assert!(res.is_err());
        assert!(res.err().unwrap().is_round_error());
        assert_eq!(p.get_round(), Round::Two);
        assert!(!p.completed());
    }
}

#[test]
fn all_or_nothing_when_threshold_equals_limit() {
    let parameters = Parameters::new(3, 3, None, None);
    let ids = clone_ids(parameters.participant_number_generator());
    let mut participants: Vec<Participant> = ids
        .into_iter()
        .map(|id| Participant::new_secret(id, &parameters).unwrap())
        .collect();
    let generators = next_round(&mut participants);
    deliver(&mut participants, &generators);
    let generators = next_round(&mut participants);
    // Lose participant 2's Round-2 payloads: deliver only the others'.
    for (i, g) in generators.iter().enumerate() {
        if i == 2 {
            continue;
        }
        for out in g.iter() {
            participants[out.dst_ordinal].receive(&out.data).unwrap();
        }
    }
    // Participants 0 and 1 hold two of three Round-2 payloads: Round 3 aborts.
    for i in [0usize, 1] {
        let res = participants[i].run();
        assert!(res.is_err());
        assert!(!participants[i].completed());
    }
}

#[test]
fn tampered_share_is_rejected() {
    let parameters = Parameters::new(2, 3, None, None);
    let ids = clone_ids(parameters.participant_number_generator());
    let mut participants: Vec<Participant> = ids
        .into_iter()
        .map(|id| Participant::new_secret(id, &parameters).unwrap())
        .collect();
    let generators = next_round(&mut participants);
    deliver(&mut participants, &generators);
    let generators = next_round(&mut participants);

    let mut tampered_done = false;
    for (i, g) in generators.iter().enumerate() {
        for out in g.iter() {
            let mut data = out.data.clone();
            if i == 0 && !tampered_done && out.dst_ordinal == 1 {
                // Flip one bit inside the carried share value.
                let k = data.len() - 40;
                data[k] ^= 0x01;
                let res = participants[out.dst_ordinal].receive(&data);
                assert!(res.err().unwrap().is_round_error());
                tampered_done = true;
            } else {
                participants[out.dst_ordinal].receive(&data).unwrap();
            }
        }
    }
    assert!(tampered_done);
    // Participant 1 still has a quorum (its own and participant 2's payloads).
    for p in participants.iter_mut() {
        p.run().unwrap();
        assert!(p.completed());
    }
}

#[test]
fn threshold_one_reconstructs_alone() {
    let parameters = Parameters::new(1, 2, None, None);
    let ids = clone_ids(parameters.participant_number_generator());
    // A refresh participant at threshold one constructs deterministically.
    assert!(Participant::new_refresh(ids[0].duplicate(), &parameters).is_ok());
    let mut participants: Vec<Participant> = ids
        .into_iter()
        .map(|id| Participant::new_secret(id, &parameters).unwrap())
        .collect();
    run_to_completion(&mut participants);

    // With a threshold of one, every participant alone holds the secret.
    let s0 = combined_share_secret(&participants, &[0]);
    let s1 = combined_share_secret(&participants, &[1]);
    assert_eq!(s0, s1);
    let expected_pk = (k256::ProjectivePoint::GENERATOR * s0).to_bytes().to_vec();
    for p in &participants {
        assert_eq!(p.get_public_key().unwrap().to_bytes(), expected_pk);
    }
}

#[test]
fn invalid_parameters_are_rejected() {
    let parameters = Parameters::new(4, 3, None, None);
    let ids = clone_ids(parameters.participant_number_generator());
    let res = Participant::new_secret(ids[0].duplicate(), &parameters);
    assert!(matches!(res, Err(frost_dkg::Error::InitializationError(_))));

    let parameters = Parameters::new(0, 3, None, None);
    let ids = clone_ids(parameters.participant_number_generator());
    let res = Participant::new_secret(ids[0].duplicate(), &parameters);
    assert!(matches!(res, Err(frost_dkg::Error::InitializationError(_))));

    // The identity is no valid message generator.
    let identity = GroupElement::from_bytes(&vec![0u8; 33]).unwrap();
    let parameters = Parameters::new(2, 3, Some(identity), None);
    let ids = clone_ids(parameters.participant_number_generator());
    let res = Participant::new_secret(ids[0].duplicate(), &parameters);
    assert!(matches!(res, Err(frost_dkg::Error::InitializationError(_))));

    // An identifier that is not in the identifier set.
    let parameters = Parameters::new(2, 3, None, None);
    let res = Participant::new_secret(random_scalar(), &parameters);
    assert!(matches!(res, Err(frost_dkg::Error::InitializationError(_))));
}

#[test]
fn reordered_delivery_changes_nothing() {
    let parameters = Parameters::new(2, 3, None, None);
    let ids = clone_ids(parameters.participant_number_generator());
    let mut participants: Vec<Participant> = ids
        .into_iter()
        .map(|id| Participant::new_secret(id, &parameters).unwrap())
        .collect();
    for _ in 0..2 {
        let generators = next_round(&mut participants);
        // Participant 0 receives the payloads in reverse sender order; the
        // others receive them in forward order.
        let mut to_zero: Vec<Vec<u8>> = Vec::new();
        for g in &generators {
            for out in g.iter() {
                if out.dst_ordinal == 0 {
                    to_zero.push(out.data);
                } else {
                    participants[out.dst_ordinal].receive(&out.data).unwrap();
                }
            }
        }
        for data in to_zero.iter().rev() {
            participants[0].receive(data).unwrap();
        }
    }
    let generators = next_round(&mut participants);
    for g in &generators {
        assert_eq!(g.iter().len(), 0);
    }
    let pk = participants[0].get_public_key().unwrap().to_bytes();
    for p in &participants {
        assert!(p.completed());
        assert_eq!(p.get_public_key().unwrap().to_bytes(), pk);
    }
}

#[test]
fn zero_identifier_is_rejected() {
    let zero = Scalar::from_bytes(&vec![0u8; 32]).unwrap();
    let mut ids = clone_ids(Parameters::new(2, 3, None, None).participant_number_generator());
    ids[0] = zero;
    let parameters = Parameters::new(2, 3, None, Some(clone_ids(&ids)));
    let res = Participant::new_secret(ids[0].duplicate(), &parameters);
    assert!(matches!(res, Err(frost_dkg::Error::InitializationError(_))));
}

#[test]
fn hash_to_scalar_is_nonzero_on_test_vectors() {
    for msg in [
        b"".to_vec(),
        b"frost dkg".to_vec(),
        vec![0u8; 64],
        vec![0xffu8; 96],
    ] {
        let s: Scalar = ScalarHash::hash_to_scalar(&msg);
        assert!(!s.is_zero());
    }
}
