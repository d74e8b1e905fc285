//! Wire-format and validation behavior: round-trip of the codec, replay
//! rejection, and malformed payloads.

use frost_dkg::codec::{decode_round1, decode_round2, encode_round1, encode_round2};
use frost_dkg::{
    GroupElement, Parameters, Participant, ParticipantType, RefreshParticipantImpl, Round,
    RoundOutputGenerator, Scalar, SecretParticipantImpl,
};

fn ids_of(parameters: &Parameters) -> Vec<Scalar> {
    parameters.participant_number_generator().iter().map(|s| s.duplicate()).collect()
}

fn new_ceremony(t: usize, n: usize) -> Vec<Participant> {
    let parameters = Parameters::new(t, n, None, None);
    ids_of(&parameters)
        .into_iter()
        .map(|id| Participant::new_secret(id, &parameters).unwrap())
        .collect()
}

fn round_outputs(participants: &mut [Participant]) -> Vec<RoundOutputGenerator> {
    participants.iter_mut().map(|p| p.run().unwrap()).collect()
}

fn deliver_all(participants: &mut [Participant], generators: &[RoundOutputGenerator]) {
    for g in generators {
        for out in g.iter() {
            participants[out.dst_ordinal].receive(&out.data).unwrap();
        }
    }
}

#[test]
fn round1_codec_round_trip() {
    let mut participants = new_ceremony(2, 3);
    let generators = round_outputs(&mut participants);
    for g in &generators {
        for out in g.iter() {
            assert_eq!(out.data[0], 1u8);
            let body = out.data[1..].to_vec();
            let decoded = decode_round1(&body).expect("a generated payload decodes");
            let encoded = encode_round1(&decoded);
            assert_eq!(encoded, body);
            assert_eq!(decoded.sender_ordinal, out_sender(g));
        }
    }
}

fn out_sender(g: &RoundOutputGenerator) -> usize {
    match g {
        RoundOutputGenerator::Round1(inner) => inner.sender_ordinal,
        RoundOutputGenerator::Round2(inner) => inner.sender_ordinal,
        RoundOutputGenerator::Round3 => usize::MAX,
    }
}

#[test]
fn round2_codec_round_trip() {
    let mut participants = new_ceremony(2, 3);
    let generators = round_outputs(&mut participants);
    deliver_all(&mut participants, &generators);
    let generators = round_outputs(&mut participants);
    for g in &generators {
        for out in g.iter() {
            assert_eq!(out.data[0], 2u8);
            let body = out.data[1..].to_vec();
            let decoded = decode_round2(&body).expect("a generated payload decodes");
            let encoded = encode_round2(&decoded);
            assert_eq!(encoded, body);
            assert_eq!(
                decoded.secret_share.identifier.to_bytes(),
                out.dst_id.to_bytes()
            );
        }
    }
}

#[test]
fn replayed_payloads_are_rejected() {
    let mut participants = new_ceremony(2, 3);
    let generators = round_outputs(&mut participants);
    // First delivery is accepted, the replay is rejected, per sender.
    for g in &generators {
        for out in g.iter() {
            participants[out.dst_ordinal].receive(&out.data).unwrap();
            let replay = participants[out.dst_ordinal].receive(&out.data);
            assert!(replay.err().unwrap().is_round_error());
        }
    }
    let generators = round_outputs(&mut participants);
    for g in &generators {
        for out in g.iter() {
            participants[out.dst_ordinal].receive(&out.data).unwrap();
            let replay = participants[out.dst_ordinal].receive(&out.data);
            assert!(replay.err().unwrap().is_round_error());
        }
    }
    for p in participants.iter_mut() {
        p.run().unwrap();
        assert!(p.completed());
    }
}

#[test]
fn late_round1_payloads_are_rejected() {
    let mut participants = new_ceremony(2, 3);
    let generators = round_outputs(&mut participants);
    // Deliver everything except participant 2's broadcast to participant 0.
    let mut held_back: Option<Vec<u8>> = None;
    for (i, g) in generators.iter().enumerate() {
        for out in g.iter() {
            if i == 2 && out.dst_ordinal == 0 {
                held_back = Some(out.data.clone());
            } else {
                participants[out.dst_ordinal].receive(&out.data).unwrap();
            }
        }
    }
    // Participant 0 moves past the Round-2 boundary with the quorum it has.
    participants[0].run().unwrap();
    assert!(participants[0].run().is_err());
    assert_eq!(participants[0].get_round(), Round::Three);
    // The late Round-1 payload is now rejected.
    let res = participants[0].receive(&held_back.unwrap());
    assert!(res.err().unwrap().is_round_error());
}

#[test]
fn corrupted_round1_payload_fails_verification() {
    let mut participants = new_ceremony(2, 3);
    let generators = round_outputs(&mut participants);
    let g = &generators[0];
    let outputs = g.iter();
    let out = &outputs[0];
    // Flip one bit inside a commitment; the Schnorr check must fail.
    let mut data = out.data.clone();
    let k = 40usize;
    data[k] ^= 0x01;
    let res = participants[out.dst_ordinal].receive(&data);
    assert!(res.is_err());
    // The untouched payload is still accepted afterwards.
    participants[out.dst_ordinal].receive(&out.data).unwrap();
}

#[test]
fn malformed_payloads_are_rejected() {
    let mut participants = new_ceremony(2, 3);
    let p = &mut participants[0];
    assert!(p.receive(&[]).is_err());
    assert!(p.receive(&[9u8, 0, 0]).is_err());
    assert!(p.receive(&[3u8]).err().unwrap().is_round_error());
    assert!(p.receive(&[4u8]).err().unwrap().is_round_error());
    // A truncated Round-1 body.
    assert!(matches!(
        p.receive(&[1u8, 0, 1]),
        Err(frost_dkg::Error::SerializationError(_))
    ));
    // A Round-1 body whose identifier field is not a canonical scalar.
    let mut bad = vec![1u8, 0, 1];
    bad.extend_from_slice(&[0xffu8; 32]);
    bad.extend_from_slice(&[1u8, 0, 0]);
    assert!(matches!(
        p.receive(&bad),
        Err(frost_dkg::Error::SerializationError(_))
    ));
}

#[test]
fn round_and_type_tags() {
    assert_eq!(Round::One.as_u8(), 1);
    assert_eq!(Round::Two.as_u8(), 2);
    assert_eq!(Round::Three.as_u8(), 3);
    assert_eq!(Round::Four.as_u8(), 4);
    assert_eq!(ParticipantType::Secret.as_u8(), 1);
    assert_eq!(ParticipantType::Refresh.as_u8(), 2);
    assert_eq!(ParticipantType::from_u8(1), Some(ParticipantType::Secret));
    assert_eq!(ParticipantType::from_u8(2), Some(ParticipantType::Refresh));
    assert_eq!(ParticipantType::from_u8(0), None);
    assert_eq!(ParticipantType::from_u8(3), None);
}

#[test]
fn participant_impls_check_first_verifier() {
    let identity = GroupElement::from_bytes(&vec![0u8; 33]).unwrap();
    assert!(!SecretParticipantImpl::check_feldman_verifier(&identity));
    assert!(RefreshParticipantImpl::check_feldman_verifier(&identity));
    assert_eq!(SecretParticipantImpl.get_type(), ParticipantType::Secret);
    assert_eq!(RefreshParticipantImpl.get_type(), ParticipantType::Refresh);
    assert!(RefreshParticipantImpl::random_value().is_zero());
}

#[test]
fn getters_report_the_configuration() {
    let parameters = Parameters::new(2, 3, None, None);
    assert_eq!(parameters.threshold(), 2);
    assert_eq!(parameters.limit(), 3);
    let mut participants = new_ceremony(2, 3);
    let p = &participants[1];
    assert_eq!(p.get_ordinal(), 1);
    assert_eq!(p.get_threshold(), 2);
    assert_eq!(p.get_limit(), 3);
    assert_eq!(p.get_round(), Round::One);
    assert!(!p.completed());
    assert!(p.get_secret_share().is_none());
    assert!(p.get_public_key().is_none());
    assert_eq!(p.get_all_participant_ids().len(), 3);
    assert_eq!(p.get_feldman_verifiers().len(), 2);
    assert!(p.get_valid_participant_ids().iter().all(|v| v.is_none()));
    let out = frost_dkg::ParticipantRoundOutput::new(
        2,
        p.get_id(),
        vec![1, 2, 3],
    );
    assert_eq!(out.dst_ordinal, 2);
    assert_eq!(out.data, vec![1, 2, 3]);
    participants[0].run().unwrap();
    assert_eq!(participants[0].get_round(), Round::Two);
}
