//! A FROST-style distributed key generation (DKG) library over secp256k1:
//! verifiable secret sharing with Feldman commitments, Schnorr proofs of
//! knowledge, transcript-based agreement on the honest set, and share and
//! public-key aggregation, with proactive refresh and resharing.
//!
//! The protocol is curve-agnostic in design; this library instantiates it
//! for the one prime-order group, secp256k1, that its concrete scenarios
//! use, with all group and field arithmetic delegated to the `k256` crate
//! behind trusted, contract-bearing wrappers.

pub mod bytes;
pub mod codec;
pub mod data;
pub mod error;
pub mod feldman;
pub mod group;
pub mod laws;
pub mod output;
pub mod parameters;
pub mod participant;
pub mod round1;
pub mod round2;
pub mod round3;
pub mod traits;
pub mod transcript;

pub use data::{
    ParticipantRoundOutput, ParticipantType, Round, Round1Data, Round2Data, SecretShare,
    Signature,
};
pub use error::{DkgResult, Error};
pub use group::{GroupElement, Scalar};
pub use output::{Round1OutputGenerator, Round2OutputGenerator, RoundOutputGenerator};
pub use parameters::Parameters;
pub use participant::{Participant, RefreshParticipantImpl, SecretParticipantImpl};
pub use traits::ScalarHash;
