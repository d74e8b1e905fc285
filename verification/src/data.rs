//! Protocol data records: rounds, participant types, Schnorr signatures,
//! shares, and the two round payloads, together with their spec-level views.

use vstd::prelude::*;
use crate::group::{GroupElement, Scalar};

verus! {

/// The four protocol states. `One` through `Three` are the active rounds;
/// `Four` is terminal.
#[derive(Clone, Copy, PartialEq, Eq, Structural, Debug)]
pub enum Round {
    /// First round: commit and prove.
    One,
    /// Second round: agree on the honest set and distribute shares.
    Two,
    /// Third round: aggregate.
    Three,
    /// Terminal state; the participant is complete.
    Four,
}

impl Round {
    /// The number of this round, 1 through 4.
    pub open spec fn num(self) -> int {
        match self {
            Round::One => 1,
            Round::Two => 2,
            Round::Three => 3,
            Round::Four => 4,
        }
    }

    /// The number of this round as a byte.
    pub fn as_u8(self) -> (r: u8)
        ensures
            r == self.num(),
    {
        match self {
            Round::One => 1,
            Round::Two => 2,
            Round::Three => 3,
            Round::Four => 4,
        }
    }
}

/// How a participant contributes: a `Secret` participant draws a random
/// constant coefficient, a `Refresh` participant contributes zero.
#[derive(Clone, Copy, PartialEq, Eq, Structural, Debug)]
pub enum ParticipantType {
    /// Contributes a fresh random secret.
    Secret,
    /// Contributes zero, rotating shares without moving the public key.
    Refresh,
}

impl ParticipantType {
    /// The wire tag of this type: 1 for `Secret`, 2 for `Refresh`.
    pub open spec fn num(self) -> int {
        match self {
            ParticipantType::Secret => 1,
            ParticipantType::Refresh => 2,
        }
    }

    /// The wire tag of this type as a byte.
    pub fn as_u8(self) -> (r: u8)
        ensures
            r == self.num(),
    {
        match self {
            ParticipantType::Secret => 1,
            ParticipantType::Refresh => 2,
        }
    }

    /// Parse a wire tag; exactly 1 and 2 are accepted.
    pub fn from_u8(x: u8) -> (r: Option<ParticipantType>)
        ensures
            x == 1 ==> r == Some(ParticipantType::Secret),
            x == 2 ==> r == Some(ParticipantType::Refresh),
            x != 1 && x != 2 ==> r is None,
    {
        match x {
            1 => Some(ParticipantType::Secret),
            2 => Some(ParticipantType::Refresh),
            _ => None,
        }
    }
}

/// The view of a sequence of group elements: their encodings.
pub open spec fn points_view(v: Seq<GroupElement>) -> Seq<Seq<u8>> {
    Seq::new(v.len(), |i: int| v[i]@)
}

/// The view of a sequence of scalars: their encodings.
pub open spec fn scalars_view(v: Seq<Scalar>) -> Seq<Seq<u8>> {
    Seq::new(v.len(), |i: int| v[i]@)
}

/// An element-wise copy of a scalar vector.
pub fn clone_scalars(v: &Vec<Scalar>) -> (r: Vec<Scalar>)
    ensures
        scalars_view(r@) == scalars_view(v@),
{
    let mut r: Vec<Scalar> = Vec::new();
    let n = v.len();
    let mut i: usize = 0;
    while i < n
        invariant
            i <= n,
            n == v@.len(),
            r@.len() == i,
            forall|j: int| 0 <= j < i ==> (#[trigger] r@[j])@ == v@[j]@,
        decreases n - i,
    {
        r.push(v[i].duplicate());
        i += 1;
    }
    proof {
        assert(scalars_view(r@) =~= scalars_view(v@));
    }
    r
}

/// An element-wise copy of a group-element vector.
pub fn clone_points(v: &Vec<GroupElement>) -> (r: Vec<GroupElement>)
    ensures
        points_view(r@) == points_view(v@),
{
    let mut r: Vec<GroupElement> = Vec::new();
    let n = v.len();
    let mut i: usize = 0;
    while i < n
        invariant
            i <= n,
            n == v@.len(),
            r@.len() == i,
            forall|j: int| 0 <= j < i ==> (#[trigger] r@[j])@ == v@[j]@,
        decreases n - i,
    {
        r.push(v[i].duplicate());
        i += 1;
    }
    proof {
        assert(points_view(r@) =~= points_view(v@));
    }
    r
}

/// A Schnorr signature: a commitment point and a response scalar.
pub struct Signature {
    /// The commitment `R = H * k`.
    pub r: GroupElement,
    /// The response `s = k + c * a0`.
    pub s: Scalar,
}

/// Spec view of a Schnorr signature.
#[verifier::ext_equal]
pub ghost struct SignatureV {
    /// Encoding of the commitment point.
    pub r: Seq<u8>,
    /// Encoding of the response scalar.
    pub s: Seq<u8>,
}

impl View for Signature {
    type V = SignatureV;

    open spec fn view(&self) -> SignatureV {
        SignatureV { r: self.r@, s: self.s@ }
    }
}

impl Signature {
    /// An identical signature.
    pub fn duplicate(&self) -> (r: Signature)
        ensures
            r@ == self@,
    {
        Signature { r: self.r.duplicate(), s: self.s.duplicate() }
    }
}

/// A share of the joint secret: the value of a polynomial at `identifier`.
pub struct SecretShare {
    /// The participant identifier the share is addressed to; never zero.
    pub identifier: Scalar,
    /// The polynomial evaluated at `identifier`.
    pub value: Scalar,
}

/// Spec view of a share.
#[verifier::ext_equal]
pub ghost struct SecretShareV {
    /// Encoding of the identifier.
    pub identifier: Seq<u8>,
    /// Encoding of the value.
    pub value: Seq<u8>,
}

impl View for SecretShare {
    type V = SecretShareV;

    open spec fn view(&self) -> SecretShareV {
        SecretShareV { identifier: self.identifier@, value: self.value@ }
    }
}

impl SecretShare {
    /// An identical share.
    pub fn duplicate(&self) -> (r: SecretShare)
        ensures
            r@ == self@,
    {
        SecretShare { identifier: self.identifier.duplicate(), value: self.value.duplicate() }
    }
}

/// The payload each participant broadcasts in Round 1.
pub struct Round1Data {
    /// The sender's ordinal.
    pub sender_ordinal: usize,
    /// The sender's identifier.
    pub sender_id: Scalar,
    /// The sender's participant type.
    pub sender_type: ParticipantType,
    /// The Feldman commitments to the sender's polynomial, one per coefficient.
    pub feldman_commitments: Vec<GroupElement>,
    /// The Schnorr proof of knowledge of the constant coefficient.
    pub signature: Signature,
}

/// Spec view of a Round-1 payload.
#[verifier::ext_equal]
pub ghost struct Round1DataV {
    /// The sender's ordinal.
    pub sender_ordinal: nat,
    /// Encoding of the sender's identifier.
    pub sender_id: Seq<u8>,
    /// The sender's participant type.
    pub sender_type: ParticipantType,
    /// Encodings of the Feldman commitments.
    pub feldman_commitments: Seq<Seq<u8>>,
    /// View of the Schnorr signature.
    pub signature: SignatureV,
}

impl View for Round1Data {
    type V = Round1DataV;

    open spec fn view(&self) -> Round1DataV {
        Round1DataV {
            sender_ordinal: self.sender_ordinal as nat,
            sender_id: self.sender_id@,
            sender_type: self.sender_type,
            feldman_commitments: points_view(self.feldman_commitments@),
            signature: self.signature@,
        }
    }
}

/// The payload each participant sends point-to-point in Round 2.
pub struct Round2Data {
    /// The sender's ordinal.
    pub sender_ordinal: usize,
    /// The sender's identifier.
    pub sender_id: Scalar,
    /// The sender's participant type.
    pub sender_type: ParticipantType,
    /// The share of the sender's polynomial addressed to the recipient.
    pub secret_share: SecretShare,
    /// The sender's 32-byte transcript hash over all accepted Round-1 payloads.
    pub transcript_hash: Vec<u8>,
}

/// Spec view of a Round-2 payload.
#[verifier::ext_equal]
pub ghost struct Round2DataV {
    /// The sender's ordinal.
    pub sender_ordinal: nat,
    /// Encoding of the sender's identifier.
    pub sender_id: Seq<u8>,
    /// The sender's participant type.
    pub sender_type: ParticipantType,
    /// View of the carried share.
    pub secret_share: SecretShareV,
    /// The transcript hash bytes.
    pub transcript_hash: Seq<u8>,
}

impl View for Round2Data {
    type V = Round2DataV;

    open spec fn view(&self) -> Round2DataV {
        Round2DataV {
            sender_ordinal: self.sender_ordinal as nat,
            sender_id: self.sender_id@,
            sender_type: self.sender_type,
            secret_share: self.secret_share@,
            transcript_hash: self.transcript_hash@,
        }
    }
}

/// One outgoing message: the payload bytes and where to send them.
pub struct ParticipantRoundOutput {
    /// The ordinal of the recipient.
    pub dst_ordinal: usize,
    /// The identifier of the recipient.
    pub dst_id: Scalar,
    /// The bytes to deliver to the recipient.
    pub data: Vec<u8>,
}

impl ParticipantRoundOutput {
    /// Assemble an outgoing message.
    pub fn new(dst_ordinal: usize, dst_id: Scalar, data: Vec<u8>) -> (r: Self)
        ensures
            r.dst_ordinal == dst_ordinal,
            r.dst_id@ == dst_id@,
            r.data@ == data@,
    {
        Self { dst_ordinal, dst_id, data }
    }
}

} // verus!
