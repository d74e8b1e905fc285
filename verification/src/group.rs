//! Scalars and group elements of secp256k1, carried by their canonical byte
//! encodings. All arithmetic is delegated to the `k256` crate through trusted
//! wrappers; the contracts state the field arithmetic exactly (as arithmetic
//! modulo the group order on big-endian encodings) and name the results of
//! the group operations, whose algebra is not restated here.

use vstd::prelude::*;
use crate::bytes::{be_val, eq_bytes, lemma_be_val_all_zero, lemma_be_val_zero_is_all_zero};
use elliptic_curve::PrimeField;
use elliptic_curve::Field;
use elliptic_curve::group::GroupEncoding;
use elliptic_curve::hash2curve::{ExpandMsgXmd, GroupDigest};
use elliptic_curve::subtle::ConstantTimeEq;

verus! {

/// The order of the secp256k1 group (and of its scalar field).
pub open spec fn scalar_order() -> nat {
    0xFFFFFFFF_FFFFFFFF_FFFFFFFF_FFFFFFFE_BAAEDCE6_AF48A03B_BFD25E8C_D0364141nat
}

/// A byte string is the canonical encoding of a scalar: 32 big-endian bytes
/// whose value lies below the group order.
pub open spec fn scalar_canon(s: Seq<u8>) -> bool {
    s.len() == 32 && be_val(s) < scalar_order()
}

/// Subtraction in the scalar field, on values below the order.
pub open spec fn sub_mod(a: nat, b: nat) -> nat {
    ((a + scalar_order() - b) as int % (scalar_order() as int)) as nat
}

/// `b` raised to the `k`-th power in the scalar field.
pub open spec fn pow_mod(b: nat, k: nat) -> nat
    decreases k,
{
    if k == 0 {
        1
    } else {
        (pow_mod(b, (k - 1) as nat) * b) % scalar_order()
    }
}

/// What `k256`'s point decoding returns on a 33-byte string: the canonical
/// (compressed, normalized) encoding of the decoded point, or `None` when the
/// bytes name no point of the group.
pub uninterp spec fn pt_decode_of(s: Seq<u8>) -> Option<Seq<u8>>;

/// The canonical encoding of the scalar multiple of the point encoded by `p`
/// by the scalar encoded by `s`.
pub uninterp spec fn pt_mul_of(p: Seq<u8>, s: Seq<u8>) -> Seq<u8>;

/// The canonical encoding of the sum of the points encoded by `a` and `b`.
pub uninterp spec fn pt_add_of(a: Seq<u8>, b: Seq<u8>) -> Seq<u8>;

/// The canonical encoding of the difference of the points encoded by `a` and `b`.
pub uninterp spec fn pt_sub_of(a: Seq<u8>, b: Seq<u8>) -> Seq<u8>;

/// The canonical encoding of the scalar produced by hashing `msg` to the
/// field with the secp256k1 domain-separation tag.
pub uninterp spec fn h2s_of(msg: Seq<u8>) -> Seq<u8>;

/// A byte string is the canonical encoding of some group element.
pub open spec fn pt_canon(s: Seq<u8>) -> bool {
    pt_decode_of(s) == Some(s)
}

/// The canonical encoding of the identity element: 33 zero bytes.
pub open spec fn identity_enc() -> Seq<u8> {
    Seq::new(33, |i: int| 0u8)
}

/// The canonical (compressed) encoding of the standard secp256k1 generator.
pub open spec fn generator_enc() -> Seq<u8> {
    seq![
        0x02u8, 0x79u8, 0xbeu8, 0x66u8, 0x7eu8, 0xf9u8, 0xdcu8, 0xbbu8, 0xacu8, 0x55u8, 0xa0u8,
        0x62u8, 0x95u8, 0xceu8, 0x87u8, 0x0bu8, 0x07u8, 0x02u8, 0x9bu8, 0xfcu8, 0xdbu8, 0x2du8,
        0xceu8, 0x28u8, 0xd9u8, 0x59u8, 0xf2u8, 0x81u8, 0x5bu8, 0x16u8, 0xf8u8, 0x17u8, 0x98u8,
    ]
}

/// An element of the secp256k1 scalar field, held as its canonical 32-byte
/// big-endian encoding.
pub struct Scalar {
    pub(crate) b: Vec<u8>,
}

impl View for Scalar {
    type V = Seq<u8>;

    closed spec fn view(&self) -> Seq<u8> {
        self.b@
    }
}

/// An element of the secp256k1 group, held as its canonical 33-byte
/// compressed encoding.
pub struct GroupElement {
    pub(crate) b: Vec<u8>,
}

impl View for GroupElement {
    type V = Seq<u8>;

    closed spec fn view(&self) -> Seq<u8> {
        self.b@
    }
}

impl Scalar {
    #[verifier::type_invariant]
    spec fn wf(self) -> bool {
        scalar_canon(self.b@)
    }

    /// The numeric value of this scalar.
    pub open spec fn val(&self) -> nat {
        be_val(self@)
    }

    /// The scalar zero.
    pub fn zero() -> (r: Self)
        ensures
            r@.len() == 32,
            r.val() == 0,
    {
        let mut v: Vec<u8> = Vec::new();
        let mut i: usize = 0;
        while i < 32
            invariant
                v@.len() == i,
                i <= 32,
                forall|j: int| 0 <= j < i ==> v@[j] == 0u8,
            decreases 32 - i,
        {
            v.push(0u8);
            i += 1;
        }
        proof {
            lemma_be_val_all_zero(v@);
        }
        Scalar { b: v }
    }

    /// The scalar one.
    pub fn one() -> (r: Self)
        ensures
            r@.len() == 32,
            r.val() == 1,
    {
        let mut v: Vec<u8> = Vec::new();
        let mut i: usize = 0;
        while i < 31
            invariant
                v@.len() == i,
                i <= 31,
                forall|j: int| 0 <= j < i ==> v@[j] == 0u8,
            decreases 31 - i,
        {
            v.push(0u8);
            i += 1;
        }
        let ghost zs = v@;
        v.push(1u8);
        proof {
            lemma_be_val_all_zero(zs);
            assert(v@.drop_last() =~= zs);
        }
        Scalar { b: v }
    }

    /// Decode a scalar from its canonical 32-byte big-endian encoding.
    pub fn from_bytes(b: &Vec<u8>) -> (r: Option<Scalar>)
        ensures
            r is Some <==> scalar_canon(b@),
            r is Some ==> r.unwrap()@ == b@,
    {
        if b.len() != 32 {
            return None;
        }
        sc_from_bytes(b)
    }

    /// A copy of the canonical encoding.
    pub fn to_bytes(&self) -> (r: Vec<u8>)
        ensures
            r@ == self@,
            r@.len() == 32,
    {
        proof {
            use_type_invariant(self);
        }
        let r = self.b.clone();
        proof {
            assert(r@ =~= self.b@);
        }
        r
    }

    /// An identical scalar.
    pub fn duplicate(&self) -> (r: Scalar)
        ensures
            r@ == self@,
    {
        proof {
            use_type_invariant(self);
        }
        Scalar { b: self.to_bytes() }
    }

    /// True exactly when the two scalars are equal.
    pub fn eq_scalar(&self, other: &Scalar) -> (r: bool)
        ensures
            r == (self@ == other@),
    {
        eq_bytes(&self.b, &other.b)
    }

    /// True exactly when this scalar is zero.
    pub fn is_zero(&self) -> (r: bool)
        ensures
            r == (self.val() == 0),
    {
        proof {
            use_type_invariant(self);
        }
        let mut i: usize = 0;
        let n = self.b.len();
        while i < n
            invariant
                i <= n,
                n == self.b@.len(),
                scalar_canon(self.b@),
                forall|j: int| 0 <= j < i ==> self.b@[j] == 0u8,
            decreases n - i,
        {
            if self.b[i] != 0 {
                proof {
                    assert(self.b@[i as int] != 0u8);
                    if be_val(self.b@) == 0 {
                        lemma_be_val_zero_is_all_zero(self.b@);
                    }
                }
                return false;
            }
            i += 1;
        }
        proof {
            lemma_be_val_all_zero(self.b@);
        }
        true
    }

    /// Learn, in the proof state, that this scalar is canonically encoded.
    pub fn canonical_facts(&self)
        ensures
            scalar_canon(self@),
    {
        proof {
            use_type_invariant(self);
        }
    }
}

impl GroupElement {
    #[verifier::type_invariant]
    spec fn wf(self) -> bool {
        self.b@.len() == 33 && pt_canon(self.b@)
    }

    /// Decode a group element; accepts exactly the canonical encodings.
    pub fn from_bytes(b: &Vec<u8>) -> (r: Option<GroupElement>)
        ensures
            r is Some <==> (b@.len() == 33 && pt_canon(b@)),
            r is Some ==> r.unwrap()@ == b@,
    {
        if b.len() != 33 {
            return None;
        }
        match pt_from_bytes(b) {
            Option::Some(g) => {
                proof {
                    use_type_invariant(&g);
                }
                if eq_bytes(&g.b, b) {
                    Some(g)
                } else {
                    None
                }
            },
            Option::None => None,
        }
    }

    /// A copy of the canonical encoding.
    pub fn to_bytes(&self) -> (r: Vec<u8>)
        ensures
            r@ == self@,
            r@.len() == 33,
    {
        proof {
            use_type_invariant(self);
        }
        let r = self.b.clone();
        proof {
            assert(r@ =~= self.b@);
        }
        r
    }

    /// An identical group element.
    pub fn duplicate(&self) -> (r: GroupElement)
        ensures
            r@ == self@,
    {
        proof {
            use_type_invariant(self);
        }
        GroupElement { b: self.to_bytes() }
    }

    /// True exactly when the two elements are equal.
    pub fn eq_elem(&self, other: &GroupElement) -> (r: bool)
        ensures
            r == (self@ == other@),
    {
        eq_bytes(&self.b, &other.b)
    }

    /// True exactly when this element is the identity.
    pub fn is_identity(&self) -> (r: bool)
        ensures
            r == (self@ == identity_enc()),
    {
        proof {
            use_type_invariant(self);
        }
        if self.b.len() != 33 {
            return false;
        }
        let mut i: usize = 0;
        while i < 33
            invariant
                i <= 33,
                self.b@.len() == 33,
                forall|j: int| 0 <= j < i ==> self.b@[j] == 0u8,
            decreases 33 - i,
        {
            if self.b[i] != 0 {
                proof {
                    assert(self.b@[i as int] != identity_enc()[i as int]);
                }
                return false;
            }
            i += 1;
        }
        proof {
            assert(self.b@ =~= identity_enc());
        }
        true
    }

}

/// If `inv` inverts `den` in the field, multiplying by `inv` and then by
/// `den` cancels modulo the order.
pub proof fn lemma_mul_inverse_cancels(num: nat, den: nat, inv: nat, lambda: nat)
    requires
        (inv * den) % scalar_order() == 1,
        lambda == (num * inv) % scalar_order(),
    ensures
        (lambda * den) % scalar_order() == num % scalar_order(),
{
    let p = scalar_order() as int;
    let n = num as int;
    let i = inv as int;
    let d = den as int;
    vstd::arithmetic::div_mod::lemma_mul_mod_noop_general(n * i, d, p);
    vstd::arithmetic::mul::lemma_mul_is_associative(n, i, d);
    vstd::arithmetic::div_mod::lemma_mul_mod_noop_general(n, i * d, p);
    assert((lambda as int) == (n * i) % p);
    assert(((i * d) % p) == 1);
    assert((lambda as int * d) % p == (n * 1) % p);
}

/// Reassociating a product of three factors under the modulus.
pub proof fn lemma_mul_mod3(a: nat, b: nat, c: nat)
    ensures
        ((a * b) % scalar_order() * c) % scalar_order() == (a * ((b * c) % scalar_order()))
            % scalar_order(),
{
    let p = scalar_order() as int;
    let x = a as int;
    let y = b as int;
    let z = c as int;
    vstd::arithmetic::div_mod::lemma_mul_mod_noop_general(x * y, z, p);
    vstd::arithmetic::mul::lemma_mul_is_associative(x, y, z);
    vstd::arithmetic::div_mod::lemma_mul_mod_noop_general(x, y * z, p);
}

/// The field difference of distinct values below the order is nonzero.
pub proof fn lemma_sub_mod_nonzero(a: nat, b: nat)
    requires
        a < scalar_order(),
        b < scalar_order(),
        a != b,
    ensures
        sub_mod(a, b) != 0,
{
    let p = scalar_order() as int;
    let d = a + scalar_order() - b;
    assert(0 < d < 2 * scalar_order());
    assert(d != scalar_order());
    if d < scalar_order() {
        assert((d as int) % p == d as int) by (nonlinear_arith)
            requires
                0 <= (d as int) < p,
        ;
    } else {
        assert((d as int) % p == d as int - p) by (nonlinear_arith)
            requires
                p <= (d as int) < 2 * p,
        ;
    }
}

/// Relies on `k256::Scalar::from_repr`: succeeds exactly on 32 big-endian
/// bytes below the group order, returning the scalar so encoded.
#[verifier::external_body]
fn sc_from_bytes(b: &Vec<u8>) -> (r: Option<Scalar>)
    requires
        b@.len() == 32,
    ensures
        r is Some <==> scalar_canon(b@),
        r is Some ==> r.unwrap()@ == b@,
{
    let repr = k256::FieldBytes::clone_from_slice(b);
    let opt = k256::Scalar::from_repr(repr);
    if bool::from(opt.is_some()) {
        Some(Scalar { b: opt.unwrap().to_repr().to_vec() })
    } else {
        None
    }
}

/// Relies on `k256::Scalar` addition: the sum in the field, i.e. addition
/// modulo the group order.
#[verifier::external_body]
pub(crate) fn sc_add(a: &Scalar, b: &Scalar) -> (r: Scalar)
    ensures
        scalar_canon(r@),
        r.val() == (a.val() + b.val()) % scalar_order(),
{
    let x = k256::Scalar::from_repr(k256::FieldBytes::clone_from_slice(&a.b)).unwrap();
    let y = k256::Scalar::from_repr(k256::FieldBytes::clone_from_slice(&b.b)).unwrap();
    Scalar { b: (x + y).to_repr().to_vec() }
}

/// Relies on `k256::Scalar` subtraction: the difference in the field.
#[verifier::external_body]
pub(crate) fn sc_sub(a: &Scalar, b: &Scalar) -> (r: Scalar)
    ensures
        scalar_canon(r@),
        r.val() == sub_mod(a.val(), b.val()),
{
    let x = k256::Scalar::from_repr(k256::FieldBytes::clone_from_slice(&a.b)).unwrap();
    let y = k256::Scalar::from_repr(k256::FieldBytes::clone_from_slice(&b.b)).unwrap();
    Scalar { b: (x - y).to_repr().to_vec() }
}

/// Relies on `k256::Scalar` multiplication: the product in the field. The
/// order is prime, so a product of nonzero scalars is nonzero.
#[verifier::external_body]
pub(crate) fn sc_mul(a: &Scalar, b: &Scalar) -> (r: Scalar)
    ensures
        scalar_canon(r@),
        r.val() == (a.val() * b.val()) % scalar_order(),
        (a.val() != 0 && b.val() != 0) ==> r.val() != 0,
{
    let x = k256::Scalar::from_repr(k256::FieldBytes::clone_from_slice(&a.b)).unwrap();
    let y = k256::Scalar::from_repr(k256::FieldBytes::clone_from_slice(&b.b)).unwrap();
    Scalar { b: (x * y).to_repr().to_vec() }
}

/// Relies on `k256::Scalar::invert`: defined exactly on nonzero scalars and
/// returns the multiplicative inverse in the field.
#[verifier::external_body]
pub(crate) fn sc_invert(a: &Scalar) -> (r: Option<Scalar>)
    ensures
        r is Some <==> a.val() != 0,
        r is Some ==> scalar_canon(r.unwrap()@),
        r is Some ==> (r.unwrap().val() * a.val()) % scalar_order() == 1,
{
    let x = k256::Scalar::from_repr(k256::FieldBytes::clone_from_slice(&a.b)).unwrap();
    let inv = x.invert();
    if bool::from(inv.is_some()) {
        Some(Scalar { b: inv.unwrap().to_repr().to_vec() })
    } else {
        None
    }
}

/// Relies on the constant-time equality of `k256::Scalar`
/// (`subtle::ConstantTimeEq`): equal exactly when the canonical encodings
/// are equal. Used where secret-derived values are compared.
#[verifier::external_body]
pub(crate) fn sc_ct_eq(a: &Scalar, b: &Scalar) -> (r: bool)
    ensures
        r == (a@ == b@),
{
    let x = k256::Scalar::from_repr(k256::FieldBytes::clone_from_slice(&a.b)).unwrap();
    let y = k256::Scalar::from_repr(k256::FieldBytes::clone_from_slice(&b.b)).unwrap();
    x.ct_eq(&y).into()
}

/// Relies on `k256::Scalar::random`: a scalar drawn from the field; nothing
/// is assumed of which one.
#[verifier::external_body]
pub(crate) fn sc_random() -> (r: Scalar)
    ensures
        scalar_canon(r@),
{
    Scalar { b: k256::Scalar::random(&mut rand_core::OsRng).to_repr().to_vec() }
}

/// Relies on `From<u64> for k256::Scalar`: embeds the integer in the field.
#[verifier::external_body]
pub(crate) fn sc_from_u64(x: u64) -> (r: Scalar)
    ensures
        scalar_canon(r@),
        r.val() == x as nat,
{
    Scalar { b: k256::Scalar::from(x).to_repr().to_vec() }
}

/// Relies on `elliptic_curve::hash2curve::GroupDigest::hash_to_scalar` for
/// secp256k1 with SHA-256 and the `secp256k1_XMD:SHA-256_RO_NUL_` tag: the
/// result is a scalar depending on the message alone; it cannot fail for
/// this fixed tag.
#[verifier::external_body]
pub(crate) fn sc_hash_to_scalar(msg: &Vec<u8>) -> (r: Scalar)
    ensures
        scalar_canon(r@),
        r@ == h2s_of(msg@),
{
    let s = <k256::Secp256k1 as GroupDigest>::hash_to_scalar::<ExpandMsgXmd<sha2::Sha256>>(
        &[msg.as_slice()],
        &[b"secp256k1_XMD:SHA-256_RO_NUL_"],
    ).expect("hash_to_scalar failed");
    Scalar { b: s.to_repr().to_vec() }
}

/// Relies on `k256::ProjectivePoint::from_bytes`: decodes a compressed SEC1
/// encoding; the result is returned re-encoded canonically.
#[verifier::external_body]
fn pt_from_bytes(b: &Vec<u8>) -> (r: Option<GroupElement>)
    requires
        b@.len() == 33,
    ensures
        r is Some <==> pt_decode_of(b@) is Some,
        r is Some ==> Some(r.unwrap()@) == pt_decode_of(b@),
        r is Some ==> r.unwrap()@.len() == 33 && pt_canon(r.unwrap()@),
{
    let repr = k256::CompressedPoint::clone_from_slice(b);
    let opt = k256::ProjectivePoint::from_bytes(&repr);
    if bool::from(opt.is_some()) {
        Some(GroupElement { b: opt.unwrap().to_bytes().to_vec() })
    } else {
        None
    }
}

/// Relies on `k256::ProjectivePoint::IDENTITY` and its encoding: 33 zero bytes.
#[verifier::external_body]
pub(crate) fn pt_identity() -> (r: GroupElement)
    ensures
        r@ == identity_enc(),
        r@.len() == 33 && pt_canon(r@),
{
    GroupElement { b: k256::ProjectivePoint::IDENTITY.to_bytes().to_vec() }
}

/// Relies on `k256::ProjectivePoint::GENERATOR` and its compressed encoding.
#[verifier::external_body]
pub(crate) fn pt_generator() -> (r: GroupElement)
    ensures
        r@ == generator_enc(),
        r@.len() == 33 && pt_canon(r@),
{
    GroupElement { b: k256::ProjectivePoint::GENERATOR.to_bytes().to_vec() }
}

/// Relies on scalar multiplication of `k256::ProjectivePoint`. The group
/// has prime order, so a multiple of a non-identity point is the identity
/// exactly when the scalar is zero.
#[verifier::external_body]
pub(crate) fn pt_mul(p: &GroupElement, s: &Scalar) -> (r: GroupElement)
    ensures
        r@ == pt_mul_of(p@, s@),
        r@.len() == 33 && pt_canon(r@),
        p@ != identity_enc() ==> (s.val() == 0 <==> r@ == identity_enc()),
{
    let pt = k256::ProjectivePoint::from_bytes(&k256::CompressedPoint::clone_from_slice(&p.b)).unwrap();
    let sc = k256::Scalar::from_repr(k256::FieldBytes::clone_from_slice(&s.b)).unwrap();
    GroupElement { b: (pt * sc).to_bytes().to_vec() }
}

/// Relies on addition of `k256::ProjectivePoint`.
#[verifier::external_body]
pub(crate) fn pt_add(a: &GroupElement, b: &GroupElement) -> (r: GroupElement)
    ensures
        r@ == pt_add_of(a@, b@),
        r@.len() == 33 && pt_canon(r@),
{
    let x = k256::ProjectivePoint::from_bytes(&k256::CompressedPoint::clone_from_slice(&a.b)).unwrap();
    let y = k256::ProjectivePoint::from_bytes(&k256::CompressedPoint::clone_from_slice(&b.b)).unwrap();
    GroupElement { b: (x + y).to_bytes().to_vec() }
}

/// Relies on subtraction of `k256::ProjectivePoint`.
#[verifier::external_body]
pub(crate) fn pt_sub(a: &GroupElement, b: &GroupElement) -> (r: GroupElement)
    ensures
        r@ == pt_sub_of(a@, b@),
        r@.len() == 33 && pt_canon(r@),
{
    let x = k256::ProjectivePoint::from_bytes(&k256::CompressedPoint::clone_from_slice(&a.b)).unwrap();
    let y = k256::ProjectivePoint::from_bytes(&k256::CompressedPoint::clone_from_slice(&b.b)).unwrap();
    GroupElement { b: (x - y).to_bytes().to_vec() }
}

} // verus!
