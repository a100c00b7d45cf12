//! The typed values that a parsed command carries.

use vstd::prelude::*;

verus! {

/// A signer's authorization weight within a multi-signature account scheme.
///
/// The value is one unsigned byte, wrapped in its own type so that a weight
/// is never confused with an unrelated number.
#[derive(Clone, Copy, Debug)]
pub struct Weight {
    value: u8,
}

impl Weight {
    /// The byte this weight wraps.
    pub closed spec fn spec_value(&self) -> u8 {
        self.value
    }

    /// Wraps a raw byte as a weight. Every byte is within range, so the
    /// coercion is total.
    pub fn new(value: u8) -> (r: Weight)
        ensures
            r.spec_value() == value,
    {
        Weight { value }
    }

    /// The byte this weight wraps.
    pub fn value(&self) -> (r: u8)
        ensures
            r == self.spec_value(),
    {
        self.value
    }
}

impl PartialEq for Weight {
    fn eq(&self, other: &Weight) -> (r: bool) {
        self.value == other.value
    }
}

impl vstd::std_specs::cmp::PartialEqSpecImpl for Weight {
    open spec fn obeys_eq_spec() -> bool {
        true
    }

    open spec fn eq_spec(&self, other: &Weight) -> bool {
        self.spec_value() == other.spec_value()
    }
}

/// A fixed-size, hash-derived identifier for an account.
#[derive(Clone, Copy, Debug)]
pub struct AccountHash {
    bytes: [u8; 32],
}

impl AccountHash {
    /// The identifier's bytes.
    pub closed spec fn spec_bytes(&self) -> Seq<u8> {
        self.bytes@
    }

    pub fn new(bytes: [u8; 32]) -> (r: AccountHash)
        ensures
            r.spec_bytes() == bytes@,
    {
        AccountHash { bytes }
    }

    /// The identifier's bytes.
    pub fn bytes(&self) -> (r: [u8; 32])
        ensures
            r@ == self.spec_bytes(),
    {
        self.bytes
    }
}

impl PartialEq for AccountHash {
    fn eq(&self, other: &AccountHash) -> (r: bool) {
        let mut i: usize = 0;
        while i < 32
            invariant
                0 <= i <= 32,
                forall|j: int| 0 <= j < i ==> self.spec_bytes()[j] == other.spec_bytes()[j],
            decreases 32 - i,
        {
            if self.bytes[i] != other.bytes[i] {
                return false;
            }
            i += 1;
        }
        proof {
            assert(self.spec_bytes() =~= other.spec_bytes());
        }
        true
    }
}

impl vstd::std_specs::cmp::PartialEqSpecImpl for AccountHash {
    open spec fn obeys_eq_spec() -> bool {
        true
    }

    open spec fn eq_spec(&self, other: &AccountHash) -> bool {
        self.spec_bytes() == other.spec_bytes()
    }
}

/// A variant-tagged cryptographic public key: the signature algorithm together
/// with the key's raw bytes. The key material is opaque to this library and is
/// carried through unchanged.
#[derive(Clone, Debug)]
pub enum PublicKey {
    System,
    Ed25519(Vec<u8>),
    Secp256k1(Vec<u8>),
}

/// Structural equality of public keys: same algorithm, same bytes.
pub open spec fn key_eqv(a: PublicKey, b: PublicKey) -> bool {
    match (a, b) {
        (PublicKey::System, PublicKey::System) => true,
        (PublicKey::Ed25519(x), PublicKey::Ed25519(y)) => x@ == y@,
        (PublicKey::Secp256k1(x), PublicKey::Secp256k1(y)) => x@ == y@,
        _ => false,
    }
}

impl PartialEq for PublicKey {
    fn eq(&self, other: &PublicKey) -> (r: bool) {
        match (self, other) {
            (PublicKey::System, PublicKey::System) => true,
            (PublicKey::Ed25519(a), PublicKey::Ed25519(b)) => bytes_eq(a, b),
            (PublicKey::Secp256k1(a), PublicKey::Secp256k1(b)) => bytes_eq(a, b),
            _ => false,
        }
    }
}

impl vstd::std_specs::cmp::PartialEqSpecImpl for PublicKey {
    open spec fn obeys_eq_spec() -> bool {
        true
    }

    open spec fn eq_spec(&self, other: &PublicKey) -> bool {
        key_eqv(*self, *other)
    }
}

/// A token amount: an unsigned integer wide enough for values that routinely
/// exceed the machine word size. It is held as base-2^64 limbs, least
/// significant first, and is opaque payload to the parser.
#[derive(Clone, Debug)]
pub struct Amount {
    limbs: Vec<u64>,
}

/// The base-2^64 reading of a limb sequence, least significant limb first.
pub open spec fn limbs_value(s: Seq<u64>) -> int
    decreases s.len(),
{
    if s.len() == 0 {
        0
    } else {
        s[0] + 0x1_0000_0000_0000_0000 * limbs_value(s.drop_first())
    }
}

impl Amount {
    /// The limbs, least significant first.
    pub closed spec fn spec_limbs(&self) -> Seq<u64> {
        self.limbs@
    }

    /// The mathematical value of this amount.
    pub open spec fn spec_value(&self) -> int {
        limbs_value(self.spec_limbs())
    }

    /// An amount given by its limbs, least significant first.
    pub fn from_limbs(limbs: Vec<u64>) -> (r: Amount)
        ensures
            r.spec_limbs() == limbs@,
    {
        Amount { limbs }
    }

    /// An amount small enough to fit one machine word.
    pub fn from_u64(n: u64) -> (r: Amount)
        ensures
            r.spec_value() == n,
            r.spec_limbs() == seq![n],
    {
        let mut limbs: Vec<u64> = Vec::new();
        limbs.push(n);
        proof {
            assert(limbs@.drop_first() =~= Seq::<u64>::empty());
            assert(limbs_value(Seq::<u64>::empty()) == 0);
        }
        Amount { limbs }
    }

    /// The limbs, least significant first.
    pub fn limbs(&self) -> (r: &Vec<u64>)
        ensures
            r@ == self.spec_limbs(),
    {
        &self.limbs
    }
}

impl PartialEq for Amount {
    fn eq(&self, other: &Amount) -> (r: bool) {
        limbs_eq(&self.limbs, &other.limbs)
    }
}

impl vstd::std_specs::cmp::PartialEqSpecImpl for Amount {
    open spec fn obeys_eq_spec() -> bool {
        true
    }

    open spec fn eq_spec(&self, other: &Amount) -> bool {
        self.spec_limbs() == other.spec_limbs()
    }
}

/// Element-wise comparison of two byte vectors.
fn bytes_eq(a: &Vec<u8>, b: &Vec<u8>) -> (r: bool)
    ensures
        r == (a@ == b@),
{
    if a.len() != b.len() {
        return false;
    }
    let mut i: usize = 0;
    while i < a.len()
        invariant
            a@.len() == b@.len(),
            0 <= i <= a@.len(),
            forall|j: int| 0 <= j < i ==> a@[j] == b@[j],
        decreases a@.len() - i,
    {
        if a[i] != b[i] {
            return false;
        }
        i += 1;
    }
    proof {
        assert(a@ =~= b@);
    }
    true
}

/// Element-wise comparison of two limb vectors.
fn limbs_eq(a: &Vec<u64>, b: &Vec<u64>) -> (r: bool)
    ensures
        r == (a@ == b@),
{
    if a.len() != b.len() {
        return false;
    }
    let mut i: usize = 0;
    while i < a.len()
        invariant
            a@.len() == b@.len(),
            0 <= i <= a@.len(),
            forall|j: int| 0 <= j < i ==> a@[j] == b@[j],
        decreases a@.len() - i,
    {
        if a[i] != b[i] {
            return false;
        }
        i += 1;
    }
    proof {
        assert(a@ =~= b@);
    }
    true
}

} // verus!
