//! Public and secret keys of the secp256k1 curve, held as bytes that the
//! curve engine has accepted.

use vstd::prelude::*;

verus! {

/// What `secp256k1::PublicKey::from_slice` makes of `data`: nothing where it
/// refuses them, else the compressed serialization of the key that it read.
pub uninterp spec fn decoded_public_key(data: Seq<u8>) -> Option<Seq<u8>>;

/// The value of `bytes` read as an unsigned number, most significant byte first.
pub open spec fn be_value(bytes: Seq<u8>) -> nat
    decreases bytes.len(),
{
    if bytes.len() == 0 {
        0
    } else {
        256 * be_value(bytes.drop_last()) + bytes.last() as nat
    }
}

/// The order of the secp256k1 curve, most significant byte first.
pub open spec fn curve_order() -> Seq<u8> {
    seq![
        0xffu8, 0xffu8, 0xffu8, 0xffu8, 0xffu8, 0xffu8, 0xffu8, 0xffu8,
        0xffu8, 0xffu8, 0xffu8, 0xffu8, 0xffu8, 0xffu8, 0xffu8, 0xfeu8,
        0xbau8, 0xaeu8, 0xdcu8, 0xe6u8, 0xafu8, 0x48u8, 0xa0u8, 0x3bu8,
        0xbfu8, 0xd2u8, 0x5eu8, 0x8cu8, 0xd0u8, 0x36u8, 0x41u8, 0x41u8,
    ]
}

/// Whether `data` are a secret key: 32 bytes that, read as a number with the
/// most significant byte first, are not 0 and below the order of the curve.
pub open spec fn is_secret_key(data: Seq<u8>) -> bool {
    data.len() == 32 && 0 < be_value(data) < be_value(curve_order())
}

/// The compressed serialization of the public key that
/// `secp256k1::PublicKey::from_secret_key` derives from the secret key `secret`.
pub uninterp spec fn derived_public_key(secret: Seq<u8>) -> Seq<u8>;

/// A compressed public key in the form that the engine reads back unchanged.
pub open spec fn is_public_key(bytes: Seq<u8>) -> bool {
    bytes.len() == 33 && decoded_public_key(bytes) == Some(bytes)
}

/// Calls `secp256k1::PublicKey::from_slice`, and `serialize` on the key read.
#[verifier::external_body]
fn decode_public_key(data: &[u8]) -> (r: Option<[u8; 33]>)
    ensures
        match r {
            Some(key) => decoded_public_key(data@) == Some(key@),
            None => decoded_public_key(data@) is None,
        },
{
    secp256k1::PublicKey::from_slice(data).ok().map(|key| key.serialize())
}

/// Calls `secp256k1::SecretKey::from_slice` and says whether it accepted the
/// bytes. It accepts 32 bytes that the engine holds for a valid secret key:
/// a number that is not 0 and below the order of the curve.
#[verifier::external_body]
fn check_secret_key(data: &[u8]) -> (r: bool)
    ensures
        r == is_secret_key(data@),
{
    secp256k1::SecretKey::from_slice(data).is_ok()
}

/// Calls `secp256k1::PublicKey::from_secret_key` with a signing context, and
/// `serialize` on the key derived.
#[verifier::external_body]
fn derive_public_key(secret: &[u8; 32]) -> (r: [u8; 33])
    requires
        is_secret_key(secret@),
    ensures
        r@ == derived_public_key(secret@),
{
    let key = secp256k1::SecretKey::from_slice(secret).unwrap();
    secp256k1::PublicKey::from_secret_key(&secp256k1::Secp256k1::signing_only(), &key).serialize()
}

/// Whether two byte strings are equal.
pub fn bytes_eq(a: &[u8], b: &[u8]) -> (r: bool)
    ensures
        r == (a@ == b@),
{
    if a.len() != b.len() {
        return false;
    }
    let mut i: usize = 0;
    while i < a.len()
        invariant
            i <= a@.len() == b@.len(),
            forall|j: int| 0 <= j < i ==> a@[j] == b@[j],
        decreases a@.len() - i,
    {
        if a[i] != b[i] {
            return false;
        }
        i += 1;
    }
    assert(a@ =~= b@);
    true
}

/// A public key of the secp256k1 curve, in compressed form.
#[derive(Debug, Clone, Copy, PartialEq, Eq, Hash)]
pub struct PublicKey {
    bytes: [u8; 33],
}

impl View for PublicKey {
    type V = Seq<u8>;

    closed spec fn view(&self) -> Seq<u8> {
        self.bytes@
    }
}

impl PublicKey {
    #[verifier::type_invariant]
    spec fn well_formed(self) -> bool {
        is_public_key(self.bytes@)
    }

    /// The key that `data` decodes to: the compressed form of what the engine
    /// reads from them, where the engine reads that form back unchanged.
    pub open spec fn spec_from_slice(data: Seq<u8>) -> Option<Seq<u8>> {
        match decoded_public_key(data) {
            Some(key) => if is_public_key(key) {
                Some(key)
            } else {
                None
            },
            None => None,
        }
    }

    /// The key that belongs to a secret key, where the engine reads its
    /// compressed form back unchanged.
    pub open spec fn spec_from_secret_key(secret: Seq<u8>) -> Option<Seq<u8>> {
        if is_public_key(derived_public_key(secret)) {
            Some(derived_public_key(secret))
        } else {
            None
        }
    }

    fn checked(bytes: [u8; 33]) -> (r: Option<PublicKey>)
        ensures
            match r {
                Some(key) => key@ == bytes@ && is_public_key(bytes@),
                None => !is_public_key(bytes@),
            },
    {
        match decode_public_key(bytes.as_slice()) {
            Some(again) => {
                if bytes_eq(again.as_slice(), bytes.as_slice()) {
                    Some(PublicKey { bytes })
                } else {
                    None
                }
            },
            None => None,
        }
    }

    /// Reads a public key in compressed or uncompressed form.
    pub fn from_slice(data: &[u8]) -> (r: Option<PublicKey>)
        ensures
            match r {
                Some(key) => Self::spec_from_slice(data@) == Some(key@),
                None => Self::spec_from_slice(data@) is None,
            },
    {
        match decode_public_key(data) {
            Some(bytes) => Self::checked(bytes),
            None => None,
        }
    }

    /// Derives the public key that belongs to a secret key.
    pub fn from_secret_key(secret_key: &SecretKey) -> (r: Option<PublicKey>)
        ensures
            match r {
                Some(key) => Self::spec_from_secret_key(secret_key@) == Some(key@),
                None => Self::spec_from_secret_key(secret_key@) is None,
            },
    {
        let secret = secret_key.secret_bytes();
        Self::checked(derive_public_key(&secret))
    }

    /// The 33 bytes of the compressed form.
    pub fn serialize(&self) -> (r: [u8; 33])
        ensures
            r@ == self@,
            is_public_key(self@),
    {
        proof {
            use_type_invariant(self);
        }
        self.bytes
    }

    /// Whether two keys are the same.
    pub fn same_as(&self, other: &PublicKey) -> (r: bool)
        ensures
            r == (self@ == other@),
    {
        bytes_eq(self.bytes.as_slice(), other.bytes.as_slice())
    }
}

/// A secret key of the secp256k1 curve.
#[derive(Clone, Copy)]
pub struct SecretKey {
    bytes: [u8; 32],
}

impl View for SecretKey {
    type V = Seq<u8>;

    closed spec fn view(&self) -> Seq<u8> {
        self.bytes@
    }
}

impl SecretKey {
    #[verifier::type_invariant]
    spec fn well_formed(self) -> bool {
        is_secret_key(self.bytes@)
    }

    /// Takes 32 bytes as a secret key where the engine accepts them.
    pub fn from_slice(data: &[u8]) -> (r: Option<SecretKey>)
        ensures
            match r {
                Some(key) => key@ == data@ && is_secret_key(data@),
                None => !is_secret_key(data@),
            },
    {
        if data.len() != 32 || !check_secret_key(data) {
            return None;
        }
        let mut bytes = [0u8; 32];
        let mut i: usize = 0;
        while i < 32
            invariant
                i <= 32,
                data@.len() == 32,
                forall|j: int| 0 <= j < i ==> bytes@[j] == data@[j],
            decreases 32 - i,
        {
            bytes[i] = data[i];
            i += 1;
        }
        assert(bytes@ =~= data@);
        Some(SecretKey { bytes })
    }

    /// The 32 bytes of the key.
    pub fn secret_bytes(&self) -> (r: [u8; 32])
        ensures
            r@ == self@,
            is_secret_key(self@),
    {
        proof {
            use_type_invariant(self);
        }
        self.bytes
    }
}

} // verus!
