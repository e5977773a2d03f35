//! Typed identifiers and cryptographic key material.
//!
//! Addresses and object identifiers cross the projection boundary
//! byte-for-byte: the wire side wraps the same bytes in its own type,
//! never truncating or re-hashing them. Key material arrives from the
//! internal state as raw byte strings and is decoded here into typed keys
//! of the declared scheme; the only way a byte string can fail to decode
//! is by having the wrong length, and that failure is surfaced as
//! `MalformedKeyMaterial`, never coerced to a placeholder.

use vstd::prelude::*;

verus! {

/// Byte length of an account address.
pub const ADDRESS_LENGTH: usize = 32;

/// Byte length of an object identifier.
pub const OBJECT_ID_LENGTH: usize = 32;

/// Byte length of a BLS12-381 public key (a G2 group element), the scheme
/// of a validator's protocol key.
pub const BLS12381_PUBLIC_KEY_LENGTH: usize = 96;

/// Byte length of an Ed25519 public key, the scheme of a validator's
/// network and worker keys.
pub const ED25519_PUBLIC_KEY_LENGTH: usize = 32;

/// Invariant violation: upstream cryptographic bytes fail to decode under
/// the expected scheme. Distinguishable from ordinary unavailability so an
/// operator can tell "no data yet" apart from "data is corrupt".
#[derive(Debug, PartialEq, Eq, Structural)]
pub struct MalformedKeyMaterial;

/// An account address: an opaque 32-byte identifier.
#[derive(Debug, Clone, PartialEq, Eq)]
pub struct Address {
    pub bytes: Vec<u8>,
}

impl View for Address {
    type V = Seq<u8>;

    open spec fn view(&self) -> Seq<u8> {
        self.bytes@
    }
}

impl DeepView for Address {
    type V = Seq<u8>;

    open spec fn deep_view(&self) -> Seq<u8> {
        self.bytes@
    }
}

impl Address {
    /// The address length the source state guarantees.
    pub open spec fn wf(&self) -> bool {
        self@.len() == ADDRESS_LENGTH
    }

    /// Wraps address bytes unchanged.
    pub fn new(bytes: Vec<u8>) -> (a: Address)
        ensures
            a@ == bytes@,
    {
        Address { bytes }
    }
}

/// An opaque identifier of an on-chain object: a stable 32-byte handle a
/// client can use in a follow-up query.
#[derive(Debug, Clone, PartialEq, Eq)]
pub struct ObjectId {
    pub bytes: Vec<u8>,
}

impl View for ObjectId {
    type V = Seq<u8>;

    open spec fn view(&self) -> Seq<u8> {
        self.bytes@
    }
}

impl DeepView for ObjectId {
    type V = Seq<u8>;

    open spec fn deep_view(&self) -> Seq<u8> {
        self.bytes@
    }
}

impl ObjectId {
    /// The identifier length the source state guarantees.
    pub open spec fn wf(&self) -> bool {
        self@.len() == OBJECT_ID_LENGTH
    }

    /// Wraps identifier bytes unchanged.
    pub fn new(bytes: Vec<u8>) -> (o: ObjectId)
        ensures
            o@ == bytes@,
    {
        ObjectId { bytes }
    }
}

/// A typed BLS12-381 public key; the bytes are exactly the ones it was
/// decoded from.
#[derive(Debug, Clone, PartialEq, Eq)]
pub struct Bls12381PublicKey {
    pub bytes: Vec<u8>,
}

impl View for Bls12381PublicKey {
    type V = Seq<u8>;

    open spec fn view(&self) -> Seq<u8> {
        self.bytes@
    }
}

impl DeepView for Bls12381PublicKey {
    type V = Seq<u8>;

    open spec fn deep_view(&self) -> Seq<u8> {
        self.bytes@
    }
}

impl Bls12381PublicKey {
    pub open spec fn wf(&self) -> bool {
        self@.len() == BLS12381_PUBLIC_KEY_LENGTH
    }

    /// Decodes a protocol public key from raw bytes; fails exactly when
    /// the byte length is not that of a BLS12-381 public key.
    pub fn from_bytes(bytes: Vec<u8>) -> (r: Result<Bls12381PublicKey, MalformedKeyMaterial>)
        ensures
            r is Ok <==> bytes@.len() == BLS12381_PUBLIC_KEY_LENGTH,
            r matches Ok(k) ==> k@ == bytes@ && k.wf(),
    {
        if bytes.len() == BLS12381_PUBLIC_KEY_LENGTH {
            Ok(Bls12381PublicKey { bytes })
        } else {
            Err(MalformedKeyMaterial)
        }
    }
}

/// A typed Ed25519 public key; the bytes are exactly the ones it was
/// decoded from.
#[derive(Debug, Clone, PartialEq, Eq)]
pub struct Ed25519PublicKey {
    pub bytes: Vec<u8>,
}

impl View for Ed25519PublicKey {
    type V = Seq<u8>;

    open spec fn view(&self) -> Seq<u8> {
        self.bytes@
    }
}

impl DeepView for Ed25519PublicKey {
    type V = Seq<u8>;

    open spec fn deep_view(&self) -> Seq<u8> {
        self.bytes@
    }
}

impl Ed25519PublicKey {
    pub open spec fn wf(&self) -> bool {
        self@.len() == ED25519_PUBLIC_KEY_LENGTH
    }

    /// Decodes a network or worker public key from raw bytes; fails
    /// exactly when the byte length is not that of an Ed25519 public key.
    pub fn from_bytes(bytes: Vec<u8>) -> (r: Result<Ed25519PublicKey, MalformedKeyMaterial>)
        ensures
            r is Ok <==> bytes@.len() == ED25519_PUBLIC_KEY_LENGTH,
            r matches Ok(k) ==> k@ == bytes@ && k.wf(),
    {
        if bytes.len() == ED25519_PUBLIC_KEY_LENGTH {
            Ok(Ed25519PublicKey { bytes })
        } else {
            Err(MalformedKeyMaterial)
        }
    }
}

} // verus!
