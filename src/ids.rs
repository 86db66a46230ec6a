use vstd::prelude::*;

verus! {

/// A 32-byte ledger address or object identifier, split into two halves.
#[derive(Clone, Copy, Debug, PartialEq, Eq, Structural, Hash)]
pub struct ObjectId {
    pub hi: u128,
    pub lo: u128,
}

/// A 32-byte object digest, split into two halves.
#[derive(Clone, Copy, Debug, PartialEq, Eq, Structural, Hash)]
pub struct Digest {
    pub hi: u128,
    pub lo: u128,
}

/// A reference to one version of an object.
#[derive(Clone, Copy, Debug, PartialEq, Eq, Structural)]
pub struct ObjectRef {
    pub object_id: ObjectId,
    pub version: u64,
    pub digest: Digest,
}

/// A coin object owned by a wallet; its identity is `object_id`.
#[derive(Clone, Copy, Debug, PartialEq, Eq, Structural)]
pub struct Coin {
    pub object_id: ObjectId,
    pub version: u64,
    pub digest: Digest,
    pub balance: u64,
}

impl Coin {
    pub open spec fn spec_object_ref(&self) -> ObjectRef {
        ObjectRef { object_id: self.object_id, version: self.version, digest: self.digest }
    }

    /// The reference under which this coin is handed to a transaction.
    #[verifier::when_used_as_spec(spec_object_ref)]
    pub fn object_ref(&self) -> (r: ObjectRef)
        ensures
            r == self.spec_object_ref(),
    {
        ObjectRef { object_id: self.object_id, version: self.version, digest: self.digest }
    }
}

} // verus!
