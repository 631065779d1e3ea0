//! Pre-key records for X3DH, as plain values.
use vstd::prelude::*;
use crate::error::SignalError;
use crate::keys::{SignalPrivateKey, SignalPublicKey};

verus! {

/// A pre-key record for the X3DH protocol.
#[derive(Clone)]
pub struct SignalPreKeyRecord {
    pub id: u32,
    pub public_key: SignalPublicKey,
    pub private_key: SignalPrivateKey,
}

/// A signed pre-key record for the X3DH protocol.
#[derive(Clone)]
pub struct SignalSignedPreKeyRecord {
    pub id: u32,
    pub timestamp: u64,
    pub public_key: SignalPublicKey,
    pub private_key: SignalPrivateKey,
    pub signature: Vec<u8>,
}

/// The record that the field reads make: the fields are read in order
/// (id, public key, private key) and the first that fails is reported as
/// a `ProtocolError` with its reason.
pub open spec fn pre_key_record_outcome(
    id: Result<u32, String>,
    public_key: Result<Vec<u8>, String>,
    private_key: Result<Vec<u8>, String>,
) -> Result<SignalPreKeyRecord, SignalError> {
    match id {
        Err(e) => Err(SignalError::ProtocolError { reason: e }),
        Ok(id) => match public_key {
            Err(e) => Err(SignalError::ProtocolError { reason: e }),
            Ok(public_key) => match private_key {
                Err(e) => Err(SignalError::ProtocolError { reason: e }),
                Ok(private_key) => Ok(
                    SignalPreKeyRecord {
                        id,
                        public_key: SignalPublicKey { key_bytes: public_key },
                        private_key: SignalPrivateKey { key_bytes: private_key },
                    },
                ),
            },
        },
    }
}

/// The signed record that the field reads make: the fields are read in
/// order (id, timestamp, public key, private key, signature) and the first
/// that fails is reported as a `ProtocolError` with its reason.
pub open spec fn signed_pre_key_record_outcome(
    id: Result<u32, String>,
    timestamp: Result<u64, String>,
    public_key: Result<Vec<u8>, String>,
    private_key: Result<Vec<u8>, String>,
    signature: Result<Vec<u8>, String>,
) -> Result<SignalSignedPreKeyRecord, SignalError> {
    match id {
        Err(e) => Err(SignalError::ProtocolError { reason: e }),
        Ok(id) => match timestamp {
            Err(e) => Err(SignalError::ProtocolError { reason: e }),
            Ok(timestamp) => match public_key {
                Err(e) => Err(SignalError::ProtocolError { reason: e }),
                Ok(public_key) => match private_key {
                    Err(e) => Err(SignalError::ProtocolError { reason: e }),
                    Ok(private_key) => match signature {
                        Err(e) => Err(SignalError::ProtocolError { reason: e }),
                        Ok(signature) => Ok(
                            SignalSignedPreKeyRecord {
                                id,
                                timestamp,
                                public_key: SignalPublicKey { key_bytes: public_key },
                                private_key: SignalPrivateKey { key_bytes: private_key },
                                signature,
                            },
                        ),
                    },
                },
            },
        },
    }
}

impl SignalPreKeyRecord {
    /// Builds the record from the reads of a protocol pre-key record's
    /// fields: its id, its serialized public key and its serialized private
    /// key, each read either giving the value or failing with a reason.
    pub fn try_from_fields(
        id: Result<u32, String>,
        public_key: Result<Vec<u8>, String>,
        private_key: Result<Vec<u8>, String>,
    ) -> (r: Result<Self, SignalError>)
        ensures
            r == pre_key_record_outcome(id, public_key, private_key),
            r is Ok <==> (id is Ok && public_key is Ok && private_key is Ok),
            id matches Ok(i) ==> (r matches Ok(rec) ==> rec.id == i),
            public_key matches Ok(p) ==> (r matches Ok(rec) ==> rec.public_key.key_bytes@ == p@),
            private_key matches Ok(q) ==> (r matches Ok(rec) ==> rec.private_key.key_bytes@ == q@),
    {
        let id = match id {
            Ok(v) => v,
            Err(e) => return Err(SignalError::ProtocolError { reason: e }),
        };
        let public_key = match public_key {
            Ok(v) => v,
            Err(e) => return Err(SignalError::ProtocolError { reason: e }),
        };
        let private_key = match private_key {
            Ok(v) => v,
            Err(e) => return Err(SignalError::ProtocolError { reason: e }),
        };
        Ok(
            SignalPreKeyRecord {
                id,
                public_key: SignalPublicKey { key_bytes: public_key },
                private_key: SignalPrivateKey { key_bytes: private_key },
            },
        )
    }
}

impl SignalSignedPreKeyRecord {
    /// Builds the record from the reads of a protocol signed pre-key
    /// record's fields: its id, its timestamp in milliseconds since the
    /// epoch, its serialized public and private keys and its signature,
    /// each read either giving the value or failing with a reason.
    pub fn try_from_fields(
        id: Result<u32, String>,
        timestamp: Result<u64, String>,
        public_key: Result<Vec<u8>, String>,
        private_key: Result<Vec<u8>, String>,
        signature: Result<Vec<u8>, String>,
    ) -> (r: Result<Self, SignalError>)
        ensures
            r == signed_pre_key_record_outcome(id, timestamp, public_key, private_key, signature),
            r is Ok <==> (id is Ok && timestamp is Ok && public_key is Ok && private_key is Ok && signature is Ok),
            id matches Ok(i) ==> (r matches Ok(rec) ==> rec.id == i),
            timestamp matches Ok(t) ==> (r matches Ok(rec) ==> rec.timestamp == t),
            public_key matches Ok(p) ==> (r matches Ok(rec) ==> rec.public_key.key_bytes@ == p@),
            private_key matches Ok(q) ==> (r matches Ok(rec) ==> rec.private_key.key_bytes@ == q@),
            signature matches Ok(g) ==> (r matches Ok(rec) ==> rec.signature@ == g@),
    {
        let id = match id {
            Ok(v) => v,
            Err(e) => return Err(SignalError::ProtocolError { reason: e }),
        };
        let timestamp = match timestamp {
            Ok(v) => v,
            Err(e) => return Err(SignalError::ProtocolError { reason: e }),
        };
        let public_key = match public_key {
            Ok(v) => v,
            Err(e) => return Err(SignalError::ProtocolError { reason: e }),
        };
        let private_key = match private_key {
            Ok(v) => v,
            Err(e) => return Err(SignalError::ProtocolError { reason: e }),
        };
        let signature = match signature {
            Ok(v) => v,
            Err(e) => return Err(SignalError::ProtocolError { reason: e }),
        };
        Ok(
            SignalSignedPreKeyRecord {
                id,
                timestamp,
                public_key: SignalPublicKey { key_bytes: public_key },
                private_key: SignalPrivateKey { key_bytes: private_key },
                signature,
            },
        )
    }
}

/// A pre-key record built from field reads that all succeed carries the
/// id, public key and private key that were read, unchanged.
pub proof fn lemma_pre_key_record_keeps_fields(
    id: u32,
    public_key: Vec<u8>,
    private_key: Vec<u8>,
    r: Result<SignalPreKeyRecord, SignalError>,
)
    requires
        call_ensures(
            SignalPreKeyRecord::try_from_fields,
            (Ok::<u32, String>(id), Ok::<Vec<u8>, String>(public_key), Ok::<Vec<u8>, String>(private_key)),
            r,
        ),
    ensures
        r matches Ok(rec) && rec.id == id && rec.public_key.key_bytes@ == public_key@
            && rec.private_key.key_bytes@ == private_key@,
{
}

/// A signed pre-key record built from field reads that all succeed
/// carries the id, timestamp, keys and signature that were read, unchanged.
pub proof fn lemma_signed_pre_key_record_keeps_fields(
    id: u32,
    timestamp: u64,
    public_key: Vec<u8>,
    private_key: Vec<u8>,
    signature: Vec<u8>,
    r: Result<SignalSignedPreKeyRecord, SignalError>,
)
    requires
        call_ensures(
            SignalSignedPreKeyRecord::try_from_fields,
            (
                Ok::<u32, String>(id),
                Ok::<u64, String>(timestamp),
                Ok::<Vec<u8>, String>(public_key),
                Ok::<Vec<u8>, String>(private_key),
                Ok::<Vec<u8>, String>(signature),
            ),
            r,
        ),
    ensures
        r matches Ok(rec) && rec.id == id && rec.timestamp == timestamp
            && rec.public_key.key_bytes@ == public_key@ && rec.private_key.key_bytes@ == private_key@
            && rec.signature@ == signature@,
{
}

} // verus!
