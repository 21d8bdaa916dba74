//! The derivation call adapter.
//!
//! One request is stateless and single-shot: decode the signer value into
//! 64 bytes of signing-key material, decode the address value into a 32-byte
//! public identity, hand both to the external deterministic derivation, and
//! assemble the derived components into the outbound record.  The external
//! derivation itself runs outside this crate; the adapter's verified parts are
//! everything before and after that call, so a failed decode is guaranteed to
//! be reported before any derivation could run.

use vstd::prelude::*;

use crate::codec::{decode_bytes, decode_value_spec, encode_bytes, encoded_elems, DecodeError};
use crate::interchange::{fields_model, value_model, Value};

verus! {

use vstd::string::StringExecFns;

/// How many bytes of signing-key material the signer value must hold.
pub const SIGNING_KEY_LEN: usize = 64;

/// How many bytes a public identity (the address) must hold.
pub const ADDRESS_LEN: usize = 32;

/// Why a derivation request failed.
#[derive(Clone, Copy, Debug, PartialEq, Eq)]
pub enum KeypairError {
    /// The signer value failed to decode (the payload says how), or it
    /// decoded but its bytes are not a structurally valid signing key
    /// (payload `None`).
    InvalidSigningKey(Option<DecodeError>),
    /// The address value failed to decode.
    InvalidAddress(DecodeError),
    /// The external derivation rejected inputs it accepts syntactically.
    DerivationFailed,
}

/// Whether 64 bytes are a structurally valid signing key, as the external
/// signing-key library judges them.  The judgement is a deterministic
/// function of the bytes alone; this crate does not restate its definition.
pub uninterp spec fn valid_signing_key(b: Seq<u8>) -> bool;

/// Relies on solana_sdk's `Keypair` (its `TryFrom<&[u8]>` impl): it accepts
/// exactly the 64-byte encodings whose second half is the public key that the
/// first half derives, a deterministic function of the bytes alone.
#[verifier::external_body]
fn check_signing_key(b: &Vec<u8>) -> (r: bool)
    ensures
        r == valid_signing_key(b@),
{
    solana_sdk::signer::keypair::Keypair::try_from(b.as_slice()).is_ok()
}

/// Whether a value has the shape of the inbound signer: a record with the
/// single field `bytes`.
pub open spec fn is_signer_shape(v: Value) -> bool {
    &&& v is Record
    &&& v->Record_0@.len() == 1
    &&& v->Record_0@[0].0@ == "bytes"@
}

/// What decoding the inbound signer value yields: the 64 bytes under the
/// record's `bytes` field, or the decode error.
pub open spec fn signer_payload_spec(v: Value) -> Result<Seq<u8>, DecodeError> {
    if is_signer_shape(v) {
        decode_value_spec(v->Record_0@[0].1, SIGNING_KEY_LEN)
    } else {
        Err(DecodeError::TypeMismatch)
    }
}

/// What decoding the inbound address value yields: its 32 bytes, or the
/// decode error.
pub open spec fn address_payload_spec(v: Value) -> Result<Seq<u8>, DecodeError> {
    decode_value_spec(v, ADDRESS_LEN)
}

/// Decodes the signer value and validates its bytes as a signing key.
///
/// Succeeds exactly on a record with the single field `bytes` holding 64
/// byte numbers that form a structurally valid signing key; everything else
/// is an `InvalidSigningKey`, carrying the decode error where decoding
/// itself failed.
pub fn decode_signer(v: &Value) -> (r: Result<Vec<u8>, KeypairError>)
    ensures
        match r {
            Ok(b) => {
                &&& signer_payload_spec(*v) == Ok::<Seq<u8>, DecodeError>(b@)
                &&& b@.len() == SIGNING_KEY_LEN
                &&& valid_signing_key(b@)
            },
            Err(e) => match e {
                KeypairError::InvalidSigningKey(Some(d)) => signer_payload_spec(*v) == Err::<
                    Seq<u8>,
                    DecodeError,
                >(d),
                KeypairError::InvalidSigningKey(None) => {
                    &&& signer_payload_spec(*v) matches Ok(b)
                    &&& !valid_signing_key(b)
                },
                _ => false,
            },
        },
{
    match v {
        Value::Record(fields) => {
            if fields.len() != 1 {
                return Err(KeypairError::InvalidSigningKey(Some(DecodeError::TypeMismatch)));
            }
            let key = String::from_str("bytes");
            let field = &fields[0];
            if !(field.0 == key) {
                return Err(KeypairError::InvalidSigningKey(Some(DecodeError::TypeMismatch)));
            }
            match decode_bytes(&field.1, SIGNING_KEY_LEN) {
                Ok(bytes) => {
                    if check_signing_key(&bytes) {
                        Ok(bytes)
                    } else {
                        Err(KeypairError::InvalidSigningKey(None))
                    }
                },
                Err(d) => Err(KeypairError::InvalidSigningKey(Some(d))),
            }
        },
        _ => Err(KeypairError::InvalidSigningKey(Some(DecodeError::TypeMismatch))),
    }
}

/// Decodes the address value into the 32 bytes of a public identity.
pub fn decode_address(v: &Value) -> (r: Result<Vec<u8>, KeypairError>)
    ensures
        match r {
            Ok(b) => {
                &&& address_payload_spec(*v) == Ok::<Seq<u8>, DecodeError>(b@)
                &&& b@.len() == ADDRESS_LEN
            },
            Err(e) => match e {
                KeypairError::InvalidAddress(d) => address_payload_spec(*v) == Err::<
                    Seq<u8>,
                    DecodeError,
                >(d),
                _ => false,
            },
        },
{
    match decode_bytes(v, ADDRESS_LEN) {
        Ok(bytes) => Ok(bytes),
        Err(d) => Err(KeypairError::InvalidAddress(d)),
    }
}

/// The validated inputs of one derivation: 64 bytes of structurally valid
/// signing-key material and a 32-byte public identity.
pub struct DerivationRequest {
    pub signing_key: Vec<u8>,
    pub address: Vec<u8>,
}

impl DerivationRequest {
    /// The invariant every constructed request satisfies.
    pub open spec fn wf(&self) -> bool {
        &&& self.signing_key@.len() == SIGNING_KEY_LEN
        &&& valid_signing_key(self.signing_key@)
        &&& self.address@.len() == ADDRESS_LEN
    }
}

/// The two components the external derivation returns, each a fixed-size
/// binary value of its own natural width.
pub struct DerivedKeypair {
    pub public: Vec<u8>,
    pub secret: Vec<u8>,
}

/// Decodes and validates both inbound values, in order, into a derivation
/// request.
///
/// Succeeds exactly when the signer decodes to a valid signing key and the
/// address decodes to 32 bytes; a bad signer is reported without looking at
/// the address, so no derivation ever sees an undecoded input.
pub fn prepare_request(signer: &Value, address: &Value) -> (r: Result<
    DerivationRequest,
    KeypairError,
>)
    ensures
        match r {
            Ok(req) => {
                &&& req.wf()
                &&& signer_payload_spec(*signer) == Ok::<Seq<u8>, DecodeError>(req.signing_key@)
                &&& address_payload_spec(*address) == Ok::<Seq<u8>, DecodeError>(req.address@)
            },
            Err(e) => match e {
                KeypairError::InvalidSigningKey(Some(d)) => signer_payload_spec(*signer) == Err::<
                    Seq<u8>,
                    DecodeError,
                >(d),
                KeypairError::InvalidSigningKey(None) => {
                    &&& signer_payload_spec(*signer) matches Ok(b)
                    &&& !valid_signing_key(b)
                },
                KeypairError::InvalidAddress(d) => {
                    &&& (signer_payload_spec(*signer) matches Ok(b) && valid_signing_key(b))
                    &&& address_payload_spec(*address) == Err::<Seq<u8>, DecodeError>(d)
                },
                KeypairError::DerivationFailed => false,
            },
        },
{
    let signing_key = match decode_signer(signer) {
        Ok(b) => b,
        Err(e) => {
            return Err(e);
        },
    };
    let address_bytes = match decode_address(address) {
        Ok(b) => b,
        Err(e) => {
            return Err(e);
        },
    };
    Ok(DerivationRequest { signing_key, address: address_bytes })
}

/// Whether `v` is the outbound record for the components `public` and
/// `secret`: exactly the two fields `public` then `secret`, in that order,
/// each holding its component's encoding.
pub open spec fn keypair_value_spec(v: Value, public: Seq<u8>, secret: Seq<u8>) -> bool {
    &&& v is Record
    &&& v->Record_0@.len() == 2
    &&& v->Record_0@[0].0@ == "public"@
    &&& v->Record_0@[0].1 is Sequence
    &&& v->Record_0@[0].1->Sequence_0@ == encoded_elems(public)
    &&& v->Record_0@[1].0@ == "secret"@
    &&& v->Record_0@[1].1 is Sequence
    &&& v->Record_0@[1].1->Sequence_0@ == encoded_elems(secret)
}

/// Assembles the two derived components into the outbound record, the fields
/// `public` then `secret` and nothing else.
pub fn assemble_keypair_value(kp: &DerivedKeypair) -> (v: Value)
    ensures
        keypair_value_spec(v, kp.public@, kp.secret@),
{
    let mut fields: Vec<(String, Value)> = Vec::new();
    fields.push((String::from_str("public"), encode_bytes(&kp.public)));
    fields.push((String::from_str("secret"), encode_bytes(&kp.secret)));
    Value::Record(fields)
}

/// Turns the external derivation's outcome into the call's result: a complete
/// outbound record on success, `DerivationFailed` where the derivation
/// rejected the inputs, never a partial value.
pub fn complete_derivation(outcome: Option<DerivedKeypair>) -> (r: Result<Value, KeypairError>)
    ensures
        match outcome {
            Some(kp) => r matches Ok(v) && keypair_value_spec(v, kp.public@, kp.secret@),
            None => r matches Err(e) && e is DerivationFailed,
        },
{
    match outcome {
        Some(kp) => Ok(assemble_keypair_value(&kp)),
        None => Err(KeypairError::DerivationFailed),
    }
}

/// Law: decoding is deterministic.  Two requests prepared from the same
/// signer and address values hold the same bytes, so a repeated call hands
/// the external derivation identical inputs.
pub proof fn lemma_prepare_deterministic(
    signer: Value,
    address: Value,
    r1: DerivationRequest,
    r2: DerivationRequest,
)
    requires
        signer_payload_spec(signer) == Ok::<Seq<u8>, DecodeError>(r1.signing_key@),
        address_payload_spec(address) == Ok::<Seq<u8>, DecodeError>(r1.address@),
        signer_payload_spec(signer) == Ok::<Seq<u8>, DecodeError>(r2.signing_key@),
        address_payload_spec(address) == Ok::<Seq<u8>, DecodeError>(r2.address@),
    ensures
        r1.signing_key@ == r2.signing_key@,
        r1.address@ == r2.address@,
{
}

/// Law: assembly is deterministic.  Any two outbound values built from the
/// same `public` and `secret` bytes are the same interchange tree, so when
/// the external derivation returns the same components twice — and it must,
/// being a pure function of the request — the call's output is bit-identical
/// both times.
pub proof fn lemma_output_deterministic(v1: Value, v2: Value, public: Seq<u8>, secret: Seq<u8>)
    requires
        keypair_value_spec(v1, public, secret),
        keypair_value_spec(v2, public, secret),
    ensures
        value_model(v1) == value_model(v2),
{
    reveal_with_fuel(fields_model, 4);
    let f1 = v1->Record_0@;
    let f2 = v2->Record_0@;
    assert(value_model(f1[0].1) == value_model(f2[0].1));
    assert(value_model(f1[1].1) == value_model(f2[1].1));
    assert(fields_model(f1) =~= fields_model(f2));
}

} // verus!
