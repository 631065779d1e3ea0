//! HKDF-SHA256 key derivation (RFC 5869).
use vstd::prelude::*;
use vstd::string::*;
use crate::decimal::{decimal, push_decimal};
use crate::error::SignalError;

verus! {

#[verifier::external_type_specification]
#[verifier::external_body]
pub struct ExInvalidLength(hkdf::InvalidLength);

/// The most output HKDF-SHA256 expands to: 255 blocks of 32 bytes.
pub const HKDF_SHA256_MAX_OUTPUT: u32 = 8160;

/// The first `len` bytes of the output keying material that HKDF-SHA256
/// derives from input keying material `ikm`, the optional `salt` and the
/// context `info`.
pub uninterp spec fn hkdf_sha256(salt: Option<Seq<u8>>, ikm: Seq<u8>, info: Seq<u8>, len: nat) -> Seq<u8>;

/// The bytes of an optional salt.
pub open spec fn salt_bytes(salt: Option<&[u8]>) -> Option<Seq<u8>> {
    match salt {
        Some(s) => Some(s@),
        None => None,
    }
}

/// The salt that the bindings hand to HKDF: an empty salt counts as none.
pub open spec fn salt_or_none(salt: Seq<u8>) -> Option<Seq<u8>> {
    if salt.len() == 0 {
        None
    } else {
        Some(salt)
    }
}

/// The reason given when more output is asked for than HKDF-SHA256 can give.
pub open spec fn output_too_long_reason(output_length: u32) -> Seq<char> {
    "output length too long: "@ + decimal(output_length as nat)
}

/// `hkdf::Hkdf::<Sha256>::new(salt, ikm)` followed by `expand(info, okm)`.
/// Claimed: `okm` keeps its length; the expansion fails exactly when `okm`
/// is longer than 255 SHA-256 blocks (8160 bytes); when it succeeds `okm`
/// holds the first `okm.len()` bytes of HKDF-SHA256 for these arguments,
/// a function of the arguments alone; and, as the expansion writes its
/// output block by block without regard to how many blocks follow, each
/// shorter output for the same arguments is a prefix of `okm`.
#[verifier::external_body]
fn hkdf_sha256_expand(salt: Option<&[u8]>, ikm: &[u8], info: &[u8], okm: &mut Vec<u8>) -> (r: Result<(), hkdf::InvalidLength>)
    ensures
        final(okm)@.len() == old(okm)@.len(),
        r is Ok <==> old(okm)@.len() <= HKDF_SHA256_MAX_OUTPUT,
        r is Ok ==> final(okm)@ == hkdf_sha256(salt_bytes(salt), ikm@, info@, old(okm)@.len()),
        r is Ok ==> forall|n: nat|
            n <= old(okm)@.len() ==> #[trigger] hkdf_sha256(salt_bytes(salt), ikm@, info@, n)
                == final(okm)@.subrange(0, n as int),
{
    hkdf::Hkdf::<sha2::Sha256>::new(salt, ikm).expand(info, okm.as_mut_slice())
}

/// What the bindings make of an HKDF expansion into `okm`: the output keying
/// material when it succeeded, else `InvalidArgument` naming the asked-for length.
pub fn hkdf_output(expanded: Result<(), hkdf::InvalidLength>, okm: Vec<u8>, output_length: u32) -> (r: Result<Vec<u8>, SignalError>)
    ensures
        expanded is Ok ==> r == Ok::<Vec<u8>, SignalError>(okm),
        expanded is Err ==> (r matches Err(SignalError::InvalidArgument { reason })
            && reason@ == output_too_long_reason(output_length)),
{
    match expanded {
        Ok(()) => Ok(okm),
        Err(_) => {
            proof {
                reveal_strlit("output length too long: ");
            }
            let mut reason = String::from_str("output length too long: ");
            push_decimal(&mut reason, output_length as u64);
            Err(SignalError::InvalidArgument { reason })
        },
    }
}

/// Compute HKDF (HMAC-based Key Derivation Function) with SHA-256.
///
/// An empty `salt` is taken as no salt. Succeeds exactly when
/// `output_length` is at most 8160, with `output_length` bytes of output
/// keying material; otherwise `InvalidArgument` names the length.
pub fn hkdf_derive_secrets(input_key_material: Vec<u8>, info: Vec<u8>, salt: Vec<u8>, output_length: u32) -> (r: Result<Vec<u8>, SignalError>)
    ensures
        r is Ok <==> output_length <= HKDF_SHA256_MAX_OUTPUT,
        r matches Ok(okm) ==> okm@.len() == output_length,
        r matches Ok(okm) ==> okm@ == hkdf_sha256(salt_or_none(salt@), input_key_material@, info@, output_length as nat),
        r matches Ok(okm) ==> forall|n: nat|
            n <= output_length ==> #[trigger] hkdf_sha256(salt_or_none(salt@), input_key_material@, info@, n)
                == okm@.subrange(0, n as int),
        r matches Ok(okm) ==> (salt@.len() > 0 ==> okm@ == hkdf_sha256(Some(salt@), input_key_material@, info@, output_length as nat)),
        r matches Ok(okm) ==> (salt@.len() == 0 ==> okm@ == hkdf_sha256(None, input_key_material@, info@, output_length as nat)),
        r matches Err(e) ==> (e matches SignalError::InvalidArgument { reason }
            && reason@ == output_too_long_reason(output_length)),
{
    let salt_opt = if salt.is_empty() {
        None
    } else {
        Some(salt.as_slice())
    };
    let mut output = vec![0u8; output_length as usize];
    let expanded = hkdf_sha256_expand(salt_opt, input_key_material.as_slice(), info.as_slice(), &mut output);
    hkdf_output(expanded, output, output_length)
}

/// A derivation keyed by a non-empty salt is HKDF-SHA256 over that whole
/// salt, the input key material and the info; with an empty salt it is
/// HKDF-SHA256 with no salt. Either way the output has exactly the asked-for
/// length.
pub proof fn lemma_derived_secrets_use_whole_salt(
    input_key_material: Vec<u8>,
    info: Vec<u8>,
    salt: Vec<u8>,
    output_length: u32,
    r: Result<Vec<u8>, SignalError>,
)
    requires
        call_ensures(hkdf_derive_secrets, (input_key_material, info, salt, output_length), r),
        output_length <= HKDF_SHA256_MAX_OUTPUT,
    ensures
        r matches Ok(okm) && okm@.len() == output_length && okm@ == (if salt@.len() > 0 {
            hkdf_sha256(Some(salt@), input_key_material@, info@, output_length as nat)
        } else {
            hkdf_sha256(None, input_key_material@, info@, output_length as nat)
        }),
{
}

/// Two derivations from the same key material, info and salt agree on
/// their common length: the shorter output is a prefix of the longer one.
pub proof fn lemma_shorter_derivation_is_prefix(
    input_key_material: Vec<u8>,
    info: Vec<u8>,
    salt: Vec<u8>,
    short_length: u32,
    long_length: u32,
    short: Result<Vec<u8>, SignalError>,
    long: Result<Vec<u8>, SignalError>,
)
    requires
        call_ensures(hkdf_derive_secrets, (input_key_material, info, salt, short_length), short),
        call_ensures(hkdf_derive_secrets, (input_key_material, info, salt, long_length), long),
        short_length <= long_length <= HKDF_SHA256_MAX_OUTPUT,
    ensures
        short matches Ok(s) && long matches Ok(l) && s@ == l@.subrange(0, short_length as int),
{
    let s = short->Ok_0;
    let l = long->Ok_0;
    assert(hkdf_sha256(salt_or_none(salt@), input_key_material@, info@, short_length as nat)
        == l@.subrange(0, short_length as int));
}

} // verus!
