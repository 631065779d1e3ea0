//! Random bytes from the thread-local generator.
use vstd::prelude::*;
use rand::RngCore;

verus! {

#[verifier::external_type_specification]
#[verifier::external_body]
pub struct ExThreadRng(rand::rngs::ThreadRng);

/// `rand::rng()`: a handle to the thread-local generator. Nothing is
/// claimed of it; `rand` panics here if the operating system cannot seed it.
#[verifier::external_body]
fn thread_rng() -> rand::rngs::ThreadRng {
    rand::rng()
}

/// `RngCore::fill_bytes` on the thread-local generator. Claimed: the
/// buffer keeps its length. What bytes it then holds depends on chance,
/// and nothing is claimed of them.
#[verifier::external_body]
fn fill_bytes(rng: &mut rand::rngs::ThreadRng, dest: &mut Vec<u8>)
    ensures
        final(dest)@.len() == old(dest)@.len(),
{
    rng.fill_bytes(dest.as_mut_slice())
}

/// Generate `length` random bytes.
pub fn generate_random_bytes(length: u32) -> (bytes: Vec<u8>)
    ensures
        bytes@.len() == length,
{
    let mut bytes = vec![0u8; length as usize];
    let mut rng = thread_rng();
    fill_bytes(&mut rng, &mut bytes);
    bytes
}

} // verus!
