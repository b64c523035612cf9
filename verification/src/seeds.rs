use vstd::prelude::*;

verus! {

/// Relies on rand::random: one draw from the thread-local generator. The
/// value depends on the generator's state, so nothing is promised of it.
#[verifier::external_body]
fn random_u32() -> u32 {
    rand::random()
}

/// Fresh contents for the per-pixel seed image: one host-generated random
/// word per pixel, exactly `n` of them. Called when accumulation resets;
/// between resets the kernel owns the image and the host never touches it.
pub fn random_seed_words(n: usize) -> (s: Vec<u32>)
    ensures
        s@.len() == n,
{
    let mut s: Vec<u32> = Vec::new();
    while s.len() < n
        invariant
            s@.len() <= n,
        decreases n - s@.len(),
    {
        s.push(random_u32());
    }
    s
}

} // verus!
