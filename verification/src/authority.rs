//! The program's own signing authority.

use vstd::prelude::*;
use vstd::slice::slice_to_vec;

verus! {

/// The signer-seed set that a seed and a bump nonce stand for: the seed,
/// then the nonce as a one-byte seed.
pub open spec fn signer_seed_set(seed: Seq<u8>, nonce: u8) -> Seq<Seq<u8>> {
    seq![seed, seq![nonce]]
}

/// The capability to sign as the program's derived authority. It is replayed
/// as the signer seeds of a call in place of a signature.
#[derive(Debug)]
pub struct SigningAuthority {
    seed: Vec<u8>,
    nonce: u8,
}

impl SigningAuthority {
    /// The seed set this authority signs with.
    pub closed spec fn seeds(&self) -> Seq<Seq<u8>> {
        signer_seed_set(self.seed@, self.nonce)
    }

    /// Derives the authority of a seed and the bump nonce that was chosen
    /// when its address was first computed.
    pub fn derive(seed: &[u8], nonce: u8) -> (authority: Self)
        ensures
            authority.seeds() == signer_seed_set(seed@, nonce),
    {
        SigningAuthority { seed: slice_to_vec(seed), nonce }
    }

    /// The seeds in the form a call takes them.
    pub fn signer_seeds(&self) -> (seeds: Vec<Vec<u8>>)
        ensures
            seeds@.len() == 2,
            seeds@[0]@ == self.seeds()[0],
            seeds@[1]@ == self.seeds()[1],
    {
        let mut bump: Vec<u8> = Vec::new();
        bump.push(self.nonce);
        let mut seeds: Vec<Vec<u8>> = Vec::new();
        seeds.push(self.seed.clone());
        seeds.push(bump);
        proof {
            assert(seeds@[1]@ =~= seq![self.nonce]);
        }
        seeds
    }
}

/// Deriving is a function of the seed and the nonce alone: two derivations
/// from one pair sign with one seed set, and derivations from two different
/// pairs sign with different ones.
pub proof fn derive_is_deterministic(
    first: SigningAuthority,
    second: SigningAuthority,
    seed_a: Seq<u8>,
    nonce_a: u8,
    seed_b: Seq<u8>,
    nonce_b: u8,
)
    requires
        first.seeds() == signer_seed_set(seed_a, nonce_a),
        second.seeds() == signer_seed_set(seed_b, nonce_b),
    ensures
        (seed_a == seed_b && nonce_a == nonce_b) <==> first.seeds() == second.seeds(),
{
    let a = signer_seed_set(seed_a, nonce_a);
    let b = signer_seed_set(seed_b, nonce_b);
    if a == b {
        assert(a[0] == b[0]);
        assert(a[1][0] == b[1][0]);
    }
}

} // verus!
