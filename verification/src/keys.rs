//! Keypairs and their text addresses. The key material stays inside the
//! `solana_keypair` crate; the library holds beside it, as plain values,
//! the public key and the address that the search reads.

use vstd::prelude::*;
use solana_keypair::{Address, Keypair};
use solana_signer::Signer;

verus! {

/// `solana_keypair::Keypair`, an Ed25519 key pair. Nothing of its contents
/// is visible here: a value of it is only carried along.
#[verifier::external_type_specification]
#[verifier::external_body]
pub struct ExKeypair(Keypair);

/// The text that an `Address` of the `solana_address` crate displays for
/// the 32 bytes of a public key: their base-58 encoding, which depends on
/// these bytes alone.
pub uninterp spec fn address_text(public_key: Seq<u8>) -> Seq<char>;

/// A keypair together with its public key and its address.
pub struct Candidate {
    /// The key material.
    pub keypair: Keypair,
    /// The bytes of the public key.
    pub public_key: [u8; 32],
    /// The address: the public key as text.
    pub address: String,
}

impl Candidate {
    /// The address is the text of the public key.
    pub open spec fn well_formed(&self) -> bool {
        self.address@ == address_text(self.public_key@)
    }

    /// The bytes of the address, which a pattern is compared with.
    pub open spec fn address_bytes(&self) -> Seq<u8> {
        vstd::utf8::encode_utf8(self.address@)
    }

    /// Puts the public key and the address beside `keypair`.
    pub fn from_keypair(keypair: Keypair) -> (c: Candidate)
        ensures
            c.keypair == keypair,
            c.well_formed(),
    {
        let public_key = public_key_bytes(&keypair);
        let address = encode_address(&public_key);
        Candidate { keypair, public_key, address }
    }
}

/// Calls `Keypair::new`, which draws the secret key from the thread-local
/// random generator of the `rand` crate; that generator is seeded from the
/// operating system. Nothing is claimed of the keypair that comes back.
#[verifier::external_body]
fn new_keypair() -> Keypair {
    Keypair::new()
}

/// Calls `Signer::pubkey` on the keypair and copies the 32 bytes out of the
/// address that it returns. Nothing is claimed of the bytes: what a keypair
/// holds is not visible here.
#[verifier::external_body]
fn public_key_bytes(keypair: &Keypair) -> [u8; 32] {
    keypair.pubkey().to_bytes()
}

/// Calls `to_string` on the `Address` of the 32 bytes, which writes their
/// base-58 encoding. The contract gives that text its name.
#[verifier::external_body]
fn encode_address(public_key: &[u8; 32]) -> (text: String)
    ensures
        text@ == address_text(public_key@),
{
    Address::from(*public_key).to_string()
}

/// Makes a fresh random keypair and derives its address.
pub fn generate() -> (c: Candidate)
    ensures
        c.well_formed(),
{
    Candidate::from_keypair(new_keypair())
}

} // verus!
