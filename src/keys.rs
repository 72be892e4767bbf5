use vstd::prelude::*;

use crate::identity::Identity;

verus! {

/// The 32 bytes that a base58 text denotes as an account key, if it denotes
/// one.
pub uninterp spec fn base58_key(s: Seq<char>) -> Option<Seq<u8>>;

/// Relies on `Pubkey::from_str` (solana_program's key type, as anchor_lang
/// re-exports it): it decodes a base58 text into a 32-byte key or refuses it,
/// depending on the text alone, and refuses the empty text (it decodes to no
/// bytes, not 32).
#[verifier::external_body]
pub(crate) fn parse_key(s: &str) -> (r: Option<Identity>)
    ensures
        r matches Some(id) ==> base58_key(s@) == Some(id@),
        r is None ==> base58_key(s@) is None,
        s@.len() == 0 ==> r is None,
{
    match <anchor_lang::prelude::Pubkey as std::str::FromStr>::from_str(s) {
        Ok(key) => Some(Identity { bytes: key.to_bytes() }),
        Err(_) => None,
    }
}

} // verus!
