//! The calls into the ledger's own libraries. Each function here is believed,
//! not proved: its body makes one call, and its contract says of the result
//! what the called code shows.

use solana_program::program_pack::Pack;
use vstd::prelude::*;
use vstd::utf8::*;
use crate::wire::le_value;

verus! {

/// The Keccak-256 digest of a message, thirty-two bytes.
pub uninterp spec fn keccak256(message: Seq<u8>) -> Seq<u8>;

/// `solana_program::keccak::hashv` on a single slice. The digest depends on
/// the message alone; the contract only gives it its name.
#[verifier::external_body]
pub(crate) fn keccak_digest(message: &[u8]) -> (digest: [u8; 32])
    ensures
        digest@ == keccak256(message@),
{
    solana_program::keccak::hashv(&[message]).to_bytes()
}

/// The base-58 text of a run of bytes, as ASCII.
pub uninterp spec fn base58_text(bytes: Seq<u8>) -> Seq<u8>;

/// The `Display` form of a `solana_program::keccak::Hash`, which is the
/// base-58 text of its thirty-two bytes. The contract only gives the text its
/// name; it claims nothing of its length.
#[verifier::external_body]
pub(crate) fn digest_text(digest: &[u8; 32]) -> (text: Vec<u8>)
    ensures
        text@ == base58_text(digest@),
{
    solana_program::keccak::Hash::new_from_array(*digest).to_string().into_bytes()
}

/// The address that a base identity, a seed and a program derive, where they
/// derive one.
pub uninterp spec fn seeded_address(base: Seq<u8>, seed: Seq<char>, program: Seq<u8>) -> Option<
    Seq<u8>,
>;

/// `solana_program::pubkey::Pubkey::create_with_seed`. It hashes its three
/// arguments, or refuses them; either way the outcome depends on them alone,
/// and the contract only gives it its name.
#[verifier::external_body]
pub(crate) fn address_with_seed(base: &[u8; 32], seed: &str, program: &[u8; 32]) -> (derived:
    Option<[u8; 32]>)
    ensures
        match derived {
            Some(address) => seeded_address(base@, seed@, program@) == Some(address@),
            None => seeded_address(base@, seed@, program@) is None,
        },
{
    let base = solana_program::pubkey::Pubkey::new_from_array(*base);
    let program = solana_program::pubkey::Pubkey::new_from_array(*program);
    match solana_program::pubkey::Pubkey::create_with_seed(&base, seed, &program) {
        Ok(address) => Some(address.to_bytes()),
        Err(_) => None,
    }
}

/// The identity of the token program, `TokenkegQfeZyiNwAJbNbGKPFXCWuBvf9Ss623VQ5DA`
/// in base 58.
pub open spec fn token_program_key() -> Seq<u8> {
    seq![
        6u8, 221, 246, 225, 215, 101, 161, 147, 217, 203, 225, 70, 206, 235, 121, 172,
        28, 180, 133, 237, 95, 91, 55, 145, 58, 140, 245, 133, 126, 255, 0, 169,
    ]
}

/// `spl_token::id`: the identity that the token library declares for its
/// program. The contract spells out its thirty-two bytes.
#[verifier::external_body]
pub(crate) fn token_program_id() -> (id: [u8; 32])
    ensures
        id@ == token_program_key(),
{
    spl_token::id().to_bytes()
}

/// Length in bytes of a token holding account.
pub const HOLDING_LEN: usize = 165;

/// What a token holding account says that this game reads.
#[derive(Clone, Copy, Debug, PartialEq, Eq)]
pub struct TokenHolding {
    /// The asset that the account holds units of.
    pub mint: [u8; 32],
    /// Who owns the units.
    pub owner: [u8; 32],
    /// How many units it holds.
    pub amount: u64,
}

/// The four bytes from `at` on tag an optional field: the first is 0 or 1 and
/// the rest are zero.
pub open spec fn option_tag_at(data: Seq<u8>, at: int) -> bool {
    &&& data[at] == 0 || data[at] == 1
    &&& data[at + 1] == 0
    &&& data[at + 2] == 0
    &&& data[at + 3] == 0
}

/// The parts of a holding account that can be malformed are not: the tags of
/// the delegate (from byte 72), of the native reserve (from 109) and of the
/// close authority (from 129), and the state (byte 108).
pub open spec fn holding_readable(data: Seq<u8>) -> bool {
    &&& option_tag_at(data, 72)
    &&& data[108] <= 2
    &&& option_tag_at(data, 109)
    &&& option_tag_at(data, 129)
}

/// `spl_token::state::Account::unpack_from_slice`, which reads the first 165
/// bytes and panics on fewer. It fails exactly on a malformed tag or state;
/// else the mint is bytes 0 to 32, the owner bytes 32 to 64 and the amount the
/// little-endian number in bytes 64 to 72.
#[verifier::external_body]
pub(crate) fn unpack_holding(data: &[u8]) -> (holding: Option<TokenHolding>)
    requires
        data.len() >= HOLDING_LEN,
    ensures
        match holding {
            Some(h) => {
                &&& holding_readable(data@)
                &&& h.mint@ == data@.subrange(0, 32)
                &&& h.owner@ == data@.subrange(32, 64)
                &&& h.amount == le_value(data@.subrange(64, 72))
            },
            None => !holding_readable(data@),
        },
{
    match spl_token::state::Account::unpack_from_slice(data) {
        Ok(account) => Some(
            TokenHolding {
                mint: account.mint.to_bytes(),
                owner: account.owner.to_bytes(),
                amount: account.amount,
            },
        ),
        Err(_) => None,
    }
}

/// The text that a length-prefixed payload carries: four bytes of
/// little-endian length, then exactly that many bytes of valid UTF-8.
pub open spec fn prefixed_text(bytes: Seq<u8>) -> Option<Seq<char>> {
    if bytes.len() >= 4 && le_value(bytes.subrange(0, 4)) == bytes.len() - 4 && valid_utf8(
        bytes.skip(4),
    ) {
        Some(decode_utf8(bytes.skip(4)))
    } else {
        None
    }
}

/// `borsh::from_slice` for a `String`: it reads the length, then the bytes,
/// checks that they are UTF-8 and that nothing is left over.
#[verifier::external_body]
pub(crate) fn text_from_slice(bytes: &[u8]) -> (text: Option<String>)
    ensures
        match text {
            Some(s) => prefixed_text(bytes@) == Some(s@),
            None => prefixed_text(bytes@) is None,
        },
{
    match borsh::from_slice::<String>(bytes) {
        Ok(s) => Some(s),
        Err(_) => None,
    }
}

} // verus!
