//! Assets: the proof that a manager holds one, and the player that a newly
//! held asset becomes.

use vstd::prelude::*;
use crate::error::GameError;
use crate::processor::Processor;
use crate::sdk::{
    base58_text, digest_text, holding_readable, keccak256, keccak_digest, token_program_id,
    token_program_key, unpack_holding, HOLDING_LEN,
};
use crate::state::{same_address, unset_address, Player};
use crate::wire::{le_value, write_bytes};

verus! {

/// Whether a holding account shows that `holder` holds exactly one unit of
/// `asset`.
///
/// The account must be held by the token program and be a well-formed
/// holding account of at least 165 bytes, whose owner (bytes 32 to 64) is the
/// holder, whose amount (bytes 64 to 72) is one and whose mint (bytes 0 to
/// 32) is the asset.
pub open spec fn possession_shown(
    holder: [u8; 32],
    asset: [u8; 32],
    holding_program: [u8; 32],
    holding: Seq<u8>,
) -> bool {
    &&& holding_program@ == token_program_key()
    &&& holding.len() >= HOLDING_LEN
    &&& holding_readable(holding)
    &&& holding.subrange(32, 64) == holder@
    &&& le_value(holding.subrange(64, 72)) == 1
    &&& holding.subrange(0, 32) == asset@
}

/// The stat that a byte of the digest gives: the byte itself up to 20, and
/// ten less above.
pub open spec fn stat_of(byte: u8) -> u64 {
    if byte > 20 {
        (byte - 10) as u64
    } else {
        byte as u64
    }
}

/// The digest that gives a new player its stats: the base-58 text of the
/// Keccak-256 hash of the asset's identity followed by the owner's.
pub open spec fn minting_digest(owner: [u8; 32], asset: [u8; 32]) -> Seq<u8> {
    base58_text(keccak256(asset@ + owner@))
}

/// The player that an asset becomes in the hands of `owner`: at rest, with
/// the offence that the first byte of the digest gives and the defence that
/// the second gives.
pub open spec fn minted(owner: [u8; 32], asset: [u8; 32], digest: Seq<u8>) -> Result<
    Player,
    GameError,
> {
    if digest.len() < 2 {
        Err(GameError::DigestTooShort)
    } else {
        Ok(
            Player {
                nft_adress: asset,
                owner,
                for_sale: false,
                sale_required_price: 0,
                for_rent: false,
                rent_required_price: 0,
                who_rents: unset_address(),
                rented: false,
                rented_for_time: 0,
                rent_end_on: 0,
                offence: stat_of(digest[0]),
                defence: stat_of(digest[1]),
            },
        )
    }
}

/// What the generation of a player does: the holding account must show that
/// the caller holds the asset; then the asset becomes a player of the
/// caller's.
pub open spec fn generate_player_outcome(
    owner: [u8; 32],
    asset: [u8; 32],
    holding_program: [u8; 32],
    holding: Seq<u8>,
    digest: Seq<u8>,
) -> Result<Player, GameError> {
    if !possession_shown(owner, asset, holding_program, holding) {
        Err(GameError::AssetMismatch)
    } else {
        minted(owner, asset, digest)
    }
}

impl Processor {
    /// Whether a holding account shows that `holder` holds exactly one unit
    /// of `asset`: see [`possession_shown`].
    pub fn shows_possession(
        holder: &[u8; 32],
        asset: &[u8; 32],
        holding_program: &[u8; 32],
        holding: &[u8],
    ) -> (shown: bool)
        ensures
            shown == possession_shown(*holder, *asset, *holding_program, holding@),
    {
        let token_program: [u8; 32] = token_program_id();
        if !same_address(holding_program, &token_program) {
            proof {
                if holding_program@ == token_program@ {
                    assert(*holding_program =~= token_program);
                }
            }
            return false;
        }
        if holding.len() < HOLDING_LEN {
            return false;
        }
        match unpack_holding(holding) {
            None => false,
            Some(account) => {
                let shown: bool = same_address(holder, &account.owner) && account.amount == 1
                    && same_address(asset, &account.mint);
                proof {
                    if holding@.subrange(32, 64) == holder@ {
                        assert(*holder =~= account.owner);
                    }
                    if holding@.subrange(0, 32) == asset@ {
                        assert(*asset =~= account.mint);
                    }
                }
                shown
            },
        }
    }

    fn stat(byte: u8) -> (stat: u64)
        ensures
            stat == stat_of(byte),
    {
        if byte > 20 {
            (byte - 10) as u64
        } else {
            byte as u64
        }
    }

    /// Makes the player of an asset from a given digest: see [`minted`].
    pub fn mint_player(owner: &[u8; 32], asset: &[u8; 32], digest: &[u8]) -> (made: Result<
        Player,
        GameError,
    >)
        ensures
            made == minted(*owner, *asset, digest@),
            made matches Ok(p) ==> p.well_formed(),
    {
        if digest.len() < 2 {
            return Err(GameError::DigestTooShort);
        }
        Ok(
            Player {
                nft_adress: *asset,
                owner: *owner,
                for_sale: false,
                sale_required_price: 0,
                for_rent: false,
                rent_required_price: 0,
                who_rents: [0u8; 32],
                rented: false,
                rented_for_time: 0,
                rent_end_on: 0,
                offence: Self::stat(digest[0]),
                defence: Self::stat(digest[1]),
            },
        )
    }

    /// Computes the digest that gives a new player its stats: see
    /// [`minting_digest`].
    pub fn digest_of_minting(owner: &[u8; 32], asset: &[u8; 32]) -> (digest: Vec<u8>)
        ensures
            digest@ == minting_digest(*owner, *asset),
    {
        let mut message: Vec<u8> = Vec::new();
        write_bytes(&mut message, asset.as_slice());
        write_bytes(&mut message, owner.as_slice());
        assert(message@ =~= asset@ + owner@);
        let hash: [u8; 32] = keccak_digest(message.as_slice());
        digest_text(&hash)
    }

    /// Generates the player of an asset that the caller holds. With the
    /// digest of [`minting_digest`], the result is that of
    /// [`generate_player_outcome`].
    pub fn generate_player(
        owner: &[u8; 32],
        asset: &[u8; 32],
        holding_program: &[u8; 32],
        holding: &[u8],
    ) -> (made: Result<Player, GameError>)
        ensures
            made == generate_player_outcome(
                *owner,
                *asset,
                *holding_program,
                holding@,
                minting_digest(*owner, *asset),
            ),
            made matches Ok(p) ==> p.well_formed(),
    {
        if !Self::shows_possession(owner, asset, holding_program, holding) {
            return Err(GameError::AssetMismatch);
        }
        let digest: Vec<u8> = Self::digest_of_minting(owner, asset);
        Self::mint_player(owner, asset, digest.as_slice())
    }
}

} // verus!
