//! The operations of the game and their encoding: one tag byte, then the
//! payload of the operation, with integers little-endian and text
//! length-prefixed.

use vstd::prelude::*;
use crate::error::GameError;
use crate::sdk::{prefixed_text, text_from_slice};
use crate::state::{RentOffer, SellOffer, UpgradePlayer, UserName};
use crate::wire::{le_value, read_u64};

verus! {

/// One operation of the game, with its payload.
#[derive(Clone, Debug, PartialEq, Eq)]
pub enum GameInstruction {
    /// Tag 0: register the caller under a display name.
    RegisterUser { username: UserName },
    /// Tag 1: make the player of an asset that the caller holds.
    GeneratePlayer,
    /// Tag 3: buy a player that is listed for sale.
    BuyPlayer,
    /// Tag 4: rent a player that is on offer.
    RentAnotherPlayer,
    /// Tag 5: list a player for sale.
    SellPlayer { selloffer: SellOffer },
    /// Tag 6: list a player for rent.
    RentYourPlayer { rentoffer: RentOffer },
    /// Tag 7: make five players the caller's team.
    SetTeam,
    /// Tag 8: challenge another manager's team.
    Challenge,
    /// Tag 9: clear a rent listing.
    AbortRent,
    /// Tag 10: take a player off the market.
    AbortSell,
    /// Tag 11: take a player back once its rental has run out.
    ClaimRentOverPlayer,
    /// Tag 12: claim the player of an asset that the caller holds.
    ClaimNFTPlayer,
    /// Tag 13: create the account of the escrow authority.
    CreatePDA,
    /// Tag 14: spend experience on a player of the team.
    Upgrade { upgrade: UpgradePlayer },
}

/// Whether `input` encodes an operation: it has a tag byte that names one,
/// and the rest is exactly the payload of that operation. An operation
/// without a payload takes any rest.
pub open spec fn well_formed(input: Seq<u8>) -> bool {
    &&& input.len() >= 1
    &&& if input[0] == 0 {
        prefixed_text(input.skip(1)) is Some
    } else if input[0] == 5 {
        input.len() == 9
    } else if input[0] == 6 {
        input.len() == 17
    } else if input[0] == 14 {
        input.len() == 10
    } else {
        input[0] == 1 || input[0] == 3 || input[0] == 4 || 7 <= input[0] <= 13
    }
}

/// Whether `input` encodes `instruction`.
pub open spec fn encodes(input: Seq<u8>, instruction: GameInstruction) -> bool {
    &&& input.len() >= 1
    &&& match instruction {
        GameInstruction::RegisterUser { username } => {
            &&& input[0] == 0
            &&& prefixed_text(input.skip(1)) == Some(username.user_name@)
        },
        GameInstruction::GeneratePlayer => input[0] == 1,
        GameInstruction::BuyPlayer => input[0] == 3,
        GameInstruction::RentAnotherPlayer => input[0] == 4,
        GameInstruction::SellPlayer { selloffer } => {
            &&& input[0] == 5
            &&& input.len() == 9
            &&& selloffer.sell_required_price == le_value(input.subrange(1, 9))
        },
        GameInstruction::RentYourPlayer { rentoffer } => {
            &&& input[0] == 6
            &&& input.len() == 17
            &&& rentoffer.rent_required_price == le_value(input.subrange(1, 9))
            &&& rentoffer.rented_for_time == le_value(input.subrange(9, 17))
        },
        GameInstruction::SetTeam => input[0] == 7,
        GameInstruction::Challenge => input[0] == 8,
        GameInstruction::AbortRent => input[0] == 9,
        GameInstruction::AbortSell => input[0] == 10,
        GameInstruction::ClaimRentOverPlayer => input[0] == 11,
        GameInstruction::ClaimNFTPlayer => input[0] == 12,
        GameInstruction::CreatePDA => input[0] == 13,
        GameInstruction::Upgrade { upgrade } => {
            &&& input[0] == 14
            &&& input.len() == 10
            &&& upgrade.player_no == input[1]
            &&& upgrade.exp == le_value(input.subrange(2, 10))
        },
    }
}

impl GameInstruction {
    /// Decodes an operation. Every well-formed input gives the operation that
    /// it encodes; every other input is refused as an invalid instruction.
    pub fn unpack(input: &[u8]) -> (unpacked: Result<GameInstruction, GameError>)
        ensures
            match unpacked {
                Ok(instruction) => well_formed(input@) && encodes(input@, instruction),
                Err(e) => e == GameError::InvalidInstruction && !well_formed(input@),
            },
    {
        if input.len() < 1 {
            return Err(GameError::InvalidInstruction);
        }
        let tag: u8 = input[0];
        let rest: &[u8] = vstd::slice::slice_subrange(input, 1, input.len());
        assert(rest@ =~= input@.skip(1));
        if tag == 0 {
            match text_from_slice(rest) {
                Some(user_name) => Ok(
                    GameInstruction::RegisterUser { username: UserName { user_name } },
                ),
                None => Err(GameError::InvalidInstruction),
            }
        } else if tag == 1 {
            Ok(GameInstruction::GeneratePlayer)
        } else if tag == 3 {
            Ok(GameInstruction::BuyPlayer)
        } else if tag == 4 {
            Ok(GameInstruction::RentAnotherPlayer)
        } else if tag == 5 {
            if input.len() != 9 {
                return Err(GameError::InvalidInstruction);
            }
            Ok(
                GameInstruction::SellPlayer {
                    selloffer: SellOffer { sell_required_price: read_u64(input, 1) },
                },
            )
        } else if tag == 6 {
            if input.len() != 17 {
                return Err(GameError::InvalidInstruction);
            }
            Ok(
                GameInstruction::RentYourPlayer {
                    rentoffer: RentOffer {
                        rent_required_price: read_u64(input, 1),
                        rented_for_time: read_u64(input, 9),
                    },
                },
            )
        } else if tag == 7 {
            Ok(GameInstruction::SetTeam)
        } else if tag == 8 {
            Ok(GameInstruction::Challenge)
        } else if tag == 9 {
            Ok(GameInstruction::AbortRent)
        } else if tag == 10 {
            Ok(GameInstruction::AbortSell)
        } else if tag == 11 {
            Ok(GameInstruction::ClaimRentOverPlayer)
        } else if tag == 12 {
            Ok(GameInstruction::ClaimNFTPlayer)
        } else if tag == 13 {
            Ok(GameInstruction::CreatePDA)
        } else if tag == 14 {
            if input.len() != 10 {
                return Err(GameError::InvalidInstruction);
            }
            Ok(
                GameInstruction::Upgrade {
                    upgrade: UpgradePlayer { player_no: input[1], exp: read_u64(input, 2) },
                },
            )
        } else {
            Err(GameError::InvalidInstruction)
        }
    }
}

} // verus!
