//! Progression: banked experience turned into permanent stats, and the team
//! power brought up to date.

use vstd::prelude::*;
use crate::error::GameError;
use crate::processor::Processor;
use crate::state::{same_address, Player, UpgradePlayer, UserAccount};
use crate::team::team_power;

verus! {

/// The asset in a slot of the team. Slots count from one: the two attackers,
/// the middle player, the two defenders.
pub open spec fn slot_asset(account: UserAccount, slot: u8) -> [u8; 32]
    recommends
        1 <= slot <= 5,
{
    if slot == 1 {
        account.offence_1
    } else if slot == 2 {
        account.offence_2
    } else if slot == 3 {
        account.middle
    } else if slot == 4 {
        account.defence_1
    } else {
        account.defence_2
    }
}

/// What a player in a slot weighs in the team power: an attacker its offence
/// twice and its defence once, a defender its defence twice and its offence
/// once, the middle player both stats three times.
pub open spec fn weighted_share(slot: u8, offence: int, defence: int) -> int {
    if slot == 3 {
        (offence + defence) * 3
    } else if slot == 1 || slot == 2 {
        offence * 2 + defence
    } else {
        defence * 2 + offence
    }
}

/// The team power after the player in `slot` has gained `exp` on both stats:
/// its old share taken out, its new share put in.
pub open spec fn upgraded_power(account: UserAccount, player: Player, slot: u8, exp: u64) -> int {
    account.team_power - weighted_share(slot, player.offence as int, player.defence as int)
        + weighted_share(slot, player.offence + exp, player.defence + exp)
}

/// The two records that an upgrade writes.
#[derive(Clone, Copy, Debug, PartialEq, Eq)]
pub struct Upgrade {
    /// The manager's account, with the experience spent and the power
    /// brought up to date.
    pub account: UserAccount,
    /// The player, with both stats raised.
    pub player: Player,
}

/// What an upgrade does.
///
/// The account must have banked the experience to spend, the slot must be
/// one of the five, and the asset in it must be the player's; the new stats
/// and the new power must fit in 64 bits. Then both stats of the player rise
/// by the experience spent, which leaves the bank.
pub open spec fn upgrade_outcome(account: UserAccount, player: Player, upgrade: UpgradePlayer)
    -> Result<Upgrade, GameError> {
    let slot = upgrade.player_no;
    let exp = upgrade.exp;
    if account.experienced < exp {
        Err(GameError::InsufficientExperience)
    } else if slot < 1 || slot > 5 {
        Err(GameError::InvalidInstruction)
    } else if slot_asset(account, slot) != player.nft_adress {
        Err(GameError::AssetMismatch)
    } else if player.offence + exp > u64::MAX || player.defence + exp > u64::MAX
        || upgraded_power(account, player, slot, exp) > u64::MAX {
        Err(GameError::ArithmeticOverflow)
    } else {
        Ok(
            Upgrade {
                account: UserAccount {
                    team_is_ready: true,
                    team_power: upgraded_power(account, player, slot, exp) as u64,
                    experienced: (account.experienced - exp) as u64,
                    ..account
                },
                player: Player {
                    offence: (player.offence + exp) as u64,
                    defence: (player.defence + exp) as u64,
                    ..player
                },
            },
        )
    }
}

/// The player that a team of five fields in a slot.
pub open spec fn fielded_in(
    slot: u8,
    offence_1: Player,
    offence_2: Player,
    middle: Player,
    defence_1: Player,
    defence_2: Player,
) -> Player
    recommends
        1 <= slot <= 5,
{
    if slot == 1 {
        offence_1
    } else if slot == 2 {
        offence_2
    } else if slot == 3 {
        middle
    } else if slot == 4 {
        defence_1
    } else {
        defence_2
    }
}

/// The power of a team of five with another player in one of its slots.
pub open spec fn power_with(
    slot: u8,
    player: Player,
    offence_1: Player,
    offence_2: Player,
    middle: Player,
    defence_1: Player,
    defence_2: Player,
) -> int
    recommends
        1 <= slot <= 5,
{
    team_power(
        if slot == 1 {
            player
        } else {
            offence_1
        },
        if slot == 2 {
            player
        } else {
            offence_2
        },
        if slot == 3 {
            player
        } else {
            middle
        },
        if slot == 4 {
            player
        } else {
            defence_1
        },
        if slot == 5 {
            player
        } else {
            defence_2
        },
    )
}

/// An upgrade keeps the recorded power in step with the team. If the power on
/// record is that of the five players of the team, then after the upgrade of
/// one of them it is that of the five with the upgraded player in its slot:
/// the power is never left to be derived anew.
pub proof fn lemma_upgrade_keeps_step(
    account: UserAccount,
    offence_1: Player,
    offence_2: Player,
    middle: Player,
    defence_1: Player,
    defence_2: Player,
    upgrade: UpgradePlayer,
)
    requires
        account.team_power == team_power(offence_1, offence_2, middle, defence_1, defence_2),
        upgrade_outcome(
            account,
            fielded_in(upgrade.player_no, offence_1, offence_2, middle, defence_1, defence_2),
            upgrade,
        ) is Ok,
    ensures
        ({
            let done = upgrade_outcome(
                account,
                fielded_in(upgrade.player_no, offence_1, offence_2, middle, defence_1, defence_2),
                upgrade,
            )->Ok_0;
            done.account.team_power == power_with(
                upgrade.player_no,
                done.player,
                offence_1,
                offence_2,
                middle,
                defence_1,
                defence_2,
            )
        }),
{
}

impl Processor {
    fn share(slot: u8, offence: u64, defence: u64) -> (share: u128)
        ensures
            share == weighted_share(slot, offence as int, defence as int),
    {
        if slot == 3 {
            (offence as u128 + defence as u128) * 3
        } else if slot == 1 || slot == 2 {
            offence as u128 * 2 + defence as u128
        } else {
            defence as u128 * 2 + offence as u128
        }
    }

    /// Spends banked experience on the player in a slot of the team: see
    /// [`upgrade_outcome`]. On success both stats have risen by the
    /// experience spent, the bank has shrunk by it, and the team power has
    /// changed by the player's new share less its old one.
    pub fn upgrade_player(account: &UserAccount, player: &Player, upgrade: &UpgradePlayer) -> (done:
        Result<Upgrade, GameError>)
        ensures
            done == upgrade_outcome(*account, *player, *upgrade),
            done matches Ok(up) ==> {
                &&& up.player.offence == player.offence + upgrade.exp
                &&& up.player.defence == player.defence + upgrade.exp
                &&& up.account.experienced == account.experienced - upgrade.exp
                &&& up.account.team_power - account.team_power == weighted_share(
                    upgrade.player_no,
                    up.player.offence as int,
                    up.player.defence as int,
                ) - weighted_share(
                    upgrade.player_no,
                    player.offence as int,
                    player.defence as int,
                )
                &&& player.well_formed() ==> up.player.well_formed()
                &&& account.well_formed() ==> up.account.well_formed()
            },
    {
        let slot: u8 = upgrade.player_no;
        let exp: u64 = upgrade.exp;
        if account.experienced < exp {
            return Err(GameError::InsufficientExperience);
        }
        let in_slot: [u8; 32] = if slot == 1 {
            account.offence_1
        } else if slot == 2 {
            account.offence_2
        } else if slot == 3 {
            account.middle
        } else if slot == 4 {
            account.defence_1
        } else if slot == 5 {
            account.defence_2
        } else {
            return Err(GameError::InvalidInstruction);
        };
        if !same_address(&in_slot, &player.nft_adress) {
            return Err(GameError::AssetMismatch);
        }
        let (offence, defence): (u64, u64) = match (
            player.offence.checked_add(exp),
            player.defence.checked_add(exp),
        ) {
            (Some(offence), Some(defence)) => (offence, defence),
            _ => {
                return Err(GameError::ArithmeticOverflow);
            },
        };
        let old_share: u128 = Self::share(slot, player.offence, player.defence);
        let new_share: u128 = Self::share(slot, offence, defence);
        let power: u128 = account.team_power as u128 + new_share - old_share;
        if power > u64::MAX as u128 {
            return Err(GameError::ArithmeticOverflow);
        }
        let mut upgraded: Player = *player;
        upgraded.offence = offence;
        upgraded.defence = defence;
        let mut spent: UserAccount = *account;
        spent.team_is_ready = true;
        spent.team_power = power as u64;
        spent.experienced = account.experienced - exp;
        Ok(Upgrade { account: spent, player: upgraded })
    }
}

} // verus!
