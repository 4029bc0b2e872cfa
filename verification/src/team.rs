//! Team composition: who may field a player, and the power of the five that
//! a manager fields.

use vstd::prelude::*;
use crate::error::GameError;
use crate::processor::Processor;
use crate::state::{same_address, Player, TeamClass, UserAccount};

verus! {

/// Power of the defence: both defenders' defence counted twice, and the
/// middle player's offence three times.
pub open spec fn defence_power(defence_1: Player, defence_2: Player, middle: Player) -> int {
    (defence_1.defence + defence_2.defence) * 2 + middle.offence * 3
}

/// Power of the offence: both attackers' offence counted twice, and the
/// middle player's defence three times.
pub open spec fn offence_power(offence_1: Player, offence_2: Player, middle: Player) -> int {
    (offence_1.offence + offence_2.offence) * 2 + middle.defence * 3
}

/// Power of a team. The four corner stats count once more on top of their
/// weighted share.
pub open spec fn team_power(
    offence_1: Player,
    offence_2: Player,
    middle: Player,
    defence_1: Player,
    defence_2: Player,
) -> int {
    defence_power(defence_1, defence_2, middle) + offence_power(offence_1, offence_2, middle)
        + defence_1.defence + defence_2.defence + offence_1.offence + offence_2.offence
}

/// Whether `user` may field all five players.
pub open spec fn fields_all(
    user: [u8; 32],
    offence_1: Player,
    offence_2: Player,
    middle: Player,
    defence_1: Player,
    defence_2: Player,
) -> bool {
    &&& offence_1.fielded_by() == user
    &&& offence_2.fielded_by() == user
    &&& middle.fielded_by() == user
    &&& defence_1.fielded_by() == user
    &&& defence_2.fielded_by() == user
}

/// Whether any of the five players is listed for sale or rent.
pub open spec fn any_listed(
    offence_1: Player,
    offence_2: Player,
    middle: Player,
    defence_1: Player,
    defence_2: Player,
) -> bool {
    offence_1.listed() || offence_2.listed() || middle.listed() || defence_1.listed()
        || defence_2.listed()
}

/// The account once the five players are its team: ready, with their assets
/// in the slots and their power recorded.
pub open spec fn with_team(
    account: UserAccount,
    offence_1: Player,
    offence_2: Player,
    middle: Player,
    defence_1: Player,
    defence_2: Player,
) -> UserAccount {
    UserAccount {
        team_is_ready: true,
        team_power: team_power(offence_1, offence_2, middle, defence_1, defence_2) as u64,
        team_class: TeamClass::Standard,
        defence_1: defence_1.nft_adress,
        defence_2: defence_2.nft_adress,
        middle: middle.nft_adress,
        offence_1: offence_1.nft_adress,
        offence_2: offence_2.nft_adress,
        ..account
    }
}

/// What setting a team does to the account.
///
/// The caller must be the manager of the account and must field each of the
/// five players, none of which may be listed; the power must fit in 64 bits.
pub open spec fn set_team_outcome(
    user: [u8; 32],
    account: UserAccount,
    offence_1: Player,
    offence_2: Player,
    middle: Player,
    defence_1: Player,
    defence_2: Player,
) -> Result<UserAccount, GameError> {
    if user != account.user_address || !fields_all(
        user,
        offence_1,
        offence_2,
        middle,
        defence_1,
        defence_2,
    ) {
        Err(GameError::Unauthorized)
    } else if any_listed(offence_1, offence_2, middle, defence_1, defence_2) {
        Err(GameError::InvalidState)
    } else if team_power(offence_1, offence_2, middle, defence_1, defence_2) > u64::MAX {
        Err(GameError::ArithmeticOverflow)
    } else {
        Ok(with_team(account, offence_1, offence_2, middle, defence_1, defence_2))
    }
}

impl Processor {
    /// Whether `user` may field the player: as its renter while it is rented,
    /// as its owner otherwise.
    pub fn may_field(user: &[u8; 32], player: &Player) -> (allowed: bool)
        ensures
            allowed == (player.fielded_by() == *user),
    {
        if player.rented {
            same_address(&player.who_rents, user)
        } else {
            same_address(&player.owner, user)
        }
    }

    /// The power of a team, or nothing if it does not fit in 64 bits.
    pub fn power_of_team(
        offence_1: &Player,
        offence_2: &Player,
        middle: &Player,
        defence_1: &Player,
        defence_2: &Player,
    ) -> (power: Option<u64>)
        ensures
            match power {
                Some(p) => p == team_power(
                    *offence_1,
                    *offence_2,
                    *middle,
                    *defence_1,
                    *defence_2,
                ),
                None => team_power(*offence_1, *offence_2, *middle, *defence_1, *defence_2)
                    > u64::MAX,
            },
    {
        let d1: u128 = defence_1.defence as u128;
        let d2: u128 = defence_2.defence as u128;
        let o1: u128 = offence_1.offence as u128;
        let o2: u128 = offence_2.offence as u128;
        let defence: u128 = (d1 + d2) * 2 + (middle.offence as u128) * 3;
        let offence: u128 = (o1 + o2) * 2 + (middle.defence as u128) * 3;
        let power: u128 = defence + offence + d1 + d2 + o1 + o2;
        if power > u64::MAX as u128 {
            None
        } else {
            Some(power as u64)
        }
    }

    /// Makes five players the caller's team: see [`set_team_outcome`].
    pub fn set_team(
        user: &[u8; 32],
        account: &UserAccount,
        offence_1: &Player,
        offence_2: &Player,
        middle: &Player,
        defence_1: &Player,
        defence_2: &Player,
    ) -> (formed: Result<UserAccount, GameError>)
        ensures
            formed == set_team_outcome(
                *user,
                *account,
                *offence_1,
                *offence_2,
                *middle,
                *defence_1,
                *defence_2,
            ),
            formed matches Ok(a) ==> {
                &&& a.team_is_ready
                &&& a.team_power == team_power(
                    *offence_1,
                    *offence_2,
                    *middle,
                    *defence_1,
                    *defence_2,
                )
                &&& a.experienced == account.experienced
                &&& account.well_formed() ==> a.well_formed()
            },
    {
        if !same_address(user, &account.user_address) {
            return Err(GameError::Unauthorized);
        }
        if !Self::may_field(user, offence_1) || !Self::may_field(user, offence_2)
            || !Self::may_field(user, middle) || !Self::may_field(user, defence_1)
            || !Self::may_field(user, defence_2) {
            return Err(GameError::Unauthorized);
        }
        if offence_1.for_sale || offence_1.for_rent || offence_2.for_sale || offence_2.for_rent
            || middle.for_sale || middle.for_rent || defence_1.for_sale || defence_1.for_rent
            || defence_2.for_sale || defence_2.for_rent {
            return Err(GameError::InvalidState);
        }
        match Self::power_of_team(offence_1, offence_2, middle, defence_1, defence_2) {
            None => Err(GameError::ArithmeticOverflow),
            Some(power) => Ok(
                UserAccount {
                    user_address: account.user_address,
                    user_name: account.user_name,
                    user_name_length: account.user_name_length,
                    team_is_ready: true,
                    team_power: power,
                    team_class: TeamClass::Standard,
                    defence_1: defence_1.nft_adress,
                    defence_2: defence_2.nft_adress,
                    middle: middle.nft_adress,
                    offence_1: offence_1.nft_adress,
                    offence_2: offence_2.nft_adress,
                    experienced: account.experienced,
                },
            ),
        }
    }
}

} // verus!
