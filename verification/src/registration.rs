//! Registration: the account of a new manager, at the address that the
//! manager's identity derives.

use vstd::prelude::*;
use vstd::utf8::*;
use crate::error::GameError;
use crate::processor::Processor;
use crate::sdk::{address_with_seed, seeded_address};
use crate::state::{
    same_address, unset_address, TeamClass, UserAccount, UserName, NAME_FILLER, NAME_WIDTH,
};

verus! {

/// The seed under which a manager's identity derives the address of the
/// account.
pub open spec fn account_seed() -> Seq<char> {
    "acc"@
}

/// A name as it is stored: the name itself, then the filler up to the fixed
/// width.
pub open spec fn stored_name(name: Seq<u8>) -> Seq<u8>
    recommends
        name.len() <= NAME_WIDTH,
{
    name + Seq::new((NAME_WIDTH - name.len()) as nat, |i: int| NAME_FILLER)
}

/// Whether `account` is the account of a manager who has just registered
/// under `name`: no team, no power, no experience, every slot unset.
pub open spec fn fresh_account(account: UserAccount, user: [u8; 32], name: Seq<u8>) -> bool {
    &&& account.user_address == user
    &&& account.user_name@ == stored_name(name)
    &&& account.user_name_length == name.len()
    &&& !account.team_is_ready
    &&& account.team_power == 0
    &&& account.team_class == TeamClass::Unset
    &&& account.defence_1 == unset_address()
    &&& account.defence_2 == unset_address()
    &&& account.middle == unset_address()
    &&& account.offence_1 == unset_address()
    &&& account.offence_2 == unset_address()
    &&& account.experienced == 0
}

/// Why a registration is refused, if it is: the name is longer than the
/// fixed width; or the account is not at the address that the manager's
/// identity derives, or not held by the program.
pub open spec fn registration_refusal(
    name: Seq<u8>,
    address: [u8; 32],
    holder: [u8; 32],
    program: [u8; 32],
    derived: Option<Seq<u8>>,
) -> Option<GameError> {
    if name.len() > NAME_WIDTH {
        Some(GameError::NameTooLong)
    } else if derived != Some(address@) || holder != program {
        Some(GameError::Unauthorized)
    } else {
        None
    }
}

/// Text takes at least one byte for each of its characters.
pub proof fn lemma_bytes_outnumber_characters(text: Seq<char>)
    ensures
        encode_utf8(text).len() >= text.len(),
    decreases text.len(),
{
    if text.len() > 0 {
        lemma_bytes_outnumber_characters(text.drop_first());
    }
}

impl Processor {
    /// Lays a name out as it is stored: see [`stored_name`].
    pub fn store_name(name: &[u8]) -> (stored: [u8; 10])
        requires
            name.len() <= NAME_WIDTH,
        ensures
            stored@ == stored_name(name@),
    {
        let mut stored: [u8; 10] = [NAME_FILLER; 10];
        let mut i: usize = 0;
        while i < name.len()
            invariant
                i <= name.len() <= NAME_WIDTH,
                forall|j: int| 0 <= j < i ==> stored[j] == name[j],
                forall|j: int| i <= j < NAME_WIDTH ==> stored[j] == NAME_FILLER,
            decreases name.len() - i,
        {
            stored[i] = name[i];
            i = i + 1;
        }
        assert(stored@ =~= stored_name(name@));
        stored
    }

    /// Registers a manager, given the address that the manager's identity
    /// derives (or that it derives none).
    ///
    /// A name of more than ten bytes, and so any of more than ten characters,
    /// is refused as too long, whatever else holds. A shorter one is stored
    /// left-justified and filled up to ten bytes.
    pub fn register_user_at(
        user: &[u8; 32],
        username: &UserName,
        address: &[u8; 32],
        holder: &[u8; 32],
        program: &[u8; 32],
        derived: Option<[u8; 32]>,
    ) -> (made: Result<UserAccount, GameError>)
        ensures
            match made {
                Ok(account) => {
                    &&& derived == Some(*address)
                    &&& *holder == *program
                    &&& encode_utf8(username.user_name@).len() <= NAME_WIDTH
                    &&& fresh_account(account, *user, encode_utf8(username.user_name@))
                    &&& account.well_formed()
                },
                Err(e) => Some(e) == registration_refusal(
                    encode_utf8(username.user_name@),
                    *address,
                    *holder,
                    *program,
                    match derived {
                        Some(d) => Some(d@),
                        None => None,
                    },
                ),
            },
            encode_utf8(username.user_name@).len() > NAME_WIDTH || username.user_name@.len()
                > NAME_WIDTH ==> made == Err::<UserAccount, GameError>(GameError::NameTooLong),
    {
        let name: &[u8] = username.user_name.as_str().as_bytes();
        proof {
            lemma_bytes_outnumber_characters(username.user_name@);
        }
        if name.len() > NAME_WIDTH {
            return Err(GameError::NameTooLong);
        }
        match derived {
            None => {
                return Err(GameError::Unauthorized);
            },
            Some(d) => {
                if !same_address(&d, address) {
                    proof {
                        if d@ == address@ {
                            assert(d =~= *address);
                        }
                    }
                    return Err(GameError::Unauthorized);
                }
            },
        }
        if !same_address(holder, program) {
            return Err(GameError::Unauthorized);
        }
        Ok(
            UserAccount {
                user_address: *user,
                user_name: Self::store_name(name),
                user_name_length: name.len() as u8,
                team_is_ready: false,
                team_power: 0,
                team_class: TeamClass::Unset,
                defence_1: [0u8; 32],
                defence_2: [0u8; 32],
                middle: [0u8; 32],
                offence_1: [0u8; 32],
                offence_2: [0u8; 32],
                experienced: 0,
            },
        )
    }

    /// Registers a manager. The account must be at the address that the
    /// manager's identity derives under the seed `acc`, and be held by the
    /// program.
    ///
    /// A name of more than ten bytes, and so any of more than ten characters,
    /// is refused as too long, whatever else holds. A shorter one is stored
    /// left-justified and filled up to ten bytes.
    pub fn register_user(
        user: &[u8; 32],
        username: &UserName,
        address: &[u8; 32],
        holder: &[u8; 32],
        program: &[u8; 32],
    ) -> (made: Result<UserAccount, GameError>)
        ensures
            match made {
                Ok(account) => {
                    &&& seeded_address(user@, account_seed(), program@) == Some(address@)
                    &&& *holder == *program
                    &&& encode_utf8(username.user_name@).len() <= NAME_WIDTH
                    &&& fresh_account(account, *user, encode_utf8(username.user_name@))
                    &&& account.well_formed()
                },
                Err(e) => Some(e) == registration_refusal(
                    encode_utf8(username.user_name@),
                    *address,
                    *holder,
                    *program,
                    seeded_address(user@, account_seed(), program@),
                ),
            },
            encode_utf8(username.user_name@).len() > NAME_WIDTH || username.user_name@.len()
                > NAME_WIDTH ==> made == Err::<UserAccount, GameError>(GameError::NameTooLong),
    {
        let derived: Option<[u8; 32]> = address_with_seed(user, "acc", program);
        proof {
            if let Some(d) = derived {
                if d@ == address@ {
                    assert(d =~= *address);
                }
            }
        }
        Self::register_user_at(user, username, address, holder, program, derived)
    }
}

} // verus!
