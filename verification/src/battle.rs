//! Battle resolution: the experience at stake in a challenge, the six noisy
//! rounds that decide it, and the digest that supplies the noise.

use vstd::prelude::*;
use crate::error::GameError;
use crate::processor::Processor;
use crate::sdk::{base58_text, digest_text, keccak256, keccak_digest};
use crate::state::{same_address, UserAccount};
use crate::wire::write_bytes;

verus! {

/// Rounds of a battle. Each consumes one byte of the digest.
pub const ROUNDS: usize = 6;

/// Rounds of the opening half, in which the noise is on the opponent's side.
pub const OPENING_ROUNDS: usize = 3;

/// Experience at stake for a caller whose team is weaker by `gap`.
///
/// The fifth tier awards 111, which breaks the run 7, 8, 9, 10, .., 12, 13 and
/// may be meant as 11. The rules define it so, and it is kept until they are
/// clarified.
pub open spec fn trailing_award(gap: int) -> u64 {
    if gap < 5 {
        7
    } else if gap < 20 {
        8
    } else if gap < 35 {
        9
    } else if gap < 50 {
        10
    } else if gap < 65 {
        111
    } else if gap < 80 {
        12
    } else {
        13
    }
}

/// Experience at stake for a caller whose team is stronger by `gap`, or as
/// strong.
pub open spec fn leading_award(gap: int) -> u64 {
    if gap < 5 {
        7
    } else if gap < 20 {
        6
    } else if gap < 35 {
        5
    } else if gap < 50 {
        4
    } else if gap < 65 {
        3
    } else if gap < 80 {
        2
    } else {
        1
    }
}

/// Experience at stake in a challenge: tiered by the absolute gap between the
/// two team powers, and larger for the side that is behind.
pub open spec fn experience_award(caller_power: u64, opponent_power: u64) -> u64 {
    if opponent_power > caller_power {
        trailing_award(opponent_power - caller_power)
    } else {
        leading_award(caller_power - opponent_power)
    }
}

/// Whether the caller takes round `round` under `noise`. In an opening round
/// the noise is added to the opponent, who takes the round by exceeding the
/// caller; in a closing round it is added to the caller, who takes the round
/// by exceeding the opponent.
pub open spec fn caller_takes_round(
    caller_power: u64,
    opponent_power: u64,
    round: int,
    noise: u8,
) -> bool {
    if round < OPENING_ROUNDS {
        !(opponent_power + noise > caller_power)
    } else {
        caller_power + noise > opponent_power
    }
}

/// Rounds that the caller takes among the first `rounds`, the noise of round
/// `i` being byte `i` of the digest.
pub open spec fn caller_rounds(
    caller_power: u64,
    opponent_power: u64,
    digest: Seq<u8>,
    rounds: int,
) -> int
    decreases rounds,
{
    if rounds <= 0 {
        0
    } else {
        caller_rounds(caller_power, opponent_power, digest, rounds - 1) + if caller_takes_round(
            caller_power,
            opponent_power,
            rounds - 1,
            digest[rounds - 1],
        ) {
            1int
        } else {
            0int
        }
    }
}

/// Whether the caller wins the battle: it takes strictly more of the six
/// rounds than the opponent.
pub open spec fn caller_prevails(caller_power: u64, opponent_power: u64, digest: Seq<u8>) -> bool {
    caller_rounds(caller_power, opponent_power, digest, ROUNDS as int) > ROUNDS - caller_rounds(
        caller_power,
        opponent_power,
        digest,
        ROUNDS as int,
    )
}

/// The digest of a challenge: the base-58 text of the Keccak-256 hash of the
/// caller's identity followed by both stored names. It depends on public
/// values alone, so that anyone can replay a battle.
pub open spec fn battle_digest(caller: UserAccount, caller_key: [u8; 32], opponent: UserAccount) -> Seq<
    u8,
> {
    base58_text(keccak256(caller_key@ + caller.user_name@ + opponent.user_name@))
}

/// What a challenge does to the caller's record, given the digest.
///
/// Both records must be held by the program and the caller must be the
/// manager of the first. The caller's record gains the experience at stake
/// if the caller wins, and stays as it is otherwise.
pub open spec fn challenge_outcome(
    caller: UserAccount,
    caller_key: [u8; 32],
    caller_holder: [u8; 32],
    opponent: UserAccount,
    opponent_holder: [u8; 32],
    program: [u8; 32],
    digest: Seq<u8>,
) -> Result<UserAccount, GameError> {
    let award = experience_award(caller.team_power, opponent.team_power);
    if caller_holder != program || opponent_holder != program || caller_key
        != caller.user_address {
        Err(GameError::Unauthorized)
    } else if digest.len() < ROUNDS {
        Err(GameError::DigestTooShort)
    } else if !caller_prevails(caller.team_power, opponent.team_power, digest) {
        Ok(caller)
    } else if caller.experienced + award > u64::MAX {
        Err(GameError::ArithmeticOverflow)
    } else {
        Ok(UserAccount { experienced: (caller.experienced + award) as u64, ..caller })
    }
}

impl Processor {
    /// The experience at stake between two team powers.
    pub fn experience_at_stake(caller_power: u64, opponent_power: u64) -> (award: u64)
        ensures
            award == experience_award(caller_power, opponent_power),
    {
        if opponent_power > caller_power {
            let gap: u64 = opponent_power - caller_power;
            if gap < 5 {
                7
            } else if gap < 20 {
                8
            } else if gap < 35 {
                9
            } else if gap < 50 {
                10
            } else if gap < 65 {
                111
            } else if gap < 80 {
                12
            } else {
                13
            }
        } else {
            let gap: u64 = caller_power - opponent_power;
            if gap < 5 {
                7
            } else if gap < 20 {
                6
            } else if gap < 35 {
                5
            } else if gap < 50 {
                4
            } else if gap < 65 {
                3
            } else if gap < 80 {
                2
            } else {
                1
            }
        }
    }

    /// Plays the six rounds and says whether the caller wins.
    pub fn play_rounds(caller_power: u64, opponent_power: u64, digest: &[u8]) -> (won: bool)
        requires
            digest.len() >= ROUNDS,
        ensures
            won == caller_prevails(caller_power, opponent_power, digest@),
    {
        let mut caller_score: usize = 0;
        let mut round: usize = 0;
        while round < ROUNDS
            invariant
                round <= ROUNDS,
                digest.len() >= ROUNDS,
                caller_score <= round,
                caller_score == caller_rounds(
                    caller_power,
                    opponent_power,
                    digest@,
                    round as int,
                ),
            decreases ROUNDS - round,
        {
            let noise: u128 = digest[round] as u128;
            let taken: bool = if round < OPENING_ROUNDS {
                !(opponent_power as u128 + noise > caller_power as u128)
            } else {
                caller_power as u128 + noise > opponent_power as u128
            };
            if taken {
                caller_score = caller_score + 1;
            }
            round = round + 1;
        }
        caller_score > ROUNDS - caller_score
    }

    /// Settles a challenge whose digest is given: see [`challenge_outcome`].
    /// The opponent's record is only read.
    pub fn resolve_challenge(
        caller: &UserAccount,
        caller_key: &[u8; 32],
        caller_holder: &[u8; 32],
        opponent: &UserAccount,
        opponent_holder: &[u8; 32],
        program: &[u8; 32],
        digest: &[u8],
    ) -> (settled: Result<UserAccount, GameError>)
        ensures
            settled == challenge_outcome(
                *caller,
                *caller_key,
                *caller_holder,
                *opponent,
                *opponent_holder,
                *program,
                digest@,
            ),
            settled matches Ok(after) ==> {
                let won = caller_prevails(caller.team_power, opponent.team_power, digest@);
                let award = experience_award(caller.team_power, opponent.team_power);
                &&& !won ==> after == *caller
                &&& won ==> after.experienced == caller.experienced + award && after == (
                UserAccount { experienced: after.experienced, ..*caller })
                &&& caller.well_formed() ==> after.well_formed()
            },
    {
        if !same_address(caller_holder, program) || !same_address(opponent_holder, program)
            || !same_address(caller_key, &caller.user_address) {
            return Err(GameError::Unauthorized);
        }
        if digest.len() < ROUNDS {
            return Err(GameError::DigestTooShort);
        }
        if !Self::play_rounds(caller.team_power, opponent.team_power, digest) {
            return Ok(*caller);
        }
        let award: u64 = Self::experience_at_stake(caller.team_power, opponent.team_power);
        match caller.experienced.checked_add(award) {
            None => Err(GameError::ArithmeticOverflow),
            Some(experienced) => Ok(
                UserAccount {
                    user_address: caller.user_address,
                    user_name: caller.user_name,
                    user_name_length: caller.user_name_length,
                    team_is_ready: caller.team_is_ready,
                    team_power: caller.team_power,
                    team_class: caller.team_class,
                    defence_1: caller.defence_1,
                    defence_2: caller.defence_2,
                    middle: caller.middle,
                    offence_1: caller.offence_1,
                    offence_2: caller.offence_2,
                    experienced,
                },
            ),
        }
    }

    /// Computes the digest of a challenge from the public values that it
    /// depends on: see [`battle_digest`].
    pub fn digest_of_challenge(
        caller: &UserAccount,
        caller_key: &[u8; 32],
        opponent: &UserAccount,
    ) -> (digest: Vec<u8>)
        ensures
            digest@ == battle_digest(*caller, *caller_key, *opponent),
    {
        let mut message: Vec<u8> = Vec::new();
        write_bytes(&mut message, caller_key.as_slice());
        write_bytes(&mut message, caller.user_name.as_slice());
        write_bytes(&mut message, opponent.user_name.as_slice());
        assert(message@ =~= caller_key@ + caller.user_name@ + opponent.user_name@);
        let hash: [u8; 32] = keccak_digest(message.as_slice());
        digest_text(&hash)
    }

    /// Settles a challenge between the caller's team and an opponent's. The
    /// digest is that of [`battle_digest`]; with it, the result is that of
    /// [`challenge_outcome`].
    pub fn challenge(
        caller: &UserAccount,
        caller_key: &[u8; 32],
        caller_holder: &[u8; 32],
        opponent: &UserAccount,
        opponent_holder: &[u8; 32],
        program: &[u8; 32],
    ) -> (settled: Result<UserAccount, GameError>)
        ensures
            settled == challenge_outcome(
                *caller,
                *caller_key,
                *caller_holder,
                *opponent,
                *opponent_holder,
                *program,
                battle_digest(*caller, *caller_key, *opponent),
            ),
            settled matches Ok(after) ==> {
                &&& after == (UserAccount { experienced: after.experienced, ..*caller })
                &&& after.experienced >= caller.experienced
                &&& after.experienced > caller.experienced ==> caller_prevails(
                    caller.team_power,
                    opponent.team_power,
                    battle_digest(*caller, *caller_key, *opponent),
                )
            },
    {
        let digest: Vec<u8> = Self::digest_of_challenge(caller, caller_key, opponent);
        Self::resolve_challenge(
            caller,
            caller_key,
            caller_holder,
            opponent,
            opponent_holder,
            program,
            digest.as_slice(),
        )
    }
}

} // verus!
