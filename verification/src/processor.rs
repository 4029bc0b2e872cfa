//! The engine: one validated transition per operation of the game.

use vstd::prelude::*;

verus! {

/// The engine. Its operations are grouped by component: registration, assets,
/// trading, team composition, battle and progression each add theirs.
pub struct Processor;

/// The bump that, with the seed, derives the escrow authority.
pub const ESCROW_BUMP: u8 = 254;

/// What the account of the escrow authority is funded with.
pub const ESCROW_FUNDING: u64 = 1_000_000;

/// The seed of the escrow authority, `battleballs`.
pub open spec fn escrow_seed() -> Seq<u8> {
    seq![98u8, 97, 116, 116, 108, 101, 98, 97, 108, 108, 115]
}

/// The account to create for the escrow authority: the one identity that may
/// move escrowed assets without a signer of its own.
#[derive(Clone, Copy, Debug, PartialEq, Eq)]
pub struct EscrowAccount {
    /// Who funds the account.
    pub payer: [u8; 32],
    /// Where the account lies.
    pub address: [u8; 32],
    /// What it is funded with.
    pub lamports: u64,
    /// How many bytes it holds.
    pub space: u64,
    /// The program that holds it.
    pub owner: [u8; 32],
}

impl Processor {
    /// The seed of the escrow authority.
    pub fn seed_of_escrow() -> (seed: [u8; 11])
        ensures
            seed@ == escrow_seed(),
    {
        let seed: [u8; 11] = [98, 97, 116, 116, 108, 101, 98, 97, 108, 108, 115];
        assert(seed@ =~= escrow_seed());
        seed
    }

    /// Describes the account of the escrow authority: empty, funded with
    /// [`ESCROW_FUNDING`] by the payer, and held by the program.
    pub fn create_pda(payer: &[u8; 32], address: &[u8; 32], program: &[u8; 32]) -> (account:
        EscrowAccount)
        ensures
            account == (EscrowAccount {
                payer: *payer,
                address: *address,
                lamports: ESCROW_FUNDING,
                space: 0,
                owner: *program,
            }),
    {
        EscrowAccount {
            payer: *payer,
            address: *address,
            lamports: ESCROW_FUNDING,
            space: 0,
            owner: *program,
        }
    }
}

} // verus!
