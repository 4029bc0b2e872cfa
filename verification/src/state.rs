//! The entity model: the two persisted records, the transient payloads of the
//! operations, and the invariants that tie their fields together.

use vstd::prelude::*;

verus! {

/// Width in bytes of the stored display name.
pub const NAME_WIDTH: usize = 10;

/// The byte that fills a stored display name up to its fixed width (`X`).
pub const NAME_FILLER: u8 = 0x58;

/// The identity that stands for "nobody": thirty-two zero bytes.
pub open spec fn unset_address() -> [u8; 32] {
    vstd::array::spec_array_fill_for_copy_type::<u8, 32>(0u8)
}

/// The class tag of a team.
#[derive(Clone, Copy, Debug, PartialEq, Eq, Structural)]
pub enum TeamClass {
    /// No team has been set yet.
    Unset,
    /// The class every assembled team carries.
    Standard,
}

/// One registered manager.
#[derive(Clone, Copy, Debug, PartialEq, Eq)]
pub struct UserAccount {
    /// Identity of the manager.
    pub user_address: [u8; 32],
    /// Display name, left-justified and filled up with [`NAME_FILLER`].
    pub user_name: [u8; 10],
    /// Number of leading bytes of `user_name` that are the name itself.
    pub user_name_length: u8,
    /// Whether a team has been set.
    pub team_is_ready: bool,
    /// Power of the team, as last computed when the team was set or a
    /// player of it upgraded.
    pub team_power: u64,
    /// Class tag of the team.
    pub team_class: TeamClass,
    /// Asset in the first defence slot, or zero.
    pub defence_1: [u8; 32],
    /// Asset in the second defence slot, or zero.
    pub defence_2: [u8; 32],
    /// Asset in the middle slot, or zero.
    pub middle: [u8; 32],
    /// Asset in the first offence slot, or zero.
    pub offence_1: [u8; 32],
    /// Asset in the second offence slot, or zero.
    pub offence_2: [u8; 32],
    /// Banked experience: earned in battles, spent on upgrades.
    pub experienced: u64,
}

/// One athlete, the record of one non-fungible asset.
#[derive(Clone, Copy, Debug, PartialEq, Eq)]
pub struct Player {
    /// Identity of the asset.
    pub nft_adress: [u8; 32],
    /// Identity of the current owner.
    pub owner: [u8; 32],
    /// Whether the player is listed for sale.
    pub for_sale: bool,
    /// Asking price of the sale listing.
    pub sale_required_price: u64,
    /// Whether the player is listed for rent.
    pub for_rent: bool,
    /// Asking price of the rent listing.
    pub rent_required_price: u64,
    /// Identity of the current renter, or zero.
    pub who_rents: [u8; 32],
    /// Whether the player is rented out.
    pub rented: bool,
    /// Length of a rental in seconds, as set by the rent listing.
    pub rented_for_time: u64,
    /// Time in seconds at which the running rental ends.
    pub rent_end_on: u64,
    /// Offence stat.
    pub offence: u64,
    /// Defence stat.
    pub defence: u64,
}

/// Payload of a registration.
#[derive(Clone, Debug, PartialEq, Eq)]
pub struct UserName {
    pub user_name: String,
}

/// Payload of a rent listing.
#[derive(Clone, Copy, Debug, PartialEq, Eq)]
pub struct RentOffer {
    pub rent_required_price: u64,
    pub rented_for_time: u64,
}

/// Payload of a sale listing.
#[derive(Clone, Copy, Debug, PartialEq, Eq)]
pub struct SellOffer {
    pub sell_required_price: u64,
}

/// Payload of an upgrade: the slot, counted from one, and the experience to
/// spend.
#[derive(Clone, Copy, Debug, PartialEq, Eq)]
pub struct UpgradePlayer {
    pub player_no: u8,
    pub exp: u64,
}

impl Player {
    /// A rented player carries no listing, and a listing that is off carries
    /// no price.
    pub open spec fn well_formed(self) -> bool {
        &&& self.rented ==> !self.for_sale && !self.for_rent
        &&& !self.for_sale ==> self.sale_required_price == 0
        &&& !self.for_rent ==> self.rent_required_price == 0
    }

    /// Whether any listing is on.
    pub open spec fn listed(self) -> bool {
        self.for_sale || self.for_rent
    }

    /// Who may field the player: the renter while it is rented, else the
    /// owner.
    pub open spec fn fielded_by(self) -> [u8; 32] {
        if self.rented {
            self.who_rents
        } else {
            self.owner
        }
    }
}

impl UserAccount {
    /// The stored name is `user_name_length` bytes long and filled up with
    /// [`NAME_FILLER`].
    pub open spec fn well_formed(self) -> bool {
        &&& self.user_name_length <= NAME_WIDTH
        &&& forall|i: int|
            self.user_name_length <= i < NAME_WIDTH ==> self.user_name[i] == NAME_FILLER
    }
}

/// Whether two identities are the same.
pub fn same_address(a: &[u8; 32], b: &[u8; 32]) -> (same: bool)
    ensures
        same == (*a == *b),
{
    let mut i: usize = 0;
    while i < 32
        invariant
            i <= 32,
            forall|j: int| 0 <= j < i ==> a[j] == b[j],
        decreases 32 - i,
    {
        if a[i] != b[i] {
            return false;
        }
        i = i + 1;
    }
    assert(*a =~= *b);
    true
}

/// Whether an identity is the one that stands for "nobody".
pub fn is_unset(a: &[u8; 32]) -> (unset: bool)
    ensures
        unset == (*a == unset_address()),
{
    let zero: [u8; 32] = [0u8; 32];
    same_address(a, &zero)
}

} // verus!
