//! Trading: the listing, purchase, rental and reclamation of a player.
//!
//! Each operation takes the player's record as the ledger holds it and hands
//! back the record to write, or the reason for which nothing is written.
//! Prices are settled between two balances, which come out together with the
//! record.

use vstd::prelude::*;
use crate::asset::possession_shown;
use crate::error::GameError;
use crate::processor::Processor;
use crate::state::{is_unset, same_address, unset_address, Player, RentOffer, SellOffer};

verus! {

impl Player {
    /// The player with no listing and no rental: both flags of listing off,
    /// not rented, and every price and time of a listing or rental at zero.
    pub open spec fn at_rest(self) -> Player {
        Player {
            for_sale: false,
            sale_required_price: 0,
            for_rent: false,
            rent_required_price: 0,
            rented: false,
            rented_for_time: 0,
            rent_end_on: 0,
            ..self
        }
    }

    /// The player listed for sale at `price`, and for nothing else.
    pub open spec fn on_sale(self, price: u64) -> Player {
        Player { for_sale: true, sale_required_price: price, ..self.at_rest() }
    }

    /// The player listed for rent at `price` for `duration` seconds, and for
    /// nothing else.
    pub open spec fn on_offer(self, price: u64, duration: u64) -> Player {
        Player {
            for_rent: true,
            rent_required_price: price,
            rented_for_time: duration,
            ..self.at_rest()
        }
    }

    /// The player in the hands of `buyer`, at rest.
    pub open spec fn bought_by(self, buyer: [u8; 32]) -> Player {
        Player { owner: buyer, ..self.at_rest() }
    }

    /// The player rented to `renter` until `until`, for the duration that its
    /// listing set; the listings are off.
    pub open spec fn rented_to(self, renter: [u8; 32], until: u64) -> Player {
        Player {
            who_rents: renter,
            rented: true,
            rented_for_time: self.rented_for_time,
            rent_end_on: until,
            ..self.at_rest()
        }
    }

    /// The player back with its owner: at rest, with no renter.
    pub open spec fn handed_back(self) -> Player {
        Player { who_rents: unset_address(), ..self.at_rest() }
    }

    /// The player in the hands of `holder`, at rest and with no renter.
    pub open spec fn claimed_by(self, holder: [u8; 32]) -> Player {
        Player { owner: holder, ..self.handed_back() }
    }

    /// The player with its rent listing cleared: flag off, price and duration
    /// at zero. Nothing else changes, so a player whose rent listing is
    /// clear already stays as it is.
    pub open spec fn without_rent_listing(self) -> Player {
        Player { for_rent: false, rent_required_price: 0, rented_for_time: 0, ..self }
    }
}

/// A record to write together with the two balances of a settled price.
#[derive(Clone, Copy, Debug, PartialEq, Eq)]
pub struct Trade {
    /// The player's record after the trade.
    pub player: Player,
    /// Balance of the paying account after the price has left it.
    pub payer_balance: u64,
    /// Balance of the owner's account after the price has reached it.
    pub payee_balance: u64,
}

/// An order to the escrow, which holds the asset of a player while it is
/// listed for sale: the one unit goes to a holding account of `asset_to`, and
/// the emptied holding account of the escrow is closed in favour of
/// `balance_to`.
#[derive(Clone, Copy, Debug, PartialEq, Eq)]
pub struct EscrowRelease {
    /// Who receives the asset.
    pub asset_to: [u8; 32],
    /// Who receives the balance of the closed holding account.
    pub balance_to: [u8; 32],
}

/// What a purchase writes and orders: the trade, and the release of the
/// asset to the buyer.
#[derive(Clone, Copy, Debug, PartialEq, Eq)]
pub struct Purchase {
    /// The record and the balances.
    pub trade: Trade,
    /// The order to the escrow.
    pub release: EscrowRelease,
}

/// What the withdrawal of a sale listing writes and orders: the record, and
/// the release of the asset back to the owner.
#[derive(Clone, Copy, Debug, PartialEq, Eq)]
pub struct Withdrawal {
    /// The player's record, at rest.
    pub player: Player,
    /// The order to the escrow.
    pub release: EscrowRelease,
}

/// Which listing opens a player to a rental.
///
/// The rules are open on this point. Read one way, a rental goes by the rent
/// listing: the player must be listed for rent, and the payer must hold the
/// rent price. Read the other way, it goes by the sale listing: the player
/// must be listed for sale, and the payer must hold the sale price. Under
/// both the price that changes hands is the rent price. The engine takes no
/// side: the caller says which reading is in force.
#[derive(Clone, Copy, Debug, PartialEq, Eq, Structural)]
pub enum RentalBasis {
    /// A rental goes by the rent listing.
    RentListing,
    /// A rental goes by the sale listing.
    SaleListing,
}

impl RentalBasis {
    /// Whether the listing that this basis names is on.
    pub open spec fn open_for(self, player: Player) -> bool {
        match self {
            RentalBasis::RentListing => player.for_rent,
            RentalBasis::SaleListing => player.for_sale,
        }
    }

    /// The price that the payer must hold on this basis.
    pub open spec fn price_for(self, player: Player) -> u64 {
        match self {
            RentalBasis::RentListing => player.rent_required_price,
            RentalBasis::SaleListing => player.sale_required_price,
        }
    }
}

/// Whether `caller` may change the listings of `player`: it signed the
/// transaction and owns the player.
pub open spec fn may_list(player: Player, caller: [u8; 32], signed: bool) -> bool {
    signed && caller == player.owner
}

/// What an operation on the owner's listings does: it is refused to anyone
/// but the signing owner, and while the player is rented; else the record
/// becomes `listed`.
pub open spec fn listing_outcome(player: Player, caller: [u8; 32], signed: bool, listed: Player)
    -> Result<Player, GameError> {
    if !may_list(player, caller, signed) {
        Err(GameError::Unauthorized)
    } else if player.rented {
        Err(GameError::InvalidState)
    } else {
        Ok(listed)
    }
}

/// What a purchase does.
///
/// There must be a buyer; the seller must own the player, the asset must be
/// the player's, and the program must hold the record; the payer must hold
/// the price and the player must be listed for sale. Then the buyer owns the
/// player, at rest, the price has moved from the payer to the seller, and the
/// escrow owes the asset to the buyer and the balance of its holding account
/// to the seller.
pub open spec fn buy_player_outcome(
    player: Player,
    buyer: [u8; 32],
    seller: [u8; 32],
    asset: [u8; 32],
    holder: [u8; 32],
    program: [u8; 32],
    payer_balance: u64,
    seller_balance: u64,
) -> Result<Purchase, GameError> {
    let price = player.sale_required_price;
    if buyer == unset_address() || seller != player.owner {
        Err(GameError::Unauthorized)
    } else if asset != player.nft_adress {
        Err(GameError::AssetMismatch)
    } else if holder != program {
        Err(GameError::Unauthorized)
    } else if payer_balance < price {
        Err(GameError::InsufficientFunds)
    } else if !player.for_sale {
        Err(GameError::InvalidState)
    } else if seller_balance + price > u64::MAX {
        Err(GameError::ArithmeticOverflow)
    } else {
        Ok(
            Purchase {
                trade: Trade {
                    player: player.bought_by(buyer),
                    payer_balance: (payer_balance - price) as u64,
                    payee_balance: (seller_balance + price) as u64,
                },
                release: EscrowRelease { asset_to: buyer, balance_to: seller },
            },
        )
    }
}

/// What the withdrawal of a sale listing does: it is refused to anyone but
/// the signing owner, and while the player is rented; else the player comes
/// to rest, and the escrow owes the asset and the balance of its holding
/// account to the owner.
pub open spec fn abort_sell_outcome(player: Player, caller: [u8; 32], signed: bool) -> Result<
    Withdrawal,
    GameError,
> {
    match listing_outcome(player, caller, signed, player.at_rest()) {
        Ok(rested) => Ok(
            Withdrawal {
                player: rested,
                release: EscrowRelease { asset_to: caller, balance_to: caller },
            },
        ),
        Err(e) => Err(e),
    }
}

/// What a rental does.
///
/// The lessor must own the player and the program must hold the record; the
/// payer must hold the price that the basis names, and the listing that the
/// basis names must be on; the payer must hold the rent price. Then the
/// renter has the player until `now` plus the listed duration, and the rent
/// price has moved from the payer to the lessor.
pub open spec fn rent_another_player_outcome(
    player: Player,
    renter: [u8; 32],
    lessor: [u8; 32],
    holder: [u8; 32],
    program: [u8; 32],
    payer_balance: u64,
    lessor_balance: u64,
    now: u64,
    basis: RentalBasis,
) -> Result<Trade, GameError> {
    let price = player.rent_required_price;
    if lessor != player.owner || holder != program {
        Err(GameError::Unauthorized)
    } else if payer_balance < basis.price_for(player) {
        Err(GameError::InsufficientFunds)
    } else if !basis.open_for(player) {
        Err(GameError::InvalidState)
    } else if payer_balance < price {
        Err(GameError::InsufficientFunds)
    } else if now + player.rented_for_time > u64::MAX || lessor_balance + price > u64::MAX {
        Err(GameError::ArithmeticOverflow)
    } else {
        Ok(
            Trade {
                player: player.rented_to(renter, (now + player.rented_for_time) as u64),
                payer_balance: (payer_balance - price) as u64,
                payee_balance: (lessor_balance + price) as u64,
            },
        )
    }
}

/// What the owner's reclaiming of a rented player does: it is refused to
/// anyone but the owner, and before the rental has run out; else the player
/// is handed back.
pub open spec fn claim_player_back_outcome(player: Player, caller: [u8; 32], now: u64) -> Result<
    Player,
    GameError,
> {
    if caller != player.owner {
        Err(GameError::Unauthorized)
    } else if now < player.rent_end_on {
        Err(GameError::RentNotExpired)
    } else {
        Ok(player.handed_back())
    }
}

/// What the claim of a player by the holder of its asset does: the asset
/// must be the player's, and the holding account must show that the caller
/// holds exactly one unit of it; then the caller owns the player.
pub open spec fn claim_nft_player_outcome(
    player: Player,
    caller: [u8; 32],
    asset: [u8; 32],
    holding_program: [u8; 32],
    holding: Seq<u8>,
) -> Result<Player, GameError> {
    if asset != player.nft_adress || !possession_shown(caller, asset, holding_program, holding) {
        Err(GameError::AssetMismatch)
    } else {
        Ok(player.claimed_by(caller))
    }
}

/// A rental runs its course. Take a player that its signing owner lists for
/// rent, and that is then rented at `start` on the basis of the rent
/// listing. The rental ends at `start` plus the listed duration. The owner's
/// claim is refused as not expired at any time before that, and at any other
/// time hands the player back, not rented and with no renter.
pub proof fn lemma_rental_runs_its_course(
    player: Player,
    owner: [u8; 32],
    rentoffer: RentOffer,
    renter: [u8; 32],
    program: [u8; 32],
    payer_balance: u64,
    owner_balance: u64,
    start: u64,
    now: u64,
)
    requires
        listing_outcome(
            player,
            owner,
            true,
            player.on_offer(rentoffer.rent_required_price, rentoffer.rented_for_time),
        ) is Ok,
        rent_another_player_outcome(
            player.on_offer(rentoffer.rent_required_price, rentoffer.rented_for_time),
            renter,
            owner,
            program,
            program,
            payer_balance,
            owner_balance,
            start,
            RentalBasis::RentListing,
        ) is Ok,
    ensures
        ({
            let listed = player.on_offer(rentoffer.rent_required_price, rentoffer.rented_for_time);
            let rented = rent_another_player_outcome(
                listed,
                renter,
                owner,
                program,
                program,
                payer_balance,
                owner_balance,
                start,
                RentalBasis::RentListing,
            )->Ok_0.player;
            let claimed = claim_player_back_outcome(rented, owner, now);
            &&& rented.rent_end_on == start + rentoffer.rented_for_time
            &&& now < rented.rent_end_on ==> claimed == Err::<Player, GameError>(
                GameError::RentNotExpired,
            )
            &&& now >= rented.rent_end_on ==> claimed is Ok && !claimed->Ok_0.rented
                && claimed->Ok_0.who_rents == unset_address()
        }),
{
}

/// On the basis of the sale listing no rental follows a rent listing: a
/// player that its owner has just listed for rent is not listed for sale, so
/// that whoever asks for it is turned away.
pub proof fn lemma_sale_basis_closes_rent_listing(
    player: Player,
    rentoffer: RentOffer,
    renter: [u8; 32],
    lessor: [u8; 32],
    holder: [u8; 32],
    program: [u8; 32],
    payer_balance: u64,
    lessor_balance: u64,
    now: u64,
)
    ensures
        rent_another_player_outcome(
            player.on_offer(rentoffer.rent_required_price, rentoffer.rented_for_time),
            renter,
            lessor,
            holder,
            program,
            payer_balance,
            lessor_balance,
            now,
            RentalBasis::SaleListing,
        ) is Err,
{
}

impl Processor {
    fn rest(player: &Player) -> (rested: Player)
        ensures
            rested == player.at_rest(),
    {
        Player {
            nft_adress: player.nft_adress,
            owner: player.owner,
            for_sale: false,
            sale_required_price: 0,
            for_rent: false,
            rent_required_price: 0,
            who_rents: player.who_rents,
            rented: false,
            rented_for_time: 0,
            rent_end_on: 0,
            offence: player.offence,
            defence: player.defence,
        }
    }

    fn check_listing(player: &Player, caller: &[u8; 32], caller_signed: bool) -> (checked: Result<
        (),
        GameError,
    >)
        ensures
            match checked {
                Ok(_) => may_list(*player, *caller, caller_signed) && !player.rented,
                Err(e) => listing_outcome(*player, *caller, caller_signed, *player) == Err::<
                    Player,
                    GameError,
                >(e),
            },
    {
        if !caller_signed || !same_address(caller, &player.owner) {
            Err(GameError::Unauthorized)
        } else if player.rented {
            Err(GameError::InvalidState)
        } else {
            Ok(())
        }
    }

    /// Lists a player for sale at the offered price. Only the signing owner
    /// may, and not while the player is rented. A rent listing goes off.
    pub fn sell_player(
        player: &Player,
        caller: &[u8; 32],
        caller_signed: bool,
        selloffer: &SellOffer,
    ) -> (listed: Result<Player, GameError>)
        ensures
            listed == listing_outcome(
                *player,
                *caller,
                caller_signed,
                player.on_sale(selloffer.sell_required_price),
            ),
            listed matches Ok(p) ==> p.well_formed(),
    {
        match Self::check_listing(player, caller, caller_signed) {
            Err(e) => Err(e),
            Ok(_) => {
                let mut listed: Player = Self::rest(player);
                listed.for_sale = true;
                listed.sale_required_price = selloffer.sell_required_price;
                Ok(listed)
            },
        }
    }

    /// Lists a player for rent at the offered price and duration. Only the
    /// signing owner may, and not while the player is rented. A sale listing
    /// goes off.
    pub fn rent_your_player(
        player: &Player,
        caller: &[u8; 32],
        caller_signed: bool,
        rentoffer: &RentOffer,
    ) -> (listed: Result<Player, GameError>)
        ensures
            listed == listing_outcome(
                *player,
                *caller,
                caller_signed,
                player.on_offer(rentoffer.rent_required_price, rentoffer.rented_for_time),
            ),
            listed matches Ok(p) ==> p.well_formed(),
    {
        match Self::check_listing(player, caller, caller_signed) {
            Err(e) => Err(e),
            Ok(_) => {
                let mut listed: Player = Self::rest(player);
                listed.for_rent = true;
                listed.rent_required_price = rentoffer.rent_required_price;
                listed.rented_for_time = rentoffer.rented_for_time;
                Ok(listed)
            },
        }
    }

    /// Clears the rent listing of a player. Only the signing owner may, and
    /// not while the player is rented. A player whose rent listing is clear
    /// already comes back unchanged.
    pub fn abort_rent(player: &Player, caller: &[u8; 32], caller_signed: bool) -> (cleared: Result<
        Player,
        GameError,
    >)
        ensures
            cleared == listing_outcome(
                *player,
                *caller,
                caller_signed,
                player.without_rent_listing(),
            ),
            cleared matches Ok(p) ==> {
                &&& !player.for_rent && player.rent_required_price == 0 && player.rented_for_time
                    == 0 ==> p == *player
                &&& player.well_formed() ==> p.well_formed()
            },
    {
        match Self::check_listing(player, caller, caller_signed) {
            Err(e) => Err(e),
            Ok(_) => {
                let mut cleared: Player = *player;
                cleared.for_rent = false;
                cleared.rent_required_price = 0;
                cleared.rented_for_time = 0;
                Ok(cleared)
            },
        }
    }

    /// Takes a player off the market: see [`abort_sell_outcome`]. Only the
    /// signing owner may, and not while the player is rented. The asset that
    /// the sale listing put in escrow is then due back to the owner.
    pub fn abort_sell(player: &Player, caller: &[u8; 32], caller_signed: bool) -> (cleared: Result<
        Withdrawal,
        GameError,
    >)
        ensures
            cleared == abort_sell_outcome(*player, *caller, caller_signed),
            cleared matches Ok(w) ==> w.player.well_formed(),
    {
        match Self::check_listing(player, caller, caller_signed) {
            Err(e) => Err(e),
            Ok(_) => Ok(
                Withdrawal {
                    player: Self::rest(player),
                    release: EscrowRelease { asset_to: *caller, balance_to: *caller },
                },
            ),
        }
    }

    /// Buys a listed player: see [`buy_player_outcome`]. On success the buyer
    /// owns the player, no sale listing is left, the listed price has left
    /// the payer's balance and reached the seller's, and the asset is due to
    /// the buyer.
    pub fn buy_player(
        player: &Player,
        buyer: &[u8; 32],
        seller: &[u8; 32],
        asset: &[u8; 32],
        holder: &[u8; 32],
        program: &[u8; 32],
        payer_balance: u64,
        seller_balance: u64,
    ) -> (bought: Result<Purchase, GameError>)
        ensures
            bought == buy_player_outcome(
                *player,
                *buyer,
                *seller,
                *asset,
                *holder,
                *program,
                payer_balance,
                seller_balance,
            ),
            bought matches Ok(purchase) ==> {
                &&& purchase.trade.player.owner == *buyer
                &&& !purchase.trade.player.for_sale
                &&& purchase.trade.player.sale_required_price == 0
                &&& purchase.trade.payer_balance == payer_balance - player.sale_required_price
                &&& purchase.trade.payee_balance == seller_balance + player.sale_required_price
                &&& purchase.release.asset_to == *buyer
                &&& purchase.trade.player.well_formed()
            },
    {
        let price: u64 = player.sale_required_price;
        if is_unset(buyer) || !same_address(seller, &player.owner) {
            return Err(GameError::Unauthorized);
        }
        if !same_address(asset, &player.nft_adress) {
            return Err(GameError::AssetMismatch);
        }
        if !same_address(holder, program) {
            return Err(GameError::Unauthorized);
        }
        if payer_balance < price {
            return Err(GameError::InsufficientFunds);
        }
        if !player.for_sale {
            return Err(GameError::InvalidState);
        }
        match seller_balance.checked_add(price) {
            None => Err(GameError::ArithmeticOverflow),
            Some(payee_balance) => {
                let mut bought: Player = Self::rest(player);
                bought.owner = *buyer;
                Ok(
                    Purchase {
                        trade: Trade {
                            player: bought,
                            payer_balance: payer_balance - price,
                            payee_balance,
                        },
                        release: EscrowRelease { asset_to: *buyer, balance_to: *seller },
                    },
                )
            },
        }
    }

    /// Rents a player out: see [`rent_another_player_outcome`]. On success
    /// the rental ends at `now` plus the listed duration.
    pub fn rent_another_player(
        player: &Player,
        renter: &[u8; 32],
        lessor: &[u8; 32],
        holder: &[u8; 32],
        program: &[u8; 32],
        payer_balance: u64,
        lessor_balance: u64,
        now: u64,
        basis: RentalBasis,
    ) -> (rented: Result<Trade, GameError>)
        ensures
            rented == rent_another_player_outcome(
                *player,
                *renter,
                *lessor,
                *holder,
                *program,
                payer_balance,
                lessor_balance,
                now,
                basis,
            ),
            rented matches Ok(trade) ==> {
                &&& trade.player.rented
                &&& trade.player.who_rents == *renter
                &&& trade.player.rent_end_on == now + player.rented_for_time
                &&& trade.player.well_formed()
            },
    {
        let price: u64 = player.rent_required_price;
        if !same_address(lessor, &player.owner) || !same_address(holder, program) {
            return Err(GameError::Unauthorized);
        }
        let (basis_open, basis_price): (bool, u64) = match basis {
            RentalBasis::RentListing => (player.for_rent, player.rent_required_price),
            RentalBasis::SaleListing => (player.for_sale, player.sale_required_price),
        };
        if payer_balance < basis_price {
            return Err(GameError::InsufficientFunds);
        }
        if !basis_open {
            return Err(GameError::InvalidState);
        }
        if payer_balance < price {
            return Err(GameError::InsufficientFunds);
        }
        match (now.checked_add(player.rented_for_time), lessor_balance.checked_add(price)) {
            (Some(until), Some(payee_balance)) => {
                let mut rented: Player = Self::rest(player);
                rented.who_rents = *renter;
                rented.rented = true;
                rented.rented_for_time = player.rented_for_time;
                rented.rent_end_on = until;
                Ok(Trade { player: rented, payer_balance: payer_balance - price, payee_balance })
            },
            _ => Err(GameError::ArithmeticOverflow),
        }
    }

    /// Hands a rented player back to its owner once the rental has run out:
    /// see [`claim_player_back_outcome`].
    pub fn claim_player_back(player: &Player, caller: &[u8; 32], now: u64) -> (claimed: Result<
        Player,
        GameError,
    >)
        ensures
            claimed == claim_player_back_outcome(*player, *caller, now),
            claimed matches Ok(p) ==> !p.rented && p.who_rents == unset_address()
                && p.well_formed(),
    {
        if !same_address(caller, &player.owner) {
            return Err(GameError::Unauthorized);
        }
        if now < player.rent_end_on {
            return Err(GameError::RentNotExpired);
        }
        let mut claimed: Player = Self::rest(player);
        claimed.who_rents = [0u8; 32];
        Ok(claimed)
    }

    /// Gives a player to the holder of its asset: see
    /// [`claim_nft_player_outcome`]. `holding_program` is the program that
    /// holds the holding account, and `holding` is what the account holds.
    pub fn claim_nft_player(
        player: &Player,
        caller: &[u8; 32],
        asset: &[u8; 32],
        holding_program: &[u8; 32],
        holding: &[u8],
    ) -> (claimed: Result<Player, GameError>)
        ensures
            claimed == claim_nft_player_outcome(
                *player,
                *caller,
                *asset,
                *holding_program,
                holding@,
            ),
            claimed matches Ok(p) ==> p.owner == *caller && p.well_formed(),
    {
        if !same_address(asset, &player.nft_adress) {
            return Err(GameError::AssetMismatch);
        }
        if !Self::shows_possession(caller, asset, holding_program, holding) {
            return Err(GameError::AssetMismatch);
        }
        let mut claimed: Player = Self::rest(player);
        claimed.owner = *caller;
        claimed.who_rents = [0u8; 32];
        Ok(claimed)
    }
}

} // verus!
