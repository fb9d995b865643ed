//! Bids: a bidder pays a fixed sum of lamports into the bid vault, and a bid
//! for a fixed size and price is appended to the bid list.
use vstd::prelude::*;
use crate::address::Address;
use crate::transfer::{AccountRole, SignerSeeds, Transfer, TransferProgram};
use anchor_lang::prelude::Pubkey;

verus! {

/// A bid: `size` units at `price` each, `total` being their product.
#[derive(Clone, Copy, Debug)]
pub struct Order {
    pub size: u64,
    pub price: u64,
    pub total: u64,
    pub asset: Address,
    pub owner: Address,
}

/// The bids, in the order they were placed.
pub struct OrderBook {
    pub orders: Vec<Order>,
}

/// The lamports a bidder pays into the bid vault.
pub const BID_DEPOSIT: u64 = 100;
/// The size of a placed bid.
pub const BID_SIZE: u64 = 2;
/// The price of a placed bid.
pub const BID_PRICE: u64 = 120;

/// The next step of placing a bid.
#[derive(Clone, Copy, Debug)]
pub enum BidStep {
    /// Perform this transfer; if it fails, the instruction fails with its error.
    Transfer(Transfer),
    /// Append this bid to the bid list; the instruction succeeds.
    Record(Order),
}

/// Whether an address has the shape of a key from `Pubkey::new_unique`: a
/// non-zero counter in its first eight bytes, zeros in the other 24.
pub open spec fn is_counter_key(a: Address) -> bool {
    &&& a.bytes@.subrange(0, 8) != Seq::new(8, |i: int| 0u8)
    &&& forall|i: int| 8 <= i < 32 ==> a.bytes@[i] == 0u8
}

/// Two fresh addresses from two calls of `Pubkey::new_unique`
/// (solana-program). Each call takes the next value of a process-wide
/// atomic counter that starts at 1 and writes it big-endian into the first
/// eight bytes, the rest being zero. So each key has a non-zero counter
/// (the counter would come back to zero only after 2^64 calls) and the two
/// keys differ. Which counter values come back depends on the calls made
/// before, and is not stated.
#[verifier::external_body]
fn new_unique_address_pair() -> (r: (Address, Address))
    ensures
        is_counter_key(r.0),
        is_counter_key(r.1),
        r.0.bytes@ != r.1.bytes@,
{
    let first = Pubkey::new_unique();
    let second = Pubkey::new_unique();
    (Address { bytes: first.to_bytes() }, Address { bytes: second.to_bytes() })
}

/// The bidder pays the bid deposit into the bid vault through the system program.
pub open spec fn bid_deposit_transfer() -> Transfer {
    Transfer {
        program: TransferProgram::System,
        from: AccountRole::Signer,
        to: AccountRole::AssetVault,
        authority: AccountRole::Signer,
        signer_seeds: SignerSeeds::Unsigned,
        amount: BID_DEPOSIT,
    }
}

/// Place a bid: pay the deposit, then record a bid of size 2 at 120 (total
/// 240) under a fresh asset address and a fresh owner address: two distinct
/// keys, each with a non-zero counter in its first eight bytes and zeros after.
pub fn place_bid(completed: u64) -> (r: BidStep)
    ensures
        completed == 0 ==> r == BidStep::Transfer(bid_deposit_transfer()),
        completed >= 1 ==> (r matches BidStep::Record(o) && o.size == BID_SIZE && o.price == BID_PRICE
            && o.total == BID_SIZE * BID_PRICE
            && is_counter_key(o.asset) && is_counter_key(o.owner)
            && o.asset.bytes@ != o.owner.bytes@),
{
    if completed == 0 {
        BidStep::Transfer(Transfer {
            program: TransferProgram::System,
            from: AccountRole::Signer,
            to: AccountRole::AssetVault,
            authority: AccountRole::Signer,
            signer_seeds: SignerSeeds::Unsigned,
            amount: BID_DEPOSIT,
        })
    } else {
        let (asset, owner) = new_unique_address_pair();
        BidStep::Record(Order { size: BID_SIZE, price: BID_PRICE, total: BID_SIZE * BID_PRICE, asset, owner })
    }
}

impl OrderBook {
    /// An empty bid list.
    pub fn new() -> (r: OrderBook)
        ensures
            r.orders@ == Seq::<Order>::empty(),
    {
        OrderBook { orders: Vec::new() }
    }

    /// Append a bid; the earlier bids stay in place.
    pub fn record(&mut self, order: Order)
        ensures
            final(self).orders@ == old(self).orders@.push(order),
    {
        self.orders.push(order);
    }
}

/// The bid deposit is 100 lamports, paid by the bidder on their own
/// signature into the bid vault through the system program.
pub proof fn lemma_bid_deposit()
    ensures
        bid_deposit_transfer().program == TransferProgram::System,
        bid_deposit_transfer().from == AccountRole::Signer,
        bid_deposit_transfer().to == AccountRole::AssetVault,
        bid_deposit_transfer().authority == AccountRole::Signer,
        bid_deposit_transfer().signer_seeds == SignerSeeds::Unsigned,
        bid_deposit_transfer().amount == 100,
        BID_SIZE == 2 && BID_PRICE == 120,
{
}

} // verus!
