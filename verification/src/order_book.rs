//! The sell side of an order book: a seller escrows tokens and places an ask
//! keyed by their address; a later order of the same seller replaces the
//! earlier one. A seller may take escrowed tokens back.
use vstd::prelude::*;
use crate::address::Address;
use crate::transfer::{AccountRole, SignerSeeds, Transfer, TransferProgram};

verus! {

/// An ask: `quantity` tokens at `price` each, `total` being their product.
#[derive(Clone, Copy, Debug)]
pub struct Order {
    pub price: u64,
    pub total: u64,
    pub quantity: u64,
    pub time_stamp: u64,
    pub is_open: bool,
    pub owner: Address,
}

/// The errors of the order book.
#[derive(Clone, Copy, Debug, PartialEq, Eq, Structural)]
pub enum ErrorCode {
    /// No token to stake.
    NoTokens,
    /// Order does not exist.
    Order404,
    /// Insufficient withdrawable token.
    InsufficientWithdrawableToken,
}

impl ErrorCode {
    /// The message that comes with the error.
    pub fn message(&self) -> (r: &'static str)
        ensures
            r@ == self.spec_message(),
    {
        match self {
            ErrorCode::NoTokens => "No token to stake",
            ErrorCode::Order404 => "Order does not exist",
            ErrorCode::InsufficientWithdrawableToken => "Insufficient withdrawable token",
        }
    }

    pub open spec fn spec_message(&self) -> Seq<char> {
        match self {
            ErrorCode::NoTokens => "No token to stake"@,
            ErrorCode::Order404 => "Order does not exist"@,
            ErrorCode::InsufficientWithdrawableToken => "Insufficient withdrawable token"@,
        }
    }
}

/// The asks, at most one per owner.
pub struct OrderBook {
    entries: Vec<(Address, Order)>,
}

/// Whether no two entries have the same key.
pub open spec fn keys_distinct(entries: Seq<(Address, Order)>) -> bool {
    forall|i: int, j: int|
        0 <= i < entries.len() && 0 <= j < entries.len() && i != j
            ==> (#[trigger] entries[i]).0.bytes@ != (#[trigger] entries[j]).0.bytes@
}

/// Whether some entry has key `key`.
pub open spec fn has_key(entries: Seq<(Address, Order)>, key: Seq<u8>) -> bool {
    exists|i: int| 0 <= i < entries.len() && (#[trigger] entries[i]).0.bytes@ == key
}

/// The entries taken as a map from owner bytes to order.
pub open spec fn entries_map(entries: Seq<(Address, Order)>) -> Map<Seq<u8>, Order> {
    Map::new(
        |key: Seq<u8>| has_key(entries, key),
        |key: Seq<u8>| entries[choose|i: int| 0 <= i < entries.len() && (#[trigger] entries[i]).0.bytes@ == key].1,
    )
}

/// With distinct keys, the map holds at key `entries[i].0` the order `entries[i].1`.
proof fn lemma_entry_in_map(entries: Seq<(Address, Order)>, i: int)
    requires
        keys_distinct(entries),
        0 <= i < entries.len(),
    ensures
        entries_map(entries).dom().contains(entries[i].0.bytes@),
        entries_map(entries)[entries[i].0.bytes@] == entries[i].1,
{
    let key = entries[i].0.bytes@;
    assert(has_key(entries, key));
    let j = choose|j: int| 0 <= j < entries.len() && (#[trigger] entries[j]).0.bytes@ == key;
    assert(j == i);
}

impl View for OrderBook {
    type V = Map<Seq<u8>, Order>;

    open spec fn view(&self) -> Map<Seq<u8>, Order> {
        self.as_map()
    }
}

impl OrderBook {
    #[verifier::type_invariant]
    spec fn well_formed(self) -> bool {
        keys_distinct(self.entries@)
    }

    /// The orders by owner.
    pub closed spec fn as_map(&self) -> Map<Seq<u8>, Order> {
        entries_map(self.entries@)
    }

    /// An empty book.
    pub fn new() -> (r: OrderBook)
        ensures
            r@ == Map::<Seq<u8>, Order>::empty(),
    {
        let r = OrderBook { entries: Vec::new() };
        assert(r@ =~= Map::<Seq<u8>, Order>::empty());
        r
    }

    /// The orders of the book with their owners, one entry per owner.
    pub fn to_entries(&self) -> (r: Vec<(Address, Order)>)
        ensures
            keys_distinct(r@),
            entries_map(r@) == self@,
    {
        proof { use_type_invariant(self); }
        let mut r: Vec<(Address, Order)> = Vec::new();
        let mut i: usize = 0;
        while i < self.entries.len()
            invariant
                0 <= i <= self.entries@.len(),
                r@ == self.entries@.subrange(0, i as int),
            decreases self.entries@.len() - i,
        {
            r.push(self.entries[i]);
            i = i + 1;
            assert(r@ =~= self.entries@.subrange(0, i as int));
        }
        assert(r@ =~= self.entries@);
        r
    }

    /// The index of the entry with key `owner`, if any.
    fn position(&self, owner: &Address) -> (r: Option<usize>)
        ensures
            match r {
                Some(i) => i < self.entries@.len() && self.entries@[i as int].0.bytes@ == owner.bytes@,
                None => !has_key(self.entries@, owner.bytes@),
            },
    {
        let mut i: usize = 0;
        while i < self.entries.len()
            invariant
                0 <= i <= self.entries@.len(),
                forall|j: int| 0 <= j < i ==> (#[trigger] self.entries@[j]).0.bytes@ != owner.bytes@,
            decreases self.entries@.len() - i,
        {
            if self.entries[i].0.same_as(owner) {
                return Some(i);
            }
            i = i + 1;
        }
        None
    }

    /// The order of `owner`, if the book holds one.
    pub fn get(&self, owner: &Address) -> (r: Option<Order>)
        ensures
            r == (if self@.dom().contains(owner.bytes@) { Some(self@[owner.bytes@]) } else { None::<Order> }),
    {
        proof { use_type_invariant(self); }
        match self.position(owner) {
            Some(i) => {
                proof { lemma_entry_in_map(self.entries@, i as int); }
                Some(self.entries[i].1)
            },
            None => None,
        }
    }

    /// Record `order` as the order of `owner`, replacing any earlier one.
    pub fn insert(&mut self, owner: Address, order: Order)
        ensures
            final(self)@ == old(self)@.insert(owner.bytes@, order),
    {
        proof { use_type_invariant(&*self); }
        let ghost before = self.entries@;
        let found = self.position(&owner);
        let mut entries: Vec<(Address, Order)> = Vec::new();
        std::mem::swap(&mut entries, &mut self.entries);
        match found {
            Some(i) => {
                let ghost after = before.update(i as int, (owner, order));
                assert(keys_distinct(after));
                entries.set(i, (owner, order));
                self.entries = entries;
                proof {
                    assert forall|key: Seq<u8>| #[trigger] has_key(after, key) == has_key(before, key) by {
                        if has_key(before, key) {
                            let j = choose|j: int| 0 <= j < before.len() && (#[trigger] before[j]).0.bytes@ == key;
                            assert(after[j].0.bytes@ == key);
                        }
                        if has_key(after, key) {
                            let j = choose|j: int| 0 <= j < after.len() && (#[trigger] after[j]).0.bytes@ == key;
                            assert(before[j].0.bytes@ == key);
                        }
                    }
                    assert forall|key: Seq<u8>| #[trigger] entries_map(after).dom().contains(key) implies
                        entries_map(after)[key] == entries_map(before).insert(owner.bytes@, order)[key] by {
                        let j = choose|j: int| 0 <= j < after.len() && (#[trigger] after[j]).0.bytes@ == key;
                        lemma_entry_in_map(after, j);
                        if j != i as int {
                            lemma_entry_in_map(before, j);
                        }
                    }
                    assert(entries_map(after) =~= entries_map(before).insert(owner.bytes@, order));
                }
            },
            None => {
                let ghost after = before.push((owner, order));
                assert(keys_distinct(after)) by {
                    assert forall|i: int, j: int|
                        0 <= i < after.len() && 0 <= j < after.len() && i != j
                        implies (#[trigger] after[i]).0.bytes@ != (#[trigger] after[j]).0.bytes@ by {
                        if i == before.len() as int {
                            assert(before[j] == after[j]);
                        } else if j == before.len() as int {
                            assert(before[i] == after[i]);
                        }
                    }
                }
                entries.push((owner, order));
                self.entries = entries;
                proof {
                    assert forall|key: Seq<u8>| #[trigger] has_key(after, key) == (has_key(before, key) || key == owner.bytes@) by {
                        if has_key(before, key) {
                            let j = choose|j: int| 0 <= j < before.len() && (#[trigger] before[j]).0.bytes@ == key;
                            assert(after[j].0.bytes@ == key);
                        }
                        if key == owner.bytes@ {
                            assert(after[before.len() as int].0.bytes@ == key);
                        }
                        if has_key(after, key) && key != owner.bytes@ {
                            let j = choose|j: int| 0 <= j < after.len() && (#[trigger] after[j]).0.bytes@ == key;
                            assert(before[j].0.bytes@ == key);
                        }
                    }
                    assert forall|key: Seq<u8>| #[trigger] entries_map(after).dom().contains(key) implies
                        entries_map(after)[key] == entries_map(before).insert(owner.bytes@, order)[key] by {
                        let j = choose|j: int| 0 <= j < after.len() && (#[trigger] after[j]).0.bytes@ == key;
                        lemma_entry_in_map(after, j);
                        if j != before.len() as int {
                            lemma_entry_in_map(before, j);
                        }
                    }
                    assert(entries_map(after) =~= entries_map(before).insert(owner.bytes@, order));
                }
            },
        }
    }
}

/// Where a sell order stands: not started, tokens escrowed, or escrowed with
/// the current slot read from the clock.
#[derive(Clone, Copy, Debug, PartialEq, Eq, Structural)]
pub enum SellOrderStage {
    Start,
    Escrowed,
    Clocked { slot: u64 },
}

/// The next step of an order-book instruction.
#[derive(Clone, Copy, Debug)]
pub enum OrderStep {
    /// Perform this transfer; if it fails, the instruction fails with its error.
    Transfer(Transfer),
    /// Read the current slot from the clock; if that fails, the instruction fails.
    ReadClock,
    /// Record this order in the book under its owner; the instruction succeeds.
    Place(Order),
    /// The instruction succeeds with nothing more to do.
    Done,
    /// The instruction fails with this error.
    Reject(ErrorCode),
}

/// The seller moves `quantity` tokens into the order's escrow account.
pub open spec fn escrow_transfer(quantity: u64) -> Transfer {
    Transfer {
        program: TransferProgram::Token,
        from: AccountRole::SignerTokenAccount,
        to: AccountRole::AssetAccount,
        authority: AccountRole::Signer,
        signer_seeds: SignerSeeds::Unsigned,
        amount: quantity,
    }
}

/// The escrow account, signing with its bump alone and with the token
/// program as authority, returns `quantity` tokens to the seller.
pub open spec fn release_transfer(quantity: u64) -> Transfer {
    Transfer {
        program: TransferProgram::Token,
        from: AccountRole::AssetAccount,
        to: AccountRole::SignerTokenAccount,
        authority: AccountRole::TokenProgram,
        signer_seeds: SignerSeeds::BumpOnly,
        amount: quantity,
    }
}

/// The step of placing an ask of `quantity` tokens at `price` for `owner`.
pub open spec fn sell_order_step(price: u64, quantity: u64, owner: Address, stage: SellOrderStage) -> OrderStep {
    match stage {
        SellOrderStage::Start => {
            if quantity == 0 {
                OrderStep::Reject(ErrorCode::NoTokens)
            } else {
                OrderStep::Transfer(escrow_transfer(quantity))
            }
        },
        SellOrderStage::Escrowed => OrderStep::ReadClock,
        SellOrderStage::Clocked { slot } => OrderStep::Place(Order {
            price,
            quantity,
            total: (quantity * price) as u64,
            time_stamp: slot,
            is_open: true,
            owner,
        }),
    }
}

/// Place an ask: refuse an empty one, escrow the tokens, read the clock, then
/// record an open order stamped with the slot, whose total is price times
/// quantity. The total must fit in `u64` (elsewhere the instruction aborts).
pub fn create_sell_order(price: u64, quantity: u64, owner: Address, stage: SellOrderStage) -> (r: OrderStep)
    requires
        stage is Clocked ==> quantity * price <= u64::MAX,
    ensures
        r == sell_order_step(price, quantity, owner, stage),
{
    match stage {
        SellOrderStage::Start => {
            if quantity == 0 {
                OrderStep::Reject(ErrorCode::NoTokens)
            } else {
                OrderStep::Transfer(Transfer {
                    program: TransferProgram::Token,
                    from: AccountRole::SignerTokenAccount,
                    to: AccountRole::AssetAccount,
                    authority: AccountRole::Signer,
                    signer_seeds: SignerSeeds::Unsigned,
                    amount: quantity,
                })
            }
        },
        SellOrderStage::Escrowed => OrderStep::ReadClock,
        SellOrderStage::Clocked { slot } => OrderStep::Place(Order {
            price,
            quantity,
            total: quantity * price,
            time_stamp: slot,
            is_open: true,
            owner,
        }),
    }
}

/// Where a sell order stands after its current step is done: after the
/// escrow transfer it is escrowed, after the clock read it carries `slot`.
pub open spec fn sell_order_next_stage(stage: SellOrderStage, slot: u64) -> SellOrderStage {
    match stage {
        SellOrderStage::Start => SellOrderStage::Escrowed,
        SellOrderStage::Escrowed => SellOrderStage::Clocked { slot },
        SellOrderStage::Clocked { slot: s } => SellOrderStage::Clocked { slot: s },
    }
}

/// The stage that follows `stage` once its transfer or clock read is done;
/// `slot` is the slot just read, and counts only after the clock read.
pub fn advance_sell_order(stage: SellOrderStage, slot: u64) -> (r: SellOrderStage)
    ensures
        r == sell_order_next_stage(stage, slot),
{
    match stage {
        SellOrderStage::Start => SellOrderStage::Escrowed,
        SellOrderStage::Escrowed => SellOrderStage::Clocked { slot },
        SellOrderStage::Clocked { slot: s } => SellOrderStage::Clocked { slot: s },
    }
}

/// Whether the step of placing an ask at `stage` keeps its arithmetic in
/// `u64`; where it does not, the instruction aborts.
pub fn sell_order_in_range(price: u64, quantity: u64, stage: SellOrderStage) -> (r: bool)
    ensures
        r == (stage is Clocked ==> quantity * price <= u64::MAX),
{
    match stage {
        SellOrderStage::Clocked { .. } => {
            if price == 0 {
                assert(quantity * price == 0) by (nonlinear_arith) requires price == 0;
                true
            } else {
                let r = quantity <= u64::MAX / price;
                assert(r <==> quantity * price <= u64::MAX) by (nonlinear_arith)
                    requires
                        price > 0,
                        r <==> quantity <= u64::MAX / price,
                {
                    if quantity <= u64::MAX / price {
                        assert(quantity * price <= (u64::MAX / price) * price);
                    } else {
                        assert(quantity >= u64::MAX / price + 1);
                        assert(quantity * price >= (u64::MAX / price + 1) * price);
                    }
                }
                r
            }
        },
        _ => true,
    }
}

/// The step of taking `quantity` tokens back out of escrow, once `completed`
/// transfers have gone through, where the escrow holds `asset_balance`.
pub open spec fn withdraw_sell_order_step(asset_balance: u64, quantity: u64, completed: nat) -> OrderStep {
    if completed == 0 {
        if asset_balance < quantity {
            OrderStep::Reject(ErrorCode::InsufficientWithdrawableToken)
        } else {
            OrderStep::Transfer(release_transfer(quantity))
        }
    } else {
        OrderStep::Done
    }
}

/// Take escrowed tokens back: refuse more than the escrow holds, then return
/// them to the seller. The book itself is left as it is.
pub fn withdraw_sell_order(asset_balance: u64, quantity: u64, completed: u64) -> (r: OrderStep)
    ensures
        r == withdraw_sell_order_step(asset_balance, quantity, completed as nat),
{
    if completed == 0 {
        if asset_balance < quantity {
            OrderStep::Reject(ErrorCode::InsufficientWithdrawableToken)
        } else {
            OrderStep::Transfer(Transfer {
                program: TransferProgram::Token,
                from: AccountRole::AssetAccount,
                to: AccountRole::SignerTokenAccount,
                authority: AccountRole::TokenProgram,
                signer_seeds: SignerSeeds::BumpOnly,
                amount: quantity,
            })
        }
    } else {
        OrderStep::Done
    }
}

/// Reading an owner's order right after recording it gives it back; the
/// orders of other owners are untouched; a later order of the same owner
/// replaces the earlier one.
pub proof fn lemma_book_read_after_write(
    book: Map<Seq<u8>, Order>,
    owner: Seq<u8>,
    order: Order,
    later: Order,
    other: Seq<u8>,
)
    ensures
        book.insert(owner, order).dom().contains(owner),
        book.insert(owner, order)[owner] == order,
        other != owner ==> book.insert(owner, order).dom().contains(other) == book.dom().contains(other),
        other != owner && book.dom().contains(other) ==> book.insert(owner, order)[other] == book[other],
        book.insert(owner, order).insert(owner, later) == book.insert(owner, later),
{
    assert(book.insert(owner, order).insert(owner, later) =~= book.insert(owner, later));
}

/// An ask that reaches the book is open, belongs to the seller who placed
/// it, and is worth its price times its quantity; an empty ask never gets
/// past the first step.
pub proof fn lemma_placed_order_consistent(price: u64, quantity: u64, owner: Address, slot: u64)
    requires
        quantity * price <= u64::MAX,
    ensures
        sell_order_step(price, quantity, owner, SellOrderStage::Clocked { slot }) matches OrderStep::Place(o)
            && o.is_open && o.owner == owner && o.total == o.price * o.quantity
            && o.price == price && o.quantity == quantity && o.time_stamp == slot,
        quantity == 0 <==> sell_order_step(price, quantity, owner, SellOrderStage::Start) is Reject,
{
    assert(quantity * price == price * quantity) by (nonlinear_arith);
}

/// Placing an ask, step by step: an ask for no tokens is refused with
/// `NoTokens`; any other first moves exactly `quantity` tokens from the
/// seller's token account into the escrow account, on the seller's own
/// signature; then the clock is read; then an open order of the seller is
/// placed, with the price and quantity asked, the total `price * quantity`,
/// stamped with the slot read.
pub proof fn lemma_sell_order_steps(price: u64, quantity: u64, owner: Address, slot: u64)
    requires
        quantity * price <= u64::MAX,
    ensures
        quantity == 0 ==> sell_order_step(price, quantity, owner, SellOrderStage::Start)
            == OrderStep::Reject(ErrorCode::NoTokens),
        quantity > 0 ==> (sell_order_step(price, quantity, owner, SellOrderStage::Start) matches OrderStep::Transfer(t)
            && t.program == TransferProgram::Token
            && t.from == AccountRole::SignerTokenAccount
            && t.to == AccountRole::AssetAccount
            && t.authority == AccountRole::Signer
            && t.signer_seeds == SignerSeeds::Unsigned
            && t.amount == quantity),
        sell_order_step(price, quantity, owner, SellOrderStage::Escrowed) is ReadClock,
        sell_order_step(price, quantity, owner, SellOrderStage::Clocked { slot }) matches OrderStep::Place(o)
            && o.price == price
            && o.quantity == quantity
            && o.total == price * quantity
            && o.time_stamp == slot
            && o.is_open
            && o.owner == owner,
{
    assert(quantity * price == price * quantity) by (nonlinear_arith);
}

/// A placed ask moves through its stages in order: escrow, then clock, then
/// the slot read stays with it.
pub proof fn lemma_sell_order_stages(slot: u64, later: u64)
    ensures
        sell_order_next_stage(SellOrderStage::Start, slot) == SellOrderStage::Escrowed,
        sell_order_next_stage(SellOrderStage::Escrowed, slot) == (SellOrderStage::Clocked { slot }),
        sell_order_next_stage(SellOrderStage::Clocked { slot }, later) == (SellOrderStage::Clocked { slot }),
{
}

/// Taking escrowed tokens back: more than the escrow holds is refused with
/// `InsufficientWithdrawableToken`; otherwise the one transfer moves exactly
/// the quantity asked, never more than the escrow holds, from the escrow
/// account back to the seller's token account (the token program as
/// authority, signed with the escrow's bump); after it the instruction is
/// done.
pub proof fn lemma_withdraw_sell_order_steps(asset_balance: u64, quantity: u64, completed: nat)
    ensures
        (completed == 0 && asset_balance < quantity) ==> withdraw_sell_order_step(asset_balance, quantity, completed)
            == OrderStep::Reject(ErrorCode::InsufficientWithdrawableToken),
        (completed == 0 && asset_balance >= quantity) ==> (withdraw_sell_order_step(asset_balance, quantity, completed)
            matches OrderStep::Transfer(t)
            && t.program == TransferProgram::Token
            && t.from == AccountRole::AssetAccount
            && t.to == AccountRole::SignerTokenAccount
            && t.authority == AccountRole::TokenProgram
            && t.signer_seeds == SignerSeeds::BumpOnly
            && t.amount == quantity
            && t.amount <= asset_balance),
        completed >= 1 ==> withdraw_sell_order_step(asset_balance, quantity, completed) is Done,
{
}

/// The messages of the order book's errors.
pub proof fn lemma_order_book_error_messages()
    ensures
        ErrorCode::NoTokens.spec_message() == "No token to stake"@,
        ErrorCode::Order404.spec_message() == "Order does not exist"@,
        ErrorCode::InsufficientWithdrawableToken.spec_message() == "Insufficient withdrawable token"@,
{
}

} // verus!
