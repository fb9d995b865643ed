//! The direct-sales desk: a creator deposits listed tokens into a vault at a
//! price in USDC per token, may change the price or withdraw tokens, and
//! buyers pay the creator in USDC and receive tokens from the vault.
//!
//! Each instruction runs as a sequence of steps: the transfers it makes, one
//! at a time, and then either the new inventory to store or a rejection. The
//! step functions below say which step comes after a given number of
//! transfers has gone through; the caller performs each transfer and stops at
//! the first one that fails.
use vstd::prelude::*;
use crate::transfer::{AccountRole, SeedPrefix, SignerSeeds, Transfer, TransferProgram, vault_delta};

verus! {

/// What the desk knows of one listed mint: its price per token and the
/// number of tokens it holds for sale.
#[derive(Clone, Copy, Debug, PartialEq, Eq, Structural)]
pub struct Inventory {
    pub price: u64,
    pub amount: u64,
}

/// The errors of the direct-sales desk.
#[derive(Clone, Copy, Debug, PartialEq, Eq, Structural)]
pub enum ErrorCode {
    /// No creator found.
    NoCreator,
    /// Instruction is only permitted by Creator[1].
    OnlyPermittedByCreator,
    /// Can't find asset.
    AssetNotFound,
    /// Insufficient usdc Balance.
    InsufficientUSDCBalance,
    /// Insufficient token Balance.
    InsufficientTokenBalance,
    /// USDC Account passed is not owned by creator.
    FalseUSDCAccount,
}

impl ErrorCode {
    /// The message that comes with the error.
    pub fn message(&self) -> (r: &'static str)
        ensures
            r@ == self.spec_message(),
    {
        match self {
            ErrorCode::NoCreator => "No creator found",
            ErrorCode::OnlyPermittedByCreator => "Instruction is only permitted by Creator[1]",
            ErrorCode::AssetNotFound => "Can't find asset",
            ErrorCode::InsufficientUSDCBalance => "Insufficient usdc Balance",
            ErrorCode::InsufficientTokenBalance => "Insufficient token Balance",
            ErrorCode::FalseUSDCAccount => "USDC Account passed is not owned by creator",
        }
    }

    pub open spec fn spec_message(&self) -> Seq<char> {
        match self {
            ErrorCode::NoCreator => "No creator found"@,
            ErrorCode::OnlyPermittedByCreator => "Instruction is only permitted by Creator[1]"@,
            ErrorCode::AssetNotFound => "Can't find asset"@,
            ErrorCode::InsufficientUSDCBalance => "Insufficient usdc Balance"@,
            ErrorCode::InsufficientTokenBalance => "Insufficient token Balance"@,
            ErrorCode::FalseUSDCAccount => "USDC Account passed is not owned by creator"@,
        }
    }
}

/// The instructions of the desk, with the arguments they take and, for a
/// purchase, the buyer's USDC balance read when the instruction starts.
#[derive(Clone, Copy, Debug, PartialEq, Eq, Structural)]
pub enum SaleInstruction {
    Deposit { amount: u64, price_per_token: u64 },
    UpdatePrice { price_per_token: u64 },
    Withdraw { amount: u64 },
    Buy { amount: u64, sender_usdc_balance: u64 },
}

/// The next step of an instruction.
#[derive(Clone, Copy, Debug, PartialEq, Eq, Structural)]
pub enum SaleStep {
    /// Perform this transfer; if it fails, the instruction fails with its error.
    Transfer(Transfer),
    /// Store this inventory; the instruction succeeds.
    Commit(Inventory),
    /// The instruction fails with this error.
    Reject(ErrorCode),
}

impl Inventory {
    /// A freshly created inventory account: no price, no tokens.
    pub fn new() -> (r: Inventory)
        ensures
            r == (Inventory { price: 0, amount: 0 }),
    {
        Inventory { price: 0, amount: 0 }
    }
}

/// The signer moves `amount` listed tokens into the vault.
pub open spec fn deposit_transfer(amount: u64) -> Transfer {
    Transfer {
        program: TransferProgram::Token,
        from: AccountRole::SignerTokenAccount,
        to: AccountRole::TokenVault,
        authority: AccountRole::Signer,
        signer_seeds: SignerSeeds::Unsigned,
        amount,
    }
}

/// The vault, signing with the `vault` seeds, moves `amount` listed tokens to the signer.
pub open spec fn withdraw_transfer(amount: u64) -> Transfer {
    Transfer {
        program: TransferProgram::Token,
        from: AccountRole::TokenVault,
        to: AccountRole::SignerTokenAccount,
        authority: AccountRole::TokenVault,
        signer_seeds: SignerSeeds::MintDerived(SeedPrefix::Vault),
        amount,
    }
}

/// The buyer pays `total` USDC to the creator.
pub open spec fn payment_transfer(total: u64) -> Transfer {
    Transfer {
        program: TransferProgram::Token,
        from: AccountRole::SignerUsdcAccount,
        to: AccountRole::CreatorUsdcAccount,
        authority: AccountRole::Signer,
        signer_seeds: SignerSeeds::Unsigned,
        amount: total,
    }
}

/// The vault, signing with the `inventory` seeds, hands `amount` listed tokens to the buyer.
pub open spec fn delivery_transfer(amount: u64) -> Transfer {
    Transfer {
        program: TransferProgram::Token,
        from: AccountRole::TokenVault,
        to: AccountRole::SignerTokenAccount,
        authority: AccountRole::TokenVault,
        signer_seeds: SignerSeeds::MintDerived(SeedPrefix::Inventory),
        amount,
    }
}

/// The step of instruction `ins` on inventory `inv` once `completed`
/// transfers have gone through.
pub open spec fn sale_step(inv: Inventory, ins: SaleInstruction, completed: nat) -> SaleStep {
    match ins {
        SaleInstruction::Deposit { amount, price_per_token } => {
            if completed == 0 {
                SaleStep::Transfer(deposit_transfer(amount))
            } else {
                SaleStep::Commit(Inventory { price: price_per_token, amount: (inv.amount + amount) as u64 })
            }
        },
        SaleInstruction::UpdatePrice { price_per_token } => {
            SaleStep::Commit(Inventory { price: price_per_token, amount: inv.amount })
        },
        SaleInstruction::Withdraw { amount } => {
            if completed == 0 {
                SaleStep::Transfer(withdraw_transfer(amount))
            } else {
                SaleStep::Commit(Inventory { price: inv.price, amount: (inv.amount - amount) as u64 })
            }
        },
        SaleInstruction::Buy { amount, sender_usdc_balance } => {
            let total = amount * inv.price;
            if completed == 0 {
                if sender_usdc_balance < total {
                    SaleStep::Reject(ErrorCode::InsufficientUSDCBalance)
                } else {
                    SaleStep::Transfer(payment_transfer(total as u64))
                }
            } else if inv.amount < amount {
                SaleStep::Reject(ErrorCode::InsufficientTokenBalance)
            } else if completed == 1 {
                SaleStep::Transfer(delivery_transfer(amount))
            } else {
                SaleStep::Commit(Inventory { price: inv.price, amount: (inv.amount - amount) as u64 })
            }
        },
    }
}

/// The arithmetic of the step stays in `u64`. Where it would not, the
/// instruction aborts on overflow: a deposit that would push the count past
/// `u64::MAX`, a withdrawal of more than the count, a purchase whose price
/// times amount exceeds `u64::MAX`.
pub open spec fn sale_step_in_range(inv: Inventory, ins: SaleInstruction, completed: nat) -> bool {
    match ins {
        SaleInstruction::Deposit { amount, .. } => completed >= 1 ==> inv.amount + amount <= u64::MAX,
        SaleInstruction::UpdatePrice { .. } => true,
        SaleInstruction::Withdraw { amount } => completed >= 1 ==> amount <= inv.amount,
        SaleInstruction::Buy { amount, .. } => amount * inv.price <= u64::MAX,
    }
}

/// Whether the step of `instruction` after `completed` transfers keeps its
/// arithmetic in `u64`; where it does not, the instruction aborts.
pub fn step_in_range(inventory: &Inventory, instruction: &SaleInstruction, completed: u64) -> (r: bool)
    ensures
        r == sale_step_in_range(*inventory, *instruction, completed as nat),
{
    match *instruction {
        SaleInstruction::Deposit { amount, .. } => completed == 0 || inventory.amount <= u64::MAX - amount,
        SaleInstruction::UpdatePrice { .. } => true,
        SaleInstruction::Withdraw { amount } => completed == 0 || amount <= inventory.amount,
        SaleInstruction::Buy { amount, .. } => {
            let price = inventory.price;
            if price == 0 {
                assert(amount * price == 0) by (nonlinear_arith) requires price == 0;
                true
            } else {
                let r = amount <= u64::MAX / price;
                assert(r <==> amount * price <= u64::MAX) by (nonlinear_arith)
                    requires
                        price > 0,
                        r <==> amount <= u64::MAX / price,
                {
                    if amount <= u64::MAX / price {
                        assert(amount * price <= (u64::MAX / price) * price);
                    } else {
                        assert(amount >= u64::MAX / price + 1);
                        assert(amount * price >= (u64::MAX / price + 1) * price);
                    }
                }
                r
            }
        },
    }
}

/// Deposit: move `amount` tokens from the signer into the vault, then add
/// them to the inventory and set the price to `price_per_token`.
pub fn deposit_asset(inventory: &Inventory, amount: u64, price_per_token: u64, completed: u64) -> (r: SaleStep)
    requires
        sale_step_in_range(*inventory, SaleInstruction::Deposit { amount, price_per_token }, completed as nat),
    ensures
        r == sale_step(*inventory, SaleInstruction::Deposit { amount, price_per_token }, completed as nat),
{
    if completed == 0 {
        SaleStep::Transfer(Transfer {
            program: TransferProgram::Token,
            from: AccountRole::SignerTokenAccount,
            to: AccountRole::TokenVault,
            authority: AccountRole::Signer,
            signer_seeds: SignerSeeds::Unsigned,
            amount,
        })
    } else {
        SaleStep::Commit(Inventory { price: price_per_token, amount: inventory.amount + amount })
    }
}

/// The step of the first form of the deposit instruction once `completed`
/// transfers have gone through: the same transfer into the vault, then the
/// same new inventory.
pub open spec fn add_step(inv: Inventory, amount: u64, price_per_token: u64, completed: nat) -> SaleStep {
    if completed == 0 {
        SaleStep::Transfer(Transfer {
            program: TransferProgram::Token,
            from: AccountRole::SignerTokenAccount,
            to: AccountRole::TokenVault,
            authority: AccountRole::Signer,
            signer_seeds: SignerSeeds::Unsigned,
            amount,
        })
    } else {
        SaleStep::Commit(Inventory { price: price_per_token, amount: (inv.amount + amount) as u64 })
    }
}

/// Whether the step of the first form of the deposit keeps its arithmetic in
/// `u64`; elsewhere it aborts.
pub open spec fn add_step_in_range(inv: Inventory, amount: u64, completed: nat) -> bool {
    completed >= 1 ==> inv.amount + amount <= u64::MAX
}

/// The first form of the deposit instruction: move `amount` tokens from the
/// signer into the vault, then add them and set the price.
pub fn add_asset(inventory: &Inventory, amount: u64, price_per_token: u64, completed: u64) -> (r: SaleStep)
    requires
        add_step_in_range(*inventory, amount, completed as nat),
    ensures
        r == add_step(*inventory, amount, price_per_token, completed as nat),
{
    if completed == 0 {
        SaleStep::Transfer(Transfer {
            program: TransferProgram::Token,
            from: AccountRole::SignerTokenAccount,
            to: AccountRole::TokenVault,
            authority: AccountRole::Signer,
            signer_seeds: SignerSeeds::Unsigned,
            amount,
        })
    } else {
        SaleStep::Commit(Inventory { price: price_per_token, amount: inventory.amount + amount })
    }
}

/// Both forms of the deposit instruction behave alike on every input: they
/// abort on the same inputs, and elsewhere make the same transfer and commit
/// the same inventory at every step.
pub proof fn lemma_add_is_deposit(inv: Inventory, amount: u64, price_per_token: u64, completed: nat)
    ensures
        add_step_in_range(inv, amount, completed)
            == sale_step_in_range(inv, SaleInstruction::Deposit { amount, price_per_token }, completed),
        add_step(inv, amount, price_per_token, completed)
            == sale_step(inv, SaleInstruction::Deposit { amount, price_per_token }, completed),
{
}

/// Set the price per token; the tokens held stay as they are.
pub fn update_price(inventory: &Inventory, price_per_token: u64) -> (r: SaleStep)
    ensures
        r == sale_step(*inventory, SaleInstruction::UpdatePrice { price_per_token }, 0),
{
    SaleStep::Commit(Inventory { price: price_per_token, amount: inventory.amount })
}

/// Withdraw: the vault returns `amount` tokens to the signer, then the
/// inventory drops by `amount`.
pub fn withdraw_asset(inventory: &Inventory, amount: u64, completed: u64) -> (r: SaleStep)
    requires
        sale_step_in_range(*inventory, SaleInstruction::Withdraw { amount }, completed as nat),
    ensures
        r == sale_step(*inventory, SaleInstruction::Withdraw { amount }, completed as nat),
{
    if completed == 0 {
        SaleStep::Transfer(Transfer {
            program: TransferProgram::Token,
            from: AccountRole::TokenVault,
            to: AccountRole::SignerTokenAccount,
            authority: AccountRole::TokenVault,
            signer_seeds: SignerSeeds::MintDerived(SeedPrefix::Vault),
            amount,
        })
    } else {
        SaleStep::Commit(Inventory { price: inventory.price, amount: inventory.amount - amount })
    }
}

/// Buy `amount` tokens at the inventory's price: refuse a buyer whose USDC
/// balance is below the total, take the payment, refuse if the inventory
/// holds fewer tokens than asked, deliver the tokens, then lower the count.
/// A shortage of tokens is reported as `InsufficientTokenBalance`, and the
/// vault signs the delivery with the `inventory` seeds
/// (`[b"inventory", mint, vault bump]`), not with the `vault` seeds that
/// derive its address; whether the token program accepts that signature is
/// up to the token program.
pub fn buy_asset(inventory: &Inventory, amount: u64, sender_usdc_balance: u64, completed: u64) -> (r: SaleStep)
    requires
        sale_step_in_range(*inventory, SaleInstruction::Buy { amount, sender_usdc_balance }, completed as nat),
    ensures
        r == sale_step(*inventory, SaleInstruction::Buy { amount, sender_usdc_balance }, completed as nat),
{
    let total = amount * inventory.price;
    if completed == 0 {
        if sender_usdc_balance < total {
            SaleStep::Reject(ErrorCode::InsufficientUSDCBalance)
        } else {
            SaleStep::Transfer(Transfer {
                program: TransferProgram::Token,
                from: AccountRole::SignerUsdcAccount,
                to: AccountRole::CreatorUsdcAccount,
                authority: AccountRole::Signer,
                signer_seeds: SignerSeeds::Unsigned,
                amount: total,
            })
        }
    } else if inventory.amount < amount {
        SaleStep::Reject(ErrorCode::InsufficientTokenBalance)
    } else if completed == 1 {
        SaleStep::Transfer(Transfer {
            program: TransferProgram::Token,
            from: AccountRole::TokenVault,
            to: AccountRole::SignerTokenAccount,
            authority: AccountRole::TokenVault,
            signer_seeds: SignerSeeds::MintDerived(SeedPrefix::Inventory),
            amount,
        })
    } else {
        SaleStep::Commit(Inventory { price: inventory.price, amount: inventory.amount - amount })
    }
}

/// The step of any instruction of the desk.
pub fn next_sale_step(inventory: &Inventory, instruction: &SaleInstruction, completed: u64) -> (r: SaleStep)
    requires
        sale_step_in_range(*inventory, *instruction, completed as nat),
    ensures
        r == sale_step(*inventory, *instruction, completed as nat),
{
    match *instruction {
        SaleInstruction::Deposit { amount, price_per_token } => deposit_asset(inventory, amount, price_per_token, completed),
        SaleInstruction::UpdatePrice { price_per_token } => update_price(inventory, price_per_token),
        SaleInstruction::Withdraw { amount } => withdraw_asset(inventory, amount, completed),
        SaleInstruction::Buy { amount, sender_usdc_balance } => buy_asset(inventory, amount, sender_usdc_balance, completed),
    }
}

/// Whether every step of `ins` before step `k` is a transfer, so that a run in
/// which all those transfers go through arrives at step `k`.
pub open spec fn reaches_step(inv: Inventory, ins: SaleInstruction, k: nat) -> bool {
    forall|j: nat| j < k ==> (#[trigger] sale_step(inv, ins, j)) is Transfer
}

/// The net number of listed tokens that the transfers of steps `0..k` move
/// into the vault.
pub open spec fn vault_flow(inv: Inventory, ins: SaleInstruction, k: nat) -> int
    decreases k,
{
    if k == 0 {
        0
    } else {
        vault_flow(inv, ins, (k - 1) as nat) + match sale_step(inv, ins, (k - 1) as nat) {
            SaleStep::Transfer(t) => vault_delta(t),
            _ => 0,
        }
    }
}

/// The inventory count follows the vault: when an instruction commits, the
/// transfers it made moved exactly the difference between the new and the old
/// count into the vault (out of it, where negative).
pub proof fn lemma_vault_tracks_inventory(inv: Inventory, ins: SaleInstruction, k: nat)
    requires
        reaches_step(inv, ins, k),
        sale_step_in_range(inv, ins, k),
        sale_step(inv, ins, k) is Commit,
    ensures
        vault_flow(inv, ins, k) == (sale_step(inv, ins, k)->Commit_0).amount - inv.amount,
{
    match ins {
        SaleInstruction::Deposit { .. } => {
            if k >= 2 {
                assert(sale_step(inv, ins, 1) is Transfer);
            }
            assert(k == 1);
            reveal_with_fuel(vault_flow, 2);
        },
        SaleInstruction::UpdatePrice { .. } => {
            assert(k == 0);
        },
        SaleInstruction::Withdraw { .. } => {
            if k >= 2 {
                assert(sale_step(inv, ins, 1) is Transfer);
            }
            assert(k == 1);
            reveal_with_fuel(vault_flow, 2);
        },
        SaleInstruction::Buy { .. } => {
            if k >= 3 {
                assert(sale_step(inv, ins, 2) is Transfer);
            }
            assert(k == 2);
            assert(sale_step(inv, ins, 0) is Transfer);
            assert(sale_step(inv, ins, 1) is Transfer);
            reveal_with_fuel(vault_flow, 3);
        },
    }
}

/// A withdrawal of what was just deposited restores the count of tokens and
/// keeps the price set by the deposit.
pub proof fn lemma_withdraw_undoes_deposit(inv: Inventory, amount: u64, price_per_token: u64)
    requires
        inv.amount + amount <= u64::MAX,
    ensures
        sale_step(inv, SaleInstruction::Deposit { amount, price_per_token }, 1) is Commit,
        ({
            let mid = sale_step(inv, SaleInstruction::Deposit { amount, price_per_token }, 1)->Commit_0;
            &&& sale_step_in_range(mid, SaleInstruction::Withdraw { amount }, 1)
            &&& sale_step(mid, SaleInstruction::Withdraw { amount }, 1)
                == SaleStep::Commit(Inventory { price: price_per_token, amount: inv.amount })
        }),
{
}

/// Two deposits add up: the count grows by both amounts and the price is the
/// one set by the later deposit.
pub proof fn lemma_deposits_accumulate(inv: Inventory, first: u64, second: u64, p1: u64, p2: u64)
    requires
        inv.amount + first + second <= u64::MAX,
    ensures
        ({
            let mid = sale_step(inv, SaleInstruction::Deposit { amount: first, price_per_token: p1 }, 1)->Commit_0;
            &&& sale_step_in_range(mid, SaleInstruction::Deposit { amount: second, price_per_token: p2 }, 1)
            &&& sale_step(mid, SaleInstruction::Deposit { amount: second, price_per_token: p2 }, 1)
                == SaleStep::Commit(Inventory { price: p2, amount: (inv.amount + first + second) as u64 })
        }),
{
}

/// Changing the price never changes the count of tokens, and the last price
/// set is the one that holds.
pub proof fn lemma_update_price_last_wins(inv: Inventory, first: u64, second: u64)
    ensures
        (sale_step(inv, SaleInstruction::UpdatePrice { price_per_token: first }, 0)->Commit_0).amount == inv.amount,
        sale_step(
            sale_step(inv, SaleInstruction::UpdatePrice { price_per_token: first }, 0)->Commit_0,
            SaleInstruction::UpdatePrice { price_per_token: second },
            0,
        ) == sale_step(inv, SaleInstruction::UpdatePrice { price_per_token: second }, 0),
{
}

/// A purchase in which both transfers go through commits exactly when the
/// buyer's USDC balance covers the total and the inventory holds the tokens
/// asked for; the creator then receives `amount * price` USDC, the buyer
/// `amount` tokens, and the count drops by `amount` at the same price.
pub proof fn lemma_buy_settles(inv: Inventory, amount: u64, sender_usdc_balance: u64)
    requires
        amount * inv.price <= u64::MAX,
    ensures
        ({
            let ins = SaleInstruction::Buy { amount, sender_usdc_balance };
            &&& (reaches_step(inv, ins, 2) && sale_step(inv, ins, 2) is Commit)
                <==> (amount * inv.price <= sender_usdc_balance && amount <= inv.amount)
            &&& (amount * inv.price <= sender_usdc_balance && amount <= inv.amount) ==> {
                &&& sale_step(inv, ins, 0) == SaleStep::Transfer(payment_transfer((amount * inv.price) as u64))
                &&& sale_step(inv, ins, 1) == SaleStep::Transfer(delivery_transfer(amount))
                &&& sale_step(inv, ins, 2)
                    == SaleStep::Commit(Inventory { price: inv.price, amount: (inv.amount - amount) as u64 })
            }
        }),
{
    let ins = SaleInstruction::Buy { amount, sender_usdc_balance };
    if amount * inv.price <= sender_usdc_balance && amount <= inv.amount {
        assert forall|j: nat| j < 2 implies (#[trigger] sale_step(inv, ins, j)) is Transfer by {
            if j == 0 {} else {}
        }
    }
    if reaches_step(inv, ins, 2) {
        assert(sale_step(inv, ins, 0) is Transfer);
        assert(sale_step(inv, ins, 1) is Transfer);
    }
}

/// A deposit never refuses. Its first step moves exactly the deposited
/// tokens from the signer's token account into the vault, on the signer's own
/// signature; once that transfer has gone through it commits the old count
/// plus the deposit, priced at the new price.
pub proof fn lemma_deposit_moves_and_adds(inv: Inventory, amount: u64, price_per_token: u64, completed: nat)
    requires
        completed >= 1 ==> inv.amount + amount <= u64::MAX,
    ensures
        !(sale_step(inv, SaleInstruction::Deposit { amount, price_per_token }, completed) is Reject),
        completed == 0 ==> (sale_step(inv, SaleInstruction::Deposit { amount, price_per_token }, completed)
            matches SaleStep::Transfer(t)
            && t.program == TransferProgram::Token
            && t.from == AccountRole::SignerTokenAccount
            && t.to == AccountRole::TokenVault
            && t.authority == AccountRole::Signer
            && t.signer_seeds == SignerSeeds::Unsigned
            && t.amount == amount),
        completed >= 1 ==> (sale_step(inv, SaleInstruction::Deposit { amount, price_per_token }, completed)
            matches SaleStep::Commit(new)
            && new.amount == inv.amount + amount
            && new.price == price_per_token),
{
}

/// A price update makes no transfer and never refuses: it commits the price
/// given, and the count of tokens as it was.
pub proof fn lemma_update_price_sets_price(inv: Inventory, price_per_token: u64, completed: nat)
    ensures
        sale_step(inv, SaleInstruction::UpdatePrice { price_per_token }, completed) matches SaleStep::Commit(new)
            && new.price == price_per_token
            && new.amount == inv.amount,
{
}

/// A withdrawal never refuses. Its first step moves exactly the tokens asked
/// for out of the vault into the signer's token account, the vault being the
/// authority and signing with the `vault` seeds from which its address is
/// derived; once that transfer has gone through it commits the count lowered
/// by the withdrawal, at the same price.
pub proof fn lemma_withdraw_moves_and_subtracts(inv: Inventory, amount: u64, completed: nat)
    requires
        completed >= 1 ==> amount <= inv.amount,
    ensures
        !(sale_step(inv, SaleInstruction::Withdraw { amount }, completed) is Reject),
        completed == 0 ==> (sale_step(inv, SaleInstruction::Withdraw { amount }, completed)
            matches SaleStep::Transfer(t)
            && t.program == TransferProgram::Token
            && t.from == AccountRole::TokenVault
            && t.to == AccountRole::SignerTokenAccount
            && t.authority == AccountRole::TokenVault
            && t.signer_seeds == SignerSeeds::MintDerived(SeedPrefix::Vault)
            && t.amount == amount),
        completed >= 1 ==> (sale_step(inv, SaleInstruction::Withdraw { amount }, completed)
            matches SaleStep::Commit(new)
            && new.amount + amount == inv.amount
            && new.price == inv.price),
{
}

/// A purchase, step by step. First: a buyer whose USDC balance is below
/// `amount * price` is refused with `InsufficientUSDCBalance`; otherwise the
/// buyer pays exactly `amount * price` USDC from their USDC account to the
/// creator's, on their own signature. Then: if the inventory holds fewer than
/// `amount` tokens the purchase is refused with `InsufficientTokenBalance`;
/// otherwise the vault, as authority and signing with the `inventory` seeds,
/// moves exactly `amount` tokens to the buyer's token account. Last, the
/// count drops by `amount` at the same price.
pub proof fn lemma_buy_steps(inv: Inventory, amount: u64, sender_usdc_balance: u64, completed: nat)
    requires
        amount * inv.price <= u64::MAX,
    ensures
        ({
            let step = sale_step(inv, SaleInstruction::Buy { amount, sender_usdc_balance }, completed);
            &&& (completed == 0 && sender_usdc_balance < amount * inv.price)
                ==> step == SaleStep::Reject(ErrorCode::InsufficientUSDCBalance)
            &&& (completed == 0 && sender_usdc_balance >= amount * inv.price) ==> (step matches SaleStep::Transfer(t)
                && t.program == TransferProgram::Token
                && t.from == AccountRole::SignerUsdcAccount
                && t.to == AccountRole::CreatorUsdcAccount
                && t.authority == AccountRole::Signer
                && t.signer_seeds == SignerSeeds::Unsigned
                && t.amount == amount * inv.price)
            &&& (completed >= 1 && inv.amount < amount)
                ==> step == SaleStep::Reject(ErrorCode::InsufficientTokenBalance)
            &&& (completed == 1 && inv.amount >= amount) ==> (step matches SaleStep::Transfer(t)
                && t.program == TransferProgram::Token
                && t.from == AccountRole::TokenVault
                && t.to == AccountRole::SignerTokenAccount
                && t.authority == AccountRole::TokenVault
                && t.signer_seeds == SignerSeeds::MintDerived(SeedPrefix::Inventory)
                && t.amount == amount)
            &&& (completed >= 2 && inv.amount >= amount) ==> (step matches SaleStep::Commit(new)
                && new.amount + amount == inv.amount
                && new.price == inv.price)
        }),
{
}

/// An instruction aborts exactly where its arithmetic would leave `u64`: a
/// deposit whose new count exceeds `u64::MAX`, a withdrawal of more than the
/// count, a purchase whose total exceeds `u64::MAX`; a price update never.
pub proof fn lemma_in_range_exactly_without_overflow(inv: Inventory, amount: u64, price: u64, balance: u64, completed: nat)
    ensures
        sale_step_in_range(inv, SaleInstruction::Deposit { amount, price_per_token: price }, completed)
            <==> (completed == 0 || inv.amount + amount <= u64::MAX),
        sale_step_in_range(inv, SaleInstruction::UpdatePrice { price_per_token: price }, completed),
        sale_step_in_range(inv, SaleInstruction::Withdraw { amount }, completed)
            <==> (completed == 0 || amount <= inv.amount),
        sale_step_in_range(inv, SaleInstruction::Buy { amount, sender_usdc_balance: balance }, completed)
            <==> amount * inv.price <= u64::MAX,
{
}

/// The messages of the desk's errors.
pub proof fn lemma_error_messages()
    ensures
        ErrorCode::NoCreator.spec_message() == "No creator found"@,
        ErrorCode::OnlyPermittedByCreator.spec_message() == "Instruction is only permitted by Creator[1]"@,
        ErrorCode::AssetNotFound.spec_message() == "Can't find asset"@,
        ErrorCode::InsufficientUSDCBalance.spec_message() == "Insufficient usdc Balance"@,
        ErrorCode::InsufficientTokenBalance.spec_message() == "Insufficient token Balance"@,
        ErrorCode::FalseUSDCAccount.spec_message() == "USDC Account passed is not owned by creator"@,
{
}

} // verus!
