use direct_sales::direct_sales::{
    add_asset, buy_asset, deposit_asset, next_sale_step, step_in_range, update_price, withdraw_asset, ErrorCode,
    Inventory, SaleInstruction,
    SaleStep,
};
use direct_sales::transfer::{seed_bytes, AccountRole, SeedPrefix, SignerSeeds, Transfer, TransferProgram};

fn inv(price: u64, amount: u64) -> Inventory {
    Inventory { price, amount }
}

/// Runs an instruction to its end, every transfer going through; returns the
/// transfers made and the final step.
fn run(start: Inventory, ins: SaleInstruction) -> (Vec<Transfer>, SaleStep) {
    let mut done = Vec::new();
    let mut completed = 0u64;
    loop {
        match next_sale_step(&start, &ins, completed) {
            SaleStep::Transfer(t) => {
                done.push(t);
                completed += 1;
            }
            other => return (done, other),
        }
    }
}

fn vault_flow(ts: &[Transfer]) -> i128 {
    ts.iter()
        .map(|t| {
            let mut d = 0i128;
            if t.to == AccountRole::TokenVault {
                d += t.amount as i128;
            }
            if t.from == AccountRole::TokenVault {
                d -= t.amount as i128;
            }
            d
        })
        .sum()
}

#[test]
fn new_inventory_is_empty() {
    assert_eq!(Inventory::new(), inv(0, 0));
}

#[test]
fn deposit_moves_tokens_then_adds_and_sets_price() {
    let i = inv(5, 10);
    assert_eq!(
        deposit_asset(&i, 7, 9, 0),
        SaleStep::Transfer(Transfer {
            program: TransferProgram::Token,
            from: AccountRole::SignerTokenAccount,
            to: AccountRole::TokenVault,
            authority: AccountRole::Signer,
            signer_seeds: SignerSeeds::Unsigned,
            amount: 7,
        })
    );
    assert_eq!(deposit_asset(&i, 7, 9, 1), SaleStep::Commit(inv(9, 17)));
}

#[test]
fn deposit_into_fresh_inventory() {
    let (ts, end) = run(Inventory::new(), SaleInstruction::Deposit { amount: 50, price_per_token: 3 });
    assert_eq!(ts.len(), 1);
    assert_eq!(end, SaleStep::Commit(inv(3, 50)));
}

#[test]
fn update_price_keeps_amount() {
    assert_eq!(update_price(&inv(5, 10), 42), SaleStep::Commit(inv(42, 10)));
    assert_eq!(update_price(&inv(5, 0), 0), SaleStep::Commit(inv(0, 0)));
}

#[test]
fn update_price_last_wins() {
    let first = match update_price(&inv(5, 10), 1) {
        SaleStep::Commit(i) => i,
        _ => panic!("update_price always commits"),
    };
    assert_eq!(update_price(&first, 2), update_price(&inv(5, 10), 2));
}

#[test]
fn withdraw_returns_tokens_from_vault_signed_with_vault_seeds() {
    let i = inv(5, 10);
    assert_eq!(
        withdraw_asset(&i, 4, 0),
        SaleStep::Transfer(Transfer {
            program: TransferProgram::Token,
            from: AccountRole::TokenVault,
            to: AccountRole::SignerTokenAccount,
            authority: AccountRole::TokenVault,
            signer_seeds: SignerSeeds::MintDerived(SeedPrefix::Vault),
            amount: 4,
        })
    );
    assert_eq!(withdraw_asset(&i, 4, 1), SaleStep::Commit(inv(5, 6)));
    assert_eq!(withdraw_asset(&i, 10, 1), SaleStep::Commit(inv(5, 0)));
}

#[test]
fn withdraw_undoes_deposit() {
    let start = inv(5, 10);
    let (_, mid) = run(start, SaleInstruction::Deposit { amount: 30, price_per_token: 8 });
    let mid = match mid {
        SaleStep::Commit(i) => i,
        _ => panic!("deposit commits"),
    };
    let (_, end) = run(mid, SaleInstruction::Withdraw { amount: 30 });
    assert_eq!(end, SaleStep::Commit(inv(8, 10)));
}

#[test]
fn buy_pays_creator_then_delivers() {
    let i = inv(3, 10);
    assert_eq!(
        buy_asset(&i, 4, 100, 0),
        SaleStep::Transfer(Transfer {
            program: TransferProgram::Token,
            from: AccountRole::SignerUsdcAccount,
            to: AccountRole::CreatorUsdcAccount,
            authority: AccountRole::Signer,
            signer_seeds: SignerSeeds::Unsigned,
            amount: 12,
        })
    );
    assert_eq!(
        buy_asset(&i, 4, 100, 1),
        SaleStep::Transfer(Transfer {
            program: TransferProgram::Token,
            from: AccountRole::TokenVault,
            to: AccountRole::SignerTokenAccount,
            authority: AccountRole::TokenVault,
            signer_seeds: SignerSeeds::MintDerived(SeedPrefix::Inventory),
            amount: 4,
        })
    );
    assert_eq!(buy_asset(&i, 4, 100, 2), SaleStep::Commit(inv(3, 6)));
}

#[test]
fn buy_with_exact_balance_goes_through() {
    let (ts, end) = run(inv(3, 10), SaleInstruction::Buy { amount: 4, sender_usdc_balance: 12 });
    assert_eq!(ts.len(), 2);
    assert_eq!(end, SaleStep::Commit(inv(3, 6)));
}

#[test]
fn buy_rejects_short_usdc_balance_before_any_transfer() {
    assert_eq!(buy_asset(&inv(3, 10), 4, 11, 0), SaleStep::Reject(ErrorCode::InsufficientUSDCBalance));
    let (ts, _) = run(inv(3, 10), SaleInstruction::Buy { amount: 4, sender_usdc_balance: 11 });
    assert!(ts.is_empty());
}

#[test]
fn buy_rejects_short_inventory_after_payment() {
    let (ts, end) = run(inv(3, 2), SaleInstruction::Buy { amount: 4, sender_usdc_balance: 100 });
    assert_eq!(ts.len(), 1);
    assert_eq!(ts[0].to, AccountRole::CreatorUsdcAccount);
    assert_eq!(end, SaleStep::Reject(ErrorCode::InsufficientTokenBalance));
}

#[test]
fn buy_at_zero_price_needs_no_usdc() {
    let (ts, end) = run(inv(0, 5), SaleInstruction::Buy { amount: 5, sender_usdc_balance: 0 });
    assert_eq!(ts[0].amount, 0);
    assert_eq!(end, SaleStep::Commit(inv(0, 0)));
}

#[test]
fn vault_tracks_inventory_on_every_instruction() {
    let start = inv(7, 20);
    for ins in [
        SaleInstruction::Deposit { amount: 5, price_per_token: 1 },
        SaleInstruction::UpdatePrice { price_per_token: 11 },
        SaleInstruction::Withdraw { amount: 20 },
        SaleInstruction::Buy { amount: 3, sender_usdc_balance: 21 },
    ] {
        let (ts, end) = run(start, ins);
        match end {
            SaleStep::Commit(new) => {
                assert_eq!(vault_flow(&ts), new.amount as i128 - start.amount as i128)
            }
            other => panic!("expected a commit, got {:?}", other),
        }
    }
}

#[test]
fn error_messages() {
    assert_eq!(ErrorCode::NoCreator.message(), "No creator found");
    assert_eq!(ErrorCode::OnlyPermittedByCreator.message(), "Instruction is only permitted by Creator[1]");
    assert_eq!(ErrorCode::AssetNotFound.message(), "Can't find asset");
    assert_eq!(ErrorCode::InsufficientUSDCBalance.message(), "Insufficient usdc Balance");
    assert_eq!(ErrorCode::InsufficientTokenBalance.message(), "Insufficient token Balance");
    assert_eq!(ErrorCode::FalseUSDCAccount.message(), "USDC Account passed is not owned by creator");
}

#[test]
fn seed_prefixes_are_ascii_names() {
    assert_eq!(seed_bytes(SeedPrefix::Inventory), b"inventory".to_vec());
    assert_eq!(seed_bytes(SeedPrefix::Vault), b"vault".to_vec());
}

#[test]
fn add_asset_is_deposit() {
    let i = inv(5, 10);
    for completed in 0..3 {
        assert_eq!(add_asset(&i, 7, 9, completed), deposit_asset(&i, 7, 9, completed));
    }
}

#[test]
fn deposits_accumulate() {
    let (_, mid) = run(inv(1, 1), SaleInstruction::Deposit { amount: 2, price_per_token: 5 });
    let mid = match mid {
        SaleStep::Commit(i) => i,
        _ => panic!("deposit commits"),
    };
    let (_, end) = run(mid, SaleInstruction::Deposit { amount: 3, price_per_token: 6 });
    assert_eq!(end, SaleStep::Commit(inv(6, 6)));
}

#[test]
fn step_in_range_marks_overflow() {
    let full = inv(2, u64::MAX - 1);
    let dep = SaleInstruction::Deposit { amount: 2, price_per_token: 1 };
    assert!(step_in_range(&full, &dep, 0));
    assert!(!step_in_range(&full, &dep, 1));
    assert!(step_in_range(&full, &SaleInstruction::Deposit { amount: 1, price_per_token: 1 }, 1));
    let wd = SaleInstruction::Withdraw { amount: 3 };
    assert!(step_in_range(&inv(1, 2), &wd, 0));
    assert!(!step_in_range(&inv(1, 2), &wd, 1));
    assert!(step_in_range(&inv(1, 3), &wd, 1));
    let half = u64::MAX / 2;
    assert!(step_in_range(&inv(2, 0), &SaleInstruction::Buy { amount: half, sender_usdc_balance: 0 }, 0));
    assert!(!step_in_range(&inv(2, 0), &SaleInstruction::Buy { amount: half + 1, sender_usdc_balance: 0 }, 0));
    assert!(step_in_range(&inv(0, 0), &SaleInstruction::Buy { amount: u64::MAX, sender_usdc_balance: 0 }, 2));
    assert!(step_in_range(&inv(0, 0), &SaleInstruction::UpdatePrice { price_per_token: 3 }, 0));
}

#[test]
fn largest_purchase_that_fits() {
    let i = inv(2, u64::MAX);
    let amount = u64::MAX / 2;
    assert_eq!(
        buy_asset(&i, amount, u64::MAX, 0),
        SaleStep::Transfer(Transfer {
            program: TransferProgram::Token,
            from: AccountRole::SignerUsdcAccount,
            to: AccountRole::CreatorUsdcAccount,
            authority: AccountRole::Signer,
            signer_seeds: SignerSeeds::Unsigned,
            amount: amount * 2,
        })
    );
}
