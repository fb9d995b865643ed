use vstd::prelude::*;

verus! {

/// The accounts that an instruction moves value between, named by the role
/// they play in that instruction.
#[derive(Clone, Copy, Debug, PartialEq, Eq, Structural)]
pub enum AccountRole {
    /// The wallet that signs the instruction.
    Signer,
    /// The signer's token account for the listed mint.
    SignerTokenAccount,
    /// The signer's token account for USDC.
    SignerUsdcAccount,
    /// The creator's token account for USDC.
    CreatorUsdcAccount,
    /// The program-owned vault that holds the listed tokens for sale.
    TokenVault,
    /// The program-owned account that holds the tokens of a sell order.
    AssetAccount,
    /// The program-owned system account that receives the lamports of a bid.
    AssetVault,
    /// The token program itself.
    TokenProgram,
}

/// The program that performs a transfer.
#[derive(Clone, Copy, Debug, PartialEq, Eq, Structural)]
pub enum TransferProgram {
    /// An SPL token transfer.
    Token,
    /// A lamport transfer through the system program.
    System,
}

/// The seed prefix of a program-derived address that signs a transfer.
#[derive(Clone, Copy, Debug, PartialEq, Eq, Structural)]
pub enum SeedPrefix {
    /// The bytes `inventory`.
    Inventory,
    /// The bytes `vault`.
    Vault,
}

/// The seeds with which the program signs for a derived account.
#[derive(Clone, Copy, Debug, PartialEq, Eq, Structural)]
pub enum SignerSeeds {
    /// No program signature: the authority signs the transaction itself.
    Unsigned,
    /// `[prefix, mint, bump]`, with the bump of the transfer's source account.
    MintDerived(SeedPrefix),
    /// `[bump]` alone, with the bump of the transfer's source account.
    BumpOnly,
}

/// A transfer of `amount` units (tokens, or lamports for the system program).
#[derive(Clone, Copy, Debug, PartialEq, Eq, Structural)]
pub struct Transfer {
    pub program: TransferProgram,
    pub from: AccountRole,
    pub to: AccountRole,
    pub authority: AccountRole,
    pub signer_seeds: SignerSeeds,
    pub amount: u64,
}

/// The seed bytes that a seed prefix stands for.
pub fn seed_bytes(prefix: SeedPrefix) -> (r: Vec<u8>)
    ensures
        r@ == seed_prefix_bytes(prefix),
{
    match prefix {
        SeedPrefix::Inventory => vec![105u8, 110, 118, 101, 110, 116, 111, 114, 121],
        SeedPrefix::Vault => vec![118u8, 97, 117, 108, 116],
    }
}

/// `inventory` and `vault`, as ASCII bytes.
pub open spec fn seed_prefix_bytes(prefix: SeedPrefix) -> Seq<u8> {
    match prefix {
        SeedPrefix::Inventory => seq![105u8, 110, 118, 101, 110, 116, 111, 114, 121],
        SeedPrefix::Vault => seq![118u8, 97, 117, 108, 116],
    }
}

/// How a transfer changes the number of listed tokens held by the sales vault.
pub open spec fn vault_delta(t: Transfer) -> int {
    (if t.to == AccountRole::TokenVault { t.amount as int } else { 0 })
        - (if t.from == AccountRole::TokenVault { t.amount as int } else { 0 })
}

/// The seed bytes are the ASCII spelling of the names `inventory` and `vault`.
pub proof fn lemma_seed_bytes_spell_names()
    ensures
        seed_prefix_bytes(SeedPrefix::Inventory).len() == "inventory"@.len(),
        forall|i: int| 0 <= i < "inventory"@.len() ==>
            (#[trigger] seed_prefix_bytes(SeedPrefix::Inventory)[i]) as char == "inventory"@[i],
        seed_prefix_bytes(SeedPrefix::Vault).len() == "vault"@.len(),
        forall|i: int| 0 <= i < "vault"@.len() ==>
            (#[trigger] seed_prefix_bytes(SeedPrefix::Vault)[i]) as char == "vault"@[i],
{
    reveal_strlit("inventory");
    reveal_strlit("vault");
}

} // verus!
