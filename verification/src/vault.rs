//! The vault gateway: the custody component's data model and the
//! binary-encoded requests the engine sends it.
//!
//! The vault custody program is an external collaborator.  It holds the
//! underlying asset, and the engine drives it through three operations —
//! combine, withdraw, redeem shares — each a fixed-order account list plus a
//! one-byte operation tag and its little-endian arguments.  The builders
//! below construct those requests; the host invokes them atomically within
//! the calling operation.

use vstd::prelude::*;

verus! {

/// Discriminator of the custody program's record types.
#[derive(Clone, Copy, Debug, PartialEq, Eq, Structural)]
pub enum Key {
    Uninitialized,
    SafetyDepositBoxV1,
    ExternalAccountKeyV1,
    VaultV1,
}

/// The vault's custodial lifecycle.  Only an `Active` vault can be combined;
/// combining moves it to `Combined`, after which its contents are claimable.
#[derive(Clone, Copy, Debug, PartialEq, Eq, Structural)]
pub enum VaultState {
    Inactive,
    Active,
    Combined,
    Deactivated,
}

/// What the engine reads of the custody program's vault record.
#[derive(Clone, Copy, Debug, PartialEq, Eq, Structural)]
pub struct Vault {
    pub key: Key,
    /// The token component the vault settles in.
    pub token_program: u64,
    /// Mint of the fractional-ownership tokens.
    pub fraction_mint: u64,
    /// The authority entitled to combine and withdraw; must be the auction
    /// protocol's authority for an auction to start.
    pub authority: u64,
    pub fraction_treasury: u64,
    pub redeem_treasury: u64,
    pub allow_further_share_creation: bool,
    /// The pricing record the vault's combine price is looked up in.
    pub pricing_lookup_address: u64,
    pub token_type_count: u8,
    pub state: VaultState,
    pub locked_price_per_share: u64,
}

/// The external pricing record: per-share valuation and the combine gate.
/// Read-only to this engine.
#[derive(Clone, Copy, Debug, PartialEq, Eq, Structural)]
pub struct Price {
    pub key: Key,
    pub price_per_share: u64,
    pub price_mint: u64,
    /// Whether the pricing oracle currently permits combining the vault.
    pub allowed_to_combine: bool,
}

/// Argument of the custody program's vault-initialisation operation.
#[derive(Clone, Copy, Debug, PartialEq, Eq, Structural)]
pub struct InitVaultArgs {
    pub allow_further_share_creation: bool,
}

/// Argument of the custody program's token-amount operations.
#[derive(Clone, Copy, Debug, PartialEq, Eq, Structural)]
pub struct AmountArgs {
    pub amount: u64,
}

/// Argument of the custody program's share-count operations.
#[derive(Clone, Copy, Debug, PartialEq, Eq, Structural)]
pub struct NumberOfShareArgs {
    pub number_of_shares: u64,
}

/// Operations supported by the custody program, in wire order: an
/// operation's tag is its position in this list.
#[derive(Clone, Copy, Debug, PartialEq, Eq, Structural)]
pub enum VaultInstruction {
    InitVault(InitVaultArgs),
    AddTokenToInactiveVault(AmountArgs),
    ActivateVault(NumberOfShareArgs),
    CombineVault,
    RedeemShares,
    WithdrawTokenFromSafetyDepositBox(AmountArgs),
    MintFractionalShares(NumberOfShareArgs),
    WithdrawSharesFromTreasury(NumberOfShareArgs),
    AddSharesToTreasury(NumberOfShareArgs),
    UpdateExternalPriceAccount(Price),
    SetAuthority,
}

/// The one-byte wire tag of a custody operation.
pub open spec fn spec_instruction_tag(ix: VaultInstruction) -> u8 {
    match ix {
        VaultInstruction::InitVault(_) => 0,
        VaultInstruction::AddTokenToInactiveVault(_) => 1,
        VaultInstruction::ActivateVault(_) => 2,
        VaultInstruction::CombineVault => 3,
        VaultInstruction::RedeemShares => 4,
        VaultInstruction::WithdrawTokenFromSafetyDepositBox(_) => 5,
        VaultInstruction::MintFractionalShares(_) => 6,
        VaultInstruction::WithdrawSharesFromTreasury(_) => 7,
        VaultInstruction::AddSharesToTreasury(_) => 8,
        VaultInstruction::UpdateExternalPriceAccount(_) => 9,
        VaultInstruction::SetAuthority => 10,
    }
}

/// The one-byte wire tag of a custody operation.
pub fn instruction_tag(ix: &VaultInstruction) -> (r: u8)
    ensures
        r == spec_instruction_tag(*ix),
{
    match ix {
        VaultInstruction::InitVault(_) => 0,
        VaultInstruction::AddTokenToInactiveVault(_) => 1,
        VaultInstruction::ActivateVault(_) => 2,
        VaultInstruction::CombineVault => 3,
        VaultInstruction::RedeemShares => 4,
        VaultInstruction::WithdrawTokenFromSafetyDepositBox(_) => 5,
        VaultInstruction::MintFractionalShares(_) => 6,
        VaultInstruction::WithdrawSharesFromTreasury(_) => 7,
        VaultInstruction::AddSharesToTreasury(_) => 8,
        VaultInstruction::UpdateExternalPriceAccount(_) => 9,
        VaultInstruction::SetAuthority => 10,
    }
}

/// The little-endian wire form of a 64-bit argument.
pub open spec fn spec_u64_le(x: u64) -> Seq<u8> {
    seq![
        (x & 0xff) as u8,
        ((x >> 8) & 0xff) as u8,
        ((x >> 16) & 0xff) as u8,
        ((x >> 24) & 0xff) as u8,
        ((x >> 32) & 0xff) as u8,
        ((x >> 40) & 0xff) as u8,
        ((x >> 48) & 0xff) as u8,
        ((x >> 56) & 0xff) as u8,
    ]
}

/// Frame a 64-bit argument in little-endian byte order.
pub fn encode_u64_le(x: u64) -> (r: Vec<u8>)
    ensures
        r@ == spec_u64_le(x),
{
    let mut r: Vec<u8> = Vec::new();
    r.push((x & 0xff) as u8);
    r.push(((x >> 8) & 0xff) as u8);
    r.push(((x >> 16) & 0xff) as u8);
    r.push(((x >> 24) & 0xff) as u8);
    r.push(((x >> 32) & 0xff) as u8);
    r.push(((x >> 40) & 0xff) as u8);
    r.push(((x >> 48) & 0xff) as u8);
    r.push(((x >> 56) & 0xff) as u8);
    proof {
        assert(r@ =~= spec_u64_le(x));
    }
    r
}

/// One entry of a request's fixed-order account list.
#[derive(Clone, Copy, Debug, PartialEq, Eq, Structural)]
pub struct AccountMeta {
    pub pubkey: u64,
    pub is_signer: bool,
    pub is_writable: bool,
}

impl AccountMeta {
    /// A writable account entry.
    pub fn new(pubkey: u64, is_signer: bool) -> (r: AccountMeta)
        ensures
            r == (AccountMeta { pubkey, is_signer, is_writable: true }),
    {
        AccountMeta { pubkey, is_signer, is_writable: true }
    }

    /// A read-only account entry.
    pub fn new_readonly(pubkey: u64, is_signer: bool) -> (r: AccountMeta)
        ensures
            r == (AccountMeta { pubkey, is_signer, is_writable: false }),
    {
        AccountMeta { pubkey, is_signer, is_writable: false }
    }
}

/// A fully framed request to the custody program: target program, the
/// fixed-order account list, and the binary-encoded operation.
#[derive(Debug)]
pub struct Instruction {
    pub program_id: u64,
    pub accounts: Vec<AccountMeta>,
    pub data: Vec<u8>,
}

/// The combine operation's fixed-order account list.
pub open spec fn spec_combine_vault_accounts(
    vault: u64,
    outstanding_share_token_account: u64,
    paying_token_account: u64,
    fraction_mint: u64,
    fraction_treasury: u64,
    redeem_treasury: u64,
    new_authority: u64,
    vault_authority: u64,
    paying_transfer_authority: u64,
    uncirculated_burn_authority: u64,
    external_pricing_account: u64,
    token_program: u64,
) -> Seq<AccountMeta> {
    seq![
        (AccountMeta { pubkey: vault, is_signer: false, is_writable: true }),
        (AccountMeta {
            pubkey: outstanding_share_token_account,
            is_signer: false,
            is_writable: true,
        }),
        (AccountMeta { pubkey: paying_token_account, is_signer: false, is_writable: true }),
        (AccountMeta { pubkey: fraction_mint, is_signer: false, is_writable: true }),
        (AccountMeta { pubkey: fraction_treasury, is_signer: false, is_writable: true }),
        (AccountMeta { pubkey: redeem_treasury, is_signer: false, is_writable: true }),
        (AccountMeta { pubkey: new_authority, is_signer: false, is_writable: true }),
        (AccountMeta { pubkey: vault_authority, is_signer: true, is_writable: false }),
        (AccountMeta { pubkey: paying_transfer_authority, is_signer: true, is_writable: false }),
        (AccountMeta { pubkey: uncirculated_burn_authority, is_signer: false, is_writable: false }),
        (AccountMeta { pubkey: external_pricing_account, is_signer: false, is_writable: false }),
        (AccountMeta { pubkey: token_program, is_signer: false, is_writable: false }),
    ]
}

/// The withdraw operation's fixed-order account list.
pub open spec fn spec_withdraw_tokens_accounts(
    destination: u64,
    safety_deposit_box: u64,
    store: u64,
    vault: u64,
    fraction_mint: u64,
    vault_authority: u64,
    transfer_authority: u64,
    token_program: u64,
    rent_sysvar: u64,
) -> Seq<AccountMeta> {
    seq![
        (AccountMeta { pubkey: destination, is_signer: false, is_writable: true }),
        (AccountMeta { pubkey: safety_deposit_box, is_signer: false, is_writable: true }),
        (AccountMeta { pubkey: store, is_signer: false, is_writable: true }),
        (AccountMeta { pubkey: vault, is_signer: false, is_writable: true }),
        (AccountMeta { pubkey: fraction_mint, is_signer: false, is_writable: false }),
        (AccountMeta { pubkey: vault_authority, is_signer: true, is_writable: false }),
        (AccountMeta { pubkey: transfer_authority, is_signer: false, is_writable: false }),
        (AccountMeta { pubkey: token_program, is_signer: false, is_writable: false }),
        (AccountMeta { pubkey: rent_sysvar, is_signer: false, is_writable: false }),
    ]
}

/// The withdraw operation's binary-encoded form: its tag, then the amount.
pub open spec fn spec_withdraw_tokens_data(amount: u64) -> Seq<u8> {
    seq![
        spec_instruction_tag(
            VaultInstruction::WithdrawTokenFromSafetyDepositBox((AmountArgs { amount })),
        ),
    ] + spec_u64_le(amount)
}

/// The redeem-shares operation's fixed-order account list.
pub open spec fn spec_redeem_shares_accounts(
    outstanding_shares_account: u64,
    proceeds_account: u64,
    fraction_mint: u64,
    redeem_treasury: u64,
    transfer_authority: u64,
    burn_authority: u64,
    vault: u64,
    token_program: u64,
    rent_sysvar: u64,
) -> Seq<AccountMeta> {
    seq![
        (AccountMeta { pubkey: outstanding_shares_account, is_signer: false, is_writable: true }),
        (AccountMeta { pubkey: proceeds_account, is_signer: false, is_writable: true }),
        (AccountMeta { pubkey: fraction_mint, is_signer: false, is_writable: true }),
        (AccountMeta { pubkey: redeem_treasury, is_signer: false, is_writable: true }),
        (AccountMeta { pubkey: transfer_authority, is_signer: false, is_writable: false }),
        (AccountMeta { pubkey: burn_authority, is_signer: true, is_writable: false }),
        (AccountMeta { pubkey: vault, is_signer: false, is_writable: false }),
        (AccountMeta { pubkey: token_program, is_signer: false, is_writable: false }),
        (AccountMeta { pubkey: rent_sysvar, is_signer: false, is_writable: false }),
    ]
}

/// Frame the custody program's combine operation: consume the reserve price
/// from the payer's account and seal the vault.  The account order is the
/// gateway's wire contract.
pub fn create_combine_vault_instruction(
    program_id: u64,
    vault: u64,
    outstanding_share_token_account: u64,
    paying_token_account: u64,
    fraction_mint: u64,
    fraction_treasury: u64,
    redeem_treasury: u64,
    new_authority: u64,
    vault_authority: u64,
    paying_transfer_authority: u64,
    uncirculated_burn_authority: u64,
    external_pricing_account: u64,
    token_program: u64,
) -> (r: Instruction)
    ensures
        r.program_id == program_id,
        r.accounts@ =~= spec_combine_vault_accounts(
            vault,
            outstanding_share_token_account,
            paying_token_account,
            fraction_mint,
            fraction_treasury,
            redeem_treasury,
            new_authority,
            vault_authority,
            paying_transfer_authority,
            uncirculated_burn_authority,
            external_pricing_account,
            token_program,
        ),
        r.data@ =~= seq![spec_instruction_tag(VaultInstruction::CombineVault)],
{
    let mut accounts: Vec<AccountMeta> = Vec::new();
    accounts.push(AccountMeta::new(vault, false));
    accounts.push(AccountMeta::new(outstanding_share_token_account, false));
    accounts.push(AccountMeta::new(paying_token_account, false));
    accounts.push(AccountMeta::new(fraction_mint, false));
    accounts.push(AccountMeta::new(fraction_treasury, false));
    accounts.push(AccountMeta::new(redeem_treasury, false));
    accounts.push(AccountMeta::new(new_authority, false));
    accounts.push(AccountMeta::new_readonly(vault_authority, true));
    accounts.push(AccountMeta::new_readonly(paying_transfer_authority, true));
    accounts.push(AccountMeta::new_readonly(uncirculated_burn_authority, false));
    accounts.push(AccountMeta::new_readonly(external_pricing_account, false));
    accounts.push(AccountMeta::new_readonly(token_program, false));
    let mut data: Vec<u8> = Vec::new();
    data.push(instruction_tag(&VaultInstruction::CombineVault));
    Instruction { program_id, accounts, data }
}

/// Frame the custody program's withdraw operation: move `amount` from the
/// vault's safety deposit store to `destination` under the vault authority's
/// signature.
pub fn create_withdraw_tokens_instruction(
    program_id: u64,
    destination: u64,
    safety_deposit_box: u64,
    store: u64,
    vault: u64,
    fraction_mint: u64,
    vault_authority: u64,
    transfer_authority: u64,
    amount: u64,
    token_program: u64,
    rent_sysvar: u64,
) -> (r: Instruction)
    ensures
        r.program_id == program_id,
        r.accounts@ =~= spec_withdraw_tokens_accounts(
            destination,
            safety_deposit_box,
            store,
            vault,
            fraction_mint,
            vault_authority,
            transfer_authority,
            token_program,
            rent_sysvar,
        ),
        r.data@ =~= spec_withdraw_tokens_data(amount),
{
    let mut accounts: Vec<AccountMeta> = Vec::new();
    accounts.push(AccountMeta::new(destination, false));
    accounts.push(AccountMeta::new(safety_deposit_box, false));
    accounts.push(AccountMeta::new(store, false));
    accounts.push(AccountMeta::new(vault, false));
    accounts.push(AccountMeta::new_readonly(fraction_mint, false));
    accounts.push(AccountMeta::new_readonly(vault_authority, true));
    accounts.push(AccountMeta::new_readonly(transfer_authority, false));
    accounts.push(AccountMeta::new_readonly(token_program, false));
    accounts.push(AccountMeta::new_readonly(rent_sysvar, false));
    let mut data: Vec<u8> = Vec::new();
    data.push(instruction_tag(&VaultInstruction::WithdrawTokenFromSafetyDepositBox(AmountArgs {
        amount,
    })));
    let mut arg_bytes = encode_u64_le(amount);
    data.append(&mut arg_bytes);
    Instruction { program_id, accounts, data }
}

/// Frame the custody program's redeem-shares operation: burn fraction tokens
/// from the outstanding-shares account against the vault's redeem treasury.
pub fn create_redeem_shares_instruction(
    program_id: u64,
    outstanding_shares_account: u64,
    proceeds_account: u64,
    fraction_mint: u64,
    redeem_treasury: u64,
    transfer_authority: u64,
    burn_authority: u64,
    vault: u64,
    token_program: u64,
    rent_sysvar: u64,
) -> (r: Instruction)
    ensures
        r.program_id == program_id,
        r.accounts@ =~= spec_redeem_shares_accounts(
            outstanding_shares_account,
            proceeds_account,
            fraction_mint,
            redeem_treasury,
            transfer_authority,
            burn_authority,
            vault,
            token_program,
            rent_sysvar,
        ),
        r.data@ =~= seq![spec_instruction_tag(VaultInstruction::RedeemShares)],
{
    let mut accounts: Vec<AccountMeta> = Vec::new();
    accounts.push(AccountMeta::new(outstanding_shares_account, false));
    accounts.push(AccountMeta::new(proceeds_account, false));
    accounts.push(AccountMeta::new(fraction_mint, false));
    accounts.push(AccountMeta::new(redeem_treasury, false));
    accounts.push(AccountMeta::new_readonly(transfer_authority, false));
    accounts.push(AccountMeta::new_readonly(burn_authority, true));
    accounts.push(AccountMeta::new_readonly(vault, false));
    accounts.push(AccountMeta::new_readonly(token_program, false));
    accounts.push(AccountMeta::new_readonly(rent_sysvar, false));
    let mut data: Vec<u8> = Vec::new();
    data.push(instruction_tag(&VaultInstruction::RedeemShares));
    Instruction { program_id, accounts, data }
}

} // verus!
