//! What the program sees of the accounts that come with a command, and what
//! it asks the host to do to them.

use vstd::prelude::*;
use crate::address::Address;

verus! {

/// One account as it comes with a command.
#[derive(Clone, Debug, PartialEq, Eq)]
pub struct AccountInfo {
    /// The address of the account.
    pub key: Address,
    /// The program that the account belongs to.
    pub owner: Address,
    /// Whether the transaction was signed with the account's key.
    pub is_signer: bool,
    /// Whether the program may change the account.
    pub is_writable: bool,
    /// The account's balance in lamports.
    pub lamports: u64,
    /// The bytes that the account holds.
    pub data: Vec<u8>,
}

/// One thing that the host has to do when a command is accepted. The effects
/// of a command are applied in order and as one unit: all of them or none.
#[derive(Clone, Debug, PartialEq, Eq)]
pub enum Effect {
    /// Allocate an account of `size` bytes for `owner`, paid for by `payer`.
    CreateAccount { payer: Address, new_account: Address, size: u64, owner: Address },
    /// Make a newly allocated account a token account of `mint` that only
    /// `authority` can spend from.
    InitializeTokenAccount { account: Address, mint: Address, authority: Address },
    /// Move `amount` tokens from one token account to another, on the word
    /// of `authority`.
    TransferTokens { from: Address, to: Address, authority: Address, amount: u64 },
    /// Move `amount` lamports from one account to another.
    TransferLamports { from: Address, to: Address, amount: u64 },
    /// Replace the bytes of an account by `data`.
    WriteRecord { account: Address, data: Vec<u8> },
}

/// What an effect says.
pub enum EffectView {
    CreateAccount { payer: Address, new_account: Address, size: u64, owner: Address },
    InitializeTokenAccount { account: Address, mint: Address, authority: Address },
    TransferTokens { from: Address, to: Address, authority: Address, amount: u64 },
    TransferLamports { from: Address, to: Address, amount: u64 },
    WriteRecord { account: Address, data: Seq<u8> },
}

impl View for Effect {
    type V = EffectView;

    open spec fn view(&self) -> EffectView {
        match self {
            Effect::CreateAccount { payer, new_account, size, owner } => {
                EffectView::CreateAccount {
                    payer: *payer,
                    new_account: *new_account,
                    size: *size,
                    owner: *owner,
                }
            },
            Effect::InitializeTokenAccount { account, mint, authority } => {
                EffectView::InitializeTokenAccount {
                    account: *account,
                    mint: *mint,
                    authority: *authority,
                }
            },
            Effect::TransferTokens { from, to, authority, amount } => EffectView::TransferTokens {
                from: *from,
                to: *to,
                authority: *authority,
                amount: *amount,
            },
            Effect::TransferLamports { from, to, amount } => EffectView::TransferLamports {
                from: *from,
                to: *to,
                amount: *amount,
            },
            Effect::WriteRecord { account, data } => EffectView::WriteRecord {
                account: *account,
                data: data@,
            },
        }
    }
}

/// What a list of effects says.
pub open spec fn effects_view(effects: Seq<Effect>) -> Seq<EffectView> {
    effects.map_values(|effect: Effect| effect@)
}

/// Adds an effect to the end of a list.
pub fn push_effect(effects: &mut Vec<Effect>, effect: Effect)
    ensures
        effects_view(final(effects)@) == effects_view(old(effects)@).push(effect@),
{
    effects.push(effect);
    assert(effects_view(effects@) =~= effects_view(old(effects)@).push(effect@));
}

// ---------------------------------------------------------------------------
// Token accounts
// ---------------------------------------------------------------------------

/// What the program reads of a token account.
#[derive(Clone, Copy, Debug, PartialEq, Eq)]
pub struct TokenAccount {
    /// The currency of the account.
    pub mint: Address,
    /// Who can spend from the account.
    pub owner: Address,
    /// How many tokens the account holds.
    pub amount: u64,
}

/// The mint, the owner and the amount that the token program reads from the
/// bytes of a token account, or `None` where the bytes are not those of an
/// initialized token account.
pub uninterp spec fn unpacked_token_account(data: Seq<u8>) -> Option<(Seq<u8>, Seq<u8>, u64)>;

/// Calls `unpack` of `spl_token::state::Account`. Whether the bytes are a
/// token account, and what it holds, depends on the bytes alone; the contract
/// gives the outcome the name [`unpacked_token_account`] and adds nothing
/// about its value.
#[verifier::external_body]
pub(crate) fn read_token_account(data: &[u8]) -> (account: Option<TokenAccount>)
    ensures
        match account {
            Some(token) => unpacked_token_account(data@) == Some(
                (token.mint@, token.owner@, token.amount),
            ),
            None => unpacked_token_account(data@).is_none(),
        },
{
    <spl_token::state::Account as spl_token::solana_program::program_pack::Pack>::unpack(data)
        .ok().map(
        |token| TokenAccount {
            mint: Address { bytes: token.mint.to_bytes() },
            owner: Address { bytes: token.owner.to_bytes() },
            amount: token.amount,
        },
    )
}

/// The number of bytes of a token account.
pub const TOKEN_ACCOUNT_SIZE: u64 = 165;

/// Reads `LEN` of `spl_token::state::Account`, the number of bytes that the
/// token program lays a token account out in.
#[verifier::external_body]
pub(crate) fn token_account_size() -> (size: u64)
    ensures
        size == TOKEN_ACCOUNT_SIZE,
{
    <spl_token::state::Account as spl_token::solana_program::program_pack::Pack>::LEN as u64
}

} // verus!
