//! The checks that every account passes before anything is decided from it.
//!
//! The accounts that come with a command are chosen by the caller. Nothing
//! about them is taken on trust: who signed, what may be written, which
//! program an account belongs to; and every address that has to be a derived
//! one is derived anew and compared byte for byte.

use vstd::prelude::*;
use crate::account::AccountInfo;
use crate::address::{
    address_seed, derived_program_address, find_program_address, seed_list, token_program_bytes,
    token_program_id, Address,
};
use crate::config::Config;
use crate::error::PaymentError;
use crate::state::{
    decode_merchant, decode_order, decode_subscription, Decoded, MerchantAccount, MerchantRecord,
    OrderAccount, OrderRecord, SubscriptionAccount, SubscriptionRecord,
};
use vstd::slice::slice_to_vec;

verus! {

// ---------------------------------------------------------------------------
// The shape of the account list
// ---------------------------------------------------------------------------

/// The operations of the program.
#[derive(Clone, Copy, Debug, PartialEq, Eq, Structural)]
pub enum Operation {
    RegisterMerchant,
    ExpressCheckout,
    ChainCheckout,
    Withdraw,
    Subscribe,
    RenewSubscription,
    CancelSubscription,
}

/// What an operation asks of the account at one place of its list.
#[derive(Clone, Copy, Debug, PartialEq, Eq, Structural)]
pub struct Role {
    /// Whether the account has to have signed.
    pub signs: bool,
    /// Whether the account has to be writable.
    pub writes: bool,
}

/// The role of an account that signs.
pub open spec fn signer() -> Role {
    Role { signs: true, writes: false }
}

/// The role of an account that is written.
pub open spec fn written() -> Role {
    Role { signs: false, writes: true }
}

/// The role of an account that is only read.
pub open spec fn read() -> Role {
    Role { signs: false, writes: false }
}

/// How many accounts an operation cannot do without.
pub open spec fn required_accounts(operation: Operation) -> nat {
    match operation {
        Operation::RegisterMerchant => 4,
        Operation::ExpressCheckout => 12,
        Operation::ChainCheckout => 12,
        Operation::Withdraw => 7,
        Operation::Subscribe => 6,
        Operation::RenewSubscription => 4,
        Operation::CancelSubscription => 8,
    }
}

/// What an operation asks of each of the accounts that it cannot do
/// without, in order.
#[verifier::opaque]
pub open spec fn roles(operation: Operation) -> Seq<Role> {
    match operation {
        Operation::RegisterMerchant => seq![signer(), written(), read(), read()],
        Operation::ExpressCheckout | Operation::ChainCheckout => seq![
            signer(),
            written(),
            read(),
            written(),
            written(),
            written(),
            written(),
            read(),
            read(),
            read(),
            read(),
            read(),
        ],
        Operation::Withdraw => seq![
            signer(),
            written(),
            read(),
            written(),
            written(),
            read(),
            read(),
        ],
        Operation::Subscribe => seq![signer(), written(), read(), read(), read(), read()],
        Operation::RenewSubscription => seq![signer(), written(), read(), read()],
        Operation::CancelSubscription => seq![
            signer(),
            written(),
            read(),
            written(),
            written(),
            written(),
            read(),
            read(),
        ],
    }
}

/// How many more accounts an operation takes where they are offered: a
/// sponsor with a registration, a subscription with a withdrawal.
pub open spec fn optional_accounts(operation: Operation) -> nat {
    match operation {
        Operation::RegisterMerchant => 1,
        Operation::Withdraw => 1,
        _ => 0,
    }
}

/// Whether an account is allowed what its role asks for.
pub open spec fn plays(account: AccountInfo, role: Role) -> bool {
    (role.signs ==> account.is_signer) && (role.writes ==> account.is_writable)
}

/// Whether a list of accounts has the shape that an operation asks for: as
/// many accounts as the operation takes, each allowed what its place asks
/// for.
#[verifier::opaque]
pub open spec fn shape_ok(operation: Operation, accounts: Seq<AccountInfo>) -> bool {
    &&& required_accounts(operation) <= accounts.len() <= required_accounts(operation)
        + optional_accounts(operation)
    &&& forall|i: int|
        0 <= i < required_accounts(operation) ==> plays(
            #[trigger] accounts[i],
            roles(operation)[i],
        )
}

/// Every operation has a role for each account that it cannot do without.
pub proof fn lemma_roles_are_complete(operation: Operation)
    ensures
        roles(operation).len() == required_accounts(operation),
{
    reveal(roles);
}

/// A list of the shape that an operation asks for is as long as the
/// operation takes.
pub proof fn lemma_shape_bounds(operation: Operation, accounts: Seq<AccountInfo>)
    requires
        shape_ok(operation, accounts),
    ensures
        required_accounts(operation) <= accounts.len() <= required_accounts(operation)
            + optional_accounts(operation),
{
    reveal(shape_ok);
}

/// Whether a list has the shape that an operation asks for depends on its
/// length and on the flags of its accounts alone.
pub proof fn lemma_shape_depends_on_flags(
    operation: Operation,
    before: Seq<AccountInfo>,
    after: Seq<AccountInfo>,
)
    requires
        shape_ok(operation, before),
        after.len() == before.len(),
        forall|i: int|
            0 <= i < before.len() ==> (#[trigger] after[i]).is_signer == before[i].is_signer,
        forall|i: int|
            0 <= i < before.len() ==> (#[trigger] after[i]).is_writable == before[i].is_writable,
    ensures
        shape_ok(operation, after),
{
    reveal(shape_ok);
    assert forall|i: int| 0 <= i < required_accounts(operation) implies plays(
        #[trigger] after[i],
        roles(operation)[i],
    ) by {
        assert(plays(before[i], roles(operation)[i]));
    }
}

/// What an operation asks of each of the accounts that it cannot do
/// without.
pub fn role_table(operation: Operation) -> (table: Vec<Role>)
    ensures
        table@ == roles(operation),
{
    let signer = Role { signs: true, writes: false };
    let written = Role { signs: false, writes: true };
    let read = Role { signs: false, writes: false };
    let table = match operation {
        Operation::RegisterMerchant => vec![signer, written, read, read],
        Operation::ExpressCheckout | Operation::ChainCheckout => vec![
            signer,
            written,
            read,
            written,
            written,
            written,
            written,
            read,
            read,
            read,
            read,
            read,
        ],
        Operation::Withdraw => vec![signer, written, read, written, written, read, read],
        Operation::Subscribe => vec![signer, written, read, read, read, read],
        Operation::RenewSubscription => vec![signer, written, read, read],
        Operation::CancelSubscription => vec![
            signer,
            written,
            read,
            written,
            written,
            written,
            read,
            read,
        ],
    };
    proof {
        reveal(roles);
    }
    assert(table@ =~= roles(operation));
    table
}

/// Compares a list of accounts with the shape that an operation asks for.
/// A list of another length, an account that had to sign and did not, and an
/// account that is to be written and cannot be, make the instruction
/// malformed.
pub fn check_shape(operation: Operation, accounts: &Vec<AccountInfo>) -> (checked: Result<
    (),
    PaymentError,
>)
    ensures
        checked == if shape_ok(operation, accounts@) {
            Ok::<(), PaymentError>(())
        } else {
            Err::<(), PaymentError>(PaymentError::MalformedInstruction)
        },
        checked.is_ok() ==> required_accounts(operation) <= accounts@.len()
            <= required_accounts(operation) + optional_accounts(operation),
{
    proof {
        reveal(shape_ok);
        lemma_roles_are_complete(operation);
    }
    let table = role_table(operation);
    let optional: usize = match operation {
        Operation::RegisterMerchant => 1,
        Operation::Withdraw => 1,
        _ => 0,
    };
    if accounts.len() < table.len() || accounts.len() - table.len() > optional {
        return Err(PaymentError::MalformedInstruction);
    }
    let mut i: usize = 0;
    while i < table.len()
        invariant
            i <= table@.len(),
            table@ == roles(operation),
            table@.len() == required_accounts(operation),
            table@.len() <= accounts@.len() <= table@.len() + optional_accounts(operation),
            forall|k: int| 0 <= k < i ==> plays(#[trigger] accounts@[k], table@[k]),
        decreases table@.len() - i,
    {
        if (table[i].signs && !accounts[i].is_signer) || (table[i].writes
            && !accounts[i].is_writable) {
            proof {
                reveal(shape_ok);
            }
            assert(!plays(accounts@[i as int], roles(operation)[i as int]));
            return Err(PaymentError::MalformedInstruction);
        }
        i += 1;
    }
    proof {
        reveal(shape_ok);
    }
    Ok(())
}

// ---------------------------------------------------------------------------
// Addresses
// ---------------------------------------------------------------------------

/// Whether the supplied address is the one that was derived.
pub open spec fn matches_derived(supplied: Seq<u8>, derived: Option<(Seq<u8>, u8)>) -> bool {
    match derived {
        Some((address, bump)) => address == supplied,
        None => false,
    }
}

/// The outcome of comparing a supplied address with the derived one.
pub open spec fn spec_check_derived(supplied: Seq<u8>, derived: Option<(Seq<u8>, u8)>) -> Result<
    (),
    PaymentError,
> {
    if matches_derived(supplied, derived) {
        Ok(())
    } else {
        Err(PaymentError::AddressMismatch)
    }
}

/// Compares a supplied address with the one that was derived for its place.
/// An address that could not be derived matches nothing.
pub fn check_derived(supplied: &Address, derived: &Option<(Address, u8)>) -> (checked: Result<
    (),
    PaymentError,
>)
    ensures
        checked == spec_check_derived(
            supplied@,
            match *derived {
                Some((address, bump)) => Some((address@, bump)),
                None => None,
            },
        ),
{
    match derived {
        Some((address, _)) => {
            if address.same_as(supplied) {
                Ok(())
            } else {
                Err(PaymentError::AddressMismatch)
            }
        },
        None => Err(PaymentError::AddressMismatch),
    }
}

/// Compares a supplied address with the one that is expected in its place.
pub fn check_address(supplied: &Address, expected: &Address) -> (checked: Result<
    (),
    PaymentError,
>)
    ensures
        checked == if supplied@ == expected@ {
            Ok::<(), PaymentError>(())
        } else {
            Err::<(), PaymentError>(PaymentError::AddressMismatch)
        },
{
    if supplied.same_as(expected) {
        Ok(())
    } else {
        Err(PaymentError::AddressMismatch)
    }
}

/// The program's own authority: the address derived from the configured
/// seed.
pub open spec fn authority_of(config: Config, program_id: Address) -> Option<(Seq<u8>, u8)> {
    derived_program_address(seq![config.authority_seed@], program_id@)
}

/// The escrow token account of an order: the address derived from the
/// order's address, the token program's and the mint's.
pub open spec fn escrow_of(program_id: Address, order: Seq<u8>, mint: Seq<u8>) -> Option<
    (Seq<u8>, u8),
> {
    derived_program_address(seq![order, token_program_bytes(), mint], program_id@)
}

/// Derives the program's authority and compares the supplied address with it.
pub fn check_authority(config: &Config, program_id: &Address, supplied: &Address) -> (checked:
    Result<(), PaymentError>)
    ensures
        checked == spec_check_derived(supplied@, authority_of(*config, *program_id)),
{
    let mut seeds: Vec<Vec<u8>> = Vec::new();
    seeds.push(slice_to_vec(config.authority_seed.as_slice()));
    assert(seed_list(seeds@) =~= seq![config.authority_seed@]);
    let derived = find_program_address(&seeds, program_id);
    check_derived(supplied, &derived)
}

/// Derives the escrow token account of an order and compares the supplied
/// address with it.
pub fn check_escrow(program_id: &Address, order: &Address, mint: &Address, supplied: &Address) -> (checked:
    Result<(), PaymentError>)
    ensures
        checked == spec_check_derived(supplied@, escrow_of(*program_id, order@, mint@)),
{
    let token_program = token_program_id();
    let mut seeds: Vec<Vec<u8>> = Vec::new();
    seeds.push(address_seed(order));
    seeds.push(address_seed(&token_program));
    seeds.push(address_seed(mint));
    assert(seed_list(seeds@) =~= seq![order@, token_program_bytes(), mint@]);
    let derived = find_program_address(&seeds, program_id);
    check_derived(supplied, &derived)
}

// ---------------------------------------------------------------------------
// Records
// ---------------------------------------------------------------------------

/// What kind of thing the bytes of an account turned out to be.
#[derive(Clone, Copy, Debug, PartialEq, Eq, Structural)]
pub enum Holding {
    Corrupt,
    Vacant,
    Record,
}

/// The kind of a decoded account.
pub open spec fn holding_of<R>(decoded: Decoded<R>) -> Holding {
    match decoded {
        Decoded::Corrupt => Holding::Corrupt,
        Decoded::Vacant => Holding::Vacant,
        Decoded::Record(_) => Holding::Record,
    }
}

/// Whether an account can take a new record, and whether it has to be
/// created first. An account without bytes does not exist yet. One with
/// bytes has to belong to the program and to hold no record.
pub open spec fn spec_target(account: AccountInfo, program_id: Address, holding: Holding) -> Result<
    bool,
    PaymentError,
> {
    if account.data@.len() == 0 {
        Ok(true)
    } else if account.owner@ != program_id@ {
        Err(PaymentError::InvalidAccountOwner)
    } else {
        match holding {
            Holding::Vacant => Ok(false),
            Holding::Record => Err(PaymentError::AlreadyInitialized),
            Holding::Corrupt => Err(PaymentError::CorruptAccountData),
        }
    }
}

/// Whether an account can take a new record: `Ok(true)` where it has to be
/// created first.
pub fn check_target(account: &AccountInfo, program_id: &Address, holding: Holding) -> (target:
    Result<bool, PaymentError>)
    ensures
        target == spec_target(*account, *program_id, holding),
{
    if account.data.len() == 0 {
        Ok(true)
    } else if !account.owner.same_as(program_id) {
        Err(PaymentError::InvalidAccountOwner)
    } else {
        match holding {
            Holding::Vacant => Ok(false),
            Holding::Record => Err(PaymentError::AlreadyInitialized),
            Holding::Corrupt => Err(PaymentError::CorruptAccountData),
        }
    }
}

/// The record that an account of the program holds.
pub open spec fn stored<R>(account: AccountInfo, program_id: Address, decoded: Decoded<R>) -> Result<
    R,
    PaymentError,
> {
    if account.owner@ != program_id@ {
        Err(PaymentError::InvalidAccountOwner)
    } else {
        match decoded {
            Decoded::Record(record) => Ok(record),
            Decoded::Vacant => Err(PaymentError::NotInitialized),
            Decoded::Corrupt => Err(PaymentError::CorruptAccountData),
        }
    }
}

/// The merchant record that an account of the program holds.
pub open spec fn merchant_in(account: AccountInfo, program_id: Address) -> Result<
    MerchantRecord,
    PaymentError,
> {
    stored(account, program_id, decode_merchant(account.data@))
}

/// The order record that an account of the program holds.
pub open spec fn order_in(account: AccountInfo, program_id: Address) -> Result<
    OrderRecord,
    PaymentError,
> {
    stored(account, program_id, decode_order(account.data@))
}

/// The subscription record that an account of the program holds.
pub open spec fn subscription_in(account: AccountInfo, program_id: Address) -> Result<
    SubscriptionRecord,
    PaymentError,
> {
    stored(account, program_id, decode_subscription(account.data@))
}

/// Reads the merchant record of an account: refused where the account does
/// not belong to the program, holds no record, or holds other bytes.
pub fn load_merchant(account: &AccountInfo, program_id: &Address) -> (loaded: Result<
    MerchantAccount,
    PaymentError,
>)
    ensures
        match loaded {
            Ok(record) => merchant_in(*account, *program_id) == Ok::<MerchantRecord, PaymentError>(
                record@,
            ) && decode_merchant(account.data@) == Decoded::Record(record@),
            Err(e) => merchant_in(*account, *program_id) == Err::<MerchantRecord, PaymentError>(e),
        },
{
    if !account.owner.same_as(program_id) {
        return Err(PaymentError::InvalidAccountOwner);
    }
    match MerchantAccount::unpack(account.data.as_slice()) {
        Ok(Some(record)) => Ok(record),
        Ok(None) => Err(PaymentError::NotInitialized),
        Err(e) => Err(e),
    }
}

/// Reads the order record of an account: refused where the account does not
/// belong to the program, holds no record, or holds other bytes.
pub fn load_order(account: &AccountInfo, program_id: &Address) -> (loaded: Result<
    OrderAccount,
    PaymentError,
>)
    ensures
        match loaded {
            Ok(record) => order_in(*account, *program_id) == Ok::<OrderRecord, PaymentError>(
                record@,
            ) && decode_order(account.data@) == Decoded::Record(record@),
            Err(e) => order_in(*account, *program_id) == Err::<OrderRecord, PaymentError>(e),
        },
{
    if !account.owner.same_as(program_id) {
        return Err(PaymentError::InvalidAccountOwner);
    }
    match OrderAccount::unpack(account.data.as_slice()) {
        Ok(Some(record)) => Ok(record),
        Ok(None) => Err(PaymentError::NotInitialized),
        Err(e) => Err(e),
    }
}

/// Reads the subscription record of an account: refused where the account
/// does not belong to the program, holds no record, or holds other bytes.
pub fn load_subscription(account: &AccountInfo, program_id: &Address) -> (loaded: Result<
    SubscriptionAccount,
    PaymentError,
>)
    ensures
        match loaded {
            Ok(record) => subscription_in(*account, *program_id) == Ok::<
                SubscriptionRecord,
                PaymentError,
            >(record@) && decode_subscription(account.data@) == Decoded::Record(record@),
            Err(e) => subscription_in(*account, *program_id) == Err::<
                SubscriptionRecord,
                PaymentError,
            >(e),
        },
{
    if !account.owner.same_as(program_id) {
        return Err(PaymentError::InvalidAccountOwner);
    }
    match SubscriptionAccount::unpack(account.data.as_slice()) {
        Ok(Some(record)) => Ok(record),
        Ok(None) => Err(PaymentError::NotInitialized),
        Err(e) => Err(e),
    }
}

/// What kind of thing the bytes of an account are when read as a merchant
/// record.
pub fn merchant_holding(account: &AccountInfo) -> (holding: Holding)
    ensures
        holding == holding_of(decode_merchant(account.data@)),
{
    match MerchantAccount::unpack(account.data.as_slice()) {
        Ok(Some(_)) => Holding::Record,
        Ok(None) => Holding::Vacant,
        Err(_) => Holding::Corrupt,
    }
}

/// What kind of thing the bytes of an account are when read as an order
/// record.
pub fn order_holding(account: &AccountInfo) -> (holding: Holding)
    ensures
        holding == holding_of(decode_order(account.data@)),
{
    match OrderAccount::unpack(account.data.as_slice()) {
        Ok(Some(_)) => Holding::Record,
        Ok(None) => Holding::Vacant,
        Err(_) => Holding::Corrupt,
    }
}

/// What kind of thing the bytes of an account are when read as a
/// subscription record.
pub fn subscription_holding(account: &AccountInfo) -> (holding: Holding)
    ensures
        holding == holding_of(decode_subscription(account.data@)),
{
    match SubscriptionAccount::unpack(account.data.as_slice()) {
        Ok(Some(_)) => Holding::Record,
        Ok(None) => Holding::Vacant,
        Err(_) => Holding::Corrupt,
    }
}

} // verus!
