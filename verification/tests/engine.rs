use sol_payment_processor::account::{AccountInfo, Effect};
use sol_payment_processor::address::Address;
use sol_payment_processor::config::Config;
use sol_payment_processor::engine::cancel::process_cancel_subscription;
use sol_payment_processor::engine::checkout::{process_chain_checkout, process_express_checkout};
use sol_payment_processor::engine::dispatch::process_instruction;
use sol_payment_processor::engine::register::process_register_merchant;
use sol_payment_processor::engine::renew::process_renew_subscription;
use sol_payment_processor::engine::subscribe::process_subscribe;
use sol_payment_processor::engine::withdraw::process_withdraw;
use sol_payment_processor::error::PaymentError;
use sol_payment_processor::instruction::{OrderItem, PaymentProcessorInstruction};
use sol_payment_processor::state::{
    MerchantAccount, OrderAccount, OrderStatus, SubscriptionAccount, SubscriptionStatus,
};
use solana_program::pubkey::Pubkey;
use spl_token::solana_program::program_option::COption;
use spl_token::solana_program::program_pack::Pack;
use spl_token::state::{Account as TokenAccount, AccountState};

const MIN_FEE: u64 = 50_000;
const DEFAULT_FEE: u64 = 500_000;
const SHARE: u64 = 30;
const NOW: i64 = 1_700_000_000;

fn key(n: u8) -> Address {
    Address::new([n; 32])
}

fn program_id() -> Address {
    key(42)
}

fn program_owner() -> Address {
    key(200)
}

fn payer() -> Address {
    key(1)
}

fn mint() -> Address {
    key(3)
}

fn buyer_token() -> Address {
    key(4)
}

fn merchant_token() -> Address {
    key(5)
}

fn refund_token() -> Address {
    key(6)
}

fn subscription_key() -> Address {
    key(77)
}

#[allow(deprecated)]
fn system_program() -> Address {
    Address::new(solana_program::system_program::id().to_bytes())
}

fn rent_sysvar() -> Address {
    Address::new(solana_program::sysvar::rent::id().to_bytes())
}

fn token_program() -> Address {
    Address::new(spl_token::id().to_bytes())
}

fn pubkey(address: Address) -> Pubkey {
    Pubkey::new_from_array(address.to_bytes())
}

fn config() -> Config {
    Config {
        min_fee: MIN_FEE,
        default_fee: DEFAULT_FEE,
        sponsor_share_bp: SHARE,
        program_owner: program_owner(),
        authority_seed: b"sol_payment_processor".to_vec(),
        default_seed: "merchant".to_string(),
    }
}

fn authority() -> Address {
    let (address, _) =
        Pubkey::find_program_address(&[b"sol_payment_processor"], &pubkey(program_id()));
    Address::new(address.to_bytes())
}

fn escrow_of(order: Address, mint: Address) -> Address {
    let (address, _) = Pubkey::find_program_address(
        &[&order.to_bytes(), &spl_token::id().to_bytes(), &mint.to_bytes()],
        &pubkey(program_id()),
    );
    Address::new(address.to_bytes())
}

fn merchant_address(seed: &str) -> Address {
    Address::new(
        Pubkey::create_with_seed(&pubkey(payer()), seed, &pubkey(program_id()))
            .unwrap()
            .to_bytes(),
    )
}

fn token_bytes(mint: Address, owner: Address, amount: u64) -> Vec<u8> {
    let account = TokenAccount {
        mint: spl_token::solana_program::pubkey::Pubkey::new_from_array(mint.to_bytes()),
        owner: spl_token::solana_program::pubkey::Pubkey::new_from_array(owner.to_bytes()),
        amount,
        delegate: COption::None,
        state: AccountState::Initialized,
        is_native: COption::None,
        delegated_amount: 0,
        close_authority: COption::None,
    };
    let mut bytes = vec![0u8; TokenAccount::LEN];
    TokenAccount::pack(account, &mut bytes).unwrap();
    bytes
}

/// The accounts of a small ledger, and what the host does to them.
struct Ledger {
    accounts: Vec<AccountInfo>,
}

impl Ledger {
    fn new() -> Ledger {
        let mut ledger = Ledger { accounts: Vec::new() };
        ledger.fund(payer(), 10_000_000_000);
        ledger.set_data(buyer_token(), token_program(), token_bytes(mint(), payer(), u64::MAX));
        ledger.set_data(merchant_token(), token_program(), token_bytes(mint(), payer(), 0));
        ledger.set_data(refund_token(), token_program(), token_bytes(mint(), payer(), 0));
        ledger
    }

    fn place(&mut self, key: Address) -> usize {
        if let Some(i) = self.accounts.iter().position(|a| a.key == key) {
            return i;
        }
        self.accounts.push(AccountInfo {
            key,
            owner: system_program(),
            is_signer: false,
            is_writable: false,
            lamports: 0,
            data: Vec::new(),
        });
        self.accounts.len() - 1
    }

    fn fund(&mut self, key: Address, lamports: u64) {
        let i = self.place(key);
        self.accounts[i].lamports = lamports;
    }

    fn set_data(&mut self, key: Address, owner: Address, data: Vec<u8>) {
        let i = self.place(key);
        self.accounts[i].owner = owner;
        self.accounts[i].data = data;
    }

    fn get(&mut self, key: Address) -> AccountInfo {
        let i = self.place(key);
        self.accounts[i].clone()
    }

    fn handle(&mut self, key: Address, is_signer: bool, is_writable: bool) -> AccountInfo {
        let mut account = self.get(key);
        account.is_signer = is_signer;
        account.is_writable = is_writable;
        account
    }

    fn lamports(&mut self, key: Address) -> u64 {
        self.get(key).lamports
    }

    fn tokens(&mut self, key: Address) -> u64 {
        TokenAccount::unpack(&self.get(key).data).unwrap().amount
    }

    fn apply(&mut self, effects: &[Effect]) {
        for effect in effects {
            match effect {
                Effect::CreateAccount { payer: _, new_account, size, owner } => {
                    let i = self.place(*new_account);
                    assert!(self.accounts[i].data.is_empty());
                    self.accounts[i].owner = *owner;
                    self.accounts[i].data = vec![0u8; *size as usize];
                }
                Effect::InitializeTokenAccount { account, mint, authority } => {
                    let i = self.place(*account);
                    assert_eq!(self.accounts[i].owner, token_program());
                    assert_eq!(self.accounts[i].data.len(), TokenAccount::LEN);
                    self.accounts[i].data = token_bytes(*mint, *authority, 0);
                }
                Effect::TransferTokens { from, to, authority, amount } => {
                    let source = TokenAccount::unpack(&self.get(*from).data).unwrap();
                    let target = TokenAccount::unpack(&self.get(*to).data).unwrap();
                    assert_eq!(source.owner.to_bytes(), authority.to_bytes());
                    assert_eq!(source.mint, target.mint);
                    let i = self.place(*from);
                    self.accounts[i].data = token_bytes(
                        Address::new(source.mint.to_bytes()),
                        Address::new(source.owner.to_bytes()),
                        source.amount.checked_sub(*amount).unwrap(),
                    );
                    let j = self.place(*to);
                    self.accounts[j].data = token_bytes(
                        Address::new(target.mint.to_bytes()),
                        Address::new(target.owner.to_bytes()),
                        target.amount.checked_add(*amount).unwrap(),
                    );
                }
                Effect::TransferLamports { from, to, amount } => {
                    let i = self.place(*from);
                    self.accounts[i].lamports =
                        self.accounts[i].lamports.checked_sub(*amount).unwrap();
                    let j = self.place(*to);
                    self.accounts[j].lamports =
                        self.accounts[j].lamports.checked_add(*amount).unwrap();
                }
                Effect::WriteRecord { account, data } => {
                    let i = self.place(*account);
                    assert_eq!(self.accounts[i].owner, program_id());
                    self.accounts[i].data = data.clone();
                }
            }
        }
    }

    fn register_accounts(&mut self, seed: &str, sponsor: Option<Address>) -> Vec<AccountInfo> {
        let mut accounts = vec![
            self.handle(payer(), true, true),
            self.handle(merchant_address(seed), false, true),
            self.handle(system_program(), false, false),
            self.handle(rent_sysvar(), false, false),
        ];
        if let Some(sponsor) = sponsor {
            accounts.push(self.handle(sponsor, false, false));
        }
        accounts
    }

    fn register(
        &mut self,
        seed: &str,
        fee: Option<u64>,
        sponsor: Option<Address>,
        data: Option<&str>,
    ) -> Result<Address, PaymentError> {
        let accounts = self.register_accounts(seed, sponsor);
        let effects = process_register_merchant(
            &config(),
            &program_id(),
            &accounts,
            Some(seed.to_string()),
            fee,
            data.map(|text| text.to_string()),
        )?;
        self.apply(&effects);
        Ok(merchant_address(seed))
    }

    fn merchant(&mut self, key: Address) -> MerchantAccount {
        MerchantAccount::unpack(&self.get(key).data).unwrap().unwrap()
    }

    fn order(&mut self, key: Address) -> OrderAccount {
        OrderAccount::unpack(&self.get(key).data).unwrap().unwrap()
    }

    fn subscription(&mut self, key: Address) -> SubscriptionAccount {
        SubscriptionAccount::unpack(&self.get(key).data).unwrap().unwrap()
    }

    fn checkout_accounts(&mut self, merchant: Address, order: Address) -> Vec<AccountInfo> {
        let sponsor = self.merchant(merchant).sponsor;
        vec![
            self.handle(payer(), true, true),
            self.handle(order, true, true),
            self.handle(merchant, false, false),
            self.handle(escrow_of(order, mint()), false, true),
            self.handle(buyer_token(), false, true),
            self.handle(program_owner(), false, true),
            self.handle(sponsor, false, true),
            self.handle(mint(), false, false),
            self.handle(authority(), false, false),
            self.handle(token_program(), false, false),
            self.handle(system_program(), false, false),
            self.handle(rent_sysvar(), false, false),
        ]
    }

    fn express(
        &mut self,
        merchant: Address,
        order: Address,
        amount: u64,
        data: Option<String>,
    ) -> Result<(), PaymentError> {
        let accounts = self.checkout_accounts(merchant, order);
        let effects = process_express_checkout(
            &config(),
            &program_id(),
            &accounts,
            amount,
            "1337".to_string(),
            "hunter2".to_string(),
            data,
        )?;
        self.apply(&effects);
        Ok(())
    }

    fn chain(
        &mut self,
        merchant: Address,
        order: Address,
        amount: u64,
        items: &Vec<OrderItem>,
        data: Option<String>,
    ) -> Result<(), PaymentError> {
        let accounts = self.checkout_accounts(merchant, order);
        let effects =
            process_chain_checkout(&config(), &program_id(), &accounts, amount, items, data)?;
        self.apply(&effects);
        Ok(())
    }

    fn withdraw_accounts(
        &mut self,
        merchant: Address,
        order: Address,
        subscription: Option<Address>,
    ) -> Vec<AccountInfo> {
        let mut accounts = vec![
            self.handle(payer(), true, true),
            self.handle(order, false, true),
            self.handle(merchant, false, false),
            self.handle(escrow_of(order, mint()), false, true),
            self.handle(merchant_token(), false, true),
            self.handle(authority(), false, false),
            self.handle(token_program(), false, false),
        ];
        if let Some(subscription) = subscription {
            accounts.push(self.handle(subscription, false, false));
        }
        accounts
    }

    fn withdraw(
        &mut self,
        merchant: Address,
        order: Address,
        subscription: Option<Address>,
        now: i64,
    ) -> Result<(), PaymentError> {
        let accounts = self.withdraw_accounts(merchant, order, subscription);
        let effects = process_withdraw(&config(), &program_id(), &accounts, now)?;
        self.apply(&effects);
        Ok(())
    }

    fn subscribe_accounts(&mut self, merchant: Address, order: Address) -> Vec<AccountInfo> {
        vec![
            self.handle(payer(), true, true),
            self.handle(subscription_key(), false, true),
            self.handle(merchant, false, false),
            self.handle(order, false, false),
            self.handle(system_program(), false, false),
            self.handle(rent_sysvar(), false, false),
        ]
    }

    fn subscribe(
        &mut self,
        merchant: Address,
        order: Address,
        name: &str,
        now: i64,
    ) -> Result<(), PaymentError> {
        let accounts = self.subscribe_accounts(merchant, order);
        let effects = process_subscribe(
            &program_id(),
            &accounts,
            name.to_string(),
            None,
            now,
        )?;
        self.apply(&effects);
        Ok(())
    }

    fn renew(
        &mut self,
        merchant: Address,
        order: Address,
        quantity: i64,
    ) -> Result<(), PaymentError> {
        let accounts = vec![
            self.handle(payer(), true, true),
            self.handle(subscription_key(), false, true),
            self.handle(merchant, false, false),
            self.handle(order, false, false),
        ];
        let effects = process_renew_subscription(&program_id(), &accounts, quantity)?;
        self.apply(&effects);
        Ok(())
    }

    fn cancel_accounts(&mut self, merchant: Address, order: Address) -> Vec<AccountInfo> {
        vec![
            self.handle(payer(), true, true),
            self.handle(subscription_key(), false, true),
            self.handle(merchant, false, false),
            self.handle(order, false, true),
            self.handle(escrow_of(order, mint()), false, true),
            self.handle(refund_token(), false, true),
            self.handle(authority(), false, false),
            self.handle(token_program(), false, false),
        ]
    }

    fn cancel(&mut self, merchant: Address, order: Address, now: i64) -> Result<(), PaymentError> {
        let accounts = self.cancel_accounts(merchant, order);
        let effects = process_cancel_subscription(&config(), &program_id(), &accounts, now)?;
        self.apply(&effects);
        Ok(())
    }
}

fn subscription_order_data() -> String {
    format!("{{\"subscription\": \"{}\"}}", pubkey(subscription_key()))
}

fn items(lines: &[(&str, u64)]) -> Vec<OrderItem> {
    lines.iter().map(|(id, quantity)| OrderItem { id: id.to_string(), quantity: *quantity }).collect()
}

fn shop() -> String {
    format!(
        r#"{{
            "1": {{"price": 2000000, "mint": "{mint_key}"}},
            "2": {{"price": 3000000, "mint": "{mint_key}"}},
            "3": {{"price": 4000000, "mint": "{mint_key}"}},
            "4": {{"price": 4000000, "mint": "{mint_key}"}},
            "5": {{"price": 4000000, "mint": "{mint_key}"}}
        }}"#,
        mint_key = pubkey(mint())
    )
}

fn packages(trial: u64) -> String {
    format!(
        r#"{{"packages":[{{"name":"trialFirst","price":99,"trial":{trial},"duration":604800,"mint":"{mint}"}}]}}"#,
        trial = trial,
        mint = pubkey(mint())
    )
}

/// A merchant with the given data, an express order that pays for a
/// subscription, and the subscription itself, begun at `NOW`.
fn subscribed(data: &str, package: &str, amount: u64) -> (Ledger, Address, Address) {
    let mut ledger = Ledger::new();
    let merchant = ledger.register("demo1", None, None, Some(data)).unwrap();
    let order = key(50);
    ledger.express(merchant, order, amount, Some(subscription_order_data())).unwrap();
    ledger.subscribe(merchant, order, &format!("demo1:{}", package), NOW).unwrap();
    (ledger, merchant, order)
}

// ---------------------------------------------------------------------------
// Registration
// ---------------------------------------------------------------------------

#[test]
fn register_merchant_with_defaults() {
    let mut ledger = Ledger::new();
    let accounts = ledger.register_accounts("merchant", None);
    let effects =
        process_register_merchant(&config(), &program_id(), &accounts, None, None, None).unwrap();
    assert_eq!(effects.len(), 2);
    ledger.apply(&effects);
    let address = merchant_address("merchant");
    assert_eq!(ledger.get(address).owner, program_id());
    let merchant = ledger.merchant(address);
    assert_eq!(merchant.owner, payer());
    assert_eq!(merchant.sponsor, program_owner());
    assert_eq!(merchant.fee, DEFAULT_FEE);
    assert_eq!(merchant.seed, "merchant");
    assert_eq!(merchant.data, "{}");
    match &effects[0] {
        Effect::CreateAccount { payer: who, new_account, size, owner } => {
            assert_eq!(*who, payer());
            assert_eq!(*new_account, address);
            assert_eq!(*size as usize, merchant.pack().len());
            assert_eq!(*owner, program_id());
        }
        other => panic!("unexpected effect {:?}", other),
    }
}

#[test]
fn register_merchant_with_seed() {
    let mut ledger = Ledger::new();
    let address = ledger.register("mosh", None, None, None).unwrap();
    assert_eq!(
        pubkey(address),
        Pubkey::create_with_seed(&pubkey(payer()), "mosh", &pubkey(program_id())).unwrap()
    );
    assert_eq!(ledger.merchant(address).seed, "mosh");
}

#[test]
fn register_merchant_fee_is_at_least_the_minimum() {
    let mut ledger = Ledger::new();
    let low = ledger.register("low", Some(10), None, None).unwrap();
    assert_eq!(ledger.merchant(low).fee, MIN_FEE);
    let exact = ledger.register("exact", Some(MIN_FEE), None, None).unwrap();
    assert_eq!(ledger.merchant(exact).fee, MIN_FEE);
    let high = ledger.register("high", Some(90000), None, None).unwrap();
    assert_eq!(ledger.merchant(high).fee, 90000);
}

#[test]
fn register_merchant_with_all_stuff() {
    let mut ledger = Ledger::new();
    let data = r#"{"code":200,"success":true,"payload":{"features":["awesome","easyAPI","lowLearningCurve"]}}"#;
    let address = ledger.register("mosh", Some(90000), Some(key(9)), Some(data)).unwrap();
    let merchant = ledger.merchant(address);
    assert_eq!(merchant.data, data);
    assert_eq!(merchant.fee, 90000);
    assert_eq!(merchant.sponsor, key(9));
}

#[test]
fn register_merchant_twice_is_refused() {
    let mut ledger = Ledger::new();
    ledger.register("mosh", None, None, None).unwrap();
    assert_eq!(
        ledger.register("mosh", Some(70000), None, None),
        Err(PaymentError::AlreadyInitialized)
    );
    // Another seed makes another merchant of the same owner.
    let other = ledger.register("other", None, None, None).unwrap();
    assert_eq!(ledger.merchant(other).owner, payer());
}

#[test]
fn register_merchant_at_a_foreign_address_is_refused() {
    let mut ledger = Ledger::new();
    let mut accounts = ledger.register_accounts("mosh", None);
    accounts[1] = ledger.handle(key(99), false, true);
    assert_eq!(
        process_register_merchant(
            &config(),
            &program_id(),
            &accounts,
            Some("mosh".to_string()),
            None,
            None
        ),
        Err(PaymentError::AddressMismatch)
    );
}

#[test]
fn register_merchant_needs_its_flags_and_programs() {
    let mut ledger = Ledger::new();
    let good = ledger.register_accounts("mosh", None);
    let run = |accounts: &Vec<AccountInfo>| {
        process_register_merchant(
            &config(),
            &program_id(),
            accounts,
            Some("mosh".to_string()),
            None,
            None,
        )
    };
    let mut unsigned = good.clone();
    unsigned[0].is_signer = false;
    assert_eq!(run(&unsigned), Err(PaymentError::MalformedInstruction));
    let mut readonly = good.clone();
    readonly[1].is_writable = false;
    assert_eq!(run(&readonly), Err(PaymentError::MalformedInstruction));
    let mut short = good.clone();
    short.pop();
    assert_eq!(run(&short), Err(PaymentError::MalformedInstruction));
    let mut wrong_system = good.clone();
    wrong_system[2].key = key(8);
    assert_eq!(run(&wrong_system), Err(PaymentError::AddressMismatch));
    let mut wrong_rent = good.clone();
    wrong_rent[3].key = key(8);
    assert_eq!(run(&wrong_rent), Err(PaymentError::AddressMismatch));
    assert!(run(&good).is_ok());
}

#[test]
fn register_merchant_into_a_vacant_account() {
    let mut ledger = Ledger::new();
    let address = merchant_address("mosh");
    ledger.set_data(address, program_id(), vec![0u8; 100]);
    let accounts = ledger.register_accounts("mosh", None);
    let effects = process_register_merchant(
        &config(),
        &program_id(),
        &accounts,
        Some("mosh".to_string()),
        None,
        None,
    )
    .unwrap();
    assert_eq!(effects.len(), 1);
    assert!(matches!(effects[0], Effect::WriteRecord { .. }));
}

#[test]
fn register_merchant_into_a_foreign_or_corrupt_account() {
    let mut ledger = Ledger::new();
    let address = merchant_address("mosh");
    ledger.set_data(address, key(8), vec![0u8; 100]);
    assert_eq!(
        ledger.register("mosh", None, None, None),
        Err(PaymentError::InvalidAccountOwner)
    );
    ledger.set_data(address, program_id(), vec![9u8; 100]);
    assert_eq!(
        ledger.register("mosh", None, None, None),
        Err(PaymentError::CorruptAccountData)
    );
}

// ---------------------------------------------------------------------------
// Checkout
// ---------------------------------------------------------------------------

#[test]
fn express_checkout_pays_into_escrow() {
    let mut ledger = Ledger::new();
    let merchant = ledger.register("merchant", None, None, None).unwrap();
    let order = key(50);
    let amount = 2_000_000_000;
    let before = ledger.lamports(payer());
    ledger.express(merchant, order, amount, None).unwrap();
    assert_eq!(ledger.get(order).owner, program_id());
    let record = ledger.order(order);
    assert_eq!(record.status, OrderStatus::Paid);
    assert_eq!(record.merchant, merchant);
    assert_eq!(record.mint, mint());
    assert_eq!(record.token, escrow_of(order, mint()));
    assert_eq!(record.payer, payer());
    assert_eq!(record.expected_amount, amount);
    assert_eq!(record.paid_amount, amount);
    assert_eq!(record.order_id, "1337");
    assert_eq!(record.secret, "hunter2");
    assert_eq!(record.data, "{}");
    // The escrow account is the program's own token account of the mint.
    let escrow = TokenAccount::unpack(&ledger.get(escrow_of(order, mint())).data).unwrap();
    assert_eq!(escrow.amount, amount);
    assert_eq!(escrow.owner.to_bytes(), authority().to_bytes());
    assert_eq!(escrow.mint.to_bytes(), mint().to_bytes());
    // The program owner sponsors the merchant: the whole fee goes to it.
    assert_eq!(ledger.lamports(program_owner()), DEFAULT_FEE);
    assert_eq!(ledger.lamports(payer()), before - DEFAULT_FEE);
}

#[test]
fn express_checkout_with_all_options() {
    let mut ledger = Ledger::new();
    let sponsor = key(9);
    let merchant = ledger
        .register("Oo", Some(123456), Some(sponsor), Some(r#"{"foo": "bar"}"#))
        .unwrap();
    let order = key(50);
    ledger.express(merchant, order, 2_000_000_000, Some(r#"{"a": "b"}"#.to_string())).unwrap();
    assert_eq!(ledger.order(order).data, r#"{"a": "b"}"#);
    // 123456 * 30 / 10000 = 370 and a remainder that stays with the owner.
    assert_eq!(ledger.lamports(sponsor), 370);
    assert_eq!(ledger.lamports(program_owner()), 123456 - 370);
}

#[test]
fn express_checkout_effects_in_order() {
    let mut ledger = Ledger::new();
    let merchant = ledger.register("merchant", None, None, None).unwrap();
    let order = key(50);
    let accounts = ledger.checkout_accounts(merchant, order);
    let effects = process_express_checkout(
        &config(),
        &program_id(),
        &accounts,
        7,
        "id".to_string(),
        "s".to_string(),
        None,
    )
    .unwrap();
    let record = OrderAccount::paid(
        merchant,
        mint(),
        escrow_of(order, mint()),
        payer(),
        7,
        "id".to_string(),
        "s".to_string(),
        "{}".to_string(),
    );
    assert_eq!(
        effects,
        vec![
            Effect::CreateAccount {
                payer: payer(),
                new_account: order,
                size: record.pack().len() as u64,
                owner: program_id(),
            },
            Effect::CreateAccount {
                payer: payer(),
                new_account: escrow_of(order, mint()),
                size: TokenAccount::LEN as u64,
                owner: token_program(),
            },
            Effect::InitializeTokenAccount {
                account: escrow_of(order, mint()),
                mint: mint(),
                authority: authority(),
            },
            Effect::TransferTokens {
                from: buyer_token(),
                to: escrow_of(order, mint()),
                authority: payer(),
                amount: 7,
            },
            Effect::TransferLamports { from: payer(), to: program_owner(), amount: DEFAULT_FEE },
            Effect::WriteRecord { account: order, data: record.pack() },
        ]
    );
}

#[test]
fn checkout_rejects_substituted_addresses() {
    let mut ledger = Ledger::new();
    let merchant = ledger.register("merchant", None, Some(key(9)), None).unwrap();
    let order = key(50);
    let good = ledger.checkout_accounts(merchant, order);
    let run = |accounts: &Vec<AccountInfo>| {
        process_express_checkout(
            &config(),
            &program_id(),
            accounts,
            5,
            "id".to_string(),
            "s".to_string(),
            None,
        )
    };
    assert!(run(&good).is_ok());
    for place in [3usize, 5, 6, 8, 9, 10, 11] {
        let mut accounts = good.clone();
        accounts[place].key = key(123);
        assert_eq!(run(&accounts), Err(PaymentError::AddressMismatch), "place {}", place);
    }
    // Another mint or another order makes another escrow account.
    let mut accounts = good.clone();
    accounts[7].key = key(123);
    assert_eq!(run(&accounts), Err(PaymentError::AddressMismatch));
    let mut accounts = good.clone();
    accounts[1].key = key(123);
    assert_eq!(run(&accounts), Err(PaymentError::AddressMismatch));
}

#[test]
fn checkout_rejects_wrong_flags_and_counts() {
    let mut ledger = Ledger::new();
    let merchant = ledger.register("merchant", None, None, None).unwrap();
    let good = ledger.checkout_accounts(merchant, key(50));
    let run = |accounts: &Vec<AccountInfo>| {
        process_express_checkout(
            &config(),
            &program_id(),
            accounts,
            5,
            "id".to_string(),
            "s".to_string(),
            None,
        )
    };
    let mut unsigned = good.clone();
    unsigned[0].is_signer = false;
    assert_eq!(run(&unsigned), Err(PaymentError::MalformedInstruction));
    for place in [1usize, 3, 4, 5, 6] {
        let mut accounts = good.clone();
        accounts[place].is_writable = false;
        assert_eq!(run(&accounts), Err(PaymentError::MalformedInstruction), "place {}", place);
    }
    let mut short = good.clone();
    short.pop();
    assert_eq!(run(&short), Err(PaymentError::MalformedInstruction));
    let mut long = good.clone();
    long.push(good[0].clone());
    assert_eq!(run(&long), Err(PaymentError::MalformedInstruction));
}

#[test]
fn checkout_needs_a_registered_merchant() {
    let mut ledger = Ledger::new();
    let merchant = ledger.register("merchant", None, None, None).unwrap();
    let order = key(50);
    let run = |accounts: &Vec<AccountInfo>| {
        process_express_checkout(
            &config(),
            &program_id(),
            accounts,
            5,
            "id".to_string(),
            "s".to_string(),
            None,
        )
    };
    let mut foreign = ledger.checkout_accounts(merchant, order);
    foreign[2].owner = key(8);
    assert_eq!(run(&foreign), Err(PaymentError::InvalidAccountOwner));
    let mut vacant = ledger.checkout_accounts(merchant, order);
    vacant[2].data = vec![0u8; 64];
    assert_eq!(run(&vacant), Err(PaymentError::NotInitialized));
    let mut corrupt = ledger.checkout_accounts(merchant, order);
    corrupt[2].data.push(0);
    assert_eq!(run(&corrupt), Err(PaymentError::CorruptAccountData));
    let mut empty = ledger.checkout_accounts(merchant, order);
    empty[2].data = Vec::new();
    assert_eq!(run(&empty), Err(PaymentError::CorruptAccountData));
}

#[test]
fn checkout_into_an_existing_order_is_refused() {
    let mut ledger = Ledger::new();
    let merchant = ledger.register("merchant", None, None, None).unwrap();
    let order = key(50);
    ledger.express(merchant, order, 5, None).unwrap();
    let mut accounts = ledger.checkout_accounts(merchant, order);
    accounts[3].data = Vec::new();
    assert_eq!(
        process_express_checkout(
            &config(),
            &program_id(),
            &accounts,
            5,
            "id".to_string(),
            "s".to_string(),
            None
        ),
        Err(PaymentError::AlreadyInitialized)
    );
}

#[test]
fn chain_checkout_scenario() {
    let mut ledger = Ledger::new();
    let merchant = ledger.register("chain", None, None, Some(&shop())).unwrap();
    assert_eq!(ledger.merchant(merchant).fee, DEFAULT_FEE);
    let order = key(50);
    let order_items = items(&[("1", 1), ("3", 1)]);
    let amount = 2_000_000 + 4_000_000;
    ledger.chain(merchant, order, amount, &order_items, None).unwrap();
    let record = ledger.order(order);
    assert_eq!(record.status, OrderStatus::Paid);
    assert_eq!(record.merchant, merchant);
    assert_eq!(record.mint, mint());
    assert_eq!(record.token, escrow_of(order, mint()));
    assert_eq!(record.payer, payer());
    assert_eq!(record.expected_amount, amount);
    assert_eq!(record.paid_amount, amount);
    assert_eq!(record.data, r#"{"paid":{"1":1,"3":1}}"#);
    let mut paid = serde_json::Map::new();
    paid.insert("1".to_string(), serde_json::Value::from(1u64));
    paid.insert("3".to_string(), serde_json::Value::from(1u64));
    let mut expected = serde_json::Map::new();
    expected.insert("paid".to_string(), serde_json::Value::Object(paid));
    assert_eq!(serde_json::Value::Object(expected).to_string(), record.data);
    assert_eq!(ledger.tokens(escrow_of(order, mint())), amount);
    assert_eq!(ledger.lamports(program_owner()), DEFAULT_FEE);
}

#[test]
fn chain_checkout_keeps_what_the_buyer_sent() {
    let mut ledger = Ledger::new();
    let merchant = ledger.register("chain", None, None, Some(&shop())).unwrap();
    let order = key(50);
    let order_items = items(&[("2", 3)]);
    let sent = r#"{"b": [1, -2, 2.5, "x", null, true], "a": {"n": 18446744073709551615}}"#;
    ledger.chain(merchant, order, 9_000_000, &order_items, Some(sent.to_string())).unwrap();
    let initial: serde_json::Value = serde_json::from_str(sent).unwrap();
    let mut paid = serde_json::Map::new();
    paid.insert("2".to_string(), serde_json::Value::from(3u64));
    let mut expected = serde_json::Map::new();
    expected.insert("initial".to_string(), initial);
    expected.insert("paid".to_string(), serde_json::Value::Object(paid));
    assert_eq!(ledger.order(order).data, serde_json::Value::Object(expected).to_string());
    assert_eq!(
        ledger.order(order).data,
        r#"{"initial":{"a":{"n":18446744073709551615},"b":[1,-2,2.5,"x",null,true]},"paid":{"2":3}}"#
    );
}

#[test]
fn chain_checkout_amount_has_to_be_the_total() {
    let mut ledger = Ledger::new();
    let merchant = ledger.register("chain", None, None, Some(&shop())).unwrap();
    let order_items = items(&[("1", 1), ("3", 1)]);
    for amount in [0u64, 5_999_999, 6_000_001, 2_000_000_000] {
        assert_eq!(
            ledger.chain(merchant, key(50), amount, &order_items, None),
            Err(PaymentError::InsufficientPayment)
        );
    }
    assert_eq!(ledger.chain(merchant, key(50), 6_000_000, &order_items, None), Ok(()));
    // Quantities count.
    let order_items = items(&[("1", 2), ("5", 10)]);
    assert_eq!(ledger.chain(merchant, key(51), 44_000_000, &order_items, None), Ok(()));
    // An order of nothing costs nothing.
    assert_eq!(ledger.chain(merchant, key(52), 0, &items(&[]), None), Ok(()));
}

#[test]
fn chain_checkout_of_unknown_items_is_refused() {
    let mut ledger = Ledger::new();
    let merchant = ledger.register("chain", None, None, Some(&shop())).unwrap();
    assert_eq!(
        ledger.chain(merchant, key(50), 2_000_000, &items(&[("1", 1), ("9", 1)]), None),
        Err(PaymentError::InvalidOrderItems)
    );
    let plain = ledger.register("plain", None, None, Some("what is?")).unwrap();
    assert_eq!(
        ledger.chain(plain, key(50), 0, &items(&[]), None),
        Err(PaymentError::InvalidOrderItems)
    );
    let unpriced = ledger
        .register("unpriced", None, None, Some(r#"{"1": {"price": "2"}, "2": {"price": -2}, "3": 5}"#))
        .unwrap();
    for id in ["1", "2", "3"] {
        assert_eq!(
            ledger.chain(unpriced, key(50), 0, &items(&[(id, 1)]), None),
            Err(PaymentError::InvalidOrderItems)
        );
    }
}

#[test]
fn chain_checkout_total_out_of_range_is_refused() {
    let mut ledger = Ledger::new();
    let merchant = ledger.register("chain", None, None, Some(&shop())).unwrap();
    assert_eq!(
        ledger.chain(merchant, key(50), 1, &items(&[("1", u64::MAX)]), None),
        Err(PaymentError::ArithmeticOverflow)
    );
    assert_eq!(
        ledger.chain(
            merchant,
            key(50),
            1,
            &items(&[("1", u64::MAX / 2_000_000), ("2", u64::MAX / 3_000_000)]),
            None
        ),
        Err(PaymentError::ArithmeticOverflow)
    );
}

#[test]
fn chain_checkout_with_data_that_is_not_json_is_refused() {
    let mut ledger = Ledger::new();
    let merchant = ledger.register("chain", None, None, Some(&shop())).unwrap();
    assert_eq!(
        ledger.chain(merchant, key(50), 2_000_000, &items(&[("1", 1)]), Some("nope".to_string())),
        Err(PaymentError::MalformedInstruction)
    );
}

// ---------------------------------------------------------------------------
// Withdrawal
// ---------------------------------------------------------------------------

#[test]
fn withdraw_releases_the_payment() {
    let mut ledger = Ledger::new();
    let merchant = ledger.register("merchant", None, None, None).unwrap();
    let order = key(50);
    let amount = 1234567890;
    ledger.express(merchant, order, amount, None).unwrap();
    ledger.withdraw(merchant, order, None, NOW).unwrap();
    let record = ledger.order(order);
    assert_eq!(record.status, OrderStatus::Withdrawn);
    assert_eq!(record.expected_amount, amount);
    assert_eq!(record.paid_amount, amount);
    assert_eq!(record.order_id, "1337");
    assert_eq!(record.secret, "hunter2");
    assert_eq!(ledger.tokens(merchant_token()), amount);
    assert_eq!(ledger.tokens(escrow_of(order, mint())), 0);
}

#[test]
fn withdraw_twice_fails_the_second_time() {
    let mut ledger = Ledger::new();
    let merchant = ledger.register("merchant", None, None, None).unwrap();
    let order = key(50);
    ledger.express(merchant, order, 1000, None).unwrap();
    assert_eq!(ledger.withdraw(merchant, order, None, NOW), Ok(()));
    assert_eq!(
        ledger.withdraw(merchant, order, None, NOW),
        Err(PaymentError::InvalidOrderStatus)
    );
    assert_eq!(
        ledger.withdraw(merchant, order, None, NOW + 1),
        Err(PaymentError::InvalidOrderStatus)
    );
    assert_eq!(ledger.tokens(merchant_token()), 1000);
    assert_eq!(ledger.order(order).status, OrderStatus::Withdrawn);
}

#[test]
fn withdraw_moves_the_whole_balance_in_escrow() {
    let mut ledger = Ledger::new();
    let merchant = ledger.register("merchant", None, None, None).unwrap();
    let order = key(50);
    ledger.express(merchant, order, 1000, None).unwrap();
    let escrow = escrow_of(order, mint());
    ledger.set_data(escrow, token_program(), token_bytes(mint(), authority(), 1500));
    let accounts = ledger.withdraw_accounts(merchant, order, None);
    let effects = process_withdraw(&config(), &program_id(), &accounts, NOW).unwrap();
    assert_eq!(
        effects[0],
        Effect::TransferTokens {
            from: escrow,
            to: merchant_token(),
            authority: authority(),
            amount: 1500
        }
    );
}

#[test]
fn withdraw_goes_to_the_merchant_owner_only() {
    let mut ledger = Ledger::new();
    let merchant = ledger.register("merchant", None, None, None).unwrap();
    let order = key(50);
    ledger.express(merchant, order, 1000, None).unwrap();
    ledger.set_data(merchant_token(), token_program(), token_bytes(mint(), key(66), 0));
    assert_eq!(
        ledger.withdraw(merchant, order, None, NOW),
        Err(PaymentError::AddressMismatch)
    );
    ledger.set_data(merchant_token(), token_program(), vec![1u8; 10]);
    assert_eq!(
        ledger.withdraw(merchant, order, None, NOW),
        Err(PaymentError::CorruptAccountData)
    );
}

#[test]
fn withdraw_rejects_substituted_accounts() {
    let mut ledger = Ledger::new();
    let merchant = ledger.register("merchant", None, None, None).unwrap();
    let other = ledger.register("other", None, None, None).unwrap();
    let order = key(50);
    ledger.express(merchant, order, 1000, None).unwrap();
    let good = ledger.withdraw_accounts(merchant, order, None);
    let run = |accounts: &Vec<AccountInfo>| process_withdraw(&config(), &program_id(), accounts, NOW);
    // Another merchant.
    let mut accounts = good.clone();
    accounts[2] = ledger.handle(other, false, false);
    assert_eq!(run(&accounts), Err(PaymentError::AddressMismatch));
    // Another escrow account, another authority, another token program.
    for place in [3usize, 5, 6] {
        let mut accounts = good.clone();
        accounts[place].key = key(123);
        assert_eq!(run(&accounts), Err(PaymentError::AddressMismatch), "place {}", place);
    }
    // An order account that the program does not own.
    let mut accounts = good.clone();
    accounts[1].owner = key(8);
    assert_eq!(run(&accounts), Err(PaymentError::InvalidAccountOwner));
    // Flags and counts.
    let mut accounts = good.clone();
    accounts[0].is_signer = false;
    assert_eq!(run(&accounts), Err(PaymentError::MalformedInstruction));
    let mut accounts = good.clone();
    accounts.truncate(6);
    assert_eq!(run(&accounts), Err(PaymentError::MalformedInstruction));
    assert!(run(&good).is_ok());
}

// ---------------------------------------------------------------------------
// Subscriptions
// ---------------------------------------------------------------------------

fn two_packages() -> String {
    format!(
        r#"{{"packages":[{{"name":"basic","price":1000000,"duration":720,"mint":"{mint}"}},{{"name":"annual","price":11000000,"duration":262800,"mint":"{mint}"}}]}}"#,
        mint = pubkey(mint())
    )
}

#[test]
fn subscribe_begins_a_period() {
    let mut ledger = Ledger::new();
    let merchant = ledger.register("cable", None, None, Some(&two_packages())).unwrap();
    let order = key(50);
    ledger.express(merchant, order, 1000000, Some(subscription_order_data())).unwrap();
    ledger.subscribe(merchant, order, "cable subscription:basic", NOW).unwrap();
    assert_eq!(ledger.get(subscription_key()).owner, program_id());
    let subscription = ledger.subscription(subscription_key());
    assert_eq!(subscription.status, SubscriptionStatus::Initialized);
    assert_eq!(subscription.name, "cable subscription:basic");
    assert_eq!(subscription.owner, payer());
    assert_eq!(subscription.merchant, merchant);
    assert_eq!(subscription.period_start, NOW);
    assert_eq!(subscription.period_end, NOW + 720);
    assert_eq!(
        subscription.data,
        r#"{"package":{"duration":720,"name":"basic","price":1000000,"trial":0}}"#
    );
}

#[test]
fn subscribe_keeps_what_the_subscriber_sent() {
    let mut ledger = Ledger::new();
    let merchant = ledger.register("cable", None, None, Some(&two_packages())).unwrap();
    let order = key(50);
    ledger.express(merchant, order, 11000000, Some(subscription_order_data())).unwrap();
    let accounts = ledger.subscribe_accounts(merchant, order);
    let effects = process_subscribe(
        &program_id(),
        &accounts,
        "cable:annual".to_string(),
        Some("say \"hi\"".to_string()),
        NOW,
    )
    .unwrap();
    ledger.apply(&effects);
    let subscription = ledger.subscription(subscription_key());
    assert_eq!(subscription.period_end - subscription.period_start, 262800);
    assert_eq!(
        subscription.data,
        r#"{"data":"say \"hi\"","package":{"duration":262800,"name":"annual","price":11000000,"trial":0}}"#
    );
}

#[test]
fn subscribe_no_packages() {
    let mut ledger = Ledger::new();
    let merchant = ledger.register("cable", None, None, Some(r#"{"packages":[]}"#)).unwrap();
    let order = key(50);
    ledger.express(merchant, order, 1337, Some(subscription_order_data())).unwrap();
    assert_eq!(
        ledger.subscribe(merchant, order, "cable subscription:basic", NOW),
        Err(PaymentError::NoPackagesDefined)
    );
}

#[test]
fn subscribe_no_packages_json() {
    let mut ledger = Ledger::new();
    let merchant = ledger.register("sub", None, None, Some("{}")).unwrap();
    let order = key(50);
    ledger.express(merchant, order, 250, Some(subscription_order_data())).unwrap();
    assert_eq!(
        ledger.subscribe(merchant, order, "sub:package", NOW),
        Err(PaymentError::NoPackagesDefined)
    );
}

#[test]
fn subscribe_no_json() {
    let mut ledger = Ledger::new();
    let merchant = ledger.register("sub", None, None, Some("what is?")).unwrap();
    let order = key(50);
    ledger.express(merchant, order, 250, Some(subscription_order_data())).unwrap();
    assert_eq!(
        ledger.subscribe(merchant, order, "sub:package", NOW),
        Err(PaymentError::NoPackagesDefined)
    );
}

#[test]
fn subscribe_duplicate_packages() {
    let data = format!(
        r#"{{"packages":[{{"name":"a","price":100,"duration":720,"mint":"{mint}"}},{{"name":"a","price":222,"duration":262800,"mint":"{mint}"}}]}}"#,
        mint = pubkey(mint())
    );
    let mut ledger = Ledger::new();
    let merchant = ledger.register("cable", None, None, Some(&data)).unwrap();
    let order = key(50);
    ledger.express(merchant, order, 100, Some(subscription_order_data())).unwrap();
    ledger.subscribe(merchant, order, "cable subscription:a", NOW).unwrap();
    let subscription = ledger.subscription(subscription_key());
    assert_eq!(720, subscription.period_end - subscription.period_start);
}

#[test]
fn subscribe_package_not_found() {
    let data = format!(
        r#"{{"packages":[{{"name":"a","price":100,"duration":720,"mint":"{mint}"}}]}}"#,
        mint = pubkey(mint())
    );
    let mut ledger = Ledger::new();
    let merchant = ledger.register("cable", None, None, Some(&data)).unwrap();
    let order = key(50);
    ledger.express(merchant, order, 100, Some(subscription_order_data())).unwrap();
    assert_eq!(
        ledger.subscribe(merchant, order, "cable subscription:zz", NOW),
        Err(PaymentError::PackageNotFound)
    );
}

#[test]
fn subscribe_not_enough_paid() {
    let data = format!(
        r#"{{"packages":[{{"name":"basic","price":100,"duration":720,"mint":"{mint}"}}]}}"#,
        mint = pubkey(mint())
    );
    let mut ledger = Ledger::new();
    let merchant = ledger.register("Netflix", None, None, Some(&data)).unwrap();
    let order = key(50);
    ledger.express(merchant, order, 10, Some(subscription_order_data())).unwrap();
    assert_eq!(
        ledger.subscribe(merchant, order, "Netflix:basic", NOW),
        Err(PaymentError::InsufficientPayment)
    );
}

#[test]
fn subscribe_needs_a_name_with_a_package() {
    let mut ledger = Ledger::new();
    let merchant = ledger.register("cable", None, None, Some(&two_packages())).unwrap();
    let order = key(50);
    ledger.express(merchant, order, 1000000, Some(subscription_order_data())).unwrap();
    assert_eq!(
        ledger.subscribe(merchant, order, "basic", NOW),
        Err(PaymentError::MalformedInstruction)
    );
    // What follows the first colon is the package, colons and all.
    assert_eq!(
        ledger.subscribe(merchant, order, "cable:basic:x", NOW),
        Err(PaymentError::PackageNotFound)
    );
    assert_eq!(ledger.subscribe(merchant, order, ":basic", NOW), Ok(()));
}

#[test]
fn subscribe_needs_the_order_that_paid_for_it() {
    let mut ledger = Ledger::new();
    let merchant = ledger.register("cable", None, None, Some(&two_packages())).unwrap();
    let unlinked = key(50);
    ledger.express(merchant, unlinked, 1000000, None).unwrap();
    assert_eq!(
        ledger.subscribe(merchant, unlinked, "cable:basic", NOW),
        Err(PaymentError::InvalidSubscriptionLink)
    );
    let elsewhere = key(51);
    let data = format!("{{\"subscription\": \"{}\"}}", pubkey(key(78)));
    ledger.express(merchant, elsewhere, 1000000, Some(data)).unwrap();
    assert_eq!(
        ledger.subscribe(merchant, elsewhere, "cable:basic", NOW),
        Err(PaymentError::InvalidSubscriptionLink)
    );
    let plain = key(52);
    ledger.express(merchant, plain, 1000000, Some("no json".to_string())).unwrap();
    assert_eq!(
        ledger.subscribe(merchant, plain, "cable:basic", NOW),
        Err(PaymentError::InvalidSubscriptionLink)
    );
    let withdrawn = key(53);
    ledger.express(merchant, withdrawn, 1000000, Some(subscription_order_data())).unwrap();
    ledger.withdraw(merchant, withdrawn, None, NOW).unwrap();
    assert_eq!(
        ledger.subscribe(merchant, withdrawn, "cable:basic", NOW),
        Err(PaymentError::InvalidOrderStatus)
    );
}

#[test]
fn subscribe_twice_is_refused() {
    let (mut ledger, merchant, order) = subscribed(&packages(0), "trialFirst", 1000000);
    assert_eq!(
        ledger.subscribe(merchant, order, "demo1:trialFirst", NOW + 5),
        Err(PaymentError::AlreadyInitialized)
    );
}

#[test]
fn subscribe_end_out_of_range_is_refused() {
    let (mut ledger, merchant, order) = subscribed(&packages(0), "trialFirst", 1000000);
    ledger.set_data(subscription_key(), system_program(), Vec::new());
    assert_eq!(
        ledger.subscribe(merchant, order, "demo1:trialFirst", i64::MAX - 604799),
        Err(PaymentError::ArithmeticOverflow)
    );
    assert_eq!(ledger.subscribe(merchant, order, "demo1:trialFirst", i64::MAX - 604800), Ok(()));
    assert_eq!(ledger.subscription(subscription_key()).period_end, i64::MAX);
}

#[test]
fn subscription_renewal() {
    let data = format!(
        r#"{{"packages":[{{"name":"short","price":999999,"duration":1,"mint":"{mint}"}}]}}"#,
        mint = pubkey(mint())
    );
    let (mut ledger, merchant, _) = subscribed(&data, "short", 1000000);
    let before = ledger.subscription(subscription_key());
    let renewal = key(60);
    ledger.express(merchant, renewal, 999999 * 600, Some(subscription_order_data())).unwrap();
    ledger.renew(merchant, renewal, 600).unwrap();
    let after = ledger.subscription(subscription_key());
    assert_eq!(before.period_end + 600, after.period_end);
    assert_eq!(before.period_start, after.period_start);
    assert_eq!(after.status, SubscriptionStatus::Initialized);
    assert_eq!(after.data, before.data);
}

#[test]
fn renewal_uses_the_package_as_it_was() {
    let data = format!(
        r#"{{"packages":[{{"name":"short","price":10,"duration":100,"mint":"{mint}"}}]}}"#,
        mint = pubkey(mint())
    );
    let (mut ledger, merchant, _) = subscribed(&data, "short", 10);
    // The merchant changes its catalog; the subscription keeps its terms.
    let mut record = ledger.merchant(merchant);
    record.data = r#"{"packages":[{"name":"short","price":1000,"duration":1}]}"#.to_string();
    ledger.set_data(merchant, program_id(), record.pack());
    let renewal = key(60);
    ledger.express(merchant, renewal, 20, Some(subscription_order_data())).unwrap();
    ledger.renew(merchant, renewal, 2).unwrap();
    assert_eq!(ledger.subscription(subscription_key()).period_end, NOW + 100 + 200);
}

#[test]
fn renewal_has_to_be_paid_for() {
    let data = format!(
        r#"{{"packages":[{{"name":"short","price":10,"duration":100,"mint":"{mint}"}}]}}"#,
        mint = pubkey(mint())
    );
    let (mut ledger, merchant, _) = subscribed(&data, "short", 10);
    let renewal = key(60);
    ledger.express(merchant, renewal, 29, Some(subscription_order_data())).unwrap();
    assert_eq!(ledger.renew(merchant, renewal, 3), Err(PaymentError::InsufficientPayment));
    assert_eq!(ledger.renew(merchant, renewal, -1), Err(PaymentError::MalformedInstruction));
    assert_eq!(ledger.renew(merchant, renewal, i64::MAX), Err(PaymentError::ArithmeticOverflow));
    assert_eq!(ledger.renew(merchant, renewal, 2), Ok(()));
    assert_eq!(ledger.renew(merchant, renewal, 0), Ok(()));
    assert_eq!(ledger.subscription(subscription_key()).period_end, NOW + 300);
    let unlinked = key(61);
    ledger.express(merchant, unlinked, 100, None).unwrap();
    assert_eq!(ledger.renew(merchant, unlinked, 1), Err(PaymentError::InvalidSubscriptionLink));
}

#[test]
fn withdraw_during_trial() {
    // A trial of no length is over at once.
    let (mut ledger, merchant, order) = subscribed(&packages(0), "trialFirst", 1000000);
    assert_eq!(ledger.withdraw(merchant, order, Some(subscription_key()), NOW), Ok(()));
    assert_eq!(ledger.tokens(merchant_token()), 1000000);
}

#[test]
fn cannot_withdraw_during_trial() {
    let (mut ledger, merchant, order) = subscribed(&packages(604800), "trialFirst", 1000000);
    assert_eq!(
        ledger.withdraw(merchant, order, Some(subscription_key()), NOW),
        Err(PaymentError::InvalidOrderStatus)
    );
    assert_eq!(
        ledger.withdraw(merchant, order, Some(subscription_key()), NOW + 604799),
        Err(PaymentError::InvalidOrderStatus)
    );
    assert_eq!(ledger.order(order).status, OrderStatus::Paid);
    assert_eq!(ledger.withdraw(merchant, order, Some(subscription_key()), NOW + 604800), Ok(()));
    assert_eq!(ledger.order(order).status, OrderStatus::Withdrawn);
}

#[test]
fn cancel_subscription_during_trial() {
    let (mut ledger, merchant, order) = subscribed(&packages(604800), "trialFirst", 1000000);
    let previous = ledger.subscription(subscription_key());
    assert_eq!(previous.status, SubscriptionStatus::Initialized);
    ledger.cancel(merchant, order, NOW + 604799).unwrap();
    let subscription = ledger.subscription(subscription_key());
    assert_eq!(subscription.status, SubscriptionStatus::Cancelled);
    assert!(previous.period_end > subscription.period_end);
    assert_eq!(subscription.period_end, subscription.period_start);
    let record = ledger.order(order);
    assert_eq!(record.status, OrderStatus::Cancelled);
    assert_eq!(ledger.tokens(escrow_of(order, mint())), 0);
    assert_eq!(record.paid_amount, ledger.tokens(refund_token()));
    // A cancelled order never changes again.
    assert_eq!(
        ledger.withdraw(merchant, order, None, NOW + 10_000_000),
        Err(PaymentError::InvalidOrderStatus)
    );
    assert_eq!(
        ledger.cancel(merchant, order, NOW),
        Err(PaymentError::InvalidOrderStatus)
    );
}

#[test]
fn cancel_subscription_after_trial() {
    let (mut ledger, merchant, order) = subscribed(&packages(0), "trialFirst", 1000000);
    let previous = ledger.subscription(subscription_key());
    ledger.cancel(merchant, order, NOW).unwrap();
    let subscription = ledger.subscription(subscription_key());
    assert_eq!(previous.status, SubscriptionStatus::Initialized);
    assert_eq!(subscription.status, SubscriptionStatus::Cancelled);
    assert_eq!(previous.period_end, subscription.period_end);
    let record = ledger.order(order);
    assert_eq!(record.status, OrderStatus::Paid);
    assert_eq!(record.paid_amount, ledger.tokens(escrow_of(order, mint())));
    assert_eq!(0, ledger.tokens(refund_token()));
}

#[test]
fn cancel_at_the_end_of_the_trial_refunds_nothing() {
    let (mut ledger, merchant, order) = subscribed(&packages(604800), "trialFirst", 1000000);
    ledger.cancel(merchant, order, NOW + 604800).unwrap();
    assert_eq!(ledger.order(order).status, OrderStatus::Paid);
    assert_eq!(ledger.tokens(refund_token()), 0);
    assert_eq!(ledger.subscription(subscription_key()).period_end, NOW + 604800);
}

#[test]
fn cancel_after_withdrawal_in_trial_is_refused() {
    let (mut ledger, merchant, order) = subscribed(&packages(604800), "trialFirst", 1000000);
    // Withdrawn without naming the subscription, the order is final.
    ledger.withdraw(merchant, order, None, NOW).unwrap();
    assert_eq!(ledger.cancel(merchant, order, NOW + 1), Err(PaymentError::InvalidOrderStatus));
    assert_eq!(ledger.subscription(subscription_key()).status, SubscriptionStatus::Initialized);
}

#[test]
fn only_the_subscriber_cancels() {
    let (mut ledger, merchant, order) = subscribed(&packages(604800), "trialFirst", 1000000);
    let mut accounts = ledger.cancel_accounts(merchant, order);
    accounts[0] = ledger.handle(key(66), true, true);
    assert_eq!(
        process_cancel_subscription(&config(), &program_id(), &accounts, NOW),
        Err(PaymentError::AddressMismatch)
    );
    let mut accounts = ledger.cancel_accounts(merchant, order);
    accounts[4].key = key(123);
    assert_eq!(
        process_cancel_subscription(&config(), &program_id(), &accounts, NOW),
        Err(PaymentError::AddressMismatch)
    );
    let mut accounts = ledger.cancel_accounts(merchant, order);
    accounts[6].key = key(123);
    assert_eq!(
        process_cancel_subscription(&config(), &program_id(), &accounts, NOW),
        Err(PaymentError::AddressMismatch)
    );
}

#[test]
fn subscription_data_that_keeps_no_package_is_corrupt() {
    let (mut ledger, merchant, order) = subscribed(&packages(604800), "trialFirst", 1000000);
    let mut record = ledger.subscription(subscription_key());
    record.data = "{}".to_string();
    ledger.set_data(subscription_key(), program_id(), record.pack());
    assert_eq!(ledger.cancel(merchant, order, NOW), Err(PaymentError::CorruptAccountData));
    assert_eq!(ledger.renew(merchant, order, 1), Err(PaymentError::CorruptAccountData));
    assert_eq!(
        ledger.withdraw(merchant, order, Some(subscription_key()), NOW),
        Err(PaymentError::CorruptAccountData)
    );
}

// ---------------------------------------------------------------------------
// From bytes
// ---------------------------------------------------------------------------

#[test]
fn instructions_are_decided_from_their_bytes() {
    let mut ledger = Ledger::new();
    let accounts = ledger.register_accounts("chain", None);
    let input = PaymentProcessorInstruction::RegisterMerchant {
        seed: Some("chain".to_string()),
        fee: None,
        data: Some(shop()),
    }
    .pack();
    let effects = process_instruction(&config(), &program_id(), &accounts, &input, NOW).unwrap();
    ledger.apply(&effects);
    let merchant = merchant_address("chain");
    let order = key(50);
    let accounts = ledger.checkout_accounts(merchant, order);
    let input = PaymentProcessorInstruction::ChainCheckout {
        amount: 6_000_000,
        order_items: items(&[("1", 1), ("3", 1)]),
        data: None,
    }
    .pack();
    let effects = process_instruction(&config(), &program_id(), &accounts, &input, NOW).unwrap();
    ledger.apply(&effects);
    assert_eq!(ledger.tokens(escrow_of(order, mint())), 6_000_000);
    let accounts = ledger.withdraw_accounts(merchant, order, None);
    let effects = process_instruction(&config(), &program_id(), &accounts, &[3u8], NOW).unwrap();
    ledger.apply(&effects);
    assert_eq!(ledger.order(order).status, OrderStatus::Withdrawn);
    assert_eq!(
        process_instruction(&config(), &program_id(), &accounts, &[3u8, 1], NOW),
        Err(PaymentError::MalformedInstruction)
    );
    assert_eq!(
        process_instruction(&config(), &program_id(), &accounts, &[], NOW),
        Err(PaymentError::MalformedInstruction)
    );
}
