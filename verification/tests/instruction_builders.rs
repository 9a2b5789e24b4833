use sol_payment_processor::address::Address;
use sol_payment_processor::instruction::{
    cancel_subscription, chain_checkout, express_checkout, register_merchant, renew_subscription,
    subscribe, withdraw, AccountMeta, OrderItem, PaymentProcessorInstruction,
};

fn key(n: u8) -> Address {
    Address::new([n; 32])
}

#[allow(deprecated)]
fn system_program() -> Address {
    Address::new(solana_program::system_program::id().to_bytes())
}

fn rent_sysvar() -> Address {
    Address::new(solana_program::sysvar::rent::id().to_bytes())
}

fn token_program() -> Address {
    Address::new(spl_token::id().to_bytes())
}

#[test]
fn well_known_addresses_are_the_documented_ones() {
    assert_eq!(system_program().to_bytes(), [0u8; 32]);
    assert_eq!(
        rent_sysvar().to_bytes(),
        [
            6, 167, 213, 23, 25, 44, 92, 81, 33, 140, 201, 76, 61, 74, 241, 127, 88, 218, 238, 8,
            155, 161, 253, 68, 227, 219, 217, 138, 0, 0, 0, 0
        ]
    );
    assert_eq!(
        token_program().to_bytes(),
        [
            6, 221, 246, 225, 215, 101, 161, 147, 217, 203, 225, 70, 206, 235, 121, 172, 28, 180,
            133, 237, 95, 91, 55, 145, 58, 140, 245, 133, 126, 255, 0, 169
        ]
    );
}

#[test]
fn account_meta_constructors() {
    assert_eq!(
        AccountMeta::new(key(1), true),
        AccountMeta { pubkey: key(1), is_signer: true, is_writable: true }
    );
    assert_eq!(
        AccountMeta::new_readonly(key(1), false),
        AccountMeta { pubkey: key(1), is_signer: false, is_writable: false }
    );
    let theirs = solana_program::instruction::AccountMeta::new(
        solana_program::pubkey::Pubkey::new_from_array([1; 32]),
        true,
    );
    let ours = AccountMeta::new(key(1), true);
    assert_eq!(theirs.pubkey.to_bytes(), ours.pubkey.to_bytes());
    assert_eq!(theirs.is_signer, ours.is_signer);
    assert_eq!(theirs.is_writable, ours.is_writable);
    let theirs = solana_program::instruction::AccountMeta::new_readonly(
        solana_program::pubkey::Pubkey::new_from_array([1; 32]),
        true,
    );
    let ours = AccountMeta::new_readonly(key(1), true);
    assert_eq!(theirs.is_signer, ours.is_signer);
    assert_eq!(theirs.is_writable, ours.is_writable);
}

#[test]
fn register_merchant_without_sponsor() {
    let instruction = register_merchant(
        key(9),
        key(1),
        key(2),
        Some("chain".to_string()),
        None,
        Some("{}".to_string()),
        None,
    );
    assert_eq!(instruction.program_id, key(9));
    assert_eq!(
        instruction.accounts,
        vec![
            AccountMeta::new(key(1), true),
            AccountMeta::new(key(2), false),
            AccountMeta::new_readonly(system_program(), false),
            AccountMeta::new_readonly(rent_sysvar(), false),
        ]
    );
    assert_eq!(
        instruction.data,
        PaymentProcessorInstruction::RegisterMerchant {
            seed: Some("chain".to_string()),
            fee: None,
            data: Some("{}".to_string()),
        }
        .pack()
    );
}

#[test]
fn register_merchant_with_sponsor() {
    let sponsor = key(7);
    let instruction =
        register_merchant(key(9), key(1), key(2), None, Some(90000), None, Some(&sponsor));
    assert_eq!(instruction.accounts.len(), 5);
    assert_eq!(instruction.accounts[4], AccountMeta::new_readonly(key(7), false));
    assert_eq!(
        PaymentProcessorInstruction::unpack(&instruction.data),
        Ok(PaymentProcessorInstruction::RegisterMerchant {
            seed: None,
            fee: Some(90000),
            data: None
        })
    );
}

fn checkout_metas() -> Vec<AccountMeta> {
    vec![
        AccountMeta::new(key(1), true),
        AccountMeta::new(key(2), true),
        AccountMeta::new_readonly(key(3), false),
        AccountMeta::new(key(4), false),
        AccountMeta::new(key(5), false),
        AccountMeta::new(key(7), false),
        AccountMeta::new(key(8), false),
        AccountMeta::new_readonly(key(6), false),
        AccountMeta::new_readonly(key(10), false),
        AccountMeta::new_readonly(token_program(), false),
        AccountMeta::new_readonly(system_program(), false),
        AccountMeta::new_readonly(rent_sysvar(), false),
    ]
}

#[test]
fn express_checkout_accounts_and_data() {
    let instruction = express_checkout(
        key(9),
        key(1),
        key(2),
        key(3),
        key(4),
        key(5),
        key(6),
        key(7),
        key(8),
        key(10),
        2000000000,
        "1337".to_string(),
        "hunter2".to_string(),
        None,
    );
    assert_eq!(instruction.program_id, key(9));
    assert_eq!(instruction.accounts, checkout_metas());
    assert_eq!(
        PaymentProcessorInstruction::unpack(&instruction.data),
        Ok(PaymentProcessorInstruction::ExpressCheckout {
            amount: 2000000000,
            order_id: "1337".to_string(),
            secret: "hunter2".to_string(),
            data: None,
        })
    );
}

#[test]
fn chain_checkout_accounts_and_data() {
    let items = vec![
        OrderItem { id: "1".to_string(), quantity: 1 },
        OrderItem { id: "3".to_string(), quantity: 1 },
    ];
    let instruction = chain_checkout(
        key(9),
        key(1),
        key(2),
        key(3),
        key(4),
        key(5),
        key(6),
        key(7),
        key(8),
        key(10),
        2000000000,
        items.clone(),
        None,
    );
    assert_eq!(instruction.program_id, key(9));
    assert_eq!(instruction.accounts, checkout_metas());
    assert_eq!(
        PaymentProcessorInstruction::unpack(&instruction.data),
        Ok(PaymentProcessorInstruction::ChainCheckout {
            amount: 2000000000,
            order_items: items,
            data: None,
        })
    );
}

#[test]
fn withdraw_with_and_without_subscription() {
    let plain = withdraw(key(9), key(1), key(2), key(3), key(4), key(5), key(6), None);
    assert_eq!(plain.program_id, key(9));
    assert_eq!(
        plain.accounts,
        vec![
            AccountMeta::new(key(1), true),
            AccountMeta::new(key(2), false),
            AccountMeta::new_readonly(key(3), false),
            AccountMeta::new(key(4), false),
            AccountMeta::new(key(5), false),
            AccountMeta::new_readonly(key(6), false),
            AccountMeta::new_readonly(token_program(), false),
        ]
    );
    assert_eq!(plain.data, vec![3u8]);
    let with = withdraw(key(9), key(1), key(2), key(3), key(4), key(5), key(6), Some(key(11)));
    assert_eq!(with.accounts.len(), 8);
    assert_eq!(with.accounts[..7], plain.accounts[..]);
    assert_eq!(with.accounts[7], AccountMeta::new_readonly(key(11), false));
    assert_eq!(with.data, vec![3u8]);
}

#[test]
fn subscribe_accounts_and_data() {
    let instruction = subscribe(
        key(9),
        key(1),
        key(2),
        key(3),
        key(4),
        "demo:basic".to_string(),
        Some("{}".to_string()),
    );
    assert_eq!(
        instruction.accounts,
        vec![
            AccountMeta::new(key(1), true),
            AccountMeta::new(key(2), false),
            AccountMeta::new_readonly(key(3), false),
            AccountMeta::new_readonly(key(4), false),
            AccountMeta::new_readonly(system_program(), false),
            AccountMeta::new_readonly(rent_sysvar(), false),
        ]
    );
    assert_eq!(
        PaymentProcessorInstruction::unpack(&instruction.data),
        Ok(PaymentProcessorInstruction::Subscribe {
            name: "demo:basic".to_string(),
            data: Some("{}".to_string()),
        })
    );
}

#[test]
fn renew_subscription_accounts_and_data() {
    let instruction = renew_subscription(key(9), key(1), key(2), key(3), key(4), 600);
    assert_eq!(
        instruction.accounts,
        vec![
            AccountMeta::new(key(1), true),
            AccountMeta::new(key(2), false),
            AccountMeta::new_readonly(key(3), false),
            AccountMeta::new_readonly(key(4), false),
        ]
    );
    assert_eq!(
        PaymentProcessorInstruction::unpack(&instruction.data),
        Ok(PaymentProcessorInstruction::RenewSubscription { quantity: 600 })
    );
}

#[test]
fn cancel_subscription_accounts_and_data() {
    let instruction =
        cancel_subscription(key(9), key(1), key(2), key(3), key(4), key(5), key(6), key(7));
    assert_eq!(
        instruction.accounts,
        vec![
            AccountMeta::new(key(1), true),
            AccountMeta::new(key(2), false),
            AccountMeta::new_readonly(key(3), false),
            AccountMeta::new(key(4), false),
            AccountMeta::new(key(5), false),
            AccountMeta::new(key(6), false),
            AccountMeta::new_readonly(key(7), false),
            AccountMeta::new_readonly(token_program(), false),
        ]
    );
    assert_eq!(instruction.data, vec![6u8]);
}
