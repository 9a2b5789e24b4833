//! From the bytes of an instruction to the operation that it asks for.

use vstd::prelude::*;
use crate::account::{AccountInfo, Effect};
use crate::address::Address;
use crate::config::Config;
use crate::engine::cancel::{cancel_outcome, process_cancel_subscription};
use crate::engine::checkout::{
    chain_outcome, express_outcome, process_chain_checkout, process_express_checkout,
};
use crate::engine::common::{answers, Outcome};
use crate::engine::register::{process_register_merchant, register_outcome};
use crate::engine::renew::{process_renew_subscription, renew_outcome};
use crate::engine::subscribe::{process_subscribe, subscribe_outcome};
use crate::engine::withdraw::{process_withdraw, withdraw_outcome};
use crate::error::PaymentError;
use crate::instruction::{decode, Command, PaymentProcessorInstruction};

verus! {

/// What a command comes to with the accounts that came with it, at the time
/// `now`.
pub open spec fn command_outcome(
    config: Config,
    program_id: Address,
    accounts: Seq<AccountInfo>,
    command: Command,
    now: i64,
) -> Outcome {
    match command {
        Command::RegisterMerchant { seed, fee, data } => register_outcome(
            config,
            program_id,
            accounts,
            seed,
            fee,
            data,
        ),
        Command::ExpressCheckout { amount, order_id, secret, data } => express_outcome(
            config,
            program_id,
            accounts,
            amount,
            order_id,
            secret,
            data,
        ),
        Command::ChainCheckout { amount, order_items, data } => chain_outcome(
            config,
            program_id,
            accounts,
            amount,
            order_items,
            data,
        ),
        Command::Withdraw => withdraw_outcome(config, program_id, accounts, now),
        Command::Subscribe { name, data } => subscribe_outcome(
            program_id,
            accounts,
            name,
            data,
            now,
        ),
        Command::RenewSubscription { quantity } => renew_outcome(program_id, accounts, quantity),
        Command::CancelSubscription => cancel_outcome(config, program_id, accounts, now),
    }
}

/// What the bytes of an instruction come to: bytes that spell no command
/// are rejected as malformed before any account is looked at.
pub open spec fn instruction_outcome(
    config: Config,
    program_id: Address,
    accounts: Seq<AccountInfo>,
    input: Seq<u8>,
    now: i64,
) -> Outcome {
    match decode(input) {
        Some(command) => command_outcome(config, program_id, accounts, command, now),
        None => Err(PaymentError::MalformedInstruction),
    }
}

/// Decides a command.
pub fn process(
    config: &Config,
    program_id: &Address,
    accounts: &Vec<AccountInfo>,
    instruction: PaymentProcessorInstruction,
    now: i64,
) -> (answer: Result<Vec<Effect>, PaymentError>)
    ensures
        answers(answer, command_outcome(*config, *program_id, accounts@, instruction@, now)),
{
    match instruction {
        PaymentProcessorInstruction::RegisterMerchant { seed, fee, data } => {
            process_register_merchant(config, program_id, accounts, seed, fee, data)
        },
        PaymentProcessorInstruction::ExpressCheckout { amount, order_id, secret, data } => {
            process_express_checkout(config, program_id, accounts, amount, order_id, secret, data)
        },
        PaymentProcessorInstruction::ChainCheckout { amount, order_items, data } => {
            process_chain_checkout(config, program_id, accounts, amount, &order_items, data)
        },
        PaymentProcessorInstruction::Withdraw => process_withdraw(
            config,
            program_id,
            accounts,
            now,
        ),
        PaymentProcessorInstruction::Subscribe { name, data } => process_subscribe(
            program_id,
            accounts,
            name,
            data,
            now,
        ),
        PaymentProcessorInstruction::RenewSubscription { quantity } => {
            process_renew_subscription(program_id, accounts, quantity)
        },
        PaymentProcessorInstruction::CancelSubscription => process_cancel_subscription(
            config,
            program_id,
            accounts,
            now,
        ),
    }
}

/// Decides the instruction that the bytes spell.
pub fn process_instruction(
    config: &Config,
    program_id: &Address,
    accounts: &Vec<AccountInfo>,
    input: &[u8],
    now: i64,
) -> (answer: Result<Vec<Effect>, PaymentError>)
    ensures
        answers(answer, instruction_outcome(*config, *program_id, accounts@, input@, now)),
{
    match PaymentProcessorInstruction::unpack(input) {
        Ok(instruction) => process(config, program_id, accounts, instruction, now),
        Err(e) => Err(e),
    }
}

} // verus!
