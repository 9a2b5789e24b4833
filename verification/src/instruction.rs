//! The commands of the payment processor, their wire format, and the
//! instructions that carry them to the program.

use vstd::prelude::*;
use vstd::utf8::encode_utf8;
use crate::address::{
    rent_sysvar_bytes, rent_sysvar_id, system_program_bytes, system_program_id, token_program_bytes,
    token_program_id, Address,
};
use crate::error::PaymentError;
use crate::wire::{
    enc_i64, enc_opt_str, enc_opt_u64, enc_str, enc_u32, enc_u64, lemma_join, lemma_join_nothing,
    lemma_parse_i64, lemma_parse_opt_str, lemma_parse_opt_u64, lemma_parse_str, lemma_parse_u32,
    lemma_parse_u64, lemma_parse_u8, lemma_read_i64, lemma_read_opt_str, lemma_read_opt_u64,
    lemma_read_str, lemma_read_u32, lemma_read_u64, lemma_read_u8, opt_str_fits, opt_str_view,
    parse_i64, parse_opt_str, parse_opt_u64, parse_str, parse_u32, parse_u64, parse_u8, put_i64,
    put_opt_str, put_opt_u64, put_str, put_u32, put_u64, put_u8, read_i64, read_opt_str,
    read_opt_u64, read_str, read_u32, read_u64, read_u8, str_fits, MAX_LEN,
};

verus! {

// ---------------------------------------------------------------------------
// Ordered items
// ---------------------------------------------------------------------------

/// One line of an order: the identifier of a catalog item and how many of it.
#[derive(Clone, Debug, PartialEq, Eq)]
pub struct OrderItem {
    pub id: String,
    pub quantity: u64,
}

impl View for OrderItem {
    type V = (Seq<char>, u64);

    open spec fn view(&self) -> (Seq<char>, u64) {
        (self.id@, self.quantity)
    }
}

/// The views of a list of order lines.
pub open spec fn items_view(items: Seq<OrderItem>) -> Seq<(Seq<char>, u64)> {
    items.map_values(|item: OrderItem| item@)
}

/// Whether `a` comes strictly before `b` in the order of byte strings: at the
/// first place where they differ `a` has the smaller byte, or `a` ends first.
pub open spec fn bytes_before(a: Seq<u8>, b: Seq<u8>) -> bool
    decreases a.len(),
{
    if b.len() == 0 {
        false
    } else if a.len() == 0 {
        true
    } else if a[0] != b[0] {
        a[0] < b[0]
    } else {
        bytes_before(a.drop_first(), b.drop_first())
    }
}

/// Whether the lines of an order stand in strictly ascending order of their
/// identifiers' UTF-8 bytes. An order is a map from identifier to quantity;
/// this is the one list that stands for it.
pub open spec fn items_sorted(items: Seq<(Seq<char>, u64)>) -> bool {
    forall|i: int|
        0 <= i < items.len() - 1 ==> bytes_before(
            encode_utf8(#[trigger] items[i].0),
            encode_utf8(items[i + 1].0),
        )
}

/// Whether the lines of an order fit the wire format.
pub open spec fn items_fit(items: Seq<(Seq<char>, u64)>) -> bool {
    &&& items.len() <= MAX_LEN
    &&& forall|i: int| 0 <= i < items.len() ==> str_fits(#[trigger] items[i].0)
}

/// The lines of an order one after the other: identifier, then quantity.
pub open spec fn enc_entries(items: Seq<(Seq<char>, u64)>) -> Seq<u8>
    decreases items.len(),
{
    if items.len() == 0 {
        Seq::empty()
    } else {
        enc_str(items[0].0) + enc_u64(items[0].1) + enc_entries(items.drop_first())
    }
}

/// The number of lines in four bytes, then the lines.
pub open spec fn enc_items(items: Seq<(Seq<char>, u64)>) -> Seq<u8> {
    enc_u32(items.len() as u32) + enc_entries(items)
}

/// `count` lines off the front of an input, and the rest.
pub open spec fn parse_entries(input: Seq<u8>, count: nat) -> Option<
    (Seq<(Seq<char>, u64)>, Seq<u8>),
>
    decreases count,
{
    if count == 0 {
        Some((Seq::empty(), input))
    } else {
        match parse_str(input) {
            Some((id, after_id)) => match parse_u64(after_id) {
                Some((quantity, after_quantity)) => match parse_entries(
                    after_quantity,
                    (count - 1) as nat,
                ) {
                    Some((tail, rest)) => Some((seq![(id, quantity)] + tail, rest)),
                    None => None,
                },
                None => None,
            },
            None => None,
        }
    }
}

/// The lines of an order behind their count, and the rest. Lines that do not
/// stand in strictly ascending order are refused.
pub open spec fn parse_items(input: Seq<u8>) -> Option<(Seq<(Seq<char>, u64)>, Seq<u8>)> {
    match parse_u32(input) {
        Some((count, body)) => match parse_entries(body, count as nat) {
            Some((items, rest)) => if items_sorted(items) {
                Some((items, rest))
            } else {
                None
            },
            None => None,
        },
        None => None,
    }
}

/// Whether `a` comes strictly before `b` in the order of byte strings.
pub fn is_before(a: &[u8], b: &[u8]) -> (before: bool)
    ensures
        before == bytes_before(a@, b@),
{
    let mut i: usize = 0;
    assert(a@.skip(0) =~= a@);
    assert(b@.skip(0) =~= b@);
    while i < a.len() && i < b.len()
        invariant
            i <= a@.len(),
            i <= b@.len(),
            bytes_before(a@, b@) == bytes_before(a@.skip(i as int), b@.skip(i as int)),
        decreases a@.len() - i,
    {
        proof {
            assert(a@.skip(i as int)[0] == a@[i as int]);
            assert(b@.skip(i as int)[0] == b@[i as int]);
            assert(a@.skip(i as int).drop_first() =~= a@.skip(i + 1));
            assert(b@.skip(i as int).drop_first() =~= b@.skip(i + 1));
        }
        if a[i] != b[i] {
            return a[i] < b[i];
        }
        i += 1;
    }
    i < b.len()
}

/// Whether the lines of an order stand in strictly ascending order of their
/// identifiers.
pub fn items_are_sorted(items: &Vec<OrderItem>) -> (sorted: bool)
    ensures
        sorted == items_sorted(items_view(items@)),
{
    if items.len() < 2 {
        return true;
    }
    let mut i: usize = 0;
    while i < items.len() - 1
        invariant
            items@.len() >= 2,
            i <= items@.len() - 1,
            forall|k: int|
                0 <= k < i ==> bytes_before(
                    encode_utf8(#[trigger] items_view(items@)[k].0),
                    encode_utf8(items_view(items@)[k + 1].0),
                ),
        decreases items@.len() - i,
    {
        let here = items[i].id.as_str().as_bytes();
        let next = items[i + 1].id.as_str().as_bytes();
        if !is_before(here, next) {
            assert(!bytes_before(
                encode_utf8(items_view(items@)[i as int].0),
                encode_utf8(items_view(items@)[i + 1].0),
            ));
            return false;
        }
        i += 1;
    }
    true
}

/// No byte string comes before itself.
pub proof fn lemma_before_is_strict(a: Seq<u8>)
    ensures
        !bytes_before(a, a),
    decreases a.len(),
{
    if a.len() > 0 {
        lemma_before_is_strict(a.drop_first());
    }
}

/// What comes before something that comes before a third comes before the
/// third.
pub proof fn lemma_before_is_transitive(a: Seq<u8>, b: Seq<u8>, c: Seq<u8>)
    requires
        bytes_before(a, b),
        bytes_before(b, c),
    ensures
        bytes_before(a, c),
    decreases a.len(),
{
    if a.len() > 0 && b.len() > 0 && c.len() > 0 && a[0] == b[0] && b[0] == c[0] {
        lemma_before_is_transitive(a.drop_first(), b.drop_first(), c.drop_first());
    }
}

/// In a sorted order every line comes before every later line.
pub proof fn lemma_sorted_items_ascend(items: Seq<(Seq<char>, u64)>, i: int, j: int)
    requires
        items_sorted(items),
        0 <= i < j < items.len(),
    ensures
        bytes_before(encode_utf8(items[i].0), encode_utf8(items[j].0)),
    decreases j - i,
{
    if j > i + 1 {
        lemma_sorted_items_ascend(items, i, j - 1);
        assert(bytes_before(encode_utf8(items[j - 1].0), encode_utf8(items[j - 1 + 1].0)));
        lemma_before_is_transitive(
            encode_utf8(items[i].0),
            encode_utf8(items[j - 1].0),
            encode_utf8(items[j].0),
        );
    }
}

/// A sorted order names no item twice: it is a map from identifier to
/// quantity.
pub proof fn lemma_sorted_items_are_distinct(items: Seq<(Seq<char>, u64)>)
    requires
        items_sorted(items),
    ensures
        forall|i: int, j: int|
            0 <= i < j < items.len() ==> (#[trigger] items[i]).0 != (#[trigger] items[j]).0,
{
    assert forall|i: int, j: int| 0 <= i < j < items.len() implies (#[trigger] items[i]).0 != (
    #[trigger] items[j]).0 by {
        lemma_sorted_items_ascend(items, i, j);
        lemma_before_is_strict(encode_utf8(items[i].0));
    }
}

/// Appending one line to a list appends its bytes.
pub proof fn lemma_enc_entries_push(items: Seq<(Seq<char>, u64)>, last: (Seq<char>, u64))
    ensures
        enc_entries(items.push(last)) == enc_entries(items) + enc_str(last.0) + enc_u64(last.1),
    decreases items.len(),
{
    if items.len() == 0 {
        assert(items.push(last).drop_first() =~= Seq::<(Seq<char>, u64)>::empty());
        assert(enc_entries(items.push(last)) =~= enc_str(last.0) + enc_u64(last.1)
            + enc_entries(Seq::empty()));
        assert(enc_entries(items.push(last)) =~= enc_entries(items) + enc_str(last.0) + enc_u64(
            last.1,
        ));
    } else {
        let tail = items.drop_first();
        assert(items.push(last).drop_first() =~= tail.push(last));
        lemma_enc_entries_push(tail, last);
        assert(enc_entries(items.push(last)) =~= enc_entries(items) + enc_str(last.0) + enc_u64(
            last.1,
        ));
    }
}

/// Reading back written lines.
pub proof fn lemma_parse_entries(items: Seq<(Seq<char>, u64)>, rest: Seq<u8>)
    requires
        forall|i: int| 0 <= i < items.len() ==> str_fits(#[trigger] items[i].0),
    ensures
        parse_entries(enc_entries(items) + rest, items.len()) == Some((items, rest)),
    decreases items.len(),
{
    if items.len() == 0 {
        assert(enc_entries(items) + rest =~= rest);
        assert(items =~= Seq::empty());
    } else {
        let head = items[0];
        let tail = items.drop_first();
        let after_quantity = enc_entries(tail) + rest;
        let after_id = enc_u64(head.1) + after_quantity;
        lemma_join(enc_str(head.0) + enc_u64(head.1), enc_entries(tail), rest);
        lemma_join(enc_str(head.0), enc_u64(head.1), after_quantity);
        assert(enc_entries(items) + rest == enc_str(head.0) + after_id);
        lemma_parse_str(head.0, after_id);
        lemma_parse_u64(head.1, after_quantity);
        assert forall|i: int| 0 <= i < tail.len() implies str_fits(#[trigger] tail[i].0) by {
            assert(tail[i] == items[i + 1]);
        }
        lemma_parse_entries(tail, rest);
        assert(seq![head] + tail =~= items);
    }
}

/// Reading back a written order.
pub proof fn lemma_parse_items(items: Seq<(Seq<char>, u64)>, rest: Seq<u8>)
    requires
        items_fit(items),
        items_sorted(items),
    ensures
        parse_items(enc_items(items) + rest) == Some((items, rest)),
{
    let count = items.len() as u32;
    lemma_join(enc_u32(count), enc_entries(items), rest);
    lemma_parse_u32(count, enc_entries(items) + rest);
    lemma_parse_entries(items, rest);
}

/// Appends the lines of an order behind their count.
pub fn put_items(out: &mut Vec<u8>, items: &Vec<OrderItem>)
    requires
        items_fit(items_view(items@)),
    ensures
        final(out)@ == old(out)@ + enc_items(items_view(items@)),
{
    let ghost views = items_view(items@);
    put_u32(out, items.len() as u32);
    let mut i: usize = 0;
    assert(views.take(0) =~= Seq::empty());
    while i < items.len()
        invariant
            i <= items@.len(),
            views == items_view(items@),
            items_fit(views),
            out@ == old(out)@ + enc_u32(items@.len() as u32) + enc_entries(views.take(i as int)),
        decreases items@.len() - i,
    {
        let item = &items[i];
        proof {
            assert(views[i as int] == item@);
            assert(views.take(i + 1) =~= views.take(i as int).push(views[i as int]));
            lemma_enc_entries_push(views.take(i as int), views[i as int]);
        }
        put_str(out, item.id.as_str());
        put_u64(out, item.quantity);
        assert(out@ =~= old(out)@ + enc_u32(items@.len() as u32) + enc_entries(
            views.take(i + 1),
        ));
        i += 1;
    }
    assert(views.take(items@.len() as int) =~= views);
    assert(out@ =~= old(out)@ + enc_items(views));
}

/// Unfolding `parse_entries` by one line at the front.
proof fn lemma_parse_entries_step(input: Seq<u8>, count: nat)
    requires
        count > 0,
    ensures
        parse_entries(input, count) == match parse_str(input) {
            Some((id, after_id)) => match parse_u64(after_id) {
                Some((quantity, after_quantity)) => match parse_entries(
                    after_quantity,
                    (count - 1) as nat,
                ) {
                    Some((tail, rest)) => Some((seq![(id, quantity)] + tail, rest)),
                    None => None,
                },
                None => None,
            },
            None => None,
        },
{
}

/// Reads the lines of an order at `pos`.
pub fn read_items(buf: &[u8], pos: usize) -> (read: Option<(Vec<OrderItem>, usize)>)
    requires
        pos <= buf@.len(),
    ensures
        match read {
            Some((items, next)) => pos <= next <= buf@.len() && parse_items(buf@.skip(pos as int))
                == Some((items_view(items@), buf@.skip(next as int))),
            None => parse_items(buf@.skip(pos as int)).is_none(),
        },
{
    let (count, start) = match read_u32(buf, pos) {
        Some(found) => found,
        None => {
            return None;
        },
    };
    let ghost body = buf@.skip(start as int);
    let mut items: Vec<OrderItem> = Vec::new();
    let mut cursor = start;
    let mut left = count;
    assert(items_view(items@) =~= Seq::empty());
    while left > 0
        invariant
            pos <= start <= cursor <= buf@.len(),
            left <= count,
            body == buf@.skip(start as int),
            parse_u32(buf@.skip(pos as int)) == Some((count, body)),
            parse_entries(body, count as nat) == match parse_entries(
                buf@.skip(cursor as int),
                left as nat,
            ) {
                Some((tail, rest)) => Some((items_view(items@) + tail, rest)),
                None => None,
            },
        decreases left,
    {
        proof {
            lemma_parse_entries_step(buf@.skip(cursor as int), left as nat);
        }
        let (id, after_id) = match read_str(buf, cursor) {
            Some(found) => found,
            None => {
                return None;
            },
        };
        let (quantity, after_quantity) = match read_u64(buf, after_id) {
            Some(found) => found,
            None => {
                return None;
            },
        };
        let ghost before = items_view(items@);
        let ghost line = (id@, quantity);
        items.push(OrderItem { id, quantity });
        proof {
            assert(items_view(items@) =~= before.push(line));
            match parse_entries(buf@.skip(after_quantity as int), (left - 1) as nat) {
                Some((tail, rest)) => {
                    assert(before + (seq![line] + tail) =~= items_view(items@) + tail);
                },
                None => {},
            }
        }
        cursor = after_quantity;
        left -= 1;
    }
    assert(items_view(items@) + Seq::<(Seq<char>, u64)>::empty() =~= items_view(items@));
    if items_are_sorted(&items) {
        Some((items, cursor))
    } else {
        None
    }
}

// ---------------------------------------------------------------------------
// Commands
// ---------------------------------------------------------------------------

/// A command to the payment processor. Each kind names the accounts that must
/// come with it, in order.
#[derive(Clone, Debug, PartialEq)]
pub enum PaymentProcessorInstruction {
    /// Register for a merchant account.
    ///
    /// Accounts expected:
    ///
    /// 0. `[signer]` The account of the person initializing the merchant account
    /// 1. `[writable]` The merchant account.  Owned by this program
    /// 2. `[]` System program
    /// 3. `[]` The rent sysvar
    /// 4. `[optional]` The sponsor account
    RegisterMerchant {
        /// the seed used when creating the account
        seed: Option<String>,
        /// the amount (in SOL lamports) that will be charged as a fee
        fee: Option<u64>,
        /// arbitrary merchant data (maybe as a JSON string)
        data: Option<String>,
    },
    /// Express Checkout - create order and pay for it in one transaction
    ///
    /// Accounts expected:
    ///
    /// 0. `[signer]` The account of the person initializing the transaction
    /// 1. `[writable]` The order account.  Owned by this program
    /// 2. `[]` The merchant account.  Owned by this program
    /// 3. `[writable]` The seller token account - this is where the amount paid will go. Owned by this program
    /// 4. `[writable]` The buyer token account
    /// 5. `[writable]` The program owner account (where we will send program owner fee)
    /// 6. `[writable]` The sponsor account (where we will send sponsor fee)
    /// 7. `[]` The token mint account - represents the 'currency' being used
    /// 8. `[]` This program's derived address
    /// 9. `[]` The token program
    /// 10. `[]` The System program
    /// 11. `[]` The rent sysvar
    ExpressCheckout {
        amount: u64,
        /// the external order id (as in issued by the merchant)
        order_id: String,
        /// an extra field that can store an encrypted (or not encrypted) string
        /// that the merchant can use to assert that a transaction is authentic
        secret: String,
        /// arbitrary merchant data (maybe as a JSON string)
        data: Option<String>,
    },
    /// Chain Checkout - create an order of several items and pay for it in
    /// one transaction
    ///
    /// Accounts expected: as for `ExpressCheckout`.
    ChainCheckout {
        amount: u64,
        /// the ordered items and their quantities, in strictly ascending
        /// order of their identifiers
        order_items: Vec<OrderItem>,
        /// arbitrary merchant data (maybe as a JSON string)
        data: Option<String>,
    },
    /// Withdraw funds for a particular order
    ///
    /// Accounts expected:
    ///
    /// 0. `[signer]` The account of the person initializing the transaction
    /// 1. `[writable]` The order account.  Owned by this program
    /// 2. `[]` The merchant account.  Owned by this program
    /// 3. `[writable]` The order token account (where the money was put during payment)
    /// 4. `[writable]` The merchant token account (where we will withdraw to)
    /// 5. `[]` This program's derived address
    /// 6. `[]` The token program
    /// 7. `[optional]` The subscription account.  Owned by this program
    Withdraw,
    /// Initialize a subscription
    ///
    /// Accounts expected:
    ///
    /// 0. `[signer]` The account of the person initializing the transaction
    /// 1. `[writable]` The subscription account.  Owned by this program
    /// 2. `[]` The merchant account.  Owned by this program
    /// 3. `[]` The order account.  Owned by this program
    /// 4. `[]` The System program
    /// 5. `[]` The rent sysvar
    Subscribe {
        /// the subscription and the package, as `subscription:package`
        name: String,
        /// arbitrary merchant data (maybe as a JSON string)
        data: Option<String>,
    },
    /// Renew a subscription
    ///
    /// Accounts expected:
    ///
    /// 0. `[signer]` The account of the person initializing the transaction
    /// 1. `[writable]` The subscription account.  Owned by this program
    /// 2. `[]` The merchant account.  Owned by this program
    /// 3. `[]` The order account.  Owned by this program
    RenewSubscription {
        /// the number of periods to renew e.g. if the subscription period is a year
        /// you can choose to renew for 1 year, 2 years, n years, etc
        quantity: i64,
    },
    /// Cancel a subscription
    ///
    /// Accounts expected:
    ///
    /// 0. `[signer]` The account of the person initializing the transaction
    /// 1. `[writable]` The subscription account.  Owned by this program
    /// 2. `[]` The merchant account.  Owned by this program
    /// 3. `[writable]` The order account.  Owned by this program
    /// 4. `[writable]` The order token account - this is where the amount was paid into. Owned by this program
    /// 5. `[writable]` The refund token account - this is where the refund will go
    /// 6. `[]` This program's derived address
    /// 7. `[]` The token program
    CancelSubscription,
}

/// What a command says, apart from how it is held in memory.
pub enum Command {
    RegisterMerchant { seed: Option<Seq<char>>, fee: Option<u64>, data: Option<Seq<char>> },
    ExpressCheckout { amount: u64, order_id: Seq<char>, secret: Seq<char>, data: Option<Seq<char>> },
    ChainCheckout { amount: u64, order_items: Seq<(Seq<char>, u64)>, data: Option<Seq<char>> },
    Withdraw,
    Subscribe { name: Seq<char>, data: Option<Seq<char>> },
    RenewSubscription { quantity: i64 },
    CancelSubscription,
}

impl Command {
    /// Whether every string and list is short enough for its length prefix.
    pub open spec fn fits(self) -> bool {
        match self {
            Command::RegisterMerchant { seed, fee, data } => opt_str_fits(seed) && opt_str_fits(
                data,
            ),
            Command::ExpressCheckout { amount, order_id, secret, data } => str_fits(order_id)
                && str_fits(secret) && opt_str_fits(data),
            Command::ChainCheckout { amount, order_items, data } => items_fit(order_items)
                && opt_str_fits(data),
            Command::Withdraw => true,
            Command::Subscribe { name, data } => str_fits(name) && opt_str_fits(data),
            Command::RenewSubscription { quantity } => true,
            Command::CancelSubscription => true,
        }
    }

    /// Whether the ordered items, if there are any, stand in strictly
    /// ascending order.
    pub open spec fn well_formed(self) -> bool {
        match self {
            Command::ChainCheckout { amount, order_items, data } => items_sorted(order_items),
            _ => true,
        }
    }

    /// The opcode of the command.
    pub open spec fn opcode(self) -> u8 {
        match self {
            Command::RegisterMerchant { .. } => 0,
            Command::ExpressCheckout { .. } => 1,
            Command::ChainCheckout { .. } => 2,
            Command::Withdraw => 3,
            Command::Subscribe { .. } => 4,
            Command::RenewSubscription { .. } => 5,
            Command::CancelSubscription => 6,
        }
    }

    /// The fields of the command in wire order, without the opcode.
    pub open spec fn payload(self) -> Seq<u8> {
        match self {
            Command::RegisterMerchant { seed, fee, data } => enc_opt_str(seed) + enc_opt_u64(fee)
                + enc_opt_str(data),
            Command::ExpressCheckout { amount, order_id, secret, data } => enc_u64(amount)
                + enc_str(order_id) + enc_str(secret) + enc_opt_str(data),
            Command::ChainCheckout { amount, order_items, data } => enc_u64(amount) + enc_items(
                order_items,
            ) + enc_opt_str(data),
            Command::Withdraw => Seq::empty(),
            Command::Subscribe { name, data } => enc_str(name) + enc_opt_str(data),
            Command::RenewSubscription { quantity } => enc_i64(quantity),
            Command::CancelSubscription => Seq::empty(),
        }
    }

    /// The wire form of the command: the opcode, then the fields.
    pub open spec fn encoding(self) -> Seq<u8> {
        seq![self.opcode()] + self.payload()
    }
}

/// The payload of a `RegisterMerchant` and the rest.
pub open spec fn parse_register(input: Seq<u8>) -> Option<(Command, Seq<u8>)> {
    match parse_opt_str(input) {
        Some((seed, r1)) => match parse_opt_u64(r1) {
            Some((fee, r2)) => match parse_opt_str(r2) {
                Some((data, r3)) => Some((Command::RegisterMerchant { seed, fee, data }, r3)),
                None => None,
            },
            None => None,
        },
        None => None,
    }
}

/// The payload of an `ExpressCheckout` and the rest.
pub open spec fn parse_express(input: Seq<u8>) -> Option<(Command, Seq<u8>)> {
    match parse_u64(input) {
        Some((amount, r1)) => match parse_str(r1) {
            Some((order_id, r2)) => match parse_str(r2) {
                Some((secret, r3)) => match parse_opt_str(r3) {
                    Some((data, r4)) => Some(
                        (Command::ExpressCheckout { amount, order_id, secret, data }, r4),
                    ),
                    None => None,
                },
                None => None,
            },
            None => None,
        },
        None => None,
    }
}

/// The payload of a `ChainCheckout` and the rest.
pub open spec fn parse_chain(input: Seq<u8>) -> Option<(Command, Seq<u8>)> {
    match parse_u64(input) {
        Some((amount, r1)) => match parse_items(r1) {
            Some((order_items, r2)) => match parse_opt_str(r2) {
                Some((data, r3)) => Some(
                    (Command::ChainCheckout { amount, order_items, data }, r3),
                ),
                None => None,
            },
            None => None,
        },
        None => None,
    }
}

/// The payload of a `Subscribe` and the rest.
pub open spec fn parse_subscribe(input: Seq<u8>) -> Option<(Command, Seq<u8>)> {
    match parse_str(input) {
        Some((name, r1)) => match parse_opt_str(r1) {
            Some((data, r2)) => Some((Command::Subscribe { name, data }, r2)),
            None => None,
        },
        None => None,
    }
}

/// The payload of a `RenewSubscription` and the rest.
pub open spec fn parse_renew(input: Seq<u8>) -> Option<(Command, Seq<u8>)> {
    match parse_i64(input) {
        Some((quantity, r1)) => Some((Command::RenewSubscription { quantity }, r1)),
        None => None,
    }
}

/// The command behind an opcode and the rest.
pub open spec fn parse_command(input: Seq<u8>) -> Option<(Command, Seq<u8>)> {
    match parse_u8(input) {
        Some((opcode, body)) => {
            if opcode == 0 {
                parse_register(body)
            } else if opcode == 1 {
                parse_express(body)
            } else if opcode == 2 {
                parse_chain(body)
            } else if opcode == 3 {
                Some((Command::Withdraw, body))
            } else if opcode == 4 {
                parse_subscribe(body)
            } else if opcode == 5 {
                parse_renew(body)
            } else if opcode == 6 {
                Some((Command::CancelSubscription, body))
            } else {
                None
            }
        },
        None => None,
    }
}

/// The command that a whole input spells, if it spells one: a known opcode,
/// well-formed fields, and nothing after them.
pub open spec fn decode(input: Seq<u8>) -> Option<Command> {
    match parse_command(input) {
        Some((command, rest)) => if rest.len() == 0 {
            Some(command)
        } else {
            None
        },
        None => None,
    }
}

impl View for PaymentProcessorInstruction {
    type V = Command;

    open spec fn view(&self) -> Command {
        match self {
            PaymentProcessorInstruction::RegisterMerchant { seed, fee, data } => {
                Command::RegisterMerchant {
                    seed: opt_str_view(*seed),
                    fee: *fee,
                    data: opt_str_view(*data),
                }
            },
            PaymentProcessorInstruction::ExpressCheckout { amount, order_id, secret, data } => {
                Command::ExpressCheckout {
                    amount: *amount,
                    order_id: order_id@,
                    secret: secret@,
                    data: opt_str_view(*data),
                }
            },
            PaymentProcessorInstruction::ChainCheckout { amount, order_items, data } => {
                Command::ChainCheckout {
                    amount: *amount,
                    order_items: items_view(order_items@),
                    data: opt_str_view(*data),
                }
            },
            PaymentProcessorInstruction::Withdraw => Command::Withdraw,
            PaymentProcessorInstruction::Subscribe { name, data } => Command::Subscribe {
                name: name@,
                data: opt_str_view(*data),
            },
            PaymentProcessorInstruction::RenewSubscription { quantity } => {
                Command::RenewSubscription { quantity: *quantity }
            },
            PaymentProcessorInstruction::CancelSubscription => Command::CancelSubscription,
        }
    }
}

impl PaymentProcessorInstruction {
    /// The wire form of the command.
    pub fn pack(&self) -> (bytes: Vec<u8>)
        requires
            self@.fits(),
        ensures
            bytes@ == self@.encoding(),
    {
        let mut out: Vec<u8> = Vec::new();
        match self {
            PaymentProcessorInstruction::RegisterMerchant { seed, fee, data } => {
                put_u8(&mut out, 0);
                put_opt_str(&mut out, seed);
                put_opt_u64(&mut out, *fee);
                put_opt_str(&mut out, data);
            },
            PaymentProcessorInstruction::ExpressCheckout { amount, order_id, secret, data } => {
                put_u8(&mut out, 1);
                put_u64(&mut out, *amount);
                put_str(&mut out, order_id.as_str());
                put_str(&mut out, secret.as_str());
                put_opt_str(&mut out, data);
            },
            PaymentProcessorInstruction::ChainCheckout { amount, order_items, data } => {
                put_u8(&mut out, 2);
                put_u64(&mut out, *amount);
                put_items(&mut out, order_items);
                put_opt_str(&mut out, data);
            },
            PaymentProcessorInstruction::Withdraw => {
                put_u8(&mut out, 3);
            },
            PaymentProcessorInstruction::Subscribe { name, data } => {
                put_u8(&mut out, 4);
                put_str(&mut out, name.as_str());
                put_opt_str(&mut out, data);
            },
            PaymentProcessorInstruction::RenewSubscription { quantity } => {
                put_u8(&mut out, 5);
                put_i64(&mut out, *quantity);
            },
            PaymentProcessorInstruction::CancelSubscription => {
                put_u8(&mut out, 6);
            },
        }
        assert(out@ =~= self@.encoding());
        out
    }

    /// Whether the command can be written: every string and list is short
    /// enough for its length prefix.
    pub fn fits_wire(&self) -> (fits: bool)
        ensures
            fits == self@.fits(),
    {
        match self {
            PaymentProcessorInstruction::RegisterMerchant { seed, fee, data } => {
                opt_fits_wire(seed) && opt_fits_wire(data)
            },
            PaymentProcessorInstruction::ExpressCheckout { amount, order_id, secret, data } => {
                order_id.as_str().as_bytes().len() <= MAX_LEN && secret.as_str().as_bytes().len() <= MAX_LEN
                    && opt_fits_wire(data)
            },
            PaymentProcessorInstruction::ChainCheckout { amount, order_items, data } => {
                items_fit_wire(order_items) && opt_fits_wire(data)
            },
            PaymentProcessorInstruction::Withdraw => true,
            PaymentProcessorInstruction::Subscribe { name, data } => {
                name.as_str().as_bytes().len() <= MAX_LEN && opt_fits_wire(data)
            },
            PaymentProcessorInstruction::RenewSubscription { quantity } => true,
            PaymentProcessorInstruction::CancelSubscription => true,
        }
    }

    /// Reads a command from its wire form. Anything but the exact wire form
    /// of a command is refused as malformed.
    pub fn unpack(input: &[u8]) -> (read: Result<PaymentProcessorInstruction, PaymentError>)
        ensures
            match read {
                Ok(instruction) => decode(input@) == Some(instruction@),
                Err(e) => e == PaymentError::MalformedInstruction && decode(input@).is_none(),
            },
    {
        assert(input@.skip(0) =~= input@);
        let (opcode, body) = match read_u8(input, 0) {
            Some(found) => found,
            None => {
                return Err(PaymentError::MalformedInstruction);
            },
        };
        let parsed = match opcode {
            0 => unpack_register(input, body),
            1 => unpack_express(input, body),
            2 => unpack_chain(input, body),
            3 => Some((PaymentProcessorInstruction::Withdraw, body)),
            4 => unpack_subscribe(input, body),
            5 => match read_i64(input, body) {
                Some((quantity, next)) => Some(
                    (PaymentProcessorInstruction::RenewSubscription { quantity }, next),
                ),
                None => None,
            },
            6 => Some((PaymentProcessorInstruction::CancelSubscription, body)),
            _ => None,
        };
        match parsed {
            Some((instruction, next)) => {
                if next == input.len() {
                    Ok(instruction)
                } else {
                    Err(PaymentError::MalformedInstruction)
                }
            },
            None => Err(PaymentError::MalformedInstruction),
        }
    }
}

/// Whether an optional string is short enough for its length prefix.
fn opt_fits_wire(text: &Option<String>) -> (fits: bool)
    ensures
        fits == opt_str_fits(opt_str_view(*text)),
{
    match text {
        Some(t) => t.as_str().as_bytes().len() <= MAX_LEN,
        None => true,
    }
}

/// Whether the lines of an order are short enough for the wire format.
fn items_fit_wire(items: &Vec<OrderItem>) -> (fits: bool)
    ensures
        fits == items_fit(items_view(items@)),
{
    if items.len() > MAX_LEN {
        return false;
    }
    let mut i: usize = 0;
    while i < items.len()
        invariant
            i <= items@.len(),
            items@.len() <= MAX_LEN,
            forall|k: int| 0 <= k < i ==> str_fits(#[trigger] items_view(items@)[k].0),
        decreases items@.len() - i,
    {
        assert(items_view(items@)[i as int].0 == items@[i as int].id@);
        if items[i].id.as_str().as_bytes().len() > MAX_LEN {
            return false;
        }
        i += 1;
    }
    true
}

/// Reads the payload of a `RegisterMerchant` at `pos`.
fn unpack_register(input: &[u8], pos: usize) -> (read: Option<
    (PaymentProcessorInstruction, usize),
>)
    requires
        pos <= input@.len(),
    ensures
        match read {
            Some((instruction, next)) => pos <= next <= input@.len() && parse_register(
                input@.skip(pos as int),
            ) == Some((instruction@, input@.skip(next as int))),
            None => parse_register(input@.skip(pos as int)).is_none(),
        },
{
    let (seed, at1) = match read_opt_str(input, pos) {
        Some(found) => found,
        None => {
            return None;
        },
    };
    let (fee, at2) = match read_opt_u64(input, at1) {
        Some(found) => found,
        None => {
            return None;
        },
    };
    let (data, at3) = match read_opt_str(input, at2) {
        Some(found) => found,
        None => {
            return None;
        },
    };
    Some((PaymentProcessorInstruction::RegisterMerchant { seed, fee, data }, at3))
}

/// Reads the payload of an `ExpressCheckout` at `pos`.
fn unpack_express(input: &[u8], pos: usize) -> (read: Option<
    (PaymentProcessorInstruction, usize),
>)
    requires
        pos <= input@.len(),
    ensures
        match read {
            Some((instruction, next)) => pos <= next <= input@.len() && parse_express(
                input@.skip(pos as int),
            ) == Some((instruction@, input@.skip(next as int))),
            None => parse_express(input@.skip(pos as int)).is_none(),
        },
{
    let (amount, at1) = match read_u64(input, pos) {
        Some(found) => found,
        None => {
            return None;
        },
    };
    let (order_id, at2) = match read_str(input, at1) {
        Some(found) => found,
        None => {
            return None;
        },
    };
    let (secret, at3) = match read_str(input, at2) {
        Some(found) => found,
        None => {
            return None;
        },
    };
    let (data, at4) = match read_opt_str(input, at3) {
        Some(found) => found,
        None => {
            return None;
        },
    };
    Some((PaymentProcessorInstruction::ExpressCheckout { amount, order_id, secret, data }, at4))
}

/// Reads the payload of a `ChainCheckout` at `pos`.
fn unpack_chain(input: &[u8], pos: usize) -> (read: Option<(PaymentProcessorInstruction, usize)>)
    requires
        pos <= input@.len(),
    ensures
        match read {
            Some((instruction, next)) => pos <= next <= input@.len() && parse_chain(
                input@.skip(pos as int),
            ) == Some((instruction@, input@.skip(next as int))),
            None => parse_chain(input@.skip(pos as int)).is_none(),
        },
{
    let (amount, at1) = match read_u64(input, pos) {
        Some(found) => found,
        None => {
            return None;
        },
    };
    let (order_items, at2) = match read_items(input, at1) {
        Some(found) => found,
        None => {
            return None;
        },
    };
    let (data, at3) = match read_opt_str(input, at2) {
        Some(found) => found,
        None => {
            return None;
        },
    };
    Some((PaymentProcessorInstruction::ChainCheckout { amount, order_items, data }, at3))
}

/// Reads the payload of a `Subscribe` at `pos`.
fn unpack_subscribe(input: &[u8], pos: usize) -> (read: Option<
    (PaymentProcessorInstruction, usize),
>)
    requires
        pos <= input@.len(),
    ensures
        match read {
            Some((instruction, next)) => pos <= next <= input@.len() && parse_subscribe(
                input@.skip(pos as int),
            ) == Some((instruction@, input@.skip(next as int))),
            None => parse_subscribe(input@.skip(pos as int)).is_none(),
        },
{
    let (name, at1) = match read_str(input, pos) {
        Some(found) => found,
        None => {
            return None;
        },
    };
    let (data, at2) = match read_opt_str(input, at1) {
        Some(found) => found,
        None => {
            return None;
        },
    };
    Some((PaymentProcessorInstruction::Subscribe { name, data }, at2))
}

/// Reading back the payload of a `RegisterMerchant`.
proof fn lemma_parse_register(seed: Option<Seq<char>>, fee: Option<u64>, data: Option<Seq<char>>)
    requires
        opt_str_fits(seed),
        opt_str_fits(data),
    ensures
        parse_register((Command::RegisterMerchant { seed, fee, data }).payload()) == Some(
            (Command::RegisterMerchant { seed, fee, data }, Seq::<u8>::empty()),
        ),
{
    let empty = Seq::<u8>::empty();
    let a = enc_opt_str(seed);
    let b = enc_opt_u64(fee);
    let c = enc_opt_str(data);
    lemma_join_nothing(c);
    lemma_join(a, b, c);
    lemma_parse_opt_str(seed, b + (c + empty));
    lemma_parse_opt_u64(fee, c + empty);
    lemma_parse_opt_str(data, empty);
}

/// Reading back the payload of an `ExpressCheckout`.
proof fn lemma_parse_express(
    amount: u64,
    order_id: Seq<char>,
    secret: Seq<char>,
    data: Option<Seq<char>>,
)
    requires
        str_fits(order_id),
        str_fits(secret),
        opt_str_fits(data),
    ensures
        parse_express((Command::ExpressCheckout { amount, order_id, secret, data }).payload())
            == Some(
            (Command::ExpressCheckout { amount, order_id, secret, data }, Seq::<u8>::empty()),
        ),
{
    let empty = Seq::<u8>::empty();
    let a = enc_u64(amount);
    let b = enc_str(order_id);
    let c = enc_str(secret);
    let d = enc_opt_str(data);
    lemma_join_nothing(d);
    lemma_join(a + b, c, d);
    lemma_join(a, b, c + d);
    lemma_parse_u64(amount, b + (c + (d + empty)));
    lemma_parse_str(order_id, c + (d + empty));
    lemma_parse_str(secret, d + empty);
    lemma_parse_opt_str(data, empty);
}

/// Reading back the payload of a `ChainCheckout`.
proof fn lemma_parse_chain(
    amount: u64,
    order_items: Seq<(Seq<char>, u64)>,
    data: Option<Seq<char>>,
)
    requires
        items_fit(order_items),
        items_sorted(order_items),
        opt_str_fits(data),
    ensures
        parse_chain((Command::ChainCheckout { amount, order_items, data }).payload()) == Some(
            (Command::ChainCheckout { amount, order_items, data }, Seq::<u8>::empty()),
        ),
{
    let empty = Seq::<u8>::empty();
    let a = enc_u64(amount);
    let b = enc_items(order_items);
    let c = enc_opt_str(data);
    lemma_join_nothing(c);
    lemma_join(a, b, c);
    lemma_parse_u64(amount, b + (c + empty));
    lemma_parse_items(order_items, c + empty);
    lemma_parse_opt_str(data, empty);
}

/// Reading back the payload of a `Subscribe`.
proof fn lemma_parse_subscribe(name: Seq<char>, data: Option<Seq<char>>)
    requires
        str_fits(name),
        opt_str_fits(data),
    ensures
        parse_subscribe((Command::Subscribe { name, data }).payload()) == Some(
            (Command::Subscribe { name, data }, Seq::<u8>::empty()),
        ),
{
    let empty = Seq::<u8>::empty();
    let b = enc_opt_str(data);
    lemma_join_nothing(b);
    lemma_parse_str(name, b + empty);
    lemma_parse_opt_str(data, empty);
}

/// Decoding undoes encoding: the wire form of a command that fits the format
/// and whose items are in order decodes to that command.
pub proof fn lemma_decode_encoding(command: Command)
    requires
        command.fits(),
        command.well_formed(),
    ensures
        decode(command.encoding()) == Some(command),
{
    lemma_parse_u8(command.opcode(), command.payload());
    match command {
        Command::RegisterMerchant { seed, fee, data } => {
            lemma_parse_register(seed, fee, data);
        },
        Command::ExpressCheckout { amount, order_id, secret, data } => {
            lemma_parse_express(amount, order_id, secret, data);
        },
        Command::ChainCheckout { amount, order_items, data } => {
            lemma_parse_chain(amount, order_items, data);
        },
        Command::Withdraw => {},
        Command::Subscribe { name, data } => {
            lemma_parse_subscribe(name, data);
        },
        Command::RenewSubscription { quantity } => {
            lemma_join_nothing(enc_i64(quantity));
            lemma_parse_i64(quantity, Seq::<u8>::empty());
        },
        Command::CancelSubscription => {},
    }
}

/// Lines that were read stood at the front of the input as they are
/// written, as many as were asked for.
pub proof fn lemma_read_entries(input: Seq<u8>, count: nat)
    ensures
        parse_entries(input, count) matches Some((items, rest)) ==> input == enc_entries(items)
            + rest && items.len() == count && (forall|i: int|
            0 <= i < items.len() ==> str_fits(#[trigger] items[i].0)),
    decreases count,
{
    if count == 0 {
        assert(input =~= enc_entries(Seq::empty()) + input);
    } else {
        lemma_read_str(input);
        if let Some((id, after_id)) = parse_str(input) {
            lemma_read_u64(after_id);
            if let Some((quantity, after_quantity)) = parse_u64(after_id) {
                lemma_read_entries(after_quantity, (count - 1) as nat);
                if let Some((tail, rest)) = parse_entries(after_quantity, (count - 1) as nat) {
                    let items = seq![(id, quantity)] + tail;
                    assert(items.drop_first() =~= tail);
                    assert(items[0] == (id, quantity));
                    lemma_join(enc_u64(quantity), enc_entries(tail), rest);
                    lemma_join(enc_str(id), enc_u64(quantity) + enc_entries(tail), rest);
                    lemma_join(enc_str(id), enc_u64(quantity), enc_entries(tail));
                    assert forall|i: int| 0 <= i < items.len() implies str_fits(
                        #[trigger] items[i].0,
                    ) by {
                        if i > 0 {
                            assert(items[i] == tail[i - 1]);
                        }
                    }
                }
            }
        }
    }
}

/// An order that was read stood at the front of the input as it is written,
/// sorted and short enough.
pub proof fn lemma_read_items(input: Seq<u8>)
    ensures
        parse_items(input) matches Some((items, rest)) ==> input == enc_items(items) + rest
            && items_fit(items) && items_sorted(items),
{
    lemma_read_u32(input);
    if let Some((count, body)) = parse_u32(input) {
        lemma_read_entries(body, count as nat);
        if let Some((items, rest)) = parse_entries(body, count as nat) {
            lemma_join(enc_u32(count), enc_entries(items), rest);
        }
    }
}

/// The wire format is unambiguous: bytes that decode to a command are the
/// wire form of that command, and the command is one that can be written.
pub proof fn lemma_encoding_is_unique(input: Seq<u8>)
    ensures
        decode(input) matches Some(command) ==> command.encoding() == input && command.fits()
            && command.well_formed(),
{
    let empty = Seq::<u8>::empty();
    lemma_read_u8(input);
    if let Some(command) = decode(input) {
        let body = input.skip(1);
        match command {
            Command::RegisterMerchant { seed, fee, data } => {
                lemma_read_opt_str(body);
                let r1 = parse_opt_str(body).unwrap().1;
                lemma_read_opt_u64(r1);
                let r2 = parse_opt_u64(r1).unwrap().1;
                lemma_read_opt_str(r2);
                let r3 = parse_opt_str(r2).unwrap().1;
                assert(r3 =~= empty);
                lemma_join_nothing(enc_opt_str(data));
                lemma_join(enc_opt_str(seed), enc_opt_u64(fee), enc_opt_str(data));
            },
            Command::ExpressCheckout { amount, order_id, secret, data } => {
                lemma_read_u64(body);
                let r1 = parse_u64(body).unwrap().1;
                lemma_read_str(r1);
                let r2 = parse_str(r1).unwrap().1;
                lemma_read_str(r2);
                let r3 = parse_str(r2).unwrap().1;
                lemma_read_opt_str(r3);
                let r4 = parse_opt_str(r3).unwrap().1;
                assert(r4 =~= empty);
                lemma_join_nothing(enc_opt_str(data));
                lemma_join(enc_u64(amount) + enc_str(order_id), enc_str(secret), enc_opt_str(data));
                lemma_join(enc_u64(amount), enc_str(order_id), enc_str(secret) + enc_opt_str(data));
            },
            Command::ChainCheckout { amount, order_items, data } => {
                lemma_read_u64(body);
                let r1 = parse_u64(body).unwrap().1;
                lemma_read_items(r1);
                let r2 = parse_items(r1).unwrap().1;
                lemma_read_opt_str(r2);
                let r3 = parse_opt_str(r2).unwrap().1;
                assert(r3 =~= empty);
                lemma_join_nothing(enc_opt_str(data));
                lemma_join(enc_u64(amount), enc_items(order_items), enc_opt_str(data));
            },
            Command::Withdraw => {
                assert(body =~= empty);
            },
            Command::Subscribe { name, data } => {
                lemma_read_str(body);
                let r1 = parse_str(body).unwrap().1;
                lemma_read_opt_str(r1);
                let r2 = parse_opt_str(r1).unwrap().1;
                assert(r2 =~= empty);
                lemma_join_nothing(enc_opt_str(data));
            },
            Command::RenewSubscription { quantity } => {
                lemma_read_i64(body);
                let r1 = parse_i64(body).unwrap().1;
                assert(r1 =~= empty);
                lemma_join_nothing(enc_i64(quantity));
            },
            Command::CancelSubscription => {
                assert(body =~= empty);
            },
        }
    }
}

// ---------------------------------------------------------------------------
// Instructions
// ---------------------------------------------------------------------------

/// One account that an instruction names, and what it is allowed to do there.
#[derive(Clone, Copy, Debug, PartialEq, Eq)]
pub struct AccountMeta {
    /// The address of the account.
    pub pubkey: Address,
    /// Whether the transaction must be signed with this account's key.
    pub is_signer: bool,
    /// Whether the program may change the account.
    pub is_writable: bool,
}

impl AccountMeta {
    /// An account that the program may change.
    pub fn new(pubkey: Address, is_signer: bool) -> (meta: AccountMeta)
        ensures
            meta == writable(pubkey, is_signer),
    {
        AccountMeta { pubkey, is_signer, is_writable: true }
    }

    /// An account that the program may only read.
    pub fn new_readonly(pubkey: Address, is_signer: bool) -> (meta: AccountMeta)
        ensures
            meta == (AccountMeta { pubkey, is_signer, is_writable: false }),
    {
        AccountMeta { pubkey, is_signer, is_writable: false }
    }
}

/// The entry for an account that the program may change.
pub open spec fn writable(pubkey: Address, is_signer: bool) -> AccountMeta {
    AccountMeta { pubkey, is_signer, is_writable: true }
}

/// The entry for an account that the program may only read and that does not
/// sign.
pub open spec fn readonly(pubkey: Address) -> AccountMeta {
    AccountMeta { pubkey, is_signer: false, is_writable: false }
}

/// Whether an entry names the well-known account with the given bytes, read
/// only and without a signature.
pub open spec fn names_readonly(meta: AccountMeta, bytes: Seq<u8>) -> bool {
    meta.pubkey@ == bytes && !meta.is_signer && !meta.is_writable
}

/// A command on its way to the program: the program's address, the accounts
/// that the command needs, and the command's wire form.
#[derive(Clone, Debug, PartialEq, Eq)]
pub struct Instruction {
    /// The address of the program that executes the instruction.
    pub program_id: Address,
    /// The accounts that the program is handed, in order.
    pub accounts: Vec<AccountMeta>,
    /// The wire form of the command.
    pub data: Vec<u8>,
}

/// The accounts of a checkout, express or chain, in order.
pub open spec fn checkout_accounts(
    accounts: Seq<AccountMeta>,
    signer: Address,
    order: Address,
    merchant: Address,
    seller_token: Address,
    buyer_token: Address,
    mint: Address,
    program_owner: Address,
    sponsor: Address,
    pda: Address,
) -> bool {
    &&& accounts.len() == 12
    &&& accounts[0] == writable(signer, true)
    &&& accounts[1] == writable(order, true)
    &&& accounts[2] == readonly(merchant)
    &&& accounts[3] == writable(seller_token, false)
    &&& accounts[4] == writable(buyer_token, false)
    &&& accounts[5] == writable(program_owner, false)
    &&& accounts[6] == writable(sponsor, false)
    &&& accounts[7] == readonly(mint)
    &&& accounts[8] == readonly(pda)
    &&& names_readonly(accounts[9], token_program_bytes())
    &&& names_readonly(accounts[10], system_program_bytes())
    &&& names_readonly(accounts[11], rent_sysvar_bytes())
}

/// Creates a 'RegisterMerchant' instruction.
pub fn register_merchant(
    program_id: Address,
    signer: Address,
    merchant: Address,
    seed: Option<String>,
    fee: Option<u64>,
    data: Option<String>,
    sponsor: Option<&Address>,
) -> (instruction: Instruction)
    requires
        opt_str_fits(opt_str_view(seed)),
        opt_str_fits(opt_str_view(data)),
    ensures
        instruction.program_id == program_id,
        instruction.data@ == (Command::RegisterMerchant {
            seed: opt_str_view(seed),
            fee,
            data: opt_str_view(data),
        }).encoding(),
        instruction.accounts@.len() == if sponsor.is_some() {
            5int
        } else {
            4int
        },
        instruction.accounts@[0] == writable(signer, true),
        instruction.accounts@[1] == writable(merchant, false),
        names_readonly(instruction.accounts@[2], system_program_bytes()),
        names_readonly(instruction.accounts@[3], rent_sysvar_bytes()),
        sponsor matches Some(s) ==> instruction.accounts@[4] == readonly(*s),
{
    let mut account_metas = vec![
        AccountMeta::new(signer, true),
        AccountMeta::new(merchant, false),
        AccountMeta::new_readonly(system_program_id(), false),
        AccountMeta::new_readonly(rent_sysvar_id(), false),
    ];
    if let Some(sponsor) = sponsor {
        account_metas.push(AccountMeta::new_readonly(*sponsor, false));
    }
    Instruction {
        program_id,
        accounts: account_metas,
        data: (PaymentProcessorInstruction::RegisterMerchant { seed, fee, data }).pack(),
    }
}

/// Creates an 'ExpressCheckout' instruction.
pub fn express_checkout(
    program_id: Address,
    signer: Address,
    order: Address,
    merchant: Address,
    seller_token: Address,
    buyer_token: Address,
    mint: Address,
    program_owner: Address,
    sponsor: Address,
    pda: Address,
    amount: u64,
    order_id: String,
    secret: String,
    data: Option<String>,
) -> (instruction: Instruction)
    requires
        str_fits(order_id@),
        str_fits(secret@),
        opt_str_fits(opt_str_view(data)),
    ensures
        instruction.program_id == program_id,
        instruction.data@ == (Command::ExpressCheckout {
            amount,
            order_id: order_id@,
            secret: secret@,
            data: opt_str_view(data),
        }).encoding(),
        checkout_accounts(
            instruction.accounts@,
            signer,
            order,
            merchant,
            seller_token,
            buyer_token,
            mint,
            program_owner,
            sponsor,
            pda,
        ),
{
    Instruction {
        program_id,
        accounts: vec![
            AccountMeta::new(signer, true),
            AccountMeta::new(order, true),
            AccountMeta::new_readonly(merchant, false),
            AccountMeta::new(seller_token, false),
            AccountMeta::new(buyer_token, false),
            AccountMeta::new(program_owner, false),
            AccountMeta::new(sponsor, false),
            AccountMeta::new_readonly(mint, false),
            AccountMeta::new_readonly(pda, false),
            AccountMeta::new_readonly(token_program_id(), false),
            AccountMeta::new_readonly(system_program_id(), false),
            AccountMeta::new_readonly(rent_sysvar_id(), false),
        ],
        data: (PaymentProcessorInstruction::ExpressCheckout { amount, order_id, secret, data })
            .pack(),
    }
}

/// Creates a 'ChainCheckout' instruction.
pub fn chain_checkout(
    program_id: Address,
    signer: Address,
    order: Address,
    merchant: Address,
    seller_token: Address,
    buyer_token: Address,
    mint: Address,
    program_owner: Address,
    sponsor: Address,
    pda: Address,
    amount: u64,
    order_items: Vec<OrderItem>,
    data: Option<String>,
) -> (instruction: Instruction)
    requires
        items_fit(items_view(order_items@)),
        opt_str_fits(opt_str_view(data)),
    ensures
        instruction.program_id == program_id,
        instruction.data@ == (Command::ChainCheckout {
            amount,
            order_items: items_view(order_items@),
            data: opt_str_view(data),
        }).encoding(),
        checkout_accounts(
            instruction.accounts@,
            signer,
            order,
            merchant,
            seller_token,
            buyer_token,
            mint,
            program_owner,
            sponsor,
            pda,
        ),
{
    Instruction {
        program_id,
        accounts: vec![
            AccountMeta::new(signer, true),
            AccountMeta::new(order, true),
            AccountMeta::new_readonly(merchant, false),
            AccountMeta::new(seller_token, false),
            AccountMeta::new(buyer_token, false),
            AccountMeta::new(program_owner, false),
            AccountMeta::new(sponsor, false),
            AccountMeta::new_readonly(mint, false),
            AccountMeta::new_readonly(pda, false),
            AccountMeta::new_readonly(token_program_id(), false),
            AccountMeta::new_readonly(system_program_id(), false),
            AccountMeta::new_readonly(rent_sysvar_id(), false),
        ],
        data: (PaymentProcessorInstruction::ChainCheckout { amount, order_items, data }).pack(),
    }
}

/// Creates a 'Withdraw' instruction.
pub fn withdraw(
    program_id: Address,
    signer: Address,
    order: Address,
    merchant: Address,
    order_payment_token: Address,
    merchant_token: Address,
    pda: Address,
    subscription: Option<Address>,
) -> (instruction: Instruction)
    ensures
        instruction.program_id == program_id,
        instruction.data@ == Command::Withdraw.encoding(),
        instruction.accounts@.len() == if subscription.is_some() {
            8int
        } else {
            7int
        },
        instruction.accounts@[0] == writable(signer, true),
        instruction.accounts@[1] == writable(order, false),
        instruction.accounts@[2] == readonly(merchant),
        instruction.accounts@[3] == writable(order_payment_token, false),
        instruction.accounts@[4] == writable(merchant_token, false),
        instruction.accounts@[5] == readonly(pda),
        names_readonly(instruction.accounts@[6], token_program_bytes()),
        subscription matches Some(s) ==> instruction.accounts@[7] == readonly(s),
{
    let mut account_metas = vec![
        AccountMeta::new(signer, true),
        AccountMeta::new(order, false),
        AccountMeta::new_readonly(merchant, false),
        AccountMeta::new(order_payment_token, false),
        AccountMeta::new(merchant_token, false),
        AccountMeta::new_readonly(pda, false),
        AccountMeta::new_readonly(token_program_id(), false),
    ];
    if let Some(subscription) = subscription {
        account_metas.push(AccountMeta::new_readonly(subscription, false));
    }
    Instruction {
        program_id,
        accounts: account_metas,
        data: PaymentProcessorInstruction::Withdraw.pack(),
    }
}

/// Creates a 'Subscribe' instruction.
pub fn subscribe(
    program_id: Address,
    signer: Address,
    subscription: Address,
    merchant: Address,
    order: Address,
    name: String,
    data: Option<String>,
) -> (instruction: Instruction)
    requires
        str_fits(name@),
        opt_str_fits(opt_str_view(data)),
    ensures
        instruction.program_id == program_id,
        instruction.data@ == (Command::Subscribe { name: name@, data: opt_str_view(data) })
            .encoding(),
        instruction.accounts@.len() == 6,
        instruction.accounts@[0] == writable(signer, true),
        instruction.accounts@[1] == writable(subscription, false),
        instruction.accounts@[2] == readonly(merchant),
        instruction.accounts@[3] == readonly(order),
        names_readonly(instruction.accounts@[4], system_program_bytes()),
        names_readonly(instruction.accounts@[5], rent_sysvar_bytes()),
{
    Instruction {
        program_id,
        accounts: vec![
            AccountMeta::new(signer, true),
            AccountMeta::new(subscription, false),
            AccountMeta::new_readonly(merchant, false),
            AccountMeta::new_readonly(order, false),
            AccountMeta::new_readonly(system_program_id(), false),
            AccountMeta::new_readonly(rent_sysvar_id(), false),
        ],
        data: (PaymentProcessorInstruction::Subscribe { name, data }).pack(),
    }
}

/// Creates a 'RenewSubscription' instruction.
pub fn renew_subscription(
    program_id: Address,
    signer: Address,
    subscription: Address,
    merchant: Address,
    order: Address,
    quantity: i64,
) -> (instruction: Instruction)
    ensures
        instruction.program_id == program_id,
        instruction.data@ == (Command::RenewSubscription { quantity }).encoding(),
        instruction.accounts@ == seq![
            writable(signer, true),
            writable(subscription, false),
            readonly(merchant),
            readonly(order),
        ],
{
    Instruction {
        program_id,
        accounts: vec![
            AccountMeta::new(signer, true),
            AccountMeta::new(subscription, false),
            AccountMeta::new_readonly(merchant, false),
            AccountMeta::new_readonly(order, false),
        ],
        data: (PaymentProcessorInstruction::RenewSubscription { quantity }).pack(),
    }
}

/// Creates a 'CancelSubscription' instruction.
pub fn cancel_subscription(
    program_id: Address,
    signer: Address,
    subscription: Address,
    merchant: Address,
    order: Address,
    order_token: Address,
    refund_token: Address,
    pda: Address,
) -> (instruction: Instruction)
    ensures
        instruction.program_id == program_id,
        instruction.data@ == Command::CancelSubscription.encoding(),
        instruction.accounts@.len() == 8,
        instruction.accounts@[0] == writable(signer, true),
        instruction.accounts@[1] == writable(subscription, false),
        instruction.accounts@[2] == readonly(merchant),
        instruction.accounts@[3] == writable(order, false),
        instruction.accounts@[4] == writable(order_token, false),
        instruction.accounts@[5] == writable(refund_token, false),
        instruction.accounts@[6] == readonly(pda),
        names_readonly(instruction.accounts@[7], token_program_bytes()),
{
    Instruction {
        program_id,
        accounts: vec![
            AccountMeta::new(signer, true),
            AccountMeta::new(subscription, false),
            AccountMeta::new_readonly(merchant, false),
            AccountMeta::new(order, false),
            AccountMeta::new(order_token, false),
            AccountMeta::new(refund_token, false),
            AccountMeta::new_readonly(pda, false),
            AccountMeta::new_readonly(token_program_id(), false),
        ],
        data: PaymentProcessorInstruction::CancelSubscription.pack(),
    }
}

} // verus!
