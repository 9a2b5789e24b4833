//! The records that the program keeps in its accounts, and their byte layout.
//!
//! Every record begins with one byte that says whether the account holds a
//! record at all. Then come the fields of fixed width, then the strings, each
//! behind its length.

use vstd::prelude::*;
use crate::address::Address;
use crate::error::PaymentError;
use crate::wire::{
    enc_i64, enc_str, enc_u64, lemma_join, lemma_join_nothing, lemma_parse_address, lemma_parse_i64,
    lemma_parse_str, lemma_parse_u64, lemma_parse_u8, lemma_read_address, lemma_read_i64,
    lemma_read_str, lemma_read_u64, lemma_read_u8, parse_address, parse_i64, parse_str, parse_u64,
    parse_u8, put_address, put_i64, put_str, put_u64, put_u8, read_address, read_i64, read_str,
    read_u64, read_u8, str_fits, MAX_LEN,
};

verus! {

/// What the bytes of an account turn out to be when read as a record.
pub enum Decoded<R> {
    /// The bytes are not a record and not a vacant account either.
    Corrupt,
    /// The leading byte is zero: the account holds no record yet.
    Vacant,
    /// The bytes are exactly the layout of this record.
    Record(R),
}

// ---------------------------------------------------------------------------
// Statuses
// ---------------------------------------------------------------------------

/// Where an order stands in its life.
#[derive(Clone, Copy, Debug, PartialEq, Eq, Structural)]
pub enum OrderStatus {
    /// Created, not yet paid.
    Initialized,
    /// Paid in full; the payment is held in escrow.
    Paid,
    /// The escrowed payment was released to the merchant.
    Withdrawn,
    /// The escrowed payment was refunded to the buyer.
    Cancelled,
}

impl OrderStatus {
    /// The byte that stands for the status in a record.
    pub open spec fn spec_byte(self) -> u8 {
        match self {
            OrderStatus::Initialized => 0,
            OrderStatus::Paid => 1,
            OrderStatus::Withdrawn => 2,
            OrderStatus::Cancelled => 3,
        }
    }

    /// The status that a byte stands for, if it stands for one.
    pub open spec fn spec_from_byte(byte: u8) -> Option<OrderStatus> {
        if byte == 0 {
            Some(OrderStatus::Initialized)
        } else if byte == 1 {
            Some(OrderStatus::Paid)
        } else if byte == 2 {
            Some(OrderStatus::Withdrawn)
        } else if byte == 3 {
            Some(OrderStatus::Cancelled)
        } else {
            None
        }
    }

    /// Whether no operation leads out of this status.
    pub open spec fn spec_is_terminal(self) -> bool {
        self == OrderStatus::Withdrawn || self == OrderStatus::Cancelled
    }

    /// Whether an order may pass from `self` to `next` in one step: from
    /// initialized to paid, from paid to withdrawn, and from either of the
    /// first two to cancelled.
    pub open spec fn spec_may_become(self, next: OrderStatus) -> bool {
        match (self, next) {
            (OrderStatus::Initialized, OrderStatus::Paid) => true,
            (OrderStatus::Paid, OrderStatus::Withdrawn) => true,
            (OrderStatus::Initialized, OrderStatus::Cancelled) => true,
            (OrderStatus::Paid, OrderStatus::Cancelled) => true,
            _ => false,
        }
    }

    /// The byte that stands for the status in a record.
    pub fn to_byte(self) -> (byte: u8)
        ensures
            byte == self.spec_byte(),
    {
        match self {
            OrderStatus::Initialized => 0,
            OrderStatus::Paid => 1,
            OrderStatus::Withdrawn => 2,
            OrderStatus::Cancelled => 3,
        }
    }

    /// The status that a byte stands for, if it stands for one.
    pub fn from_byte(byte: u8) -> (status: Option<OrderStatus>)
        ensures
            status == OrderStatus::spec_from_byte(byte),
    {
        match byte {
            0 => Some(OrderStatus::Initialized),
            1 => Some(OrderStatus::Paid),
            2 => Some(OrderStatus::Withdrawn),
            3 => Some(OrderStatus::Cancelled),
            _ => None,
        }
    }

    /// Whether no operation leads out of this status.
    pub fn is_terminal(self) -> (terminal: bool)
        ensures
            terminal == self.spec_is_terminal(),
    {
        match self {
            OrderStatus::Withdrawn => true,
            OrderStatus::Cancelled => true,
            _ => false,
        }
    }

    /// Whether an order may pass from `self` to `next` in one step.
    pub fn may_become(self, next: OrderStatus) -> (allowed: bool)
        ensures
            allowed == self.spec_may_become(next),
    {
        match (self, next) {
            (OrderStatus::Initialized, OrderStatus::Paid) => true,
            (OrderStatus::Paid, OrderStatus::Withdrawn) => true,
            (OrderStatus::Initialized, OrderStatus::Cancelled) => true,
            (OrderStatus::Paid, OrderStatus::Cancelled) => true,
            _ => false,
        }
    }
}

/// Where a subscription stands in its life.
#[derive(Clone, Copy, Debug, PartialEq, Eq, Structural)]
pub enum SubscriptionStatus {
    /// Running, or run out and open to renewal.
    Initialized,
    /// Cancelled by its owner.
    Cancelled,
}

impl SubscriptionStatus {
    /// The byte that stands for the status in a record.
    pub open spec fn spec_byte(self) -> u8 {
        match self {
            SubscriptionStatus::Initialized => 0,
            SubscriptionStatus::Cancelled => 1,
        }
    }

    /// The status that a byte stands for, if it stands for one.
    pub open spec fn spec_from_byte(byte: u8) -> Option<SubscriptionStatus> {
        if byte == 0 {
            Some(SubscriptionStatus::Initialized)
        } else if byte == 1 {
            Some(SubscriptionStatus::Cancelled)
        } else {
            None
        }
    }

    /// The byte that stands for the status in a record.
    pub fn to_byte(self) -> (byte: u8)
        ensures
            byte == self.spec_byte(),
    {
        match self {
            SubscriptionStatus::Initialized => 0,
            SubscriptionStatus::Cancelled => 1,
        }
    }

    /// The status that a byte stands for, if it stands for one.
    pub fn from_byte(byte: u8) -> (status: Option<SubscriptionStatus>)
        ensures
            status == SubscriptionStatus::spec_from_byte(byte),
    {
        match byte {
            0 => Some(SubscriptionStatus::Initialized),
            1 => Some(SubscriptionStatus::Cancelled),
            _ => None,
        }
    }
}

// ---------------------------------------------------------------------------
// Merchant
// ---------------------------------------------------------------------------

/// The configuration of a registered merchant.
#[derive(Clone, Debug, PartialEq, Eq)]
pub struct MerchantAccount {
    /// Who registered the merchant.
    pub owner: Address,
    /// Who receives the sponsor's share of each fee.
    pub sponsor: Address,
    /// The fee charged for each order, in lamports.
    pub fee: u64,
    /// The seed under which the merchant was registered.
    pub seed: String,
    /// The merchant's own data: by convention a JSON document.
    pub data: String,
}

/// What a merchant record says.
pub struct MerchantRecord {
    pub owner: Seq<u8>,
    pub sponsor: Seq<u8>,
    pub fee: u64,
    pub seed: Seq<char>,
    pub data: Seq<char>,
}

impl MerchantRecord {
    /// Whether the record can be laid out: addresses of full length, strings
    /// short enough for their length prefix.
    pub open spec fn fits(self) -> bool {
        &&& self.owner.len() == 32
        &&& self.sponsor.len() == 32
        &&& str_fits(self.seed)
        &&& str_fits(self.data)
    }

    /// The fields behind the leading byte.
    pub open spec fn body(self) -> Seq<u8> {
        self.owner + self.sponsor + enc_u64(self.fee) + enc_str(self.seed) + enc_str(self.data)
    }

    /// The bytes of the record.
    pub open spec fn encoding(self) -> Seq<u8> {
        seq![1u8] + self.body()
    }
}

/// The fields of a merchant record and the rest.
pub open spec fn parse_merchant(input: Seq<u8>) -> Option<(MerchantRecord, Seq<u8>)> {
    match parse_address(input) {
        Some((owner, r1)) => match parse_address(r1) {
            Some((sponsor, r2)) => match parse_u64(r2) {
                Some((fee, r3)) => match parse_str(r3) {
                    Some((seed, r4)) => match parse_str(r4) {
                        Some((data, r5)) => Some(
                            (MerchantRecord { owner, sponsor, fee, seed, data }, r5),
                        ),
                        None => None,
                    },
                    None => None,
                },
                None => None,
            },
            None => None,
        },
        None => None,
    }
}

/// What the bytes of an account are when read as a merchant record.
pub open spec fn decode_merchant(input: Seq<u8>) -> Decoded<MerchantRecord> {
    match parse_u8(input) {
        Some((flag, body)) => {
            if flag == 0 {
                Decoded::Vacant
            } else if flag == 1 {
                match parse_merchant(body) {
                    Some((record, rest)) => if rest.len() == 0 {
                        Decoded::Record(record)
                    } else {
                        Decoded::Corrupt
                    },
                    None => Decoded::Corrupt,
                }
            } else {
                Decoded::Corrupt
            }
        },
        None => Decoded::Corrupt,
    }
}

impl View for MerchantAccount {
    type V = MerchantRecord;

    open spec fn view(&self) -> MerchantRecord {
        MerchantRecord {
            owner: self.owner@,
            sponsor: self.sponsor@,
            fee: self.fee,
            seed: self.seed@,
            data: self.data@,
        }
    }
}

impl MerchantAccount {
    /// Whether the record can be laid out: every string is short enough for
    /// its length prefix.
    pub fn fits_wire(&self) -> (fits: bool)
        ensures
            fits == self@.fits(),
    {
        self.seed.as_str().as_bytes().len() <= MAX_LEN && self.data.as_str().as_bytes().len() <= MAX_LEN
    }

    /// The bytes of the record.
    pub fn pack(&self) -> (bytes: Vec<u8>)
        requires
            self@.fits(),
        ensures
            bytes@ == self@.encoding(),
    {
        let mut out: Vec<u8> = Vec::new();
        put_u8(&mut out, 1);
        put_address(&mut out, &self.owner);
        put_address(&mut out, &self.sponsor);
        put_u64(&mut out, self.fee);
        put_str(&mut out, self.seed.as_str());
        put_str(&mut out, self.data.as_str());
        assert(out@ =~= self@.encoding());
        out
    }

    /// Reads the bytes of an account as a merchant record: `Ok(None)` where
    /// the account holds no record yet.
    pub fn unpack(input: &[u8]) -> (read: Result<Option<MerchantAccount>, PaymentError>)
        ensures
            match read {
                Ok(Some(account)) => decode_merchant(input@) == Decoded::Record(account@),
                Ok(None) => decode_merchant(input@) == Decoded::<MerchantRecord>::Vacant,
                Err(e) => e == PaymentError::CorruptAccountData && decode_merchant(input@)
                    == Decoded::<MerchantRecord>::Corrupt,
            },
    {
        assert(input@.skip(0) =~= input@);
        let (flag, at0) = match read_u8(input, 0) {
            Some(found) => found,
            None => {
                return Err(PaymentError::CorruptAccountData);
            },
        };
        if flag == 0 {
            return Ok(None);
        }
        if flag != 1 {
            return Err(PaymentError::CorruptAccountData);
        }
        let (owner, at1) = match read_address(input, at0) {
            Some(found) => found,
            None => {
                return Err(PaymentError::CorruptAccountData);
            },
        };
        let (sponsor, at2) = match read_address(input, at1) {
            Some(found) => found,
            None => {
                return Err(PaymentError::CorruptAccountData);
            },
        };
        let (fee, at3) = match read_u64(input, at2) {
            Some(found) => found,
            None => {
                return Err(PaymentError::CorruptAccountData);
            },
        };
        let (seed, at4) = match read_str(input, at3) {
            Some(found) => found,
            None => {
                return Err(PaymentError::CorruptAccountData);
            },
        };
        let (data, at5) = match read_str(input, at4) {
            Some(found) => found,
            None => {
                return Err(PaymentError::CorruptAccountData);
            },
        };
        if at5 != input.len() {
            return Err(PaymentError::CorruptAccountData);
        }
        Ok(Some(MerchantAccount { owner, sponsor, fee, seed, data }))
    }
}

/// The fields of a merchant record, joined from the right.
pub open spec fn merchant_body_from_right(record: MerchantRecord) -> Seq<u8> {
    record.owner + (record.sponsor + (enc_u64(record.fee) + (enc_str(record.seed) + (enc_str(
        record.data,
    ) + Seq::<u8>::empty()))))
}

/// The fields of a merchant record are the same bytes from whichever side
/// they are joined.
proof fn lemma_merchant_body(record: MerchantRecord)
    ensures
        record.body() == merchant_body_from_right(record),
{
    let owner = record.owner;
    let sponsor = record.sponsor;
    let fee = enc_u64(record.fee);
    let seed = enc_str(record.seed);
    let data = enc_str(record.data);
    lemma_join(owner + sponsor + fee, seed, data);
    lemma_join(owner + sponsor, fee, seed + data);
    lemma_join(owner, sponsor, fee + (seed + data));
    lemma_join_nothing(data);
}

/// Reading a merchant record back: the bytes of a record that can be laid
/// out decode to that record.
pub proof fn lemma_merchant_round_trip(record: MerchantRecord)
    requires
        record.fits(),
    ensures
        decode_merchant(record.encoding()) == Decoded::Record(record),
{
    let empty = Seq::<u8>::empty();
    let owner = record.owner;
    let sponsor = record.sponsor;
    let fee = enc_u64(record.fee);
    let seed = enc_str(record.seed);
    let data = enc_str(record.data);
    lemma_merchant_body(record);
    lemma_parse_u8(1u8, record.body());
    lemma_parse_address(owner, sponsor + (fee + (seed + (data + empty))));
    lemma_parse_address(sponsor, fee + (seed + (data + empty)));
    lemma_parse_u64(record.fee, seed + (data + empty));
    lemma_parse_str(record.seed, data + empty);
    lemma_parse_str(record.data, empty);
}

/// A merchant record has one layout only: bytes that decode to a record are
/// the bytes of that record.
pub proof fn lemma_merchant_layout_is_unique(input: Seq<u8>)
    ensures
        decode_merchant(input) matches Decoded::Record(record) ==> record.encoding() == input
            && record.fits(),
{
    if let Decoded::Record(record) = decode_merchant(input) {
        lemma_read_u8(input);
        let body = input.skip(1);
        lemma_read_address(body);
        let r1 = parse_address(body).unwrap().1;
        lemma_read_address(r1);
        let r2 = parse_address(r1).unwrap().1;
        lemma_read_u64(r2);
        let r3 = parse_u64(r2).unwrap().1;
        lemma_read_str(r3);
        let r4 = parse_str(r3).unwrap().1;
        lemma_read_str(r4);
        let r5 = parse_str(r4).unwrap().1;
        assert(r5 =~= Seq::<u8>::empty());
        lemma_merchant_body(record);
        assert(body == merchant_body_from_right(record));
    }
}

// ---------------------------------------------------------------------------
// Order
// ---------------------------------------------------------------------------

/// An order and its payment.
#[derive(Clone, Debug, PartialEq, Eq)]
pub struct OrderAccount {
    /// Where the order stands in its life.
    pub status: OrderStatus,
    /// The merchant that the order was placed with.
    pub merchant: Address,
    /// The currency of the payment.
    pub mint: Address,
    /// The escrow token account that holds the payment.
    pub token: Address,
    /// Who paid.
    pub payer: Address,
    /// The amount owed.
    pub expected_amount: u64,
    /// The amount paid.
    pub paid_amount: u64,
    /// The merchant's own identifier of the order.
    pub order_id: String,
    /// A string by which the merchant can tell that the order is authentic.
    pub secret: String,
    /// What was ordered: by convention a JSON document.
    pub data: String,
}

/// What an order record says.
pub struct OrderRecord {
    pub status: OrderStatus,
    pub merchant: Seq<u8>,
    pub mint: Seq<u8>,
    pub token: Seq<u8>,
    pub payer: Seq<u8>,
    pub expected_amount: u64,
    pub paid_amount: u64,
    pub order_id: Seq<char>,
    pub secret: Seq<char>,
    pub data: Seq<char>,
}

impl OrderRecord {
    /// Whether the record can be laid out: addresses of full length, strings
    /// short enough for their length prefix.
    pub open spec fn fits(self) -> bool {
        &&& self.merchant.len() == 32
        &&& self.mint.len() == 32
        &&& self.token.len() == 32
        &&& self.payer.len() == 32
        &&& str_fits(self.order_id)
        &&& str_fits(self.secret)
        &&& str_fits(self.data)
    }

    /// The fields behind the leading byte.
    pub open spec fn body(self) -> Seq<u8> {
        seq![self.status.spec_byte()] + self.merchant + self.mint + self.token + self.payer
            + enc_u64(self.expected_amount) + enc_u64(self.paid_amount) + enc_str(self.order_id)
            + enc_str(self.secret) + enc_str(self.data)
    }

    /// The bytes of the record.
    pub open spec fn encoding(self) -> Seq<u8> {
        seq![1u8] + self.body()
    }
}

/// The strings of an order record and the rest.
pub open spec fn parse_order_strings(input: Seq<u8>) -> Option<
    (Seq<char>, Seq<char>, Seq<char>, Seq<u8>),
> {
    match parse_str(input) {
        Some((order_id, r1)) => match parse_str(r1) {
            Some((secret, r2)) => match parse_str(r2) {
                Some((data, r3)) => Some((order_id, secret, data, r3)),
                None => None,
            },
            None => None,
        },
        None => None,
    }
}

/// The four addresses of an order record and the rest.
pub open spec fn parse_order_addresses(input: Seq<u8>) -> Option<
    (Seq<u8>, Seq<u8>, Seq<u8>, Seq<u8>, Seq<u8>),
> {
    match parse_address(input) {
        Some((merchant, r1)) => match parse_address(r1) {
            Some((mint, r2)) => match parse_address(r2) {
                Some((token, r3)) => match parse_address(r3) {
                    Some((payer, r4)) => Some((merchant, mint, token, payer, r4)),
                    None => None,
                },
                None => None,
            },
            None => None,
        },
        None => None,
    }
}

/// The fields of an order record and the rest.
pub open spec fn parse_order(input: Seq<u8>) -> Option<(OrderRecord, Seq<u8>)> {
    match parse_u8(input) {
        Some((status_byte, r0)) => match OrderStatus::spec_from_byte(status_byte) {
            Some(status) => match parse_order_addresses(r0) {
                Some((merchant, mint, token, payer, r4)) => match parse_u64(r4) {
                    Some((expected_amount, r5)) => match parse_u64(r5) {
                        Some((paid_amount, r6)) => match parse_order_strings(r6) {
                            Some((order_id, secret, data, r9)) => Some(
                                (
                                    OrderRecord {
                                        status,
                                        merchant,
                                        mint,
                                        token,
                                        payer,
                                        expected_amount,
                                        paid_amount,
                                        order_id,
                                        secret,
                                        data,
                                    },
                                    r9,
                                ),
                            ),
                            None => None,
                        },
                        None => None,
                    },
                    None => None,
                },
                None => None,
            },
            None => None,
        },
        None => None,
    }
}

/// What the bytes of an account are when read as an order record.
pub open spec fn decode_order(input: Seq<u8>) -> Decoded<OrderRecord> {
    match parse_u8(input) {
        Some((flag, body)) => {
            if flag == 0 {
                Decoded::Vacant
            } else if flag == 1 {
                match parse_order(body) {
                    Some((record, rest)) => if rest.len() == 0 {
                        Decoded::Record(record)
                    } else {
                        Decoded::Corrupt
                    },
                    None => Decoded::Corrupt,
                }
            } else {
                Decoded::Corrupt
            }
        },
        None => Decoded::Corrupt,
    }
}

impl View for OrderAccount {
    type V = OrderRecord;

    open spec fn view(&self) -> OrderRecord {
        OrderRecord {
            status: self.status,
            merchant: self.merchant@,
            mint: self.mint@,
            token: self.token@,
            payer: self.payer@,
            expected_amount: self.expected_amount,
            paid_amount: self.paid_amount,
            order_id: self.order_id@,
            secret: self.secret@,
            data: self.data@,
        }
    }
}

impl OrderAccount {
    /// Whether the record can be laid out: every string is short enough for
    /// its length prefix.
    pub fn fits_wire(&self) -> (fits: bool)
        ensures
            fits == self@.fits(),
    {
        self.order_id.as_str().as_bytes().len() <= MAX_LEN
            && self.secret.as_str().as_bytes().len() <= MAX_LEN
            && self.data.as_str().as_bytes().len() <= MAX_LEN
    }

    /// The bytes of the record.
    pub fn pack(&self) -> (bytes: Vec<u8>)
        requires
            self@.fits(),
        ensures
            bytes@ == self@.encoding(),
    {
        let mut out: Vec<u8> = Vec::new();
        put_u8(&mut out, 1);
        put_u8(&mut out, self.status.to_byte());
        put_address(&mut out, &self.merchant);
        put_address(&mut out, &self.mint);
        put_address(&mut out, &self.token);
        put_address(&mut out, &self.payer);
        put_u64(&mut out, self.expected_amount);
        put_u64(&mut out, self.paid_amount);
        put_str(&mut out, self.order_id.as_str());
        put_str(&mut out, self.secret.as_str());
        put_str(&mut out, self.data.as_str());
        assert(out@ =~= self@.encoding());
        out
    }

    /// Reads the bytes of an account as an order record: `Ok(None)` where the
    /// account holds no record yet.
    pub fn unpack(input: &[u8]) -> (read: Result<Option<OrderAccount>, PaymentError>)
        ensures
            match read {
                Ok(Some(account)) => decode_order(input@) == Decoded::Record(account@),
                Ok(None) => decode_order(input@) == Decoded::<OrderRecord>::Vacant,
                Err(e) => e == PaymentError::CorruptAccountData && decode_order(input@)
                    == Decoded::<OrderRecord>::Corrupt,
            },
    {
        assert(input@.skip(0) =~= input@);
        let (flag, at0) = match read_u8(input, 0) {
            Some(found) => found,
            None => {
                return Err(PaymentError::CorruptAccountData);
            },
        };
        if flag == 0 {
            return Ok(None);
        }
        if flag != 1 {
            return Err(PaymentError::CorruptAccountData);
        }
        match read_order(input, at0) {
            Some((account, next)) => {
                if next == input.len() {
                    Ok(Some(account))
                } else {
                    Err(PaymentError::CorruptAccountData)
                }
            },
            None => Err(PaymentError::CorruptAccountData),
        }
    }
}

/// Reads the fields of an order record at `pos`.
fn read_order(input: &[u8], pos: usize) -> (read: Option<(OrderAccount, usize)>)
    requires
        pos <= input@.len(),
    ensures
        match read {
            Some((account, next)) => pos <= next <= input@.len() && parse_order(
                input@.skip(pos as int),
            ) == Some((account@, input@.skip(next as int))),
            None => parse_order(input@.skip(pos as int)).is_none(),
        },
{
    let (status_byte, at0) = match read_u8(input, pos) {
        Some(found) => found,
        None => {
            return None;
        },
    };
    let status = match OrderStatus::from_byte(status_byte) {
        Some(found) => found,
        None => {
            return None;
        },
    };
    let (merchant, at1) = match read_address(input, at0) {
        Some(found) => found,
        None => {
            return None;
        },
    };
    let (mint, at2) = match read_address(input, at1) {
        Some(found) => found,
        None => {
            return None;
        },
    };
    let (token, at3) = match read_address(input, at2) {
        Some(found) => found,
        None => {
            return None;
        },
    };
    let (payer, at4) = match read_address(input, at3) {
        Some(found) => found,
        None => {
            return None;
        },
    };
    let (expected_amount, at5) = match read_u64(input, at4) {
        Some(found) => found,
        None => {
            return None;
        },
    };
    let (paid_amount, at6) = match read_u64(input, at5) {
        Some(found) => found,
        None => {
            return None;
        },
    };
    let (order_id, at7) = match read_str(input, at6) {
        Some(found) => found,
        None => {
            return None;
        },
    };
    let (secret, at8) = match read_str(input, at7) {
        Some(found) => found,
        None => {
            return None;
        },
    };
    let (data, at9) = match read_str(input, at8) {
        Some(found) => found,
        None => {
            return None;
        },
    };
    Some(
        (
            OrderAccount {
                status,
                merchant,
                mint,
                token,
                payer,
                expected_amount,
                paid_amount,
                order_id,
                secret,
                data,
            },
            at9,
        ),
    )
}

/// Reading back the four addresses of an order record.
proof fn lemma_parse_order_addresses(
    merchant: Seq<u8>,
    mint: Seq<u8>,
    token: Seq<u8>,
    payer: Seq<u8>,
    rest: Seq<u8>,
)
    requires
        merchant.len() == 32,
        mint.len() == 32,
        token.len() == 32,
        payer.len() == 32,
    ensures
        parse_order_addresses(merchant + (mint + (token + (payer + rest)))) == Some(
            (merchant, mint, token, payer, rest),
        ),
{
    lemma_parse_address(merchant, mint + (token + (payer + rest)));
    lemma_parse_address(mint, token + (payer + rest));
    lemma_parse_address(token, payer + rest);
    lemma_parse_address(payer, rest);
}

/// Reading back the three strings of an order record.
proof fn lemma_parse_order_strings(
    order_id: Seq<char>,
    secret: Seq<char>,
    data: Seq<char>,
    rest: Seq<u8>,
)
    requires
        str_fits(order_id),
        str_fits(secret),
        str_fits(data),
    ensures
        parse_order_strings(enc_str(order_id) + (enc_str(secret) + (enc_str(data) + rest)))
            == Some((order_id, secret, data, rest)),
{
    lemma_parse_str(order_id, enc_str(secret) + (enc_str(data) + rest));
    lemma_parse_str(secret, enc_str(data) + rest);
    lemma_parse_str(data, rest);
}

/// The strings of an order record, joined from the right.
pub open spec fn order_strings_from_right(record: OrderRecord) -> Seq<u8> {
    enc_str(record.order_id) + (enc_str(record.secret) + (enc_str(record.data) + Seq::<
        u8,
    >::empty()))
}

/// The fields of an order record behind its status, joined from the right.
pub open spec fn order_fields_from_right(record: OrderRecord) -> Seq<u8> {
    record.merchant + (record.mint + (record.token + (record.payer + (enc_u64(
        record.expected_amount,
    ) + (enc_u64(record.paid_amount) + order_strings_from_right(record))))))
}

/// The fields of an order record are the same bytes from whichever side
/// they are joined.
proof fn lemma_order_body(record: OrderRecord)
    ensures
        record.body() == seq![record.status.spec_byte()] + order_fields_from_right(record),
{
    let empty = Seq::<u8>::empty();
    let status = seq![record.status.spec_byte()];
    let merchant = record.merchant;
    let mint = record.mint;
    let token = record.token;
    let payer = record.payer;
    let expected = enc_u64(record.expected_amount);
    let paid = enc_u64(record.paid_amount);
    let order_id = enc_str(record.order_id);
    let secret = enc_str(record.secret);
    let data = enc_str(record.data);
    lemma_join_nothing(data);
    let t9 = data + empty;
    lemma_join(
        status + merchant + mint + token + payer + expected + paid + order_id,
        secret,
        data,
    );
    let t8 = secret + t9;
    lemma_join(status + merchant + mint + token + payer + expected + paid, order_id, t8);
    let t7 = order_id + t8;
    lemma_join(status + merchant + mint + token + payer + expected, paid, t7);
    let t6 = paid + t7;
    lemma_join(status + merchant + mint + token + payer, expected, t6);
    let t5 = expected + t6;
    lemma_join(status + merchant + mint + token, payer, t5);
    let t4 = payer + t5;
    lemma_join(status + merchant + mint, token, t4);
    let t3 = token + t4;
    lemma_join(status + merchant, mint, t3);
    let t2 = mint + t3;
    lemma_join(status, merchant, t2);
}

/// Reading back the fields of an order record.
proof fn lemma_parse_order(record: OrderRecord)
    requires
        record.fits(),
    ensures
        parse_order(record.body()) == Some((record, Seq::<u8>::empty())),
{
    let empty = Seq::<u8>::empty();
    let strings = order_strings_from_right(record);
    let t6 = enc_u64(record.paid_amount) + strings;
    let t5 = enc_u64(record.expected_amount) + t6;
    lemma_order_body(record);
    lemma_parse_u8(record.status.spec_byte(), order_fields_from_right(record));
    lemma_parse_order_addresses(record.merchant, record.mint, record.token, record.payer, t5);
    lemma_parse_u64(record.expected_amount, t6);
    lemma_parse_u64(record.paid_amount, strings);
    lemma_parse_order_strings(record.order_id, record.secret, record.data, empty);
}

/// The status that a byte stands for stands for that byte.
pub proof fn lemma_order_status_byte(byte: u8)
    ensures
        OrderStatus::spec_from_byte(byte) matches Some(status) ==> status.spec_byte() == byte,
{
}

/// An order record has one layout only: bytes that decode to a record are
/// the bytes of that record.
pub proof fn lemma_order_layout_is_unique(input: Seq<u8>)
    ensures
        decode_order(input) matches Decoded::Record(record) ==> record.encoding() == input
            && record.fits(),
{
    if let Decoded::Record(record) = decode_order(input) {
        lemma_read_u8(input);
        let body = input.skip(1);
        lemma_read_u8(body);
        let r0 = body.skip(1);
        lemma_read_address(r0);
        let r1 = parse_address(r0).unwrap().1;
        lemma_read_address(r1);
        let r2 = parse_address(r1).unwrap().1;
        lemma_read_address(r2);
        let r3 = parse_address(r2).unwrap().1;
        lemma_read_address(r3);
        let r4 = parse_address(r3).unwrap().1;
        lemma_read_u64(r4);
        let r5 = parse_u64(r4).unwrap().1;
        lemma_read_u64(r5);
        let r6 = parse_u64(r5).unwrap().1;
        lemma_read_str(r6);
        let r7 = parse_str(r6).unwrap().1;
        lemma_read_str(r7);
        let r8 = parse_str(r7).unwrap().1;
        lemma_read_str(r8);
        let r9 = parse_str(r8).unwrap().1;
        assert(r9 =~= Seq::<u8>::empty());
        assert(r6 == order_strings_from_right(record));
        assert(r0 == order_fields_from_right(record));
        lemma_order_body(record);
    }
}

/// Reading an order record back: the bytes of a record that can be laid out
/// decode to that record.
pub proof fn lemma_order_round_trip(record: OrderRecord)
    requires
        record.fits(),
    ensures
        decode_order(record.encoding()) == Decoded::Record(record),
{
    lemma_parse_u8(1u8, record.body());
    lemma_parse_order(record);
}

// ---------------------------------------------------------------------------
// Subscription
// ---------------------------------------------------------------------------

/// A subscription to one of a merchant's packages.
#[derive(Clone, Debug, PartialEq, Eq)]
pub struct SubscriptionAccount {
    /// Where the subscription stands in its life.
    pub status: SubscriptionStatus,
    /// Who subscribed.
    pub owner: Address,
    /// The merchant whose package it is.
    pub merchant: Address,
    /// When the current period began.
    pub period_start: i64,
    /// When the current period ends.
    pub period_end: i64,
    /// The subscription and the package, as `subscription:package`.
    pub name: String,
    /// The package as it was when the subscription began, and the
    /// subscriber's own data: a JSON document.
    pub data: String,
}

/// What a subscription record says.
pub struct SubscriptionRecord {
    pub status: SubscriptionStatus,
    pub owner: Seq<u8>,
    pub merchant: Seq<u8>,
    pub period_start: i64,
    pub period_end: i64,
    pub name: Seq<char>,
    pub data: Seq<char>,
}

impl SubscriptionRecord {
    /// Whether the record can be laid out: addresses of full length, strings
    /// short enough for their length prefix.
    pub open spec fn fits(self) -> bool {
        &&& self.owner.len() == 32
        &&& self.merchant.len() == 32
        &&& str_fits(self.name)
        &&& str_fits(self.data)
    }

    /// Whether the period does not end before it begins.
    pub open spec fn valid(self) -> bool {
        self.period_start <= self.period_end
    }

    /// The fields behind the leading byte.
    pub open spec fn body(self) -> Seq<u8> {
        seq![self.status.spec_byte()] + self.owner + self.merchant + enc_i64(self.period_start)
            + enc_i64(self.period_end) + enc_str(self.name) + enc_str(self.data)
    }

    /// The bytes of the record.
    pub open spec fn encoding(self) -> Seq<u8> {
        seq![1u8] + self.body()
    }
}

/// The fields of a subscription record and the rest. A period that ends
/// before it begins is refused.
pub open spec fn parse_subscription(input: Seq<u8>) -> Option<(SubscriptionRecord, Seq<u8>)> {
    match parse_u8(input) {
        Some((status_byte, r0)) => match SubscriptionStatus::spec_from_byte(status_byte) {
            Some(status) => match parse_address(r0) {
                Some((owner, r1)) => match parse_address(r1) {
                    Some((merchant, r2)) => match parse_i64(r2) {
                        Some((period_start, r3)) => match parse_i64(r3) {
                            Some((period_end, r4)) => match parse_str(r4) {
                                Some((name, r5)) => match parse_str(r5) {
                                    Some((data, r6)) => if period_start <= period_end {
                                        Some(
                                            (
                                                SubscriptionRecord {
                                                    status,
                                                    owner,
                                                    merchant,
                                                    period_start,
                                                    period_end,
                                                    name,
                                                    data,
                                                },
                                                r6,
                                            ),
                                        )
                                    } else {
                                        None
                                    },
                                    None => None,
                                },
                                None => None,
                            },
                            None => None,
                        },
                        None => None,
                    },
                    None => None,
                },
                None => None,
            },
            None => None,
        },
        None => None,
    }
}

/// What the bytes of an account are when read as a subscription record.
pub open spec fn decode_subscription(input: Seq<u8>) -> Decoded<SubscriptionRecord> {
    match parse_u8(input) {
        Some((flag, body)) => {
            if flag == 0 {
                Decoded::Vacant
            } else if flag == 1 {
                match parse_subscription(body) {
                    Some((record, rest)) => if rest.len() == 0 {
                        Decoded::Record(record)
                    } else {
                        Decoded::Corrupt
                    },
                    None => Decoded::Corrupt,
                }
            } else {
                Decoded::Corrupt
            }
        },
        None => Decoded::Corrupt,
    }
}

impl View for SubscriptionAccount {
    type V = SubscriptionRecord;

    open spec fn view(&self) -> SubscriptionRecord {
        SubscriptionRecord {
            status: self.status,
            owner: self.owner@,
            merchant: self.merchant@,
            period_start: self.period_start,
            period_end: self.period_end,
            name: self.name@,
            data: self.data@,
        }
    }
}

impl SubscriptionAccount {
    /// Whether the record can be laid out: every string is short enough for
    /// its length prefix.
    pub fn fits_wire(&self) -> (fits: bool)
        ensures
            fits == self@.fits(),
    {
        self.name.as_str().as_bytes().len() <= MAX_LEN && self.data.as_str().as_bytes().len() <= MAX_LEN
    }

    /// The bytes of the record.
    pub fn pack(&self) -> (bytes: Vec<u8>)
        requires
            self@.fits(),
        ensures
            bytes@ == self@.encoding(),
    {
        let mut out: Vec<u8> = Vec::new();
        put_u8(&mut out, 1);
        put_u8(&mut out, self.status.to_byte());
        put_address(&mut out, &self.owner);
        put_address(&mut out, &self.merchant);
        put_i64(&mut out, self.period_start);
        put_i64(&mut out, self.period_end);
        put_str(&mut out, self.name.as_str());
        put_str(&mut out, self.data.as_str());
        assert(out@ =~= self@.encoding());
        out
    }

    /// Reads the bytes of an account as a subscription record: `Ok(None)`
    /// where the account holds no record yet.
    pub fn unpack(input: &[u8]) -> (read: Result<Option<SubscriptionAccount>, PaymentError>)
        ensures
            match read {
                Ok(Some(account)) => decode_subscription(input@) == Decoded::Record(account@),
                Ok(None) => decode_subscription(input@) == Decoded::<SubscriptionRecord>::Vacant,
                Err(e) => e == PaymentError::CorruptAccountData && decode_subscription(input@)
                    == Decoded::<SubscriptionRecord>::Corrupt,
            },
    {
        assert(input@.skip(0) =~= input@);
        let (flag, at0) = match read_u8(input, 0) {
            Some(found) => found,
            None => {
                return Err(PaymentError::CorruptAccountData);
            },
        };
        if flag == 0 {
            return Ok(None);
        }
        if flag != 1 {
            return Err(PaymentError::CorruptAccountData);
        }
        match read_subscription(input, at0) {
            Some((account, next)) => {
                if next == input.len() {
                    Ok(Some(account))
                } else {
                    Err(PaymentError::CorruptAccountData)
                }
            },
            None => Err(PaymentError::CorruptAccountData),
        }
    }
}

/// Reads the fields of a subscription record at `pos`.
fn read_subscription(input: &[u8], pos: usize) -> (read: Option<(SubscriptionAccount, usize)>)
    requires
        pos <= input@.len(),
    ensures
        match read {
            Some((account, next)) => pos <= next <= input@.len() && parse_subscription(
                input@.skip(pos as int),
            ) == Some((account@, input@.skip(next as int))),
            None => parse_subscription(input@.skip(pos as int)).is_none(),
        },
{
    let (status_byte, at0) = match read_u8(input, pos) {
        Some(found) => found,
        None => {
            return None;
        },
    };
    let status = match SubscriptionStatus::from_byte(status_byte) {
        Some(found) => found,
        None => {
            return None;
        },
    };
    let (owner, at1) = match read_address(input, at0) {
        Some(found) => found,
        None => {
            return None;
        },
    };
    let (merchant, at2) = match read_address(input, at1) {
        Some(found) => found,
        None => {
            return None;
        },
    };
    let (period_start, at3) = match read_i64(input, at2) {
        Some(found) => found,
        None => {
            return None;
        },
    };
    let (period_end, at4) = match read_i64(input, at3) {
        Some(found) => found,
        None => {
            return None;
        },
    };
    let (name, at5) = match read_str(input, at4) {
        Some(found) => found,
        None => {
            return None;
        },
    };
    let (data, at6) = match read_str(input, at5) {
        Some(found) => found,
        None => {
            return None;
        },
    };
    if period_start > period_end {
        return None;
    }
    Some(
        (
            SubscriptionAccount { status, owner, merchant, period_start, period_end, name, data },
            at6,
        ),
    )
}

/// The fields of a subscription record behind its status, joined from the
/// right.
pub open spec fn subscription_fields_from_right(record: SubscriptionRecord) -> Seq<u8> {
    record.owner + (record.merchant + (enc_i64(record.period_start) + (enc_i64(
        record.period_end,
    ) + (enc_str(record.name) + (enc_str(record.data) + Seq::<u8>::empty())))))
}

/// The fields of a subscription record are the same bytes from whichever
/// side they are joined.
proof fn lemma_subscription_body(record: SubscriptionRecord)
    ensures
        record.body() == seq![record.status.spec_byte()] + subscription_fields_from_right(
            record,
        ),
{
    let empty = Seq::<u8>::empty();
    let status = seq![record.status.spec_byte()];
    let owner = record.owner;
    let merchant = record.merchant;
    let start = enc_i64(record.period_start);
    let end = enc_i64(record.period_end);
    let name = enc_str(record.name);
    let data = enc_str(record.data);
    lemma_join_nothing(data);
    let t6 = data + empty;
    lemma_join(status + owner + merchant + start + end, name, data);
    let t5 = name + t6;
    lemma_join(status + owner + merchant + start, end, t5);
    let t4 = end + t5;
    lemma_join(status + owner + merchant, start, t4);
    let t3 = start + t4;
    lemma_join(status + owner, merchant, t3);
    let t2 = merchant + t3;
    lemma_join(status, owner, t2);
}

/// Reading back the fields of a subscription record.
proof fn lemma_parse_subscription(record: SubscriptionRecord)
    requires
        record.fits(),
        record.valid(),
    ensures
        parse_subscription(record.body()) == Some((record, Seq::<u8>::empty())),
{
    let empty = Seq::<u8>::empty();
    let t6 = enc_str(record.data) + empty;
    let t5 = enc_str(record.name) + t6;
    let t4 = enc_i64(record.period_end) + t5;
    let t3 = enc_i64(record.period_start) + t4;
    let t2 = record.merchant + t3;
    lemma_subscription_body(record);
    lemma_parse_u8(record.status.spec_byte(), subscription_fields_from_right(record));
    lemma_parse_address(record.owner, t2);
    lemma_parse_address(record.merchant, t3);
    lemma_parse_i64(record.period_start, t4);
    lemma_parse_i64(record.period_end, t5);
    lemma_parse_str(record.name, t6);
    lemma_parse_str(record.data, empty);
}

/// A subscription record has one layout only: bytes that decode to a record
/// are the bytes of that record, and the record is a valid one.
pub proof fn lemma_subscription_layout_is_unique(input: Seq<u8>)
    ensures
        decode_subscription(input) matches Decoded::Record(record) ==> record.encoding()
            == input && record.fits() && record.valid(),
{
    if let Decoded::Record(record) = decode_subscription(input) {
        lemma_read_u8(input);
        let body = input.skip(1);
        lemma_read_u8(body);
        let r0 = body.skip(1);
        lemma_read_address(r0);
        let r1 = parse_address(r0).unwrap().1;
        lemma_read_address(r1);
        let r2 = parse_address(r1).unwrap().1;
        lemma_read_i64(r2);
        let r3 = parse_i64(r2).unwrap().1;
        lemma_read_i64(r3);
        let r4 = parse_i64(r3).unwrap().1;
        lemma_read_str(r4);
        let r5 = parse_str(r4).unwrap().1;
        lemma_read_str(r5);
        let r6 = parse_str(r5).unwrap().1;
        assert(r6 =~= Seq::<u8>::empty());
        assert(r0 == subscription_fields_from_right(record));
        lemma_subscription_body(record);
    }
}

/// Reading a subscription record back: the bytes of a valid record that can
/// be laid out decode to that record.
pub proof fn lemma_subscription_round_trip(record: SubscriptionRecord)
    requires
        record.fits(),
        record.valid(),
    ensures
        decode_subscription(record.encoding()) == Decoded::Record(record),
{
    lemma_parse_u8(1u8, record.body());
    lemma_parse_subscription(record);
}

// ---------------------------------------------------------------------------
// What was read can be written
// ---------------------------------------------------------------------------

/// A merchant record that was read from bytes can be laid out again.
pub proof fn lemma_decoded_merchant_fits(input: Seq<u8>)
    ensures
        decode_merchant(input) matches Decoded::Record(record) ==> record.fits(),
{
    lemma_merchant_layout_is_unique(input);
}

/// An order record that was read from bytes can be laid out again.
pub proof fn lemma_decoded_order_fits(input: Seq<u8>)
    ensures
        decode_order(input) matches Decoded::Record(record) ==> record.fits(),
{
    lemma_order_layout_is_unique(input);
}

/// A subscription record that was read from bytes is valid and can be laid
/// out again.
pub proof fn lemma_decoded_subscription_fits(input: Seq<u8>)
    ensures
        decode_subscription(input) matches Decoded::Record(record) ==> record.fits()
            && record.valid(),
{
    lemma_subscription_layout_is_unique(input);
}

} // verus!
