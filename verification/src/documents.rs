//! The JSON documents that the program itself writes into its records, and
//! what it reads back from them.

use vstd::prelude::*;
use vstd::utf8::{decode_utf8, encode_utf8, encode_utf8_decode_utf8, valid_utf8};
use vstd::slice::{slice_subrange, slice_to_vec};
use crate::address::{address_text, address_to_text, Address};
use crate::catalog::{package_of, read_package, Package, PackageTerms};
use crate::instruction::{items_view, OrderItem};
use crate::json::{
    lemma_object_view, member_of, members_view, parse_json, parsed_json, same_text, Json, JsonValue,
};
use crate::wire::string_from_utf8;

verus! {

// ---------------------------------------------------------------------------
// The receipt of an order of several items
// ---------------------------------------------------------------------------

/// The lines of an order as the members of an object: under each identifier
/// its quantity.
pub open spec fn paid_members(items: Seq<(Seq<char>, u64)>) -> Seq<(Seq<char>, JsonValue)> {
    Seq::new(items.len(), |i: int| (items[i].0, JsonValue::Unsigned(items[i].1)))
}

/// The receipt of an order: under `paid` what was bought, and under
/// `initial` what the buyer sent along, where the buyer sent anything.
pub open spec fn receipt_doc(initial: Option<JsonValue>, items: Seq<(Seq<char>, u64)>) -> JsonValue {
    match initial {
        Some(document) => JsonValue::Object(
            seq![("initial"@, document), ("paid"@, JsonValue::Object(paid_members(items)))],
        ),
        None => JsonValue::Object(seq![("paid"@, JsonValue::Object(paid_members(items)))]),
    }
}

/// What an optional document says.
pub open spec fn opt_json_view(document: Option<Json>) -> Option<JsonValue> {
    match document {
        Some(json) => Some(json@),
        None => None,
    }
}

/// The receipt of an order.
pub fn receipt(initial: Option<Json>, items: &Vec<OrderItem>) -> (document: Json)
    ensures
        document@ == receipt_doc(opt_json_view(initial), items_view(items@)),
{
    let ghost lines = items_view(items@);
    let mut paid: Vec<(String, Json)> = Vec::new();
    let mut i: usize = 0;
    while i < items.len()
        invariant
            i <= items@.len(),
            lines == items_view(items@),
            paid@.len() == i,
            forall|k: int|
                0 <= k < i ==> (#[trigger] paid@[k]).0@ == lines[k].0 && paid@[k].1@
                    == JsonValue::Unsigned(lines[k].1),
        decreases items@.len() - i,
    {
        let id = items[i].id.clone();
        let quantity = items[i].quantity;
        assert(lines[i as int] == items@[i as int]@);
        paid.push((id, Json::Unsigned(quantity)));
        i += 1;
    }
    assert(members_view(paid@) =~= paid_members(lines));
    proof {
        lemma_object_view(paid);
    }
    let paid_object = Json::Object(paid);
    let mut members: Vec<(String, Json)> = Vec::new();
    match initial {
        Some(document) => {
            members.push(("initial".to_owned(), document));
            members.push(("paid".to_owned(), paid_object));
            assert(members_view(members@) =~= seq![
                ("initial"@, document@),
                ("paid"@, JsonValue::Object(paid_members(lines))),
            ]);
        },
        None => {
            members.push(("paid".to_owned(), paid_object));
            assert(members_view(members@) =~= seq![
                ("paid"@, JsonValue::Object(paid_members(lines))),
            ]);
        },
    }
    proof {
        lemma_object_view(members);
    }
    Json::Object(members)
}

// ---------------------------------------------------------------------------
// The package that a subscription was begun with
// ---------------------------------------------------------------------------

/// A package as a document.
pub open spec fn package_doc(package: PackageTerms) -> JsonValue {
    JsonValue::Object(
        seq![
            ("duration"@, JsonValue::Unsigned(package.duration as u64)),
            ("name"@, JsonValue::Text(package.name)),
            ("price"@, JsonValue::Unsigned(package.price)),
            ("trial"@, JsonValue::Unsigned(package.trial as u64)),
        ],
    )
}

/// What a subscription keeps in its data: under `package` the package as it
/// was when the subscription began, and under `data` what the subscriber
/// sent along, where the subscriber sent anything.
pub open spec fn subscription_doc(data: Option<Seq<char>>, package: PackageTerms) -> JsonValue {
    match data {
        Some(text) => JsonValue::Object(
            seq![("data"@, JsonValue::Text(text)), ("package"@, package_doc(package))],
        ),
        None => JsonValue::Object(seq![("package"@, package_doc(package))]),
    }
}

/// What a subscription keeps in its data.
pub fn subscription_document(data: Option<String>, package: &Package) -> (document: Json)
    requires
        package@.valid(),
    ensures
        document@ == subscription_doc(
            match data {
                Some(text) => Some(text@),
                None => None,
            },
            package@,
        ),
{
    let mut terms: Vec<(String, Json)> = Vec::new();
    terms.push(("duration".to_owned(), Json::Unsigned(package.duration as u64)));
    terms.push(("name".to_owned(), Json::Text(package.name.clone())));
    terms.push(("price".to_owned(), Json::Unsigned(package.price)));
    terms.push(("trial".to_owned(), Json::Unsigned(package.trial as u64)));
    assert(JsonValue::Object(members_view(terms@)) == package_doc(package@)) by {
        assert(members_view(terms@) =~= seq![
            ("duration"@, JsonValue::Unsigned(package.duration as u64)),
            ("name"@, JsonValue::Text(package.name@)),
            ("price"@, JsonValue::Unsigned(package.price)),
            ("trial"@, JsonValue::Unsigned(package.trial as u64)),
        ]);
    }
    proof {
        lemma_object_view(terms);
    }
    let package_object = Json::Object(terms);
    let mut members: Vec<(String, Json)> = Vec::new();
    match data {
        Some(text) => {
            members.push(("data".to_owned(), Json::Text(text)));
            members.push(("package".to_owned(), package_object));
            assert(members_view(members@) =~= seq![
                ("data"@, JsonValue::Text(text@)),
                ("package"@, package_doc(package@)),
            ]);
        },
        None => {
            members.push(("package".to_owned(), package_object));
            assert(members_view(members@) =~= seq![("package"@, package_doc(package@))]);
        },
    }
    proof {
        lemma_object_view(members);
    }
    Json::Object(members)
}

/// The package that a subscription's document keeps, if it keeps one.
pub open spec fn cached_package(document: JsonValue) -> Option<PackageTerms> {
    match document.member("package"@) {
        Some(entry) => package_of(entry),
        None => None,
    }
}

/// The package that a subscription's data keeps, if the data is JSON and
/// keeps one.
pub open spec fn package_in(data: Seq<char>) -> Option<PackageTerms> {
    match parsed_json(data) {
        Some(document) => cached_package(document),
        None => None,
    }
}

/// What a subscription keeps of its package can be read back: the document
/// that is written for a valid package spells that package again, with or
/// without the subscriber's own data beside it.
pub proof fn lemma_cached_package_reads_back(data: Option<Seq<char>>, package: PackageTerms)
    requires
        package.valid(),
    ensures
        package_of(package_doc(package)) == Some(package),
        cached_package(subscription_doc(data, package)) == Some(package),
{
    reveal_strlit("duration");
    reveal_strlit("name");
    reveal_strlit("price");
    reveal_strlit("trial");
    reveal_strlit("data");
    reveal_strlit("package");
    reveal_with_fuel(member_of, 5);
    let terms = package_doc(package).members().unwrap();
    assert(terms.drop_first()[0] == terms[1]);
    assert(terms.drop_first().drop_first()[0] == terms[2]);
    assert(terms.drop_first().drop_first().drop_first()[0] == terms[3]);
    assert("name"@[0] != "duration"@[0]);
    assert("price"@[0] != "duration"@[0]);
    assert("price"@[0] != "name"@[0]);
    assert("trial"@[0] != "duration"@[0]);
    assert("trial"@[0] != "name"@[0]);
    assert("trial"@[0] != "price"@[0]);
    assert(member_of(terms, "duration"@) == Some(terms[0].1));
    assert(member_of(terms, "name"@) == Some(terms[1].1));
    assert(member_of(terms, "price"@) == Some(terms[2].1));
    assert(member_of(terms, "trial"@) == Some(terms[3].1));
    assert(package.duration as u64 as i64 == package.duration);
    assert(package.trial as u64 as i64 == package.trial);
    assert(package_of(package_doc(package)) == Some(package));
    let members = subscription_doc(data, package).members().unwrap();
    assert("package"@[0] != "data"@[0]);
    if data.is_some() {
        assert(members.drop_first()[0] == members[1]);
    }
}

/// The package that a subscription's document keeps, if it keeps one.
pub fn read_cached_package(document: &Json) -> (package: Option<Package>)
    ensures
        match package {
            Some(p) => cached_package(document@) == Some(p@),
            None => cached_package(document@).is_none(),
        },
{
    match document.member("package") {
        Some(entry) => read_package(entry),
        None => None,
    }
}

/// The package that a subscription's data keeps.
pub fn load_package(data: &str) -> (package: Option<Package>)
    ensures
        match package {
            Some(p) => package_in(data@) == Some(p@),
            None => package_in(data@).is_none(),
        },
{
    match parse_json(data) {
        Some(document) => read_cached_package(&document),
        None => None,
    }
}

// ---------------------------------------------------------------------------
// The subscription that an order paid for
// ---------------------------------------------------------------------------

/// Whether an order's document names the subscription with the given text
/// under `subscription`.
pub open spec fn names_subscription(document: JsonValue, text: Seq<char>) -> bool {
    match document.member("subscription"@) {
        Some(value) => value.text() == Some(text),
        None => false,
    }
}

/// Whether an order's data is JSON and names the subscription at the given
/// address.
pub open spec fn linked(order_data: Seq<char>, subscription: Seq<u8>) -> bool {
    match parsed_json(order_data) {
        Some(document) => names_subscription(document, address_text(subscription)),
        None => false,
    }
}

/// Whether an order's document names the subscription with the given text.
pub fn document_names(document: &Json, text: &str) -> (named: bool)
    ensures
        named == names_subscription(document@, text@),
{
    match document.member("subscription") {
        Some(value) => match value.as_text() {
            Some(found) => same_text(found.as_str(), text),
            None => false,
        },
        None => false,
    }
}

/// Whether an order's data names the subscription at the given address.
pub fn is_linked(order_data: &str, subscription: &Address) -> (named: bool)
    ensures
        named == linked(order_data@, subscription@),
{
    let text = address_to_text(subscription);
    match parse_json(order_data) {
        Some(document) => document_names(&document, text.as_str()),
        None => false,
    }
}

// ---------------------------------------------------------------------------
// The package in the name of a subscription
// ---------------------------------------------------------------------------

/// The byte that parts the subscription from the package in a name: a colon.
pub const SEPARATOR: u8 = 58;

/// The first place at which a byte stands, if it stands anywhere.
pub open spec fn find_byte(bytes: Seq<u8>, byte: u8) -> Option<int>
    decreases bytes.len(),
{
    if bytes.len() == 0 {
        None
    } else if bytes[0] == byte {
        Some(0int)
    } else {
        match find_byte(bytes.drop_first(), byte) {
            Some(i) => Some(i + 1),
            None => None,
        }
    }
}

/// The package in the name of a subscription: what follows the first colon.
/// A name without a colon names no package.
pub open spec fn package_part(name: Seq<char>) -> Option<Seq<char>> {
    match find_byte(encode_utf8(name), SEPARATOR) {
        Some(i) => {
            let rest = encode_utf8(name).skip(i + 1);
            if valid_utf8(rest) {
                Some(decode_utf8(rest))
            } else {
                None
            }
        },
        None => None,
    }
}

/// The first place at which a byte stands, if it stands anywhere.
pub fn position_of(bytes: &[u8], byte: u8) -> (place: Option<usize>)
    ensures
        match place {
            Some(i) => find_byte(bytes@, byte) == Some(i as int) && i < bytes@.len(),
            None => find_byte(bytes@, byte).is_none(),
        },
{
    let mut i: usize = 0;
    assert(bytes@.skip(0) =~= bytes@);
    while i < bytes.len()
        invariant
            i <= bytes@.len(),
            find_byte(bytes@, byte) == match find_byte(bytes@.skip(i as int), byte) {
                Some(k) => Some(k + i),
                None => None,
            },
        decreases bytes@.len() - i,
    {
        proof {
            assert(bytes@.skip(i as int)[0] == bytes@[i as int]);
            assert(bytes@.skip(i as int).drop_first() =~= bytes@.skip(i + 1));
        }
        if bytes[i] == byte {
            return Some(i);
        }
        i += 1;
    }
    None
}

/// The package in the name of a subscription.
pub fn package_name(name: &str) -> (package: Option<String>)
    ensures
        match package {
            Some(text) => package_part(name@) == Some(text@),
            None => package_part(name@).is_none(),
        },
{
    let bytes = name.as_bytes();
    let place = match position_of(bytes, SEPARATOR) {
        Some(found) => found,
        None => {
            return None;
        },
    };
    let end = bytes.len();
    assert(place < end);
    let rest = slice_to_vec(slice_subrange(bytes, place + 1, end));
    assert(rest@ =~= encode_utf8(name@).skip(place + 1));
    match string_from_utf8(rest) {
        Some(text) => {
            proof {
                encode_utf8_decode_utf8(text@);
            }
            Some(text)
        },
        None => None,
    }
}

} // verus!
