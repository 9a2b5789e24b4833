//! What a merchant offers: the items and the packages in its data.
//!
//! A merchant's data is a JSON object of its own making. For an order of
//! several items the program reads, under each item's identifier, an object
//! with a `price`. For a subscription it reads, under `packages`, an array of
//! objects with a `name`, a `price`, a `duration` and, where the package can
//! be tried, a `trial`. Nothing else in the data is looked at.

use vstd::prelude::*;
use crate::error::PaymentError;
use crate::instruction::{items_view, OrderItem};
use crate::json::{parse_json, parsed_json, same_text, Json, JsonValue};

verus! {

/// The largest duration that a package can have, in seconds: the largest
/// point in time that a subscription can record.
pub const MAX_SECONDS: u64 = 0x7fff_ffff_ffff_ffff;

// ---------------------------------------------------------------------------
// Items
// ---------------------------------------------------------------------------

/// The price of the item with the given identifier, if the catalog has one.
pub open spec fn item_price(catalog: JsonValue, id: Seq<char>) -> Option<u64> {
    match catalog.member(id) {
        Some(entry) => match entry.member("price"@) {
            Some(price) => price.unsigned(),
            None => None,
        },
        None => None,
    }
}

/// What the lines add to `so_far`, line by line: refused at the first line
/// whose item the catalog does not price, and at the first line that takes
/// the sum out of range.
pub open spec fn total_from(
    catalog: JsonValue,
    items: Seq<(Seq<char>, u64)>,
    so_far: u64,
) -> Result<u64, PaymentError>
    decreases items.len(),
{
    if items.len() == 0 {
        Ok(so_far)
    } else {
        match item_price(catalog, items[0].0) {
            Some(price) => {
                if so_far + price * items[0].1 <= u64::MAX {
                    total_from(
                        catalog,
                        items.drop_first(),
                        (so_far + price * items[0].1) as u64,
                    )
                } else {
                    Err(PaymentError::ArithmeticOverflow)
                }
            },
            None => Err(PaymentError::InvalidOrderItems),
        }
    }
}

/// What an order costs: each line's price times its quantity, added up.
pub open spec fn spec_order_total(catalog: JsonValue, items: Seq<(Seq<char>, u64)>) -> Result<
    u64,
    PaymentError,
> {
    total_from(catalog, items, 0)
}

/// The sum of price times quantity over the lines, as a number without
/// bounds. A line whose item has no price counts for nothing.
pub open spec fn line_sum(catalog: JsonValue, items: Seq<(Seq<char>, u64)>) -> int
    decreases items.len(),
{
    if items.len() == 0 {
        0
    } else {
        (match item_price(catalog, items[0].0) {
            Some(price) => price * items[0].1,
            None => 0,
        }) + line_sum(catalog, items.drop_first())
    }
}

/// Whether the catalog prices every line.
pub open spec fn all_priced(catalog: JsonValue, items: Seq<(Seq<char>, u64)>) -> bool {
    forall|i: int| 0 <= i < items.len() ==> item_price(catalog, #[trigger] items[i].0).is_some()
}

/// The total of an order is the sum over its lines, and it is owed exactly
/// when every line is priced and the sum is in range.
pub proof fn lemma_total_is_line_sum(
    catalog: JsonValue,
    items: Seq<(Seq<char>, u64)>,
    so_far: u64,
)
    ensures
        match total_from(catalog, items, so_far) {
            Ok(total) => all_priced(catalog, items) && total == so_far + line_sum(catalog, items),
            Err(e) => if all_priced(catalog, items) {
                e == PaymentError::ArithmeticOverflow && so_far + line_sum(catalog, items)
                    > u64::MAX
            } else {
                e == PaymentError::InvalidOrderItems || e == PaymentError::ArithmeticOverflow
            },
        },
    decreases items.len(),
{
    if items.len() == 0 {
    } else {
        let tail = items.drop_first();
        assert forall|i: int| 0 <= i < tail.len() implies tail[i] == items[i + 1] by {}
        match item_price(catalog, items[0].0) {
            Some(price) => {
                assert(price * items[0].1 >= 0) by (nonlinear_arith)
                    requires
                        price >= 0,
                        items[0].1 >= 0,
                ;
                lemma_line_sum_not_negative(catalog, tail);
                if so_far + price * items[0].1 <= u64::MAX {
                    lemma_total_is_line_sum(
                        catalog,
                        tail,
                        (so_far + price * items[0].1) as u64,
                    );
                    if all_priced(catalog, tail) {
                        assert forall|i: int| 0 <= i < items.len() implies item_price(
                            catalog,
                            #[trigger] items[i].0,
                        ).is_some() by {
                            if i > 0 {
                                assert(tail[i - 1] == items[i]);
                            }
                        }
                    } else {
                        let bad = choose|i: int|
                            0 <= i < tail.len() && item_price(catalog, #[trigger] tail[i].0)
                                .is_none();
                        assert(tail[bad] == items[bad + 1]);
                    }
                } else {
                }
            },
            None => {},
        }
    }
}

/// A sum over lines is never negative.
pub proof fn lemma_line_sum_not_negative(catalog: JsonValue, items: Seq<(Seq<char>, u64)>)
    ensures
        line_sum(catalog, items) >= 0,
    decreases items.len(),
{
    if items.len() > 0 {
        lemma_line_sum_not_negative(catalog, items.drop_first());
        match item_price(catalog, items[0].0) {
            Some(price) => {
                assert(price * items[0].1 >= 0) by (nonlinear_arith)
                    requires
                        price >= 0,
                        items[0].1 >= 0,
                ;
            },
            None => {},
        }
    }
}

/// The price of the item with the given identifier, if the catalog has one.
pub fn price_of(catalog: &Json, id: &str) -> (price: Option<u64>)
    ensures
        price == item_price(catalog@, id@),
{
    match catalog.member(id) {
        Some(entry) => match entry.member("price") {
            Some(price) => price.as_unsigned(),
            None => None,
        },
        None => None,
    }
}

/// What an order costs in a merchant's catalog.
pub fn order_total(catalog: &Json, items: &Vec<OrderItem>) -> (total: Result<u64, PaymentError>)
    ensures
        total == spec_order_total(catalog@, items_view(items@)),
{
    let ghost lines = items_view(items@);
    let mut so_far: u64 = 0;
    let mut i: usize = 0;
    assert(lines.skip(0) =~= lines);
    while i < items.len()
        invariant
            i <= items@.len(),
            lines == items_view(items@),
            total_from(catalog@, lines, 0) == total_from(catalog@, lines.skip(i as int), so_far),
        decreases items@.len() - i,
    {
        proof {
            assert(lines.skip(i as int)[0] == lines[i as int]);
            assert(lines[i as int] == items@[i as int]@);
            assert(lines.skip(i as int).drop_first() =~= lines.skip(i + 1));
        }
        let price = match price_of(catalog, items[i].id.as_str()) {
            Some(found) => found,
            None => {
                return Err(PaymentError::InvalidOrderItems);
            },
        };
        assert(price * items@[i as int].quantity >= 0) by (nonlinear_arith)
            requires
                price >= 0,
                items@[i as int].quantity >= 0,
        ;
        let line = match price.checked_mul(items[i].quantity) {
            Some(product) => product,
            None => {
                return Err(PaymentError::ArithmeticOverflow);
            },
        };
        so_far = match so_far.checked_add(line) {
            Some(sum) => sum,
            None => {
                return Err(PaymentError::ArithmeticOverflow);
            },
        };
        i += 1;
    }
    Ok(so_far)
}

// ---------------------------------------------------------------------------
// Packages
// ---------------------------------------------------------------------------

/// A package that a buyer can subscribe to.
#[derive(Clone, Debug, PartialEq, Eq)]
pub struct Package {
    /// The name by which the package is asked for.
    pub name: String,
    /// What one period costs.
    pub price: u64,
    /// How long one period lasts, in seconds.
    pub duration: i64,
    /// For how long after its start a subscription can be cancelled against
    /// a full refund, in seconds.
    pub trial: i64,
}

/// What a package says.
pub struct PackageTerms {
    pub name: Seq<char>,
    pub price: u64,
    pub duration: i64,
    pub trial: i64,
}

impl PackageTerms {
    /// Whether neither the duration nor the trial runs backwards.
    pub open spec fn valid(self) -> bool {
        self.duration >= 0 && self.trial >= 0
    }
}

impl View for Package {
    type V = PackageTerms;

    open spec fn view(&self) -> PackageTerms {
        PackageTerms {
            name: self.name@,
            price: self.price,
            duration: self.duration,
            trial: self.trial,
        }
    }
}

/// The number of seconds that a member holds, where it holds a whole number
/// of them that a point in time can take.
pub open spec fn seconds_of(value: JsonValue) -> Option<i64> {
    match value.unsigned() {
        Some(n) => if n <= MAX_SECONDS {
            Some(n as i64)
        } else {
            None
        },
        None => None,
    }
}

/// The trial of a package entry: none where the entry names none.
pub open spec fn trial_of(entry: JsonValue) -> Option<i64> {
    match entry.member("trial"@) {
        Some(value) => seconds_of(value),
        None => Some(0i64),
    }
}

/// The package that a catalog entry spells, if it spells one: an object with
/// a `name` that is a string, a `price` that is a whole number, a `duration`
/// in whole seconds and, if it has a `trial`, one in whole seconds.
pub open spec fn package_of(entry: JsonValue) -> Option<PackageTerms> {
    match (entry.member("name"@), entry.member("price"@), entry.member("duration"@)) {
        (Some(name), Some(price), Some(duration)) => match (
            name.text(),
            price.unsigned(),
            seconds_of(duration),
            trial_of(entry),
        ) {
            (Some(name), Some(price), Some(duration), Some(trial)) => Some(
                PackageTerms { name, price, duration, trial },
            ),
            _ => None,
        },
        _ => None,
    }
}

/// The first package of the given name among the entries, read in order. An
/// entry that is met before and spells no package makes the catalog
/// unreadable.
pub open spec fn pick_package(entries: Seq<JsonValue>, name: Seq<char>) -> Result<
    PackageTerms,
    PaymentError,
>
    decreases entries.len(),
{
    if entries.len() == 0 {
        Err(PaymentError::PackageNotFound)
    } else {
        match package_of(entries[0]) {
            Some(package) => if package.name == name {
                Ok(package)
            } else {
                pick_package(entries.drop_first(), name)
            },
            None => Err(PaymentError::NoPackagesDefined),
        }
    }
}

/// The package of the given name in a catalog: the first of that name. A
/// catalog without a `packages` array, or with an empty one, defines no
/// packages.
pub open spec fn spec_select_package(catalog: JsonValue, name: Seq<char>) -> Result<
    PackageTerms,
    PaymentError,
> {
    match catalog.member("packages"@) {
        Some(JsonValue::Array(entries)) => if entries.len() == 0 {
            Err(PaymentError::NoPackagesDefined)
        } else {
            pick_package(entries, name)
        },
        _ => Err(PaymentError::NoPackagesDefined),
    }
}

/// The package of the given name in a merchant's data. Data that is not
/// JSON defines no packages.
pub open spec fn spec_find_package(data: Seq<char>, name: Seq<char>) -> Result<
    PackageTerms,
    PaymentError,
> {
    match parsed_json(data) {
        Some(catalog) => spec_select_package(catalog, name),
        None => Err(PaymentError::NoPackagesDefined),
    }
}

/// A package that was picked is a valid one of the name that was asked for.
pub proof fn lemma_picked_package(entries: Seq<JsonValue>, name: Seq<char>)
    ensures
        pick_package(entries, name) matches Ok(package) ==> package.name == name
            && package.valid(),
    decreases entries.len(),
{
    if entries.len() > 0 {
        lemma_picked_package(entries.drop_first(), name);
    }
}

/// Whether the entry at `place` is the first that spells a package of the
/// given name, every entry before it spelling a package of another name.
pub open spec fn first_of_name(entries: Seq<JsonValue>, name: Seq<char>, place: int) -> bool {
    &&& 0 <= place < entries.len()
    &&& package_of(entries[place]) matches Some(package) && package.name == name
    &&& forall|k: int|
        0 <= k < place ==> (package_of(#[trigger] entries[k]) matches Some(other) && other.name
            != name)
}

/// Of several packages with one name the first wins: the package that is
/// picked is the one that the first entry of that name spells, whatever
/// follows it.
pub proof fn lemma_first_package_wins(entries: Seq<JsonValue>, name: Seq<char>, place: int)
    requires
        first_of_name(entries, name, place),
    ensures
        pick_package(entries, name) == Ok::<PackageTerms, PaymentError>(
            package_of(entries[place]).unwrap(),
        ),
    decreases place,
{
    if place > 0 {
        let rest = entries.drop_first();
        assert(rest[place - 1] == entries[place]);
        assert forall|k: int| 0 <= k < place - 1 implies (package_of(
            #[trigger] rest[k],
        ) matches Some(other) && other.name != name) by {
            assert(rest[k] == entries[k + 1]);
        }
        assert(package_of(entries[0]) matches Some(other) && other.name != name);
        lemma_first_package_wins(rest, name, place - 1);
    }
}

/// The number of seconds that a member holds.
fn read_seconds(value: &Json) -> (seconds: Option<i64>)
    ensures
        seconds == seconds_of(value@),
{
    match value.as_unsigned() {
        Some(n) => if n <= MAX_SECONDS {
            Some(n as i64)
        } else {
            None
        },
        None => None,
    }
}

/// The package that a catalog entry spells, if it spells one.
pub fn read_package(entry: &Json) -> (package: Option<Package>)
    ensures
        match package {
            Some(p) => package_of(entry@) == Some(p@),
            None => package_of(entry@).is_none(),
        },
{
    let name = match entry.member("name") {
        Some(value) => value,
        None => {
            return None;
        },
    };
    let price = match entry.member("price") {
        Some(value) => value,
        None => {
            return None;
        },
    };
    let duration = match entry.member("duration") {
        Some(value) => value,
        None => {
            return None;
        },
    };
    let trial = match entry.member("trial") {
        Some(value) => read_seconds(value),
        None => Some(0i64),
    };
    match (name.as_text(), price.as_unsigned(), read_seconds(duration), trial) {
        (Some(name), Some(price), Some(duration), Some(trial)) => Some(
            Package { name: name.clone(), price, duration, trial },
        ),
        _ => None,
    }
}

/// The package of the given name in a catalog: the first of that name.
pub fn select_package(catalog: &Json, name: &str) -> (package: Result<Package, PaymentError>)
    ensures
        match package {
            Ok(p) => spec_select_package(catalog@, name@) == Ok::<PackageTerms, PaymentError>(p@),
            Err(e) => spec_select_package(catalog@, name@) == Err::<PackageTerms, PaymentError>(e),
        },
{
    let entries = match catalog.member("packages") {
        Some(Json::Array(entries)) => entries,
        _ => {
            return Err(PaymentError::NoPackagesDefined);
        },
    };
    if entries.len() == 0 {
        return Err(PaymentError::NoPackagesDefined);
    }
    let ghost all = catalog@.member("packages"@).unwrap().elements().unwrap();
    let mut i: usize = 0;
    assert(all.skip(0) =~= all);
    while i < entries.len()
        invariant
            i <= entries@.len(),
            all.len() == entries@.len(),
            all.len() > 0,
            catalog@.member("packages"@) == Some(JsonValue::Array(all)),
            forall|k: int| 0 <= k < all.len() ==> #[trigger] all[k] == entries@[k]@,
            pick_package(all, name@) == pick_package(all.skip(i as int), name@),
        decreases entries@.len() - i,
    {
        proof {
            assert(all.skip(i as int)[0] == all[i as int]);
            assert(all.skip(i as int).drop_first() =~= all.skip(i + 1));
        }
        let package = match read_package(&entries[i]) {
            Some(found) => found,
            None => {
                return Err(PaymentError::NoPackagesDefined);
            },
        };
        if same_text(package.name.as_str(), name) {
            return Ok(package);
        }
        i += 1;
    }
    Err(PaymentError::PackageNotFound)
}

/// The package of the given name in a merchant's data.
pub fn find_package(data: &str, name: &str) -> (package: Result<Package, PaymentError>)
    ensures
        match package {
            Ok(p) => spec_find_package(data@, name@) == Ok::<PackageTerms, PaymentError>(p@),
            Err(e) => spec_find_package(data@, name@) == Err::<PackageTerms, PaymentError>(e),
        },
{
    match parse_json(data) {
        Some(catalog) => select_package(&catalog, name),
        None => Err(PaymentError::NoPackagesDefined),
    }
}

} // verus!
