//! Checking a gift-order manifest and listing its orders.
//!
//! What the checks read of a parsed manifest is a `ManifestCheck`, and
//! each entry of its order list an `Order`; the answer is computed from
//! those alone.

use vstd::prelude::*;
use crate::reply::Reply;
use crate::parsed::{manifest_package, manifest_parses, package_keywords, parse_manifest, parse_table, table_get, value_get};
use crate::text::{decimal, int_text, same_text};

verus! {

/// One entry of a manifest's order list: its `item` if that is a string and
/// its `quantity` if that is an integer.
pub struct Order {
    pub item: Option<String>,
    pub quantity: Option<i64>,
}

/// What parsing a manifest found.
pub enum ManifestCheck {
    /// Not a valid manifest.
    Invalid,
    /// A valid manifest without a `package` section.
    NoPackage,
    /// A package without `keywords`.
    NoKeywords,
    /// The package's keywords.
    Keywords(Vec<String>),
}

/// The line an order is listed with, if it has both an item and a quantity.
pub open spec fn order_line(o: Order) -> Option<Seq<char>> {
    if o.item is Some && o.quantity is Some {
        Some(o.item->0@ + seq![':', ' '] + decimal(o.quantity->0 as int))
    } else {
        None
    }
}

/// The lines of the listable orders, in order, joined by line breaks.
pub open spec fn listing(os: Seq<Order>) -> Seq<char>
    decreases os.len(),
{
    if os.len() == 0 {
        Seq::empty()
    } else {
        let prev = listing(os.drop_last());
        match order_line(os.last()) {
            None => prev,
            Some(l) => if prev.len() == 0 {
                l
            } else {
                prev + seq!['\n'] + l
            },
        }
    }
}

/// The content types a manifest may be sent with.
pub open spec fn media_accepted(ct: Seq<char>) -> bool {
    ct == "application/toml"@ || ct == "application/yaml"@ || ct == "application/json"@
}

/// The keyword a manifest has to carry.
pub open spec fn has_magic(ks: Seq<String>) -> bool {
    exists|i: int| 0 <= i < ks.len() && #[trigger] ks[i]@ == "Christmas 2024"@
}

/// The listable orders, one line each (`item: quantity`), joined by line
/// breaks. Orders without a string item or an integer quantity are left out.
pub fn format_orders(orders: &Vec<Order>) -> (r: String)
    ensures
        r@ == listing(orders@),
{
    let mut s = String::new();
    let mut i: usize = 0;
    while i < orders.len()
        invariant
            i <= orders@.len(),
            s@ == listing(orders@.take(i as int)),
        decreases orders@.len() - i,
    {
        let o = &orders[i];
        assert(orders@.take(i as int + 1).drop_last() =~= orders@.take(i as int));
        assert(orders@.take(i as int + 1).last() == orders@[i as int]);
        match (&o.item, o.quantity) {
            (Some(item), Some(q)) => {
                if !s.as_str().is_empty() {
                    s.append("\n");
                    proof {
                        reveal_strlit("\n");
                    }
                }
                s.append(item.as_str());
                s.append(": ");
                proof {
                    reveal_strlit(": ");
                }
                let n = int_text(q);
                s.append(n.as_str());
                assert(s@ =~= listing(orders@.take(i as int + 1)));
            },
            _ => {},
        }
        i = i + 1;
    }
    assert(orders@.take(orders@.len() as int) =~= orders@);
    s
}

/// Whether the keywords include `Christmas 2024`.
pub fn has_magic_keyword(keywords: &Vec<String>) -> (r: bool)
    ensures
        r == has_magic(keywords@),
{
    let mut i: usize = 0;
    while i < keywords.len()
        invariant
            i <= keywords@.len(),
            forall|j: int| 0 <= j < i ==> #[trigger] keywords@[j]@ != "Christmas 2024"@,
        decreases keywords@.len() - i,
    {
        if same_text(keywords[i].as_str(), "Christmas 2024") {
            return true;
        }
        i = i + 1;
    }
    false
}

/// Whether a manifest may be sent with this content type.
pub fn content_type_accepted(ct: &str) -> (r: bool)
    ensures
        r == media_accepted(ct@),
{
    same_text(ct, "application/toml") || same_text(ct, "application/yaml") || same_text(ct, "application/json")
}

/// A content type as text, if there is one.
pub open spec fn text_view(t: Option<&str>) -> Option<Seq<char>> {
    match t {
        Some(t) => Some(t@),
        None => None,
    }
}

/// An order list as a sequence, if there is one.
pub open spec fn orders_view(o: Option<&Vec<Order>>) -> Option<Seq<Order>> {
    match o {
        Some(os) => Some(os@),
        None => None,
    }
}

/// The status and body answering a posted manifest: 415 without an
/// accepted content type, 400 for an invalid manifest or one without the
/// magic keyword, 204 when no order can be listed, else 200 with the
/// listing.
pub open spec fn answer(ct: Option<Seq<char>>, m: ManifestCheck, orders: Option<Seq<Order>>) -> (u16, Seq<char>) {
    if ct is None || !media_accepted(ct->0) {
        (415, "Unsupported Media Type"@)
    } else {
        match m {
            ManifestCheck::Invalid | ManifestCheck::NoPackage => (400, "Invalid manifest"@),
            ManifestCheck::NoKeywords => (400, "Magic keyword not provided"@),
            ManifestCheck::Keywords(ks) => if !has_magic(ks@) {
                (400, "Magic keyword not provided"@)
            } else if orders is None || listing(orders->0).len() == 0 {
                (204, "Invalid manifest"@)
            } else {
                (200, listing(orders->0))
            },
        }
    }
}

/// The answer to a posted manifest, from what parsing it found.
pub fn manifest_answer(content_type: Option<&str>, manifest: &ManifestCheck, orders: Option<&Vec<Order>>) -> (r: Reply)
    ensures
        (r.status, r.body@) == answer(text_view(content_type), *manifest, orders_view(orders)),
{
    let accepted = match content_type {
        Some(ct) => content_type_accepted(ct),
        None => false,
    };
    if !accepted {
        return Reply { status: 415, body: "Unsupported Media Type".to_owned() };
    }
    match manifest {
        ManifestCheck::Invalid | ManifestCheck::NoPackage => {
            return Reply { status: 400, body: "Invalid manifest".to_owned() };
        },
        ManifestCheck::NoKeywords => {
            return Reply { status: 400, body: "Magic keyword not provided".to_owned() };
        },
        ManifestCheck::Keywords(ks) => {
            if !has_magic_keyword(ks) {
                return Reply { status: 400, body: "Magic keyword not provided".to_owned() };
            }
        },
    }
    match orders {
        Some(os) => {
            let listed = format_orders(os);
            if listed.as_str().is_empty() {
                Reply { status: 204, body: "Invalid manifest".to_owned() }
            } else {
                Reply { status: 200, body: listed }
            }
        },
        None => Reply { status: 204, body: "Invalid manifest".to_owned() },
    }
}

/// What the checks read of a manifest: whether it parses, has a package
/// and has keywords. Keywords inherited from a workspace count as none.
fn check_manifest(text: &str) -> (r: ManifestCheck)
    ensures
        r is Invalid <==> !manifest_parses(text@),
{
    match parse_manifest(text) {
        Err(_) => ManifestCheck::Invalid,
        Ok(m) => match manifest_package(m) {
            None => ManifestCheck::NoPackage,
            Some(p) => match package_keywords(p) {
                None => ManifestCheck::NoKeywords,
                Some(k) => match k.as_local() {
                    Some(ks) => ManifestCheck::Keywords(ks),
                    None => ManifestCheck::NoKeywords,
                },
            },
        },
    }
}

/// What the listing reads of one entry of the order list.
fn order_of(v: &toml::Value) -> Order {
    let item = match value_get(v, "item") {
        Some(i) => match i.as_str() {
            Some(t) => Some(t.to_owned()),
            None => None,
        },
        None => None,
    };
    let quantity = match value_get(v, "quantity") {
        Some(q) => q.as_integer(),
        None => None,
    };
    Order { item, quantity }
}

/// The entries of `package.metadata.orders`, if the document has such an
/// array.
fn order_list(text: &str) -> Option<Vec<Order>> {
    let table = match parse_table(text) {
        Some(t) => t,
        None => return None,
    };
    let package = match table_get(&table, "package") {
        Some(v) => v,
        None => return None,
    };
    let metadata = match value_get(package, "metadata") {
        Some(v) => v,
        None => return None,
    };
    let listed = match value_get(metadata, "orders") {
        Some(v) => v,
        None => return None,
    };
    let entries = match listed.as_array() {
        Some(a) => a,
        None => return None,
    };
    let mut orders: Vec<Order> = Vec::new();
    let mut i: usize = 0;
    while i < entries.len()
        invariant
            i <= entries@.len(),
        decreases entries@.len() - i,
    {
        orders.push(order_of(&entries[i]));
        i = i + 1;
    }
    Some(orders)
}

/// The answer to a manifest posted with the given content type: the
/// manifest is parsed, its keywords checked and its order list read only
/// once the content type is accepted. The answer is the one `answer` gives
/// for what the parsers found.
pub fn day5_manifest(content_type: Option<&str>, manifest: &str) -> (r: Reply)
    ensures
        (content_type is None || !media_accepted(content_type->0@)) ==> r.status == 415 && r.body@
            == "Unsupported Media Type"@,
        exists|m: ManifestCheck, os: Option<Seq<Order>>|
            (m is Invalid <==> !manifest_parses(manifest@)) && (r.status, r.body@) == #[trigger] answer(
                text_view(content_type),
                m,
                os,
            ),
        content_type is Some && media_accepted(content_type->0@) && !manifest_parses(manifest@) ==> r.status
            == 400 && r.body@ == "Invalid manifest"@,
{
    let accepted = match content_type {
        Some(ct) => content_type_accepted(ct),
        None => false,
    };
    if !accepted {
        let r = manifest_answer(content_type, &ManifestCheck::Invalid, None);
        let ghost m = if manifest_parses(manifest@) {
            ManifestCheck::NoPackage
        } else {
            ManifestCheck::Invalid
        };
        assert((r.status, r.body@) == answer(text_view(content_type), m, None));
        return r;
    }
    let check = check_manifest(manifest);
    let passed = match &check {
        ManifestCheck::Keywords(ks) => has_magic_keyword(ks),
        _ => false,
    };
    if !passed {
        let r = manifest_answer(content_type, &check, None);
        assert((r.status, r.body@) == answer(text_view(content_type), check, None));
        return r;
    }
    let orders = order_list(manifest);
    let listed = orders.as_ref();
    let r = manifest_answer(content_type, &check, listed);
    assert((r.status, r.body@) == answer(text_view(content_type), check, orders_view(listed)));
    r
}

} // verus!
