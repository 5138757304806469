use milk_and_cookies::{day5_manifest, format_orders, manifest_answer, ManifestCheck, Order};
use milk_and_cookies::text::int_text;

fn order(item: Option<&str>, quantity: Option<i64>) -> Order {
    Order { item: item.map(|s| s.to_string()), quantity }
}

fn sample_orders() -> Vec<Order> {
    vec![
        order(Some("Toy car"), Some(2)),
        order(Some("Lego brick"), None),
        order(Some("Doll"), Some(2)),
        order(Some("Cookie:::\n"), Some(5)),
        order(Some("Thing"), None),
    ]
}

#[test]
fn orders_are_listed() {
    assert_eq!(format_orders(&sample_orders()), "Toy car: 2\nDoll: 2\nCookie:::\n: 5");
    assert_eq!(format_orders(&vec![]), "");
    assert_eq!(format_orders(&vec![order(None, Some(1)), order(Some("x"), Some(-40))]), "x: -40");
    assert_eq!(format_orders(&vec![order(Some("big"), Some(i64::MIN))]), "big: -9223372036854775808");
}

#[test]
fn manifest_answers() {
    let magic = ManifestCheck::Keywords(vec!["gift".to_string(), "Christmas 2024".to_string()]);
    let orders = sample_orders();

    let r = manifest_answer(None, &magic, Some(&orders));
    assert_eq!((r.status, r.body.as_str()), (415, "Unsupported Media Type"));
    let r = manifest_answer(Some("text/plain"), &magic, Some(&orders));
    assert_eq!(r.status, 415);

    let r = manifest_answer(Some("application/toml"), &ManifestCheck::Invalid, Some(&orders));
    assert_eq!((r.status, r.body.as_str()), (400, "Invalid manifest"));
    let r = manifest_answer(Some("application/toml"), &ManifestCheck::NoPackage, None);
    assert_eq!((r.status, r.body.as_str()), (400, "Invalid manifest"));
    let r = manifest_answer(Some("application/yaml"), &ManifestCheck::NoKeywords, None);
    assert_eq!((r.status, r.body.as_str()), (400, "Magic keyword not provided"));
    let plain = ManifestCheck::Keywords(vec!["Christmas".to_string()]);
    let r = manifest_answer(Some("application/json"), &plain, Some(&orders));
    assert_eq!((r.status, r.body.as_str()), (400, "Magic keyword not provided"));

    let r = manifest_answer(Some("application/toml"), &magic, Some(&orders));
    assert_eq!((r.status, r.body.as_str()), (200, "Toy car: 2\nDoll: 2\nCookie:::\n: 5"));
    let r = manifest_answer(Some("application/toml"), &magic, None);
    assert_eq!((r.status, r.body.as_str()), (204, "Invalid manifest"));
    let none_listed = vec![order(Some("Thing"), None)];
    let r = manifest_answer(Some("application/toml"), &magic, Some(&none_listed));
    assert_eq!(r.status, 204);
}

const GIFT_MANIFEST: &str = r#"
[package]
name = "not-a-gift-order"
authors = ["Not Santa"]
keywords = ["Christmas 2024"]

[[package.metadata.orders]]
item = "Toy car"
quantity = 2
[[package.metadata.orders]]
item = "Lego brick"
quantity = 1.5
[[package.metadata.orders]]
item = "Doll"
quantity = 2
[[package.metadata.orders]]
quantity = 5
item = "Cookie:::\n"
[[package.metadata.orders]]
item = "Thing"
count = 3
"#;

#[test]
fn day5_test4() {
    let r = day5_manifest(Some("application/toml"), GIFT_MANIFEST);
    assert_eq!(r.status, 200);
    assert_eq!(r.body, "Toy car: 2\nDoll: 2\nCookie:::\n: 5");
}

#[test]
fn posted_manifests() {
    let r = day5_manifest(None, GIFT_MANIFEST);
    assert_eq!((r.status, r.body.as_str()), (415, "Unsupported Media Type"));
    let r = day5_manifest(Some("text/html"), GIFT_MANIFEST);
    assert_eq!(r.status, 415);

    let r = day5_manifest(Some("application/toml"), "this is [ not toml");
    assert_eq!((r.status, r.body.as_str()), (400, "Invalid manifest"));
    let r = day5_manifest(Some("application/toml"), "[workspace]\nmembers = []\n");
    assert_eq!((r.status, r.body.as_str()), (400, "Invalid manifest"));

    let no_keywords = "[package]\nname = \"a\"\nversion = \"0.1.0\"\n";
    let r = day5_manifest(Some("application/toml"), no_keywords);
    assert_eq!((r.status, r.body.as_str()), (400, "Magic keyword not provided"));
    let wrong_keywords = "[package]\nname = \"a\"\nkeywords = [\"Christmas\"]\n";
    let r = day5_manifest(Some("application/json"), wrong_keywords);
    assert_eq!((r.status, r.body.as_str()), (400, "Magic keyword not provided"));

    let no_orders = "[package]\nname = \"a\"\nkeywords = [\"Christmas 2024\"]\n";
    let r = day5_manifest(Some("application/yaml"), no_orders);
    assert_eq!((r.status, r.body.as_str()), (204, "Invalid manifest"));
    let bad_orders = "[package]\nname = \"a\"\nkeywords = [\"Christmas 2024\"]\n\n[package.metadata]\norders = [{ item = \"x\", quantity = \"two\" }]\n";
    let r = day5_manifest(Some("application/toml"), bad_orders);
    assert_eq!(r.status, 204);
    let one_order = "[package]\nname = \"a\"\nkeywords = [\"Christmas 2024\"]\n\n[package.metadata]\norders = [{ item = \"x\", quantity = -3 }]\n";
    let r = day5_manifest(Some("application/toml"), one_order);
    assert_eq!((r.status, r.body.as_str()), (200, "x: -3"));
}

#[test]
fn integers_in_decimal() {
    assert_eq!(int_text(0), "0");
    assert_eq!(int_text(7), "7");
    assert_eq!(int_text(10), "10");
    assert_eq!(int_text(-305), "-305");
    assert_eq!(int_text(i64::MAX), "9223372036854775807");
    assert_eq!(int_text(i64::MIN), "-9223372036854775808");
}
