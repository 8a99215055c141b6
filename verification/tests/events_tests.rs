use redirection::events::{
    attr, last_text, optional_u64, required_percentage, required_u128, required_u64, scan_number,
    Attribute, Event, Scanned,
};

fn event(ty: &str, attributes: Vec<Attribute>) -> Event {
    Event { ty: String::from(ty), attributes }
}

fn sample() -> Vec<Event> {
    vec![
        event("wasm", vec![attr("percentage", "50"), attr("ust_depositor", "terra1a")]),
        event("empty", vec![]),
        event(
            "from_contract",
            vec![attr("deposit_amount", "10000"), attr("mint_amount", "9950")],
        ),
    ]
}

#[test]
fn attr_holds_key_and_value() {
    assert_eq!(
        attr("k", "v"),
        Attribute { key: String::from("k"), value: String::from("v") }
    );
}

#[test]
fn numbers_are_found_in_any_event() {
    let events = sample();
    assert_eq!(scan_number(&events, "percentage", 100), Scanned::Value(50));
    assert_eq!(scan_number(&events, "mint_amount", u64::MAX as u128), Scanned::Value(9_950));
    assert_eq!(required_u64(&events, "deposit_amount"), Some(10_000));
    assert_eq!(required_u128(&events, "deposit_amount"), Some(10_000));
    assert_eq!(required_percentage(&events, "percentage"), Some(50));
    assert_eq!(optional_u64(&events, "mint_amount"), Some(9_950));
}

#[test]
fn a_missing_number_is_told_from_a_malformed_one() {
    let events = sample();
    assert_eq!(scan_number(&events, "redeem_amount", 100), Scanned::Missing);
    assert_eq!(scan_number(&events, "ust_depositor", 100), Scanned::Malformed);
    assert_eq!(scan_number(&vec![], "percentage", 100), Scanned::Missing);
    assert_eq!(required_u64(&events, "redeem_amount"), None);
    assert_eq!(optional_u64(&events, "redeem_amount"), Some(0));
    assert_eq!(optional_u64(&events, "ust_depositor"), None);
}

#[test]
fn a_number_above_the_bound_is_malformed() {
    let events = vec![event("wasm", vec![attr("percentage", "101"), attr("x", "18446744073709551616")])];
    assert_eq!(scan_number(&events, "percentage", 100), Scanned::Malformed);
    assert_eq!(scan_number(&events, "percentage", 101), Scanned::Value(101));
    assert_eq!(required_percentage(&events, "percentage"), None);
    assert_eq!(required_u64(&events, "percentage"), Some(101));
    assert_eq!(required_u64(&events, "x"), None);
    assert_eq!(required_u128(&events, "x"), Some(18_446_744_073_709_551_616));
}

#[test]
fn the_last_value_under_a_key_counts() {
    let events = vec![
        event("a", vec![attr("n", "1"), attr("n", "2")]),
        event("b", vec![attr("m", "9"), attr("n", "3"), attr("m", "8")]),
    ];
    assert_eq!(required_u64(&events, "n"), Some(3));
    assert_eq!(required_u64(&events, "m"), Some(8));
    assert_eq!(last_text(&events, "n"), Some(String::from("3")));
}

#[test]
fn one_malformed_value_spoils_the_key() {
    let early = vec![event("a", vec![attr("n", "x"), attr("n", "2")])];
    assert_eq!(scan_number(&early, "n", 100), Scanned::Malformed);
    assert_eq!(required_u64(&early, "n"), None);
    assert_eq!(optional_u64(&early, "n"), None);
    let late = vec![event("a", vec![attr("n", "2")]), event("b", vec![attr("n", "")])];
    assert_eq!(scan_number(&late, "n", 100), Scanned::Malformed);
    assert_eq!(last_text(&early, "n"), Some(String::from("2")));
}

#[test]
fn texts_are_read_as_they_are() {
    let events = sample();
    assert_eq!(last_text(&events, "ust_depositor"), Some(String::from("terra1a")));
    assert_eq!(last_text(&events, "percentage"), Some(String::from("50")));
    assert_eq!(last_text(&events, "nothing"), None);
    assert_eq!(last_text(&vec![], "ust_depositor"), None);
    let empty_value = vec![event("a", vec![attr("ust_depositor", "")])];
    assert_eq!(last_text(&empty_value, "ust_depositor"), Some(String::new()));
}

#[test]
fn numbers_are_read_as_the_standard_library_reads_them() {
    let samples = [
        "", "+", "-", "0", "+0", "-0", "00", "1", "+1", "100", "101", "65535", "65536",
        "18446744073709551615", "18446744073709551616",
        "340282366920938463463374607431768211455", "340282366920938463463374607431768211456",
        "abc", "1a", "a1", " 1", "1 ", "+ 1", "١", "1_0",
    ];
    for text in samples {
        let events = vec![event("wasm", vec![attr("n", text)])];
        assert_eq!(required_u64(&events, "n"), text.parse::<u64>().ok());
        assert_eq!(required_u128(&events, "n"), text.parse::<u128>().ok());
        assert_eq!(optional_u64(&events, "n"), text.parse::<u64>().ok());
        assert_eq!(
            required_percentage(&events, "n"),
            text.parse::<u16>().ok().filter(|p| *p <= 100)
        );
    }
}
