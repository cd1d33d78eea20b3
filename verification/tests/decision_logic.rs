use asn_guard::blocklist::Blocklist;
use asn_guard::decimal::u32_to_decimal;
use asn_guard::decision::decide_resolved;
use asn_guard::decision::reject_body;
use asn_guard::decision::root_body;
use asn_guard::decision::Decision;

fn example_blocklist() -> Blocklist {
    Blocklist::new(vec![("64512".to_string(), "Example ISP".to_string())])
}

#[test]
fn decimal_rendering() {
    assert_eq!(u32_to_decimal(0), "0");
    assert_eq!(u32_to_decimal(7), "7");
    assert_eq!(u32_to_decimal(10), "10");
    assert_eq!(u32_to_decimal(64512), "64512");
    assert_eq!(u32_to_decimal(u32::MAX), "4294967295");
}

#[test]
fn blocklist_lookup_present() {
    let bl = example_blocklist();
    assert_eq!(bl.is_blocked(64512), Some(&"Example ISP".to_string()));
}

#[test]
fn blocklist_lookup_absent() {
    let bl = example_blocklist();
    assert_eq!(bl.is_blocked(13335), None);
}

#[test]
fn blocklist_last_pair_wins() {
    let bl = Blocklist::new(vec![
        ("64512".to_string(), "First".to_string()),
        ("64512".to_string(), "Second".to_string()),
    ]);
    assert_eq!(bl.is_blocked(64512), Some(&"Second".to_string()));
}

#[test]
fn blocklist_noncanonical_key_never_matches() {
    let bl = Blocklist::new(vec![("064512".to_string(), "Padded".to_string())]);
    assert_eq!(bl.is_blocked(64512), None);
}

#[test]
fn reject_body_text() {
    let body = reject_body(64512, &"Example ISP".to_string());
    assert_eq!(
        body,
        "Your ISP 64512 (Example ISP) has been blocked from this website"
    );
}

#[test]
fn blocked_asn_is_rejected() {
    let bl = example_blocklist();
    let d = decide_resolved(&bl, Some(64512));
    assert_eq!(
        d,
        Decision::Reject {
            status: 403,
            body: "Your ISP 64512 (Example ISP) has been blocked from this website".to_string(),
        }
    );
}

#[test]
fn unlisted_asn_is_forwarded() {
    let bl = example_blocklist();
    assert_eq!(decide_resolved(&bl, Some(13335)), Decision::Forward);
}

#[test]
fn unresolved_asn_is_forwarded() {
    let bl = example_blocklist();
    assert_eq!(decide_resolved(&bl, None), Decision::Forward);
}

#[test]
fn repeated_decisions_agree() {
    let bl = example_blocklist();
    let first = decide_resolved(&bl, Some(64512));
    let second = decide_resolved(&bl, Some(64512));
    assert_eq!(first, second);
    assert!(matches!(first, Decision::Reject { status: 403, .. }));
}

#[test]
fn empty_blocklist_blocks_nothing() {
    let bl = Blocklist::new(vec![]);
    assert_eq!(bl.is_blocked(0), None);
    assert_eq!(decide_resolved(&bl, Some(64512)), Decision::Forward);
}

#[test]
fn root_greeting() {
    assert_eq!(root_body(), "Hello, World!");
}
