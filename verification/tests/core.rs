use bright_agent::dispatch::url_for;
use bright_agent::identity::{identity_payload, keep_alive_bytes, Identity};
use bright_agent::message::{extract_messages, parse_directive};
use bright_agent::registry::{resolve, Entry};

fn entry(label: &str, address: &str) -> Entry {
    Entry { label: label.as_bytes().to_vec(), address: address.as_bytes().to_vec() }
}

#[test]
fn identity_payload_lab1() {
    let id = Identity { location: b"lab1".to_vec(), room: b"A".to_vec() };
    assert_eq!(identity_payload(&id), b"{\"location\":\"lab1\",\"room\":\"A\"}".to_vec());
}

#[test]
fn identity_payload_empty_fields() {
    let id = Identity { location: Vec::new(), room: Vec::new() };
    assert_eq!(identity_payload(&id), b"{\"location\":\"\",\"room\":\"\"}".to_vec());
}

#[test]
fn identity_payload_deterministic() {
    let a = Identity { location: b"north wing".to_vec(), room: b"12-b".to_vec() };
    let b = Identity { location: b"north wing".to_vec(), room: b"12-b".to_vec() };
    assert_eq!(identity_payload(&a), identity_payload(&b));
}

#[test]
fn keep_alive_probe_bytes() {
    assert_eq!(keep_alive_bytes(), b"KEEP_ALIVE".to_vec());
}

#[test]
fn resolve_returns_matching_address() {
    let reg = vec![entry("bench3", "10.0.0.5"), entry("bench4", "10.0.0.6")];
    assert_eq!(resolve(&reg, b"bench3"), Some(b"10.0.0.5".to_vec()));
    assert_eq!(resolve(&reg, b"bench4"), Some(b"10.0.0.6".to_vec()));
}

#[test]
fn resolve_first_match_wins_on_duplicates() {
    let reg = vec![
        entry("other", "10.0.0.1"),
        entry("dup", "10.0.0.2"),
        entry("dup", "10.0.0.3"),
    ];
    assert_eq!(resolve(&reg, b"dup"), Some(b"10.0.0.2".to_vec()));
}

#[test]
fn resolve_missing_label_is_none() {
    let reg = vec![entry("bench3", "10.0.0.5")];
    assert_eq!(resolve(&reg, b"ghost"), None);
}

#[test]
fn resolve_empty_registry_is_none() {
    let reg: Vec<Entry> = Vec::new();
    assert_eq!(resolve(&reg, b"bench3"), None);
}

#[test]
fn url_for_resolved_address() {
    assert_eq!(
        url_for(b"10.0.0.5"),
        b"http://10.0.0.5:8080/action/putInStartMode".to_vec()
    );
}

#[test]
fn parse_directive_extracts_label() {
    assert_eq!(parse_directive(b"Machine: bench3\n"), Some(b"bench3".to_vec()));
}

#[test]
fn parse_directive_trims_surrounding_whitespace() {
    assert_eq!(parse_directive(b" \t Machine: bench3 \r\n"), Some(b"bench3".to_vec()));
}

#[test]
fn parse_directive_ignores_keep_alive_echo() {
    assert_eq!(parse_directive(b"KEEP_ALIVE"), None);
}

#[test]
fn parse_directive_ignores_other_text() {
    assert_eq!(parse_directive(b"hello there"), None);
    assert_eq!(parse_directive(b""), None);
    assert_eq!(parse_directive(b"   \n"), None);
}

#[test]
fn parse_directive_needs_full_prefix() {
    assert_eq!(parse_directive(b"Machine:bench3"), None);
    // Trimming runs first, so a directive with an empty label is bare
    // `Machine:` after the trim and matches no prefix.
    assert_eq!(parse_directive(b"Machine: "), None);
    assert_eq!(parse_directive(b"Machine: x"), Some(b"x".to_vec()));
}

#[test]
fn extract_messages_splits_on_newlines() {
    let (labels, carry) = extract_messages(b"Machine: a\nKEEP_ALIVE\nMachine: b\nMach");
    assert_eq!(labels, vec![b"a".to_vec(), b"b".to_vec()]);
    assert_eq!(carry, b"Mach".to_vec());
}

#[test]
fn extract_messages_without_newline_is_all_carry() {
    let (labels, carry) = extract_messages(b"Machine: bench3");
    assert_eq!(labels, Vec::<Vec<u8>>::new());
    assert_eq!(carry, b"Machine: bench3".to_vec());
}

#[test]
fn extract_messages_empty_input() {
    let (labels, carry) = extract_messages(b"");
    assert_eq!(labels, Vec::<Vec<u8>>::new());
    assert_eq!(carry, Vec::<u8>::new());
}

#[test]
fn parse_directive_invalid_encoding_is_harmless() {
    // Bytes that decode to no valid text still parse as a directive whose
    // label simply matches no registry entry.
    let label = parse_directive(b"Machine: \xff\xfe").unwrap();
    assert_eq!(label, vec![0xffu8, 0xfeu8]);
    let reg = vec![entry("bench3", "10.0.0.5")];
    assert_eq!(resolve(&reg, &label), None);
}
