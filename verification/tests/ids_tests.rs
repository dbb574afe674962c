use mcp_workflow::ids::uid;

#[test]
fn uid_is_eight_lower_hex_digits() {
    for _ in 0..20 {
        let id = uid();
        assert_eq!(id.len(), 8);
        assert!(id.chars().all(|c| c.is_ascii_digit() || ('a'..='f').contains(&c)));
    }
}

#[test]
fn uids_differ() {
    assert_ne!(uid(), uid());
}
