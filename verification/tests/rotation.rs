use tls_stub::rotation::{default_response, pair_entries, ResponseEntry, Rotator};

fn entry(body: &str, status: u16) -> ResponseEntry {
    ResponseEntry { body: body.as_bytes().to_vec(), status }
}

fn three() -> Vec<ResponseEntry> {
    vec![entry("first", 200), entry("second", 404), entry("third", 503)]
}

#[test]
fn sequential_requests_walk_the_entries_in_order() {
    let entries = three();
    let mut rotator = Rotator::new(three());
    for k in 0..3 {
        assert_eq!(rotator.next(), entries[k]);
    }
}

#[test]
fn kth_request_gets_entry_k_mod_n() {
    let entries = three();
    let mut rotator = Rotator::new(three());
    for k in 0..20 {
        assert_eq!(rotator.next(), entries[k % 3], "request {}", k);
    }
}

#[test]
fn single_entry_is_served_every_time() {
    let mut rotator = Rotator::new(vec![entry("only", 201)]);
    for _ in 0..5 {
        assert_eq!(rotator.next(), entry("only", 201));
        assert_eq!(rotator.position(), Some(0));
    }
}

#[test]
fn empty_rotation_serves_the_default() {
    let mut rotator = Rotator::new(Vec::new());
    for _ in 0..4 {
        let response = rotator.next();
        assert_eq!(response.status, 200);
        assert_eq!(response.body, b"Hello".to_vec());
    }
}

#[test]
fn empty_rotation_has_no_position() {
    let mut rotator = Rotator::new(Vec::new());
    assert_eq!(rotator.position(), None);
    rotator.next();
    assert_eq!(rotator.position(), None);
    assert!(rotator.is_empty());
    assert_eq!(rotator.len(), 0);
}

#[test]
fn default_response_is_hello_under_200() {
    let response = default_response();
    assert_eq!(response.status, 200);
    assert_eq!(response.body, vec![b'H', b'e', b'l', b'l', b'o']);
}

#[test]
fn position_starts_at_zero_and_wraps() {
    let mut rotator = Rotator::new(three());
    assert_eq!(rotator.len(), 3);
    assert!(!rotator.is_empty());
    assert_eq!(rotator.position(), Some(0));
    rotator.next();
    assert_eq!(rotator.position(), Some(1));
    rotator.next();
    assert_eq!(rotator.position(), Some(2));
    rotator.next();
    assert_eq!(rotator.position(), Some(0));
}

#[test]
fn position_names_the_entry_that_comes_next() {
    let entries = three();
    let mut rotator = Rotator::new(three());
    for _ in 0..7 {
        let at = rotator.position().unwrap();
        assert_eq!(rotator.next(), entries[at]);
    }
}

#[test]
fn a_cycle_hands_out_every_index_once() {
    let entries: Vec<ResponseEntry> = (0..8u16).map(|i| entry(&format!("body {}", i), 200 + i)).collect();
    let mut rotator = Rotator::new(entries.clone());
    rotator.next();
    rotator.next();
    rotator.next();
    let mut seen = Vec::new();
    for _ in 0..8 {
        let at = rotator.position().unwrap();
        assert!(!seen.contains(&at), "index {} handed out twice", at);
        seen.push(at);
        rotator.next();
    }
    seen.sort();
    assert_eq!(seen, vec![0, 1, 2, 3, 4, 5, 6, 7]);
}

#[test]
fn next_hands_out_a_copy() {
    let mut rotator = Rotator::new(vec![entry("kept", 200)]);
    let mut first = rotator.next();
    first.body.push(b'!');
    first.status = 500;
    assert_eq!(rotator.next(), entry("kept", 200));
}

#[test]
fn clone_keeps_body_and_status() {
    let original = entry("copy me", 302);
    let copy = original.clone();
    assert_eq!(copy, original);
    assert_eq!(copy.body, b"copy me".to_vec());
    assert_eq!(copy.status, 302);
}

#[test]
fn three_bodies_and_two_statuses_make_two_entries() {
    let bodies = vec![b"a".to_vec(), b"b".to_vec(), b"c".to_vec()];
    let statuses = vec![200u16, 404];
    let entries = pair_entries(&bodies, &statuses);
    assert_eq!(entries.len(), 2);
    assert_eq!(entries, vec![entry("a", 200), entry("b", 404)]);
}

#[test]
fn two_bodies_and_three_statuses_make_two_entries() {
    let bodies = vec![b"a".to_vec(), b"b".to_vec()];
    let statuses = vec![200u16, 404, 500];
    let entries = pair_entries(&bodies, &statuses);
    assert_eq!(entries, vec![entry("a", 200), entry("b", 404)]);
}

#[test]
fn equal_lists_pair_position_by_position() {
    let bodies = vec![b"x".to_vec(), Vec::new(), b"z\r\n".to_vec()];
    let statuses = vec![503u16, 204, 200];
    let entries = pair_entries(&bodies, &statuses);
    assert_eq!(entries.len(), 3);
    for i in 0..3 {
        assert_eq!(entries[i].body, bodies[i]);
        assert_eq!(entries[i].status, statuses[i]);
    }
}

#[test]
fn pairing_with_an_empty_list_makes_nothing() {
    let bodies = vec![b"a".to_vec()];
    assert!(pair_entries(&bodies, &[]).is_empty());
    assert!(pair_entries(&[], &[200, 404]).is_empty());
    assert!(pair_entries(&[], &[]).is_empty());
}

#[test]
fn truncated_pairing_rotates_over_what_was_paired() {
    let bodies = vec![b"a".to_vec(), b"b".to_vec(), b"c".to_vec()];
    let statuses = vec![200u16, 404];
    let mut rotator = Rotator::new(pair_entries(&bodies, &statuses));
    assert_eq!(rotator.len(), 2);
    assert_eq!(rotator.next(), entry("a", 200));
    assert_eq!(rotator.next(), entry("b", 404));
    assert_eq!(rotator.next(), entry("a", 200));
}
