use rust_web_server::counter::ConnectionCounter;

#[test]
fn first_id_is_the_seed() {
    let mut c = ConnectionCounter::new(1);
    assert_eq!(c.next_id(), 1);
}

#[test]
fn ids_are_consecutive_without_gaps_or_duplicates() {
    let mut c = ConnectionCounter::new(1);
    let mut ids = Vec::new();
    for _ in 0..100 {
        ids.push(c.next_id());
    }
    let expected: Vec<usize> = (1..=100).collect();
    assert_eq!(ids, expected);
}

#[test]
fn other_seeds_are_respected() {
    let mut c = ConnectionCounter::new(40);
    assert_eq!(c.next_id(), 40);
    assert_eq!(c.next_id(), 41);
}
