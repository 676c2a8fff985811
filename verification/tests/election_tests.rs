use witness_builder::election_mirror::ErrorCode;
use witness_builder::election_mirror::initialise;
use witness_builder::election_mirror::set_tally;

#[test]
fn initialise_stores_authority_and_metadata() {
    let e = initialise([7u8; 32], [9u8; 32]);
    assert_eq!(e.authority, [7u8; 32]);
    assert_eq!(e.metadata, [9u8; 32]);
    assert_eq!(e.votes_a, 0);
    assert_eq!(e.votes_b, 0);
    assert!(!e.finalised);
}

#[test]
fn authority_writes_the_tally_once() {
    let mut e = initialise([7u8; 32], [9u8; 32]);
    assert_eq!(set_tally(&mut e, &[7u8; 32], 11, 22), Ok(()));
    assert_eq!(e.votes_a, 11);
    assert_eq!(e.votes_b, 22);
    assert!(e.finalised);
    assert_eq!(set_tally(&mut e, &[7u8; 32], 1, 2), Err(ErrorCode::AlreadyDone));
    assert_eq!(e.votes_a, 11);
    assert_eq!(e.votes_b, 22);
}

#[test]
fn other_callers_are_unauthorised() {
    let mut e = initialise([7u8; 32], [9u8; 32]);
    assert_eq!(set_tally(&mut e, &[8u8; 32], 11, 22), Err(ErrorCode::Unauthorised));
    assert!(!e.finalised);
    assert_eq!(e.votes_a, 0);
    assert_eq!(e.votes_b, 0);
}
