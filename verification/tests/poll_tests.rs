use votesphere::ids::AccountId;
use votesphere::poll::{create_poll, vote, CreatePoll, ErrorCode, Poll, Vote};

fn id(seed: u8) -> AccountId {
    AccountId::new([seed; 32])
}

fn id_n(n: u16) -> AccountId {
    let mut bytes = [0u8; 32];
    bytes[0] = (n >> 8) as u8;
    bytes[1] = (n & 0xff) as u8;
    bytes[2] = 1;
    AccountId::new(bytes)
}

fn labels(items: &[&str]) -> Vec<String> {
    items.iter().map(|s| s.to_string()).collect()
}

fn new_poll(options: &[&str]) -> Poll {
    let ctx = CreatePoll { payer: id(1) };
    create_poll(&ctx, "Best language?".to_string(), labels(options), id(2)).unwrap()
}

fn eligible(voter: AccountId) -> Vote {
    Vote { voter, voter_token_balance: 7 }
}

fn sum_counts(poll: &Poll) -> u128 {
    poll.vote_counts.iter().map(|c| *c as u128).sum()
}

#[test]
fn create_initializes_poll() {
    let payer = id(1);
    let token = id(2);
    let ctx = CreatePoll { payer };
    let poll =
        create_poll(&ctx, "Best language?".to_string(), labels(&["Rust", "Python"]), token)
            .unwrap();
    assert_eq!(poll.authority, payer);
    assert_eq!(poll.required_token, token);
    assert_eq!(poll.question, "Best language?");
    assert_eq!(poll.options, labels(&["Rust", "Python"]));
    assert_eq!(poll.vote_counts, vec![0u64, 0u64]);
    assert!(poll.voters.is_empty());
    assert!(poll.is_well_formed());
}

#[test]
fn scenario_best_language() {
    let mut poll = new_poll(&["Rust", "Python"]);
    assert_eq!(poll.options, labels(&["Rust", "Python"]));
    assert_eq!(poll.vote_counts, vec![0u64, 0u64]);
    assert!(poll.voters.is_empty());

    let a = id(10);
    assert_eq!(vote(&mut poll, &eligible(a), 0), Ok(()));
    assert_eq!(poll.vote_counts, vec![1u64, 0u64]);
    assert_eq!(poll.voters, vec![a]);

    assert_eq!(vote(&mut poll, &eligible(a), 1), Err(ErrorCode::AlreadyVoted));
    assert_eq!(poll.vote_counts, vec![1u64, 0u64]);
    assert_eq!(poll.voters, vec![a]);

    let b = id(11);
    assert_eq!(vote(&mut poll, &eligible(b), 5), Err(ErrorCode::InvalidOptionIndex));
    assert_eq!(poll.vote_counts, vec![1u64, 0u64]);
    assert_eq!(poll.voters, vec![a]);

    let c = id(12);
    let broke = Vote { voter: c, voter_token_balance: 0 };
    assert_eq!(vote(&mut poll, &broke, 1), Err(ErrorCode::InsufficientTokens));
    assert_eq!(poll.vote_counts, vec![1u64, 0u64]);
    assert_eq!(poll.voters, vec![a]);
}

#[test]
fn second_vote_rejected_counts_change_by_one() {
    let mut poll = new_poll(&["Rust", "Python", "Go"]);
    let a = id(20);
    assert_eq!(vote(&mut poll, &eligible(a), 2), Ok(()));
    assert_eq!(sum_counts(&poll), 1);
    // Same index again.
    assert_eq!(vote(&mut poll, &eligible(a), 2), Err(ErrorCode::AlreadyVoted));
    // A different valid index.
    assert_eq!(vote(&mut poll, &eligible(a), 0), Err(ErrorCode::AlreadyVoted));
    assert_eq!(sum_counts(&poll), 1);
    assert_eq!(poll.vote_counts, vec![0u64, 0u64, 1u64]);
    assert_eq!(poll.voters, vec![a]);
}

#[test]
fn index_equal_to_len_rejected() {
    let mut poll = new_poll(&["Rust", "Python"]);
    let fresh = id(30);
    assert_eq!(vote(&mut poll, &eligible(fresh), 2), Err(ErrorCode::InvalidOptionIndex));
    assert_eq!(vote(&mut poll, &eligible(fresh), u64::MAX), Err(ErrorCode::InvalidOptionIndex));
    // Also rejected for a caller who already voted: the index is checked first.
    let a = id(31);
    assert_eq!(vote(&mut poll, &eligible(a), 0), Ok(()));
    assert_eq!(vote(&mut poll, &eligible(a), 2), Err(ErrorCode::InvalidOptionIndex));
    assert_eq!(poll.vote_counts, vec![1u64, 0u64]);
}

#[test]
fn zero_balance_rejected() {
    let mut poll = new_poll(&["Rust", "Python"]);
    let c = id(40);
    let broke = Vote { voter: c, voter_token_balance: 0 };
    // Valid, unused index: still refused, and refused again on retry.
    assert_eq!(vote(&mut poll, &broke, 1), Err(ErrorCode::InsufficientTokens));
    assert_eq!(vote(&mut poll, &broke, 1), Err(ErrorCode::InsufficientTokens));
    // Eligibility is checked before the index, so it wins over a bad index.
    assert_eq!(vote(&mut poll, &broke, 9), Err(ErrorCode::InsufficientTokens));
    assert_eq!(poll.vote_counts, vec![0u64, 0u64]);
    assert!(poll.voters.is_empty());
}

#[test]
fn tally_equals_distinct_voters() {
    let mut poll = new_poll(&["Rust", "Python", "Go"]);
    let indices = [0u64, 1, 1, 2, 0, 1, 2];
    for (k, &idx) in indices.iter().enumerate() {
        assert_eq!(vote(&mut poll, &eligible(id_n(100 + k as u16)), idx), Ok(()));
    }
    assert_eq!(poll.voters.len(), indices.len());
    assert_eq!(sum_counts(&poll), indices.len() as u128);
    assert_eq!(poll.vote_counts, vec![2u64, 3u64, 2u64]);
    assert!(poll.is_well_formed());
}

#[test]
fn create_rejects_oversized_inputs() {
    let ctx = CreatePoll { payer: id(1) };
    let token = id(2);
    // Too many options.
    let eleven: Vec<String> = (0..11).map(|i| format!("option {}", i)).collect();
    assert_eq!(
        create_poll(&ctx, "q".to_string(), eleven, token),
        Err(ErrorCode::AllocationError)
    );
    // No options at all.
    assert_eq!(
        create_poll(&ctx, "q".to_string(), Vec::new(), token),
        Err(ErrorCode::AllocationError)
    );
    // Question one character over the cap.
    let long_question: String = std::iter::repeat('q').take(257).collect();
    assert_eq!(
        create_poll(&ctx, long_question, labels(&["a", "b"]), token),
        Err(ErrorCode::AllocationError)
    );
    // One option label over the cap.
    let long_label: String = std::iter::repeat('x').take(257).collect();
    assert_eq!(
        create_poll(&ctx, "q".to_string(), vec!["ok".to_string(), long_label], token),
        Err(ErrorCode::AllocationError)
    );
}

#[test]
fn create_accepts_inputs_at_the_caps() {
    let ctx = CreatePoll { payer: id(1) };
    let token = id(2);
    let question: String = std::iter::repeat('q').take(256).collect();
    let label: String = std::iter::repeat('x').take(256).collect();
    let ten: Vec<String> = (0..10).map(|_| label.clone()).collect();
    let poll = create_poll(&ctx, question, ten, token).unwrap();
    assert_eq!(poll.options.len(), 10);
    assert_eq!(poll.vote_counts, vec![0u64; 10]);
    assert!(poll.is_well_formed());
}

#[test]
fn voter_capacity_enforced() {
    let mut poll = new_poll(&["Rust", "Python"]);
    for n in 0..1000u16 {
        assert_eq!(vote(&mut poll, &eligible(id_n(n)), (n % 2) as u64), Ok(()));
    }
    assert_eq!(poll.voters.len(), 1000);
    assert_eq!(sum_counts(&poll), 1000);
    assert_eq!(
        vote(&mut poll, &eligible(id_n(1000)), 0),
        Err(ErrorCode::AllocationError)
    );
    assert_eq!(poll.voters.len(), 1000);
    assert_eq!(sum_counts(&poll), 1000);
    assert!(poll.is_well_formed());
}

#[test]
fn well_formedness_check_spots_broken_records() {
    let good = new_poll(&["Rust", "Python"]);
    assert!(good.is_well_formed());

    // One count too many.
    let mut broken = good.clone();
    broken.vote_counts.push(0);
    assert!(!broken.is_well_formed());

    // A voter recorded twice.
    let mut broken = good.clone();
    broken.voters.push(id(50));
    broken.voters.push(id(50));
    broken.vote_counts[0] = 2;
    assert!(!broken.is_well_formed());

    // Tally out of step with the voter record.
    let mut broken = good.clone();
    broken.vote_counts[1] = 3;
    assert!(!broken.is_well_formed());

    // No options.
    let broken = Poll {
        authority: id(1),
        required_token: id(2),
        question: "q".to_string(),
        options: Vec::new(),
        vote_counts: Vec::new(),
        voters: Vec::new(),
    };
    assert!(!broken.is_well_formed());
}

#[test]
fn account_ids_compare_by_bytes() {
    let a = id(7);
    let b = id(7);
    let c = id(8);
    assert!(a.eq_id(&b));
    assert!(!a.eq_id(&c));
    let mut near = [7u8; 32];
    near[31] = 9;
    assert!(!a.eq_id(&AccountId::new(near)));
}
