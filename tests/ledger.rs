use pollbot::codec::CodecError;
use pollbot::ledger::{LedgerError, PollLedger, TrackedPoll};

#[test]
fn create_starts_with_an_empty_roster() {
    let mut ledger = PollLedger::new();
    assert_eq!(ledger.create("p1".to_string(), 7, -100, 42), Ok(()));
    let p = ledger.find(&"p1".to_string()).unwrap();
    assert_eq!(p.tg_poll_id, "p1");
    assert_eq!(p.creator_id, 7);
    assert_eq!(p.info_chat_id, -100);
    assert_eq!(p.info_message_id, 42);
    assert_eq!(p.voted_users, "[]");
    assert_eq!(p.roster(), Ok(vec![]));
    assert!(ledger.find(&"p2".to_string()).is_none());
}

#[test]
fn create_refuses_a_tracked_poll() {
    let mut ledger = PollLedger::new();
    ledger.create("p".to_string(), 1, 2, 3).unwrap();
    assert_eq!(ledger.create("p".to_string(), 9, 9, 9), Err(LedgerError::AlreadyTracked));
    assert_eq!(ledger.len(), 1);
    assert_eq!(ledger.find(&"p".to_string()).unwrap().creator_id, 1);
}

#[test]
fn vote_on_unknown_poll_is_ignored() {
    let mut ledger = PollLedger::new();
    ledger.create("p".to_string(), 1, 2, 3).unwrap();
    assert_eq!(ledger.apply_vote(&"q".to_string(), 5, &[1]), Ok(None));
    assert_eq!(ledger.find(&"p".to_string()).unwrap().voted_users, "[]");
}

#[test]
fn votes_and_retractions_are_stored() {
    let mut ledger = PollLedger::new();
    let id = "poll".to_string();
    ledger.create(id.clone(), 1, 2, 3).unwrap();
    assert_eq!(ledger.apply_vote(&id, 30, &[3]), Ok(Some((vec![30], 1))));
    assert_eq!(ledger.apply_vote(&id, 10, &[0, 1]), Ok(Some((vec![10, 30], 2))));
    assert_eq!(ledger.apply_vote(&id, 30, &[2]), Ok(Some((vec![10, 30], 2))));
    assert_eq!(ledger.find(&id).unwrap().voted_users, "[10,30]");
    assert_eq!(ledger.apply_vote(&id, 30, &[]), Ok(Some((vec![10], 1))));
    assert_eq!(ledger.find(&id).unwrap().voted_users, "[10]");
}

#[test]
fn many_distinct_voters_all_persist() {
    let mut ledger = PollLedger::new();
    let id = "busy".to_string();
    ledger.create(id.clone(), 1, 2, 3).unwrap();
    for user in 0..40 {
        ledger.apply_vote(&id, 1000 - user, &[0]).unwrap();
    }
    assert_eq!(ledger.find(&id).unwrap().roster().unwrap().len(), 40);
}

#[test]
fn corrupt_roster_is_an_error_not_an_empty_roster() {
    let mut ledger = PollLedger::new();
    let record = TrackedPoll {
        tg_poll_id: "bad".to_string(),
        creator_id: 1,
        info_chat_id: 2,
        info_message_id: 3,
        voted_users: "[1,".to_string(),
    };
    assert_eq!(ledger.load(record), Ok(()));
    assert_eq!(
        ledger.apply_vote(&"bad".to_string(), 4, &[1]),
        Err(LedgerError::Codec(CodecError::Decode))
    );
    assert_eq!(ledger.find(&"bad".to_string()).unwrap().voted_users, "[1,");
}

#[test]
fn load_refuses_a_duplicate() {
    let mut ledger = PollLedger::new();
    ledger.create("x".to_string(), 1, 2, 3).unwrap();
    let record = TrackedPoll {
        tg_poll_id: "x".to_string(),
        creator_id: 5,
        info_chat_id: 6,
        info_message_id: 7,
        voted_users: "[]".to_string(),
    };
    assert_eq!(ledger.load(record), Err(LedgerError::AlreadyTracked));
}

#[test]
fn a_sequence_of_answers_folds_into_the_roster() {
    let mut ledger = PollLedger::new();
    let id = "seq".to_string();
    ledger.create(id.clone(), 1, 2, 3).unwrap();
    let events: Vec<(i64, Vec<i32>)> = vec![
        (3, vec![0]),
        (1, vec![2]),
        (3, vec![]),
        (2, vec![1]),
        (1, vec![0, 1]),
        (4, vec![]),
        (3, vec![1]),
    ];
    assert_eq!(ledger.apply_votes(&id, &events), Ok(Some(vec![1, 2, 3])));
    assert_eq!(ledger.find(&id).unwrap().voted_users, "[1,2,3]");
    assert_eq!(ledger.apply_votes(&id, &events[..2]), Ok(Some(vec![1, 2, 3])));
    assert_eq!(ledger.apply_votes(&"other".to_string(), &events), Ok(None));
}

#[test]
fn no_answers_rewrite_the_roster_canonically() {
    let mut ledger = PollLedger::new();
    let record = TrackedPoll {
        tg_poll_id: "u".to_string(),
        creator_id: 1,
        info_chat_id: 2,
        info_message_id: 3,
        voted_users: "[5,2,5]".to_string(),
    };
    ledger.load(record).unwrap();
    assert_eq!(ledger.apply_votes(&"u".to_string(), &[]), Ok(Some(vec![2, 5])));
    assert_eq!(ledger.find(&"u".to_string()).unwrap().voted_users, "[2,5]");
    assert_eq!(ledger.apply_votes(&"u".to_string(), &[(2, vec![])]), Ok(Some(vec![5])));
    assert_eq!(ledger.find(&"u".to_string()).unwrap().voted_users, "[5]");
}

#[test]
fn a_sequence_on_a_corrupt_roster_fails() {
    let mut ledger = PollLedger::new();
    let record = TrackedPoll {
        tg_poll_id: "c".to_string(),
        creator_id: 1,
        info_chat_id: 2,
        info_message_id: 3,
        voted_users: "oops".to_string(),
    };
    ledger.load(record).unwrap();
    assert_eq!(
        ledger.apply_votes(&"c".to_string(), &[(1, vec![0])]),
        Err(LedgerError::Codec(CodecError::Decode))
    );
    assert_eq!(ledger.find(&"c".to_string()).unwrap().voted_users, "oops");
}
