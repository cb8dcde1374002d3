use pollbot::ledger::{PollLedger, TrackedPoll};
use pollbot::relay::{
    filter_polls, poll_copy, poll_answer_update, poll_forward_reply, relay_step, ForwardOrigin, Poll,
    PollAnswer, PollKind, PollMessage, PollType, RelayAction, RelayEvent, RelayState, Role,
};
use pollbot::resolver::{decimal_text, find_non_voters, render_report, ResidentEntry, TgUser};

const ME: i64 = 777;

fn poll(id: &str) -> Poll {
    Poll {
        id: id.to_string(),
        question: "Lunch?".to_string(),
        options: vec!["yes".to_string(), "no".to_string()],
        is_anonymous: false,
        allows_multiple_answers: false,
        poll_type: PollType::Regular,
        close_date: None,
        total_voter_count: 0,
        is_closed: false,
    }
}

fn message(p: Poll, forward: ForwardOrigin, private: bool, role: Option<Role>) -> PollMessage {
    PollMessage { poll: p, forward, chat_is_private: private, sender_role: role }
}

fn user(id: i64, handle: Option<&str>) -> ResidentEntry {
    (
        id,
        Some(TgUser {
            id,
            username: handle.map(|h| h.to_string()),
            first_name: format!("U{}", id),
            last_name: None,
        }),
    )
}

fn residents() -> Vec<ResidentEntry> {
    vec![user(1, Some("alice")), user(2, None), (3, None), user(4, Some("dan"))]
}

#[test]
fn new_regular_poll_from_resident_is_relayed() {
    let r = filter_polls(ME, message(poll("a"), ForwardOrigin::NotForwarded, false, Some(Role::Resident)));
    match r {
        Some(PollKind::New(p)) => assert_eq!(p.id, "a"),
        _ => panic!("expected a new poll"),
    }
    let r = filter_polls(ME, message(poll("a"), ForwardOrigin::NotForwarded, true, Some(Role::Admin)));
    assert!(matches!(r, Some(PollKind::New(_))));
}

#[test]
fn ineligible_new_polls_are_ignored() {
    let mut voted = poll("a");
    voted.total_voter_count = 1;
    let mut closed = poll("a");
    closed.is_closed = true;
    let mut anonymous = poll("a");
    anonymous.is_anonymous = true;
    let mut quiz = poll("a");
    quiz.poll_type = PollType::Quiz;
    for p in [voted, closed, anonymous, quiz] {
        assert!(filter_polls(ME, message(p, ForwardOrigin::NotForwarded, false, Some(Role::Resident))).is_none());
    }
    assert!(filter_polls(ME, message(poll("a"), ForwardOrigin::NotForwarded, false, Some(Role::Guest))).is_none());
    assert!(filter_polls(ME, message(poll("a"), ForwardOrigin::NotForwarded, false, None)).is_none());
}

#[test]
fn private_forward_of_own_poll_is_a_reference() {
    let r = filter_polls(ME, message(poll("tg7"), ForwardOrigin::User(ME), true, Some(Role::Resident)));
    match r {
        Some(PollKind::Forward(id)) => assert_eq!(id, "tg7"),
        _ => panic!("expected a forward"),
    }
    assert!(filter_polls(ME, message(poll("tg7"), ForwardOrigin::User(ME), false, Some(Role::Resident))).is_none());
    assert!(filter_polls(ME, message(poll("tg7"), ForwardOrigin::User(5), true, Some(Role::Resident))).is_none());
    assert!(filter_polls(ME, message(poll("tg7"), ForwardOrigin::Other, true, Some(Role::Resident))).is_none());
    assert!(filter_polls(ME, message(poll("tg7"), ForwardOrigin::User(ME), true, Some(Role::Guest))).is_none());
}

#[test]
fn relay_happy_path_tracks_the_poll() {
    let mut ledger = PollLedger::new();
    let (s, a) = relay_step(RelayState::Start, RelayEvent::Begin);
    assert!(matches!(a, RelayAction::SendPoll));
    let (s, a) = relay_step(s, RelayEvent::Republished { chat_id: -9, message_id: 50, poll_id: Some("np".to_string()) });
    assert!(matches!(a, RelayAction::DeleteOriginal));
    let (s, a) = relay_step(s, RelayEvent::OriginalDeleted);
    match a {
        RelayAction::CreateRecord { poll_id, info_chat_id, info_message_id } => {
            assert_eq!(poll_id, "np");
            assert_eq!((info_chat_id, info_message_id), (-9, 50));
            ledger.create(poll_id, 1, info_chat_id, info_message_id).unwrap();
        }
        _ => panic!("expected a record"),
    }
    let p = ledger.find(&"np".to_string()).unwrap();
    assert_eq!(p.roster(), Ok(vec![]));
    let (s, a) = relay_step(s, RelayEvent::RecordCreated);
    assert!(matches!(a, RelayAction::SendReport { reply_to: 50 }));
    let (s, a) = relay_step(s, RelayEvent::ReportSent { chat_id: -9, message_id: 51 });
    assert!(matches!(s, RelayState::Finished));
    match a {
        RelayAction::StoreReportLocation { poll_id, info_chat_id, info_message_id } => {
            assert_eq!(poll_id, "np");
            assert!(ledger.set_report_location(&poll_id, info_chat_id, info_message_id));
        }
        _ => panic!("expected the report location"),
    }
    let p = ledger.find(&"np".to_string()).unwrap();
    assert_eq!((p.info_chat_id, p.info_message_id), (-9, 51));
    assert_eq!(p.creator_id, 1);
    assert_eq!(p.voted_users, "[]");
}

#[test]
fn events_out_of_turn_change_nothing() {
    let (s, a) = relay_step(RelayState::Start, RelayEvent::RecordCreated);
    assert!(matches!(s, RelayState::Start));
    assert!(matches!(a, RelayAction::Idle));
    let s = RelayState::Tracking { poll_id: "p".to_string(), message_id: 4 };
    let (s, a) = relay_step(s, RelayEvent::OriginalDeleted);
    assert!(matches!(s, RelayState::Tracking { message_id: 4, .. }));
    assert!(matches!(a, RelayAction::Idle));
}

#[test]
fn forward_report_counts_each_voter_once() {
    let mut ledger = PollLedger::new();
    let record = TrackedPoll {
        tg_poll_id: "d".to_string(),
        creator_id: 1,
        info_chat_id: 2,
        info_message_id: 3,
        voted_users: "[2,1,2,2]".to_string(),
    };
    ledger.load(record).unwrap();
    let text = poll_forward_reply(&ledger, &"d".to_string(), &residents()).unwrap();
    assert_eq!(text, "Voted 2 users, Pending vote 2 users: @dan.\n");
}

#[test]
fn report_location_of_untracked_poll_is_refused() {
    let mut ledger = PollLedger::new();
    assert!(!ledger.set_report_location(&"x".to_string(), 1, 2));
    assert_eq!(ledger.len(), 0);
}

#[test]
fn failed_delete_removes_the_copy_and_aborts() {
    let s = RelayState::Deleting { poll_id: "np".to_string(), chat_id: -9, message_id: 50 };
    let (s, a) = relay_step(s, RelayEvent::DeleteFailed);
    assert!(matches!(s, RelayState::Aborted));
    assert!(matches!(a, RelayAction::DeleteRepublished { message_id: 50 }));
    let (s, a) = relay_step(s, RelayEvent::ReportSent { chat_id: 1, message_id: 2 });
    assert!(matches!(s, RelayState::Aborted));
    assert!(matches!(a, RelayAction::Idle));
}

#[test]
fn republished_non_poll_deletes_original_and_stops() {
    let (s, a) = relay_step(RelayState::Republishing, RelayEvent::Republished { chat_id: 1, message_id: 8, poll_id: None });
    assert!(matches!(s, RelayState::Aborted));
    assert!(matches!(a, RelayAction::DeleteOriginal));
}

#[test]
fn vote_then_retraction_updates_report() {
    let mut ledger = PollLedger::new();
    ledger.create("np".to_string(), 1, -9, 51).unwrap();
    let res = residents();
    let vote = PollAnswer { poll_id: "np".to_string(), user_id: 4, option_ids: vec![3] };
    let edit = poll_answer_update(&mut ledger, &vote, &res).unwrap().unwrap();
    assert_eq!((edit.chat_id, edit.message_id), (-9, 51));
    assert_eq!(edit.text, "Voted 1 users, Pending vote 3 users: @alice.\n");
    assert_eq!(ledger.find(&"np".to_string()).unwrap().roster(), Ok(vec![4]));
    let retract = PollAnswer { poll_id: "np".to_string(), user_id: 4, option_ids: vec![] };
    let edit = poll_answer_update(&mut ledger, &retract, &res).unwrap().unwrap();
    assert_eq!(edit.text, "Voted 0 users, Pending vote 4 users: @alice @dan.\n");
    assert_eq!(ledger.find(&"np".to_string()).unwrap().roster(), Ok(vec![]));
}

#[test]
fn vote_on_untracked_poll_gives_no_edit() {
    let mut ledger = PollLedger::new();
    let vote = PollAnswer { poll_id: "zz".to_string(), user_id: 4, option_ids: vec![0] };
    assert!(poll_answer_update(&mut ledger, &vote, &residents()).unwrap().is_none());
    assert_eq!(ledger.len(), 0);
}

#[test]
fn forward_of_unknown_poll_replies_unknown() {
    let ledger = PollLedger::new();
    assert_eq!(poll_forward_reply(&ledger, &"nope".to_string(), &residents()).unwrap(), "Unknown poll");
}

#[test]
fn everyone_voted_report() {
    let mut ledger = PollLedger::new();
    ledger.create("p".to_string(), 1, 2, 3).unwrap();
    for u in [3, 1, 4, 2] {
        ledger.apply_vote(&"p".to_string(), u, &[0]).unwrap();
    }
    assert_eq!(poll_forward_reply(&ledger, &"p".to_string(), &residents()).unwrap(), "Everyone voted!");
    let vote = PollAnswer { poll_id: "p".to_string(), user_id: 2, option_ids: vec![1] };
    let edit = poll_answer_update(&mut ledger, &vote, &residents()).unwrap().unwrap();
    assert_eq!(edit.text, "Everyone voted!");
}

#[test]
fn forward_report_lists_handles_only() {
    let mut ledger = PollLedger::new();
    ledger.create("p".to_string(), 1, 2, 3).unwrap();
    ledger.apply_vote(&"p".to_string(), 1, &[0]).unwrap();
    let text = poll_forward_reply(&ledger, &"p".to_string(), &residents()).unwrap();
    assert_eq!(text, "Voted 1 users, Pending vote 3 users: @dan.\n");
}

#[test]
fn non_voters_keep_listing_order() {
    let nv = find_non_voters(&residents(), &[2, 9]);
    let ids: Vec<i64> = nv.iter().map(|e| e.0).collect();
    assert_eq!(ids, vec![1, 3, 4]);
    assert!(nv[1].1.is_none());
    assert_eq!(render_report(12, &nv), "Voted 12 users, Pending vote 3 users: @alice @dan.\n");
    assert_eq!(render_report(0, &[]), "Everyone voted!");
    assert_eq!(render_report(3, &[(5, None)]), "Voted 3 users, Pending vote 1 users: .\n");
}

#[test]
fn counts_are_written_in_decimal() {
    assert_eq!(decimal_text(0), "0");
    assert_eq!(decimal_text(7), "7");
    assert_eq!(decimal_text(10), "10");
    assert_eq!(decimal_text(40302), "40302");
    assert_eq!(decimal_text(usize::MAX), usize::MAX.to_string());
}

#[test]
fn poll_copy_keeps_content_and_place() {
    let mut p = poll("a");
    p.allows_multiple_answers = true;
    p.close_date = Some(1_700_000_000);
    let c = poll_copy(&p, Some(12), Some(99));
    assert_eq!(c.question, "Lunch?");
    assert_eq!(c.options, vec!["yes".to_string(), "no".to_string()]);
    assert!(!c.is_anonymous);
    assert!(c.allows_multiple_answers);
    assert_eq!(c.close_date, Some(1_700_000_000));
    assert_eq!(c.thread_id, Some(12));
    assert_eq!(c.reply_to, Some(99));
    let c = poll_copy(&poll("b"), None, None);
    assert_eq!(c.close_date, None);
    assert_eq!((c.thread_id, c.reply_to), (None, None));
}

#[test]
fn pending_residents_without_handles_keep_the_space() {
    let nv: Vec<ResidentEntry> = vec![(5, None), user(6, None)];
    assert_eq!(render_report(1, &nv), "Voted 1 users, Pending vote 2 users: .\n");
    let nv: Vec<ResidentEntry> = vec![(5, None), user(6, Some("eve")), user(7, None), user(8, Some("fox"))];
    assert_eq!(render_report(0, &nv), "Voted 0 users, Pending vote 4 users: @eve @fox.\n");
}
