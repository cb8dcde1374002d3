//! The poll relay: classifying incoming messages, the steps of republishing
//! a new poll, and the reports sent for forwarded polls and vote answers.
use vstd::prelude::*;
use crate::codec::{ids_parsed, roster_json, CodecError};
use crate::ledger::{has_poll, same_but_roster, LedgerError, PollLedger};
use crate::resolver::{find_non_voters, non_voters_of, render_report, report_text, ResidentEntry};
use crate::roster::{canonical_roster, id_set, strictly_ascending, vote_step};

verus! {

/// The kind of a platform poll.
#[derive(Debug, Clone, Copy, PartialEq, Eq, Structural)]
pub enum PollType {
    Regular,
    Quiz,
}

/// A platform poll as it arrives in a message.
pub struct Poll {
    pub id: String,
    pub question: String,
    pub options: Vec<String>,
    pub is_anonymous: bool,
    pub allows_multiple_answers: bool,
    pub poll_type: PollType,
    /// When the poll closes, as a Unix time, if it has a close date.
    pub close_date: Option<i64>,
    pub total_voter_count: u32,
    pub is_closed: bool,
}

/// The authorization tiers, lowest first.
#[derive(Debug, Clone, Copy, PartialEq, Eq, Structural)]
pub enum Role {
    Guest,
    Resident,
    Admin,
}

/// Whether a sender's tier reaches the minimum, "Resident"; a message with
/// no sender never does.
pub open spec fn at_least_resident(role: Option<Role>) -> bool {
    role matches Some(r) && r != Role::Guest
}

/// Where a message was forwarded from.
#[derive(Debug, Clone, Copy, PartialEq, Eq, Structural)]
pub enum ForwardOrigin {
    /// The message is not a forward.
    NotForwarded,
    /// A forward of a message sent by this user.
    User(i64),
    /// A forward from a chat, a channel or a hidden user.
    Other,
}

/// An incoming message that carries a poll.
pub struct PollMessage {
    pub poll: Poll,
    pub forward: ForwardOrigin,
    /// Whether the message was sent in a private one-to-one chat.
    pub chat_is_private: bool,
    /// The sender's tier; `None` when the message has no sender.
    pub sender_role: Option<Role>,
}

/// What the relay does with a poll message.
pub enum PollKind {
    /// A new poll to republish.
    New(Poll),
    /// A forward of a relayed poll: report on the poll with this id.
    Forward(String),
}

/// A new poll is relayed only when it has no votes, is open, names its
/// voters and is a plain poll.
pub open spec fn relayable(p: Poll) -> bool {
    &&& p.total_voter_count == 0
    &&& !p.is_closed
    &&& !p.is_anonymous
    &&& p.poll_type == PollType::Regular
}

fn is_resident(role: Option<Role>) -> (r: bool)
    ensures
        r == at_least_resident(role),
{
    match role {
        Some(Role::Resident) | Some(Role::Admin) => true,
        _ => false,
    }
}

/// Classifies a poll message once: a relayable new poll from a resident, a
/// resident's private forward of a poll that this bot (`me`) sent, or
/// nothing.
pub fn filter_polls(me: i64, msg: PollMessage) -> (r: Option<PollKind>)
    ensures
        !at_least_resident(msg.sender_role) ==> r is None,
        at_least_resident(msg.sender_role) ==> match msg.forward {
            ForwardOrigin::NotForwarded => if relayable(msg.poll) {
                r == Some(PollKind::New(msg.poll))
            } else {
                r is None
            },
            ForwardOrigin::User(id) => if id == me && msg.chat_is_private {
                r == Some(PollKind::Forward(msg.poll.id))
            } else {
                r is None
            },
            ForwardOrigin::Other => r is None,
        },
{
    if !is_resident(msg.sender_role) {
        return None;
    }
    match msg.forward {
        ForwardOrigin::NotForwarded => {
            let p = msg.poll;
            if p.total_voter_count == 0 && !p.is_closed && !p.is_anonymous && p.poll_type
                == PollType::Regular {
                Some(PollKind::New(p))
            } else {
                None
            }
        },
        ForwardOrigin::User(id) => {
            if id == me && msg.chat_is_private {
                Some(PollKind::Forward(msg.poll.id))
            } else {
                None
            }
        },
        ForwardOrigin::Other => None,
    }
}

/// The request that republishes a poll under the bot's name.
pub struct PollCopy {
    pub question: String,
    pub options: Vec<String>,
    pub is_anonymous: bool,
    pub allows_multiple_answers: bool,
    pub close_date: Option<i64>,
    /// The thread of the original message, if any.
    pub thread_id: Option<i32>,
    /// The message that the original replied to, if any.
    pub reply_to: Option<i32>,
}

fn copy_texts(texts: &[String]) -> (r: Vec<String>)
    ensures
        r@ == texts@,
{
    let mut out: Vec<String> = Vec::new();
    let mut i: usize = 0;
    while i < texts.len()
        invariant
            0 <= i <= texts.len(),
            out@ == texts@.subrange(0, i as int),
        decreases texts.len() - i,
    {
        out.push(texts[i].clone());
        assert(out@ =~= texts@.subrange(0, i + 1));
        i = i + 1;
    }
    assert(texts@.subrange(0, texts.len() as int) =~= texts@);
    out
}

/// Builds the copy of an intercepted poll: its question, option texts,
/// anonymity, multiple-answer flag and close date, placed in the original's
/// thread and in reply to what the original replied to.
pub fn poll_copy(poll: &Poll, thread_id: Option<i32>, reply_to: Option<i32>) -> (r: PollCopy)
    ensures
        r.question == poll.question,
        r.options@ == poll.options@,
        r.is_anonymous == poll.is_anonymous,
        r.allows_multiple_answers == poll.allows_multiple_answers,
        r.close_date == poll.close_date,
        r.thread_id == thread_id,
        r.reply_to == reply_to,
{
    PollCopy {
        question: poll.question.clone(),
        options: copy_texts(poll.options.as_slice()),
        is_anonymous: poll.is_anonymous,
        allows_multiple_answers: poll.allows_multiple_answers,
        close_date: poll.close_date,
        thread_id,
        reply_to,
    }
}

/// Where the relay of one new poll stands.
pub enum RelayState {
    /// Nothing done yet.
    Start,
    /// The copy of the poll has been requested.
    Republishing,
    /// The copy is out; the original is being deleted.
    Deleting { poll_id: String, chat_id: i64, message_id: i32 },
    /// The original is gone; the poll is being entered in the ledger.
    Tracking { poll_id: String, message_id: i32 },
    /// The poll is tracked; the status report is being sent.
    Reporting { poll_id: String },
    /// The poll is relayed and tracked, its report in place.
    Finished,
    /// The relay stopped; nothing is tracked.
    Aborted,
}

/// What happened since the last step.
pub enum RelayEvent {
    /// The relay of a new poll begins.
    Begin,
    /// The copy was sent as this message of this chat; `poll_id` is the new
    /// poll's id, or `None` when the message sent is not a poll.
    Republished { chat_id: i64, message_id: i32, poll_id: Option<String> },
    /// The original message was deleted.
    OriginalDeleted,
    /// The original message could not be deleted.
    DeleteFailed,
    /// The ledger record of the poll was created.
    RecordCreated,
    /// The status report was sent as this message.
    ReportSent { chat_id: i64, message_id: i32 },
}

/// What the caller does next.
pub enum RelayAction {
    /// Send the copy of the poll that `poll_copy` builds.
    SendPoll,
    /// Delete the original message.
    DeleteOriginal,
    /// Delete the copy, this message.
    DeleteRepublished { message_id: i32 },
    /// Track the poll in the ledger with an empty roster and the original
    /// sender as creator; its report location is the copy itself until the
    /// report is sent.
    CreateRecord { poll_id: String, info_chat_id: i64, info_message_id: i32 },
    /// Send the status report in reply to the copy, this message.
    SendReport { reply_to: i32 },
    /// Store the report's place in the poll's ledger record.
    StoreReportLocation { poll_id: String, info_chat_id: i64, info_message_id: i32 },
    /// Nothing.
    Idle,
}

/// The relay's transition table: republish, delete the original, create the
/// ledger record, send the report and store its place. A failed deletion of
/// the original deletes the copy and stops without tracking anything; an
/// event that does not fit the state changes nothing.
pub open spec fn relay_next(state: RelayState, event: RelayEvent) -> (RelayState, RelayAction) {
    match (state, event) {
        (RelayState::Start, RelayEvent::Begin) => (RelayState::Republishing, RelayAction::SendPoll),
        (RelayState::Republishing, RelayEvent::Republished { chat_id, message_id, poll_id }) => {
            match poll_id {
                Some(id) => (
                    RelayState::Deleting { poll_id: id, chat_id, message_id },
                    RelayAction::DeleteOriginal,
                ),
                None => (RelayState::Aborted, RelayAction::DeleteOriginal),
            }
        },
        (RelayState::Deleting { poll_id, chat_id, message_id }, RelayEvent::OriginalDeleted) => (
            RelayState::Tracking { poll_id: poll_id, message_id },
            RelayAction::CreateRecord { poll_id, info_chat_id: chat_id, info_message_id: message_id },
        ),
        (RelayState::Deleting { poll_id, chat_id, message_id }, RelayEvent::DeleteFailed) => (
            RelayState::Aborted,
            RelayAction::DeleteRepublished { message_id },
        ),
        (RelayState::Tracking { poll_id, message_id }, RelayEvent::RecordCreated) => (
            RelayState::Reporting { poll_id },
            RelayAction::SendReport { reply_to: message_id },
        ),
        (RelayState::Reporting { poll_id }, RelayEvent::ReportSent { chat_id, message_id }) => (
            RelayState::Finished,
            RelayAction::StoreReportLocation {
                poll_id,
                info_chat_id: chat_id,
                info_message_id: message_id,
            },
        ),
        (s, _) => (s, RelayAction::Idle),
    }
}

/// One step of relaying a new poll: from the state and what happened, the
/// next state and the action to perform.
pub fn relay_step(state: RelayState, event: RelayEvent) -> (r: (RelayState, RelayAction))
    ensures
        r == relay_next(state, event),
{
    match (state, event) {
        (RelayState::Start, RelayEvent::Begin) => (RelayState::Republishing, RelayAction::SendPoll),
        (RelayState::Republishing, RelayEvent::Republished { chat_id, message_id, poll_id }) => {
            match poll_id {
                Some(id) => (
                    RelayState::Deleting { poll_id: id, chat_id, message_id },
                    RelayAction::DeleteOriginal,
                ),
                None => (RelayState::Aborted, RelayAction::DeleteOriginal),
            }
        },
        (RelayState::Deleting { poll_id, chat_id, message_id }, RelayEvent::OriginalDeleted) => {
            let record_id = poll_id.clone();
            (
                RelayState::Tracking { poll_id, message_id },
                RelayAction::CreateRecord {
                    poll_id: record_id,
                    info_chat_id: chat_id,
                    info_message_id: message_id,
                },
            )
        },
        (RelayState::Deleting { poll_id, chat_id, message_id }, RelayEvent::DeleteFailed) => (
            RelayState::Aborted,
            RelayAction::DeleteRepublished { message_id },
        ),
        (RelayState::Tracking { poll_id, message_id }, RelayEvent::RecordCreated) => (
            RelayState::Reporting { poll_id },
            RelayAction::SendReport { reply_to: message_id },
        ),
        (RelayState::Reporting { poll_id }, RelayEvent::ReportSent { chat_id, message_id }) => (
            RelayState::Finished,
            RelayAction::StoreReportLocation {
                poll_id,
                info_chat_id: chat_id,
                info_message_id: message_id,
            },
        ),
        (s, _) => (s, RelayAction::Idle),
    }
}

/// A vote answer from the platform: an empty choice is a retraction.
pub struct PollAnswer {
    pub poll_id: String,
    pub user_id: i64,
    pub option_ids: Vec<i32>,
}

/// The status-report message to edit in place, and its new text.
pub struct ReportEdit {
    pub chat_id: i64,
    pub message_id: i32,
    pub text: String,
}

/// The reply to a forwarded poll: "Unknown poll" when it is not tracked,
/// else the report on its stored roster, each voter counted once. Nothing
/// is changed.
pub fn poll_forward_reply(ledger: &PollLedger, poll_id: &String, residents: &[ResidentEntry]) -> (r:
    Result<String, LedgerError>)
    requires
        ledger.wf(),
    ensures
        !has_poll(ledger@, poll_id@) ==> (r matches Ok(t) && t@ == "Unknown poll"@),
        has_poll(ledger@, poll_id@) ==> exists|i: int|
            0 <= i < ledger@.len() && (#[trigger] ledger@[i]).tg_poll_id@ == poll_id@
                && match ids_parsed(ledger@[i].voted_users@) {
                None => r == Err::<String, LedgerError>(LedgerError::Codec(CodecError::Decode)),
                Some(v) => r matches Ok(t) && exists|voters: Seq<i64>|
                    {
                        &&& strictly_ascending(voters)
                        &&& #[trigger] id_set(voters) == id_set(v)
                        &&& t@ == report_text(voters.len(), non_voters_of(residents@, voters))
                    },
            },
{
    let p = match ledger.find(poll_id) {
        Some(p) => p,
        None => return Ok(String::from_str("Unknown poll")),
    };
    let ghost i = choose|i: int| 0 <= i < ledger@.len() && ledger@[i] == p;
    let roster = match p.roster() {
        Ok(v) => v,
        Err(e) => return Err(LedgerError::Codec(e)),
    };
    let voters = canonical_roster(roster.as_slice());
    let non_voters = find_non_voters(residents, voters.as_slice());
    let text = render_report(voters.len(), non_voters.as_slice());
    assert(ledger@[i].tg_poll_id@ == poll_id@);
    assert(id_set(voters@) == id_set(roster@));
    Ok(text)
}

/// Records a vote answer and renders the new report for the poll's status
/// message. `None` when the poll is not tracked; a stored roster that does
/// not read back is an error and nothing is written.
pub fn poll_answer_update(
    ledger: &mut PollLedger,
    answer: &PollAnswer,
    residents: &[ResidentEntry],
) -> (r: Result<Option<ReportEdit>, LedgerError>)
    requires
        old(ledger).wf(),
    ensures
        final(ledger).wf(),
        !has_poll(old(ledger)@, answer.poll_id@) ==> (r matches Ok(None) && final(ledger)@
            == old(ledger)@),
        has_poll(old(ledger)@, answer.poll_id@) ==> exists|i: int|
            0 <= i < old(ledger)@.len() && (#[trigger] old(ledger)@[i]).tg_poll_id@
                == answer.poll_id@ && match ids_parsed(old(ledger)@[i].voted_users@) {
                None => r == Err::<Option<ReportEdit>, LedgerError>(
                    LedgerError::Codec(CodecError::Decode),
                ) && final(ledger)@ == old(ledger)@,
                Some(stored) => r matches Ok(Some(edit)) && exists|roster: Seq<i64>|
                    {
                        &&& strictly_ascending(roster)
                        &&& id_set(roster) == vote_step(
                            id_set(stored),
                            answer.user_id,
                            answer.option_ids@.len() == 0,
                        )
                        &&& #[trigger] roster_json(roster) == final(ledger)@[i].voted_users@
                        &&& edit.chat_id == old(ledger)@[i].info_chat_id
                        &&& edit.message_id == old(ledger)@[i].info_message_id
                        &&& edit.text@ == report_text(
                            roster.len(),
                            non_voters_of(residents@, roster),
                        )
                        &&& final(ledger)@.len() == old(ledger)@.len()
                        &&& same_but_roster(final(ledger)@[i], old(ledger)@[i])
                        &&& forall|j: int|
                            0 <= j < old(ledger)@.len() && j != i ==> final(ledger)@[j] == old(
                                ledger,
                            )@[j]
                    },
            },
{
    let p = match ledger.find(&answer.poll_id) {
        Some(p) => p,
        None => return Ok(None),
    };
    let ghost k = choose|k: int| 0 <= k < ledger@.len() && ledger@[k] == p;
    let ghost start = ledger@;
    match ledger.apply_vote(&answer.poll_id, answer.user_id, answer.option_ids.as_slice()) {
        Ok(Some((roster, n))) => {
            let non_voters = find_non_voters(residents, roster.as_slice());
            let text = render_report(n, non_voters.as_slice());
            let edit = ReportEdit {
                chat_id: p.info_chat_id,
                message_id: p.info_message_id,
                text,
            };
            assert(start[k].tg_poll_id@ == answer.poll_id@);
            assert(roster_json(roster@) == ledger@[k].voted_users@);
            Ok(Some(edit))
        },
        Ok(None) => Ok(None),
        Err(e) => Err(e),
    }
}

} // verus!
