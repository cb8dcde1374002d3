//! The vote ledger: one tracked-poll record per relayed poll, each holding
//! the stored text of its voted-user roster.
use vstd::prelude::*;
use crate::codec::{decode_roster, encode_roster, ids_parsed, roster_json, CodecError};
use crate::roster::{
    apply_vote_to_roster, canonical_roster, fold_votes, id_set, strictly_ascending, vote_step,
};

verus! {

/// One relayed poll.
pub struct TrackedPoll {
    /// The identifier that the platform gave the republished poll.
    pub tg_poll_id: String,
    /// The user whose poll was intercepted.
    pub creator_id: i64,
    /// The chat of the status-report message.
    pub info_chat_id: i64,
    /// The status-report message.
    pub info_message_id: i32,
    /// The stored text of the voted-user roster.
    pub voted_users: String,
}

impl TrackedPoll {
    /// A copy of this record.
    pub fn duplicate(&self) -> (r: TrackedPoll)
        ensures
            r == *self,
    {
        TrackedPoll {
            tg_poll_id: self.tg_poll_id.clone(),
            creator_id: self.creator_id,
            info_chat_id: self.info_chat_id,
            info_message_id: self.info_message_id,
            voted_users: self.voted_users.clone(),
        }
    }

    /// The roster that this record stores; a stored text that does not read
    /// as a list of identifiers is an error, never an empty roster.
    pub fn roster(&self) -> (r: Result<Vec<i64>, CodecError>)
        ensures
            match ids_parsed(self.voted_users@) {
                Some(v) => r matches Ok(w) && w@ == v,
                None => r == Err::<Vec<i64>, CodecError>(CodecError::Decode),
            },
            forall|v: Seq<i64>| #[trigger] roster_json(v) == self.voted_users@ ==> (r matches Ok(
                w,
            ) && w@ == v),
    {
        decode_roster(self.voted_users.as_str())
    }
}

/// Two records that differ at most in their roster.
pub open spec fn same_but_roster(a: TrackedPoll, b: TrackedPoll) -> bool {
    &&& a.tg_poll_id == b.tg_poll_id
    &&& a.creator_id == b.creator_id
    &&& a.info_chat_id == b.info_chat_id
    &&& a.info_message_id == b.info_message_id
}

/// No two records share a poll identifier.
pub open spec fn poll_ids_unique(s: Seq<TrackedPoll>) -> bool {
    forall|i: int, j: int|
        0 <= i < j < s.len() ==> (#[trigger] s[i]).tg_poll_id@ != (#[trigger] s[j]).tg_poll_id@
}

/// Some record has this poll identifier.
pub open spec fn has_poll(s: Seq<TrackedPoll>, poll_id: Seq<char>) -> bool {
    exists|i: int| 0 <= i < s.len() && (#[trigger] s[i]).tg_poll_id@ == poll_id
}

/// Vote answers `(user, chosen options)` as `(user, retract)` pairs.
pub open spec fn answer_events(events: Seq<(i64, Vec<i32>)>) -> Seq<(i64, bool)> {
    events.map_values(|e: (i64, Vec<i32>)| (e.0, e.1@.len() == 0))
}

/// Why a ledger operation failed.
#[derive(Debug, Clone, Copy, PartialEq, Eq, Structural)]
pub enum LedgerError {
    /// A record for this poll identifier exists already.
    AlreadyTracked,
    /// A roster could not be written or read back.
    Codec(CodecError),
}

/// The tracked polls, keyed by poll identifier.
pub struct PollLedger {
    polls: Vec<TrackedPoll>,
}

impl View for PollLedger {
    type V = Seq<TrackedPoll>;

    closed spec fn view(&self) -> Seq<TrackedPoll> {
        self.polls@
    }
}

impl PollLedger {
    /// The ledger's invariant: poll identifiers are unique.
    pub open spec fn wf(&self) -> bool {
        poll_ids_unique(self@)
    }

    /// A ledger with no polls.
    pub fn new() -> (r: PollLedger)
        ensures
            r.wf(),
            r@ == Seq::<TrackedPoll>::empty(),
    {
        PollLedger { polls: Vec::new() }
    }

    /// The number of tracked polls.
    pub fn len(&self) -> (r: usize)
        ensures
            r == self@.len(),
    {
        self.polls.len()
    }

    fn position(&self, poll_id: &String) -> (r: Option<usize>)
        ensures
            r matches Some(i) ==> i < self@.len() && self@[i as int].tg_poll_id@ == poll_id@,
            r is None ==> !has_poll(self@, poll_id@),
    {
        let mut i: usize = 0;
        while i < self.polls.len()
            invariant
                0 <= i <= self.polls@.len(),
                forall|k: int| 0 <= k < i ==> self.polls@[k].tg_poll_id@ != poll_id@,
            decreases self.polls.len() - i,
        {
            if self.polls[i].tg_poll_id == *poll_id {
                return Some(i);
            }
            i = i + 1;
        }
        None
    }

    /// Starts tracking a relayed poll with an empty roster. A poll that is
    /// tracked already is refused and the ledger is left as it was.
    pub fn create(
        &mut self,
        poll_id: String,
        creator_id: i64,
        info_chat_id: i64,
        info_message_id: i32,
    ) -> (r: Result<(), LedgerError>)
        requires
            old(self).wf(),
        ensures
            final(self).wf(),
            has_poll(old(self)@, poll_id@) ==> r == Err::<(), LedgerError>(
                LedgerError::AlreadyTracked,
            ) && final(self)@ == old(self)@,
            !has_poll(old(self)@, poll_id@) ==> {
                &&& r is Ok
                &&& final(self)@.len() == old(self)@.len() + 1
                &&& final(self)@.drop_last() == old(self)@
                &&& final(self)@.last().tg_poll_id == poll_id
                &&& final(self)@.last().creator_id == creator_id
                &&& final(self)@.last().info_chat_id == info_chat_id
                &&& final(self)@.last().info_message_id == info_message_id
                &&& final(self)@.last().voted_users@ == roster_json(Seq::empty())
            },
    {
        if self.position(&poll_id).is_some() {
            return Err(LedgerError::AlreadyTracked);
        }
        let empty: Vec<i64> = Vec::new();
        let text = match encode_roster(empty.as_slice()) {
            Ok(t) => t,
            Err(e) => return Err(LedgerError::Codec(e)),
        };
        let ghost before = self.polls@;
        self.polls.push(
            TrackedPoll { tg_poll_id: poll_id, creator_id, info_chat_id, info_message_id, voted_users: text },
        );
        assert(self.polls@.drop_last() =~= before);
        assert(empty@ =~= Seq::<i64>::empty());
        Ok(())
    }

    /// Brings in a record read from storage, roster text as it was stored.
    /// A poll that is tracked already is refused and nothing changes.
    pub fn load(&mut self, record: TrackedPoll) -> (r: Result<(), LedgerError>)
        requires
            old(self).wf(),
        ensures
            final(self).wf(),
            has_poll(old(self)@, record.tg_poll_id@) ==> r == Err::<(), LedgerError>(
                LedgerError::AlreadyTracked,
            ) && final(self)@ == old(self)@,
            !has_poll(old(self)@, record.tg_poll_id@) ==> r is Ok && final(self)@ == old(
                self,
            )@.push(record),
    {
        if self.position(&record.tg_poll_id).is_some() {
            return Err(LedgerError::AlreadyTracked);
        }
        self.polls.push(record);
        Ok(())
    }

    /// Stores where a poll's status report is. Returns whether the poll is
    /// tracked; an untracked poll leaves the ledger as it was.
    pub fn set_report_location(&mut self, poll_id: &String, info_chat_id: i64, info_message_id: i32) -> (r: bool)
        requires
            old(self).wf(),
        ensures
            final(self).wf(),
            r == has_poll(old(self)@, poll_id@),
            !r ==> final(self)@ == old(self)@,
            r ==> exists|i: int|
                0 <= i < old(self)@.len() && (#[trigger] old(self)@[i]).tg_poll_id@ == poll_id@ && {
                    &&& final(self)@.len() == old(self)@.len()
                    &&& final(self)@[i].tg_poll_id == old(self)@[i].tg_poll_id
                    &&& final(self)@[i].creator_id == old(self)@[i].creator_id
                    &&& final(self)@[i].voted_users == old(self)@[i].voted_users
                    &&& final(self)@[i].info_chat_id == info_chat_id
                    &&& final(self)@[i].info_message_id == info_message_id
                    &&& forall|j: int|
                        0 <= j < old(self)@.len() && j != i ==> final(self)@[j] == old(self)@[j]
                },
    {
        let i = match self.position(poll_id) {
            Some(i) => i,
            None => return false,
        };
        let mut p = self.polls[i].duplicate();
        p.info_chat_id = info_chat_id;
        p.info_message_id = info_message_id;
        let ghost before = self.polls@;
        self.polls.set(i, p);
        assert forall|a: int, b: int| 0 <= a < b < self.polls@.len() implies (
        #[trigger] self.polls@[a]).tg_poll_id@ != (#[trigger] self.polls@[b]).tg_poll_id@ by {
            assert(before[a].tg_poll_id == self.polls@[a].tg_poll_id);
            assert(before[b].tg_poll_id == self.polls@[b].tg_poll_id);
        }
        true
    }

    /// The record of a poll, if it is tracked.
    pub fn find(&self, poll_id: &String) -> (r: Option<TrackedPoll>)
        ensures
            r is None <==> !has_poll(self@, poll_id@),
            r matches Some(p) ==> p.tg_poll_id@ == poll_id@ && self@.contains(p),
    {
        match self.position(poll_id) {
            Some(i) => {
                let p = self.polls[i].duplicate();
                assert(self@[i as int] == p);
                Some(p)
            },
            None => None,
        }
    }

    /// Applies one vote answer to a tracked poll, as one read-modify-write:
    /// an empty choice retracts the user's vote, any other choice casts it.
    /// Returns the new roster, sorted and free of duplicates, and its size;
    /// `None` for a poll that is not tracked. A stored roster that does not
    /// read back is an error and nothing is written.
    pub fn apply_vote(&mut self, poll_id: &String, user_id: i64, option_ids: &[i32]) -> (r: Result<
        Option<(Vec<i64>, usize)>,
        LedgerError,
    >)
        requires
            old(self).wf(),
        ensures
            final(self).wf(),
            !has_poll(old(self)@, poll_id@) ==> r == Ok::<Option<(Vec<i64>, usize)>, LedgerError>(
                None,
            ) && final(self)@ == old(self)@,
            has_poll(old(self)@, poll_id@) ==> exists|i: int|
                0 <= i < old(self)@.len() && (#[trigger] old(self)@[i]).tg_poll_id@ == poll_id@
                    && (forall|prev: Seq<i64>|
                    #[trigger] roster_json(prev) == old(self)@[i].voted_users@ ==> ids_parsed(
                        old(self)@[i].voted_users@,
                    ) == Some(prev)) && match ids_parsed(old(self)@[i].voted_users@) {
                    None => r == Err::<Option<(Vec<i64>, usize)>, LedgerError>(
                        LedgerError::Codec(CodecError::Decode),
                    ) && final(self)@ == old(self)@,
                    Some(stored) => r matches Ok(Some((roster, n))) && {
                        &&& strictly_ascending(roster@)
                        &&& id_set(roster@) == vote_step(
                            id_set(stored),
                            user_id,
                            option_ids@.len() == 0,
                        )
                        &&& n == roster@.len()
                        &&& final(self)@.len() == old(self)@.len()
                        &&& same_but_roster(final(self)@[i], old(self)@[i])
                        &&& final(self)@[i].voted_users@ == roster_json(roster@)
                        &&& forall|j: int|
                            0 <= j < old(self)@.len() && j != i ==> final(self)@[j] == old(
                                self,
                            )@[j]
                    },
                },
    {
        let i = match self.position(poll_id) {
            Some(i) => i,
            None => return Ok(None),
        };
        let stored = match self.polls[i].roster() {
            Ok(v) => v,
            Err(e) => return Err(LedgerError::Codec(e)),
        };
        let roster = apply_vote_to_roster(stored.as_slice(), user_id, option_ids);
        let text = match encode_roster(roster.as_slice()) {
            Ok(t) => t,
            Err(e) => return Err(LedgerError::Codec(e)),
        };
        let mut p = self.polls[i].duplicate();
        p.voted_users = text;
        let ghost before = self.polls@;
        self.polls.set(i, p);
        assert forall|a: int, b: int| 0 <= a < b < self.polls@.len() implies (
        #[trigger] self.polls@[a]).tg_poll_id@ != (#[trigger] self.polls@[b]).tg_poll_id@ by {
            assert(before[a].tg_poll_id == self.polls@[a].tg_poll_id);
            assert(before[b].tg_poll_id == self.polls@[b].tg_poll_id);
        }
        let n = roster.len();
        Ok(Some((roster, n)))
    }

    /// Applies a sequence of vote answers to one tracked poll, in order,
    /// each as its own read-modify-write. The final roster is the ascending
    /// listing of the set folded from "insert on a choice, remove on an empty
    /// choice" over the answers, starting from the stored roster, and it is
    /// written back in its canonical text, with no answers too; `None` for a
    /// poll that is not tracked; a stored roster that does not read back is
    /// an error and nothing is written.
    pub fn apply_votes(&mut self, poll_id: &String, events: &[(i64, Vec<i32>)]) -> (r: Result<
        Option<Vec<i64>>,
        LedgerError,
    >)
        requires
            old(self).wf(),
        ensures
            final(self).wf(),
            !has_poll(old(self)@, poll_id@) ==> r == Ok::<Option<Vec<i64>>, LedgerError>(None)
                && final(self)@ == old(self)@,
            has_poll(old(self)@, poll_id@) ==> exists|i: int|
                0 <= i < old(self)@.len() && (#[trigger] old(self)@[i]).tg_poll_id@ == poll_id@
                    && match ids_parsed(old(self)@[i].voted_users@) {
                    None => r == Err::<Option<Vec<i64>>, LedgerError>(
                        LedgerError::Codec(CodecError::Decode),
                    ) && final(self)@ == old(self)@,
                    Some(stored) => r matches Ok(Some(roster)) && {
                        &&& strictly_ascending(roster@)
                        &&& id_set(roster@) == fold_votes(id_set(stored), answer_events(events@))
                        &&& final(self)@.len() == old(self)@.len()
                        &&& same_but_roster(final(self)@[i], old(self)@[i])
                        &&& final(self)@[i].voted_users@ == roster_json(roster@)
                        &&& forall|j: int|
                            0 <= j < old(self)@.len() && j != i ==> final(self)@[j] == old(
                                self,
                            )@[j]
                    },
                },
    {
        let i = match self.position(poll_id) {
            Some(i) => i,
            None => return Ok(None),
        };
        let stored = match self.polls[i].roster() {
            Ok(v) => v,
            Err(e) => return Err(LedgerError::Codec(e)),
        };
        let ghost start = self@;
        let ghost evs = answer_events(events@);
        let mut cur = canonical_roster(stored.as_slice());
        assert(evs.subrange(0, 0) =~= Seq::<(i64, bool)>::empty());
        if events.len() == 0 {
            let text = match encode_roster(cur.as_slice()) {
                Ok(t) => t,
                Err(e) => return Err(LedgerError::Codec(e)),
            };
            let mut p = self.polls[i].duplicate();
            p.voted_users = text;
            self.polls.set(i, p);
            assert forall|a: int, b: int| 0 <= a < b < self.polls@.len() implies (
            #[trigger] self.polls@[a]).tg_poll_id@ != (#[trigger] self.polls@[b]).tg_poll_id@ by {
                assert(start[a].tg_poll_id == self.polls@[a].tg_poll_id);
                assert(start[b].tg_poll_id == self.polls@[b].tg_poll_id);
            }
            assert(evs =~= Seq::<(i64, bool)>::empty());
            return Ok(Some(cur));
        }
        let mut k: usize = 0;
        while k < events.len()
            invariant
                0 <= k <= events.len(),
                i < start.len(),
                evs == answer_events(events@),
                evs.len() == events@.len(),
                start[i as int].tg_poll_id@ == poll_id@,
                ids_parsed(start[i as int].voted_users@) == Some(stored@),
                poll_ids_unique(start),
                self.wf(),
                self@.len() == start.len(),
                self@[i as int].tg_poll_id@ == poll_id@,
                same_but_roster(self@[i as int], start[i as int]),
                forall|j: int| 0 <= j < start.len() && j != i ==> self@[j] == start[j],
                strictly_ascending(cur@),
                id_set(cur@) == fold_votes(id_set(stored@), evs.subrange(0, k as int)),
                k == 0 ==> self@ == start,
                k > 0 ==> self@[i as int].voted_users@ == roster_json(cur@),
            decreases events.len() - k,
        {
            assert(evs.subrange(0, k + 1).drop_last() =~= evs.subrange(0, k as int));
            assert(evs[k as int] == (events@[k as int].0, events@[k as int].1@.len() == 0));
            let ghost before = self@;
            assert(has_poll(before, poll_id@)) by {
                assert(before[i as int].tg_poll_id@ == poll_id@);
            }
            let step = self.apply_vote(poll_id, events[k].0, events[k].1.as_slice());
            let ghost w = choose|w: int|
                0 <= w < before.len() && (#[trigger] before[w]).tg_poll_id@ == poll_id@ && (forall|
                    prev: Seq<i64>,
                |
                    #[trigger] roster_json(prev) == before[w].voted_users@ ==> ids_parsed(
                        before[w].voted_users@,
                    ) == Some(prev)) && match ids_parsed(before[w].voted_users@) {
                    None => step == Err::<Option<(Vec<i64>, usize)>, LedgerError>(
                        LedgerError::Codec(CodecError::Decode),
                    ) && self@ == before,
                    Some(prev_roster) => step matches Ok(Some((roster, n))) && {
                        &&& strictly_ascending(roster@)
                        &&& id_set(roster@) == vote_step(
                            id_set(prev_roster),
                            events@[k as int].0,
                            events@[k as int].1@.len() == 0,
                        )
                        &&& n == roster@.len()
                        &&& self@.len() == before.len()
                        &&& same_but_roster(self@[w], before[w])
                        &&& self@[w].voted_users@ == roster_json(roster@)
                        &&& forall|j: int|
                            0 <= j < before.len() && j != w ==> self@[j] == before[j]
                    },
                };
            assert(w == i);
            if k > 0 {
                assert(ids_parsed(before[i as int].voted_users@) == Some(cur@));
            } else {
                assert(ids_parsed(before[i as int].voted_users@) == Some(stored@));
            }
            match step {
                Ok(Some((roster, _))) => {
                    cur = roster;
                },
                Ok(None) => return Ok(None),
                Err(e) => return Err(e),
            }
            k = k + 1;
        }
        assert(evs.subrange(0, events.len() as int) =~= evs);
        Ok(Some(cur))
    }
}

} // verus!
