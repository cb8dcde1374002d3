//! The voted-user roster: a strictly ascending list of user identifiers,
//! and how one vote answer changes it.
use vstd::prelude::*;

verus! {

/// Every identifier is smaller than the ones after it: sorted, no duplicates.
pub open spec fn strictly_ascending(s: Seq<i64>) -> bool {
    forall|i: int, j: int| 0 <= i < j < s.len() ==> s[i] < s[j]
}

/// The identifiers that a list holds.
pub open spec fn id_set(s: Seq<i64>) -> Set<i64> {
    Set::new(|x: i64| s.contains(x))
}

/// One vote answer: a retraction takes the user out, any other answer puts
/// the user in.
pub open spec fn vote_step(voted: Set<i64>, user_id: i64, retract: bool) -> Set<i64> {
    if retract {
        voted.remove(user_id)
    } else {
        voted.insert(user_id)
    }
}

/// The voters after a sequence of answers `(user, retract)`, applied in order.
pub open spec fn fold_votes(start: Set<i64>, events: Seq<(i64, bool)>) -> Set<i64>
    decreases events.len(),
{
    if events.len() == 0 {
        start
    } else {
        vote_step(fold_votes(start, events.drop_last()), events.last().0, events.last().1)
    }
}

/// Puts `x` into an ascending list at its place, unless it is there already.
pub fn insert_sorted(v: &mut Vec<i64>, x: i64)
    requires
        strictly_ascending(old(v)@),
    ensures
        strictly_ascending(final(v)@),
        id_set(final(v)@) == id_set(old(v)@).insert(x),
{
    let mut i: usize = 0;
    while i < v.len() && v[i] < x
        invariant
            0 <= i <= v.len(),
            strictly_ascending(v@),
            forall|k: int| 0 <= k < i ==> v@[k] < x,
        decreases v.len() - i,
    {
        i = i + 1;
    }
    if i < v.len() && v[i] == x {
        assert(id_set(v@) =~= id_set(v@).insert(x)) by {
            assert(v@.contains(x));
        }
        return;
    }
    let ghost before = v@;
    v.insert(i, x);
    assert(v@ == before.insert(i as int, x));
    assert forall|a: int, b: int| 0 <= a < b < v@.len() implies v@[a] < v@[b] by {
        if b < i {
        } else if b == i {
        } else if a < i {
            assert(before[b - 1] > x);
        } else if a == i {
            assert(before[b - 1] >= before[i as int]);
        } else {
        }
    }
    assert forall|y: i64| v@.contains(y) <==> before.contains(y) || y == x by {
        if v@.contains(y) {
            let k = choose|k: int| 0 <= k < v@.len() && v@[k] == y;
            if k < i {
                assert(before[k] == y);
            } else if k > i {
                assert(before[k - 1] == y);
            }
        }
        if before.contains(y) {
            let k = choose|k: int| 0 <= k < before.len() && before[k] == y;
            if k < i {
                assert(v@[k] == y);
            } else {
                assert(v@[k + 1] == y);
            }
        }
        if y == x {
            assert(v@[i as int] == x);
        }
    }
    assert forall|y: i64| #[trigger] id_set(v@).contains(y) <==> id_set(before).insert(x).contains(
        y,
    ) by {
        assert(v@.contains(y) <==> before.contains(y) || y == x);
    }
    assert(id_set(v@) =~= id_set(before).insert(x));
}

/// Takes `x` out of an ascending list, if it is there.
pub fn remove_sorted(v: &mut Vec<i64>, x: i64)
    requires
        strictly_ascending(old(v)@),
    ensures
        strictly_ascending(final(v)@),
        id_set(final(v)@) == id_set(old(v)@).remove(x),
{
    let mut i: usize = 0;
    while i < v.len() && v[i] != x
        invariant
            0 <= i <= v.len(),
            forall|k: int| 0 <= k < i ==> v@[k] != x,
        decreases v.len() - i,
    {
        i = i + 1;
    }
    if i == v.len() {
        assert(id_set(v@) =~= id_set(v@).remove(x));
        return;
    }
    let ghost before = v@;
    v.remove(i);
    assert(v@ == before.remove(i as int));
    assert forall|a: int, b: int| 0 <= a < b < v@.len() implies v@[a] < v@[b] by {
        if b < i {
        } else if a < i {
            assert(before[a] < before[b + 1]);
        } else {
            assert(before[a + 1] < before[b + 1]);
        }
    }
    assert forall|y: i64| v@.contains(y) <==> before.contains(y) && y != x by {
        if v@.contains(y) {
            let k = choose|k: int| 0 <= k < v@.len() && v@[k] == y;
            if k < i {
                assert(before[k] == y);
                assert(before[k] < before[i as int]);
            } else {
                assert(before[k + 1] == y);
                assert(before[i as int] < before[k + 1]);
            }
        }
        if before.contains(y) && y != x {
            let k = choose|k: int| 0 <= k < before.len() && before[k] == y;
            if k < i {
                assert(v@[k] == y);
            } else {
                assert(k != i);
                assert(v@[k - 1] == y);
            }
        }
    }
    assert forall|y: i64| #[trigger] id_set(v@).contains(y) <==> id_set(before).remove(x).contains(
        y,
    ) by {
        assert(v@.contains(y) <==> before.contains(y) && y != x);
    }
    assert(id_set(v@) =~= id_set(before).remove(x));
}

/// The ascending, duplicate-free listing of the identifiers of any list.
pub fn canonical_roster(ids: &[i64]) -> (r: Vec<i64>)
    ensures
        strictly_ascending(r@),
        id_set(r@) == id_set(ids@),
{
    let mut out: Vec<i64> = Vec::new();
    let mut i: usize = 0;
    while i < ids.len()
        invariant
            0 <= i <= ids.len(),
            strictly_ascending(out@),
            id_set(out@) == id_set(ids@.subrange(0, i as int)),
        decreases ids.len() - i,
    {
        insert_sorted(&mut out, ids[i]);
        proof {
            let s0 = ids@.subrange(0, i as int);
            let s1 = ids@.subrange(0, i + 1);
            assert forall|y: i64| s1.contains(y) <==> s0.contains(y) || y == ids@[i as int] by {
                if s1.contains(y) {
                    let k = choose|k: int| 0 <= k < s1.len() && #[trigger] s1[k] == y;
                    if k < i {
                        assert(s0[k] == y);
                    }
                }
                if s0.contains(y) {
                    let k = choose|k: int| 0 <= k < s0.len() && #[trigger] s0[k] == y;
                    assert(s1[k] == y);
                }
                assert(s1[i as int] == ids@[i as int]);
            }
            assert(id_set(s1) =~= id_set(s0).insert(ids@[i as int]));
        }
        i = i + 1;
    }
    assert(ids@.subrange(0, ids.len() as int) =~= ids@);
    out
}

/// The roster after one vote answer of `user_id`: an empty choice of options
/// retracts the vote, any other choice casts or replaces it. The result is
/// sorted and free of duplicates whatever the stored roster was.
pub fn apply_vote_to_roster(roster: &[i64], user_id: i64, option_ids: &[i32]) -> (r: Vec<i64>)
    ensures
        strictly_ascending(r@),
        id_set(r@) == vote_step(id_set(roster@), user_id, option_ids@.len() == 0),
{
    let mut out = canonical_roster(roster);
    if option_ids.len() == 0 {
        remove_sorted(&mut out, user_id);
    } else {
        insert_sorted(&mut out, user_id);
    }
    out
}

/// The roster after a sequence of vote answers `(user, retract)` on one
/// poll, applied in order: exactly the ascending listing of the set folded
/// from "insert on a choice, remove on a retraction".
pub fn apply_votes_to_roster(roster: &[i64], events: &[(i64, bool)]) -> (r: Vec<i64>)
    ensures
        strictly_ascending(r@),
        id_set(r@) == fold_votes(id_set(roster@), events@),
        forall|other: Seq<i64>|
            strictly_ascending(other) && id_set(other) == fold_votes(id_set(roster@), events@)
                ==> other == r@,
{
    let mut out = canonical_roster(roster);
    let mut i: usize = 0;
    while i < events.len()
        invariant
            0 <= i <= events.len(),
            strictly_ascending(out@),
            id_set(out@) == fold_votes(id_set(roster@), events@.subrange(0, i as int)),
        decreases events.len() - i,
    {
        assert(events@.subrange(0, i + 1).drop_last() =~= events@.subrange(0, i as int));
        let (user_id, retract) = events[i];
        if retract {
            remove_sorted(&mut out, user_id);
        } else {
            insert_sorted(&mut out, user_id);
        }
        i = i + 1;
    }
    assert(events@.subrange(0, events.len() as int) =~= events@);
    proof {
        assert forall|other: Seq<i64>|
            strictly_ascending(other) && id_set(other) == fold_votes(id_set(roster@), events@)
                implies other == out@ by {
            lemma_ascending_unique(other, out@);
        }
    }
    out
}

/// Two ascending lists with the same identifiers are the same list.
pub proof fn lemma_ascending_unique(a: Seq<i64>, b: Seq<i64>)
    requires
        strictly_ascending(a),
        strictly_ascending(b),
        id_set(a) == id_set(b),
    ensures
        a == b,
    decreases a.len(),
{
    if a.len() == 0 {
        if b.len() > 0 {
            assert(id_set(b).contains(b[0]));
            assert(!a.contains(b[0]));
        }
        assert(a =~= b);
    } else {
        assert(id_set(a).contains(a[0]));
        assert(b.contains(a[0]));
        assert(b.len() > 0);
        assert(id_set(b).contains(b[0]));
        assert(a.contains(b[0]));
        let j = choose|j: int| 0 <= j < b.len() && b[j] == a[0];
        let k = choose|k: int| 0 <= k < a.len() && a[k] == b[0];
        if j > 0 {
            assert(b[0] < a[0]);
            if k > 0 {
                assert(a[0] < a[k]);
            }
        }
        assert(a[0] == b[0]);
        let ta = a.subrange(1, a.len() as int);
        let tb = b.subrange(1, b.len() as int);
        assert forall|y: i64| ta.contains(y) <==> tb.contains(y) by {
            if ta.contains(y) {
                let p = choose|p: int| 0 <= p < ta.len() && ta[p] == y;
                assert(a[p + 1] == y);
                assert(a[0] < a[p + 1]);
                assert(id_set(a).contains(y));
                let q = choose|q: int| 0 <= q < b.len() && b[q] == y;
                assert(q != 0);
                assert(tb[q - 1] == y);
            }
            if tb.contains(y) {
                let p = choose|p: int| 0 <= p < tb.len() && tb[p] == y;
                assert(b[p + 1] == y);
                assert(b[0] < b[p + 1]);
                assert(id_set(b).contains(y));
                let q = choose|q: int| 0 <= q < a.len() && a[q] == y;
                assert(q != 0);
                assert(ta[q - 1] == y);
            }
        }
        assert(id_set(ta) =~= id_set(tb));
        lemma_ascending_unique(ta, tb);
        assert(a =~= seq![a[0]] + ta);
        assert(b =~= seq![b[0]] + tb);
    }
}

/// Applying the same vote answer twice gives the same voters as applying it
/// once.
pub proof fn lemma_vote_step_idempotent(voted: Set<i64>, user_id: i64, retract: bool)
    ensures
        vote_step(vote_step(voted, user_id, retract), user_id, retract) == vote_step(
            voted,
            user_id,
            retract,
        ),
{
    assert(vote_step(vote_step(voted, user_id, retract), user_id, retract) =~= vote_step(
        voted,
        user_id,
        retract,
    ));
}

/// Replaying a vote answer on the roster it produced leaves that roster as
/// it is.
pub proof fn lemma_replay_idempotent(
    first: Seq<i64>,
    once: Seq<i64>,
    twice: Seq<i64>,
    user_id: i64,
    retract: bool,
)
    requires
        strictly_ascending(once),
        id_set(once) == vote_step(id_set(first), user_id, retract),
        strictly_ascending(twice),
        id_set(twice) == vote_step(id_set(once), user_id, retract),
    ensures
        twice == once,
{
    lemma_vote_step_idempotent(id_set(first), user_id, retract);
    lemma_ascending_unique(twice, once);
}

/// For any sequence of vote answers on one poll, the roster after each step
/// is the ascending listing of the voters so far: the final roster lists
/// exactly the set folded from "insert on a choice, remove on a retraction",
/// and no other ascending list does.
pub proof fn lemma_rosters_follow_fold(events: Seq<(i64, bool)>, rosters: Seq<Seq<i64>>)
    requires
        rosters.len() == events.len() + 1,
        strictly_ascending(rosters[0]),
        forall|i: int|
            0 <= i < events.len() ==> strictly_ascending(#[trigger] rosters[i + 1]) && id_set(
                rosters[i + 1],
            ) == vote_step(id_set(rosters[i]), events[i].0, events[i].1),
    ensures
        strictly_ascending(rosters.last()),
        id_set(rosters.last()) == fold_votes(id_set(rosters[0]), events),
        forall|other: Seq<i64>|
            strictly_ascending(other) && id_set(other) == fold_votes(id_set(rosters[0]), events)
                ==> other == rosters.last(),
    decreases events.len(),
{
    if events.len() > 0 {
        let n = events.len() - 1;
        let es = events.drop_last();
        let rs = rosters.drop_last();
        assert forall|i: int| 0 <= i < es.len() implies strictly_ascending(#[trigger] rs[i + 1])
            && id_set(rs[i + 1]) == vote_step(id_set(rs[i]), es[i].0, es[i].1) by {
            assert(rosters[i + 1] == rs[i + 1]);
        }
        lemma_rosters_follow_fold(es, rs);
        assert(rosters[n + 1] == rosters.last());
        assert(strictly_ascending(rosters[n + 1]));
    }
    assert forall|other: Seq<i64>|
        strictly_ascending(other) && id_set(other) == fold_votes(id_set(rosters[0]), events)
            implies other == rosters.last() by {
        lemma_ascending_unique(other, rosters.last());
    }
}

} // verus!
