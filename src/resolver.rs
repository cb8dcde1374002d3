//! Non-voter resolution against the eligible-resident listing, and the text
//! of the status report.
use vstd::prelude::*;
use crate::codec::{digit_char, int_text};

verus! {

/// A platform user profile as it is cached.
pub struct TgUser {
    pub id: i64,
    /// The public handle, if the user has one.
    pub username: Option<String>,
    pub first_name: String,
    pub last_name: Option<String>,
}

/// An eligible resident: an identifier and its cached profile, if any.
pub type ResidentEntry = (i64, Option<TgUser>);

fn copy_text(s: &Option<String>) -> (r: Option<String>)
    ensures
        r == *s,
{
    match s {
        Some(t) => Some(t.clone()),
        None => None,
    }
}

impl TgUser {
    /// A copy of this profile.
    pub fn duplicate(&self) -> (r: TgUser)
        ensures
            r == *self,
    {
        TgUser {
            id: self.id,
            username: copy_text(&self.username),
            first_name: self.first_name.clone(),
            last_name: copy_text(&self.last_name),
        }
    }
}

fn copy_entry(e: &ResidentEntry) -> (r: ResidentEntry)
    ensures
        r == *e,
{
    let profile = match &e.1 {
        Some(u) => Some(u.duplicate()),
        None => None,
    };
    (e.0, profile)
}

/// The residents, in listing order, whose identifier is not among `voted`.
pub open spec fn non_voters_of(residents: Seq<ResidentEntry>, voted: Seq<i64>) -> Seq<
    ResidentEntry,
>
    decreases residents.len(),
{
    if residents.len() == 0 {
        Seq::empty()
    } else {
        let rest = non_voters_of(residents.drop_last(), voted);
        if voted.contains(residents.last().0) {
            rest
        } else {
            rest.push(residents.last())
        }
    }
}

fn contains_id(ids: &[i64], x: i64) -> (r: bool)
    ensures
        r == ids@.contains(x),
{
    let mut i: usize = 0;
    while i < ids.len()
        invariant
            0 <= i <= ids.len(),
            forall|k: int| 0 <= k < i ==> ids@[k] != x,
        decreases ids.len() - i,
    {
        if ids[i] == x {
            assert(ids@[i as int] == x);
            return true;
        }
        i = i + 1;
    }
    false
}

/// Every eligible resident who has not voted, each with its profile, in the
/// order of the listing.
pub fn find_non_voters(residents: &[ResidentEntry], voted: &[i64]) -> (r: Vec<ResidentEntry>)
    ensures
        r@ == non_voters_of(residents@, voted@),
{
    let mut out: Vec<ResidentEntry> = Vec::new();
    let mut i: usize = 0;
    while i < residents.len()
        invariant
            0 <= i <= residents.len(),
            out@ == non_voters_of(residents@.subrange(0, i as int), voted@),
        decreases residents.len() - i,
    {
        assert(residents@.subrange(0, i + 1).drop_last() =~= residents@.subrange(0, i as int));
        if !contains_id(voted, residents[i].0) {
            out.push(copy_entry(&residents[i]));
        }
        i = i + 1;
    }
    assert(residents@.subrange(0, residents.len() as int) =~= residents@);
    out
}

/// The mentions of those non-voters that have a public handle: `@handle`
/// each, in order, separated by single spaces; the others are left out.
pub open spec fn mentions(non_voters: Seq<ResidentEntry>) -> Seq<char>
    decreases non_voters.len(),
{
    if non_voters.len() == 0 {
        Seq::empty()
    } else {
        let rest = mentions(non_voters.drop_last());
        match non_voters.last().1 {
            Some(u) => match u.username {
                Some(h) => if rest.len() == 0 {
                    "@"@ + h@
                } else {
                    rest + " @"@ + h@
                },
                None => rest,
            },
            None => rest,
        }
    }
}

/// The report: "Everyone voted!" when no one is pending; otherwise the
/// number of voters, the number of pending voters and their mentions,
/// closed by a full stop and a line break.
pub open spec fn report_text(total_voters: nat, non_voters: Seq<ResidentEntry>) -> Seq<char> {
    if non_voters.len() == 0 {
        "Everyone voted!"@
    } else {
        "Voted "@ + int_text(total_voters as int) + " users, Pending vote "@ + int_text(
            non_voters.len() as int,
        ) + " users: "@ + mentions(non_voters) + ".\n"@
    }
}

fn digit_str(d: usize) -> (r: &'static str)
    requires
        d < 10,
    ensures
        r@ == seq![digit_char(d as nat)],
{
    proof {
        reveal_strlit("0");
        reveal_strlit("1");
        reveal_strlit("2");
        reveal_strlit("3");
        reveal_strlit("4");
        reveal_strlit("5");
        reveal_strlit("6");
        reveal_strlit("7");
        reveal_strlit("8");
        reveal_strlit("9");
    }
    if d == 0 {
        "0"
    } else if d == 1 {
        "1"
    } else if d == 2 {
        "2"
    } else if d == 3 {
        "3"
    } else if d == 4 {
        "4"
    } else if d == 5 {
        "5"
    } else if d == 6 {
        "6"
    } else if d == 7 {
        "7"
    } else if d == 8 {
        "8"
    } else {
        "9"
    }
}

/// The decimal text of a count: no sign, no leading zeros.
pub fn decimal_text(n: usize) -> (r: String)
    ensures
        r@ == int_text(n as int),
    decreases n,
{
    if n < 10 {
        String::from_str(digit_str(n))
    } else {
        let mut t = decimal_text(n / 10);
        t.append(digit_str(n % 10));
        t
    }
}

/// Renders the report for a poll with `total_voters` voters and the given
/// non-voters.
pub fn render_report(total_voters: usize, non_voters: &[ResidentEntry]) -> (r: String)
    ensures
        r@ == report_text(total_voters as nat, non_voters@),
{
    if non_voters.len() == 0 {
        return String::from_str("Everyone voted!");
    }
    let mut text = String::from_str("Voted ");
    text.append(decimal_text(total_voters).as_str());
    text.append(" users, Pending vote ");
    text.append(decimal_text(non_voters.len()).as_str());
    text.append(" users: ");
    let ghost head = text@;
    let mut i: usize = 0;
    let mut first = true;
    while i < non_voters.len()
        invariant
            0 <= i <= non_voters.len(),
            text@ == head + mentions(non_voters@.subrange(0, i as int)),
            first == (mentions(non_voters@.subrange(0, i as int)).len() == 0),
        decreases non_voters.len() - i,
    {
        assert(non_voters@.subrange(0, i + 1).drop_last() =~= non_voters@.subrange(0, i as int));
        match &non_voters[i].1 {
            Some(u) => match &u.username {
                Some(h) => {
                    if first {
                        text.append("@");
                    } else {
                        text.append(" @");
                    }
                    text.append(h.as_str());
                    first = false;
                    proof {
                        reveal_strlit("@");
                        reveal_strlit(" @");
                    }
                },
                None => {},
            },
            None => {},
        }
        assert(text@ =~= head + mentions(non_voters@.subrange(0, i + 1)));
        i = i + 1;
    }
    assert(non_voters@.subrange(0, non_voters.len() as int) =~= non_voters@);
    text.append(".\n");
    text
}

} // verus!
