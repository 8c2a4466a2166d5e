//! The chat lines that follow queue operations. The texts are fixed here,
//! character for character; whether the popping line fires at all is gated
//! by the pop answer — nothing popped stays silent, an empty batch speaks.

use crate::queue::Entry;
use vstd::prelude::*;
use vstd::string::StringExecFns;

verus! {

/// The names carried by a run of entries, front to back.
pub open spec fn entry_names(s: Seq<Entry>) -> Seq<Seq<char>> {
    s.map_values(|e: Entry| e.nickname@)
}

/// `parts` joined with `sep` between neighbours.
pub open spec fn spec_join(parts: Seq<Seq<char>>, sep: Seq<char>) -> Seq<char>
    decreases parts.len(),
{
    if parts.len() == 0 {
        Seq::empty()
    } else if parts.len() == 1 {
        parts[0]
    } else {
        parts[0] + sep + spec_join(parts.drop_first(), sep)
    }
}

/// Joining one more part appends a separator and the part (or is the part
/// itself, when nothing was joined yet).
proof fn lemma_join_push(parts: Seq<Seq<char>>, part: Seq<char>, sep: Seq<char>)
    ensures
        spec_join(parts.push(part), sep) == if parts.len() == 0 {
            part
        } else {
            spec_join(parts, sep) + sep + part
        },
    decreases parts.len(),
{
    let grown = parts.push(part);
    if parts.len() == 0 {
        assert(grown.len() == 1);
        assert(grown[0] == part);
    } else {
        assert(grown[0] == parts[0]);
        assert(grown.drop_first() =~= parts.drop_first().push(part));
        lemma_join_push(parts.drop_first(), part, sep);
        if parts.len() == 1 {
            assert(parts.drop_first().len() == 0);
            assert(spec_join(grown, sep) == parts[0] + sep + part);
            assert(spec_join(parts, sep) == parts[0]);
        } else {
            assert(spec_join(grown, sep) == grown[0] + sep + spec_join(grown.drop_first(), sep));
            assert(spec_join(grown.drop_first(), sep) == spec_join(parts.drop_first(), sep) + sep
                + part);
            assert((parts[0] + sep + (spec_join(parts.drop_first(), sep) + sep + part)) =~= (
            parts[0] + sep + spec_join(parts.drop_first(), sep)) + sep + part);
        }
    }
}

/// The display names of `entries`, joined with `sep` between neighbours.
pub fn join_names(entries: &Vec<Entry>, sep: &str) -> (r: String)
    ensures
        r@ == spec_join(entry_names(entries@), sep@),
{
    let mut r = String::new();
    let n = entries.len();
    for i in 0..n
        invariant
            n == entries@.len(),
            r@ == spec_join(entry_names(entries@).take(i as int), sep@),
    {
        let ghost done = entry_names(entries@).take(i as int);
        if i > 0 {
            r.append(sep);
        }
        r.append(entries[i].nickname.as_str());
        proof {
            assert(entry_names(entries@).take(i + 1) =~= done.push(entries@[i as int].nickname@));
            lemma_join_push(done, entries@[i as int].nickname@, sep@);
            if i == 0 {
                assert(r@ =~= spec_join(entry_names(entries@).take(i + 1), sep@));
            }
        }
    }
    proof {
        assert(entry_names(entries@).take(n as int) =~= entry_names(entries@));
    }
    r
}

/// What the toggle announcement says for the reported flag value.
pub open spec fn spec_toggle_message(is_open: bool) -> Seq<char> {
    if is_open {
        "The queue is now open."@
    } else {
        "The queue is now closed."@
    }
}

/// The chat line announcing the open/closed flag a toggle reported.
pub fn toggle_message(is_open: bool) -> (r: String)
    ensures
        r@ == spec_toggle_message(is_open),
{
    if is_open {
        "The queue is now open.".to_owned()
    } else {
        "The queue is now closed.".to_owned()
    }
}

/// What the popping announcement says for a popped batch of names.
pub open spec fn spec_pop_message(names: Seq<Seq<char>>) -> Seq<char> {
    "Up next: @"@ + spec_join(names, ", @"@)
        + ". You can reach BK in game with the following message: @brittleknee Hi."@
}

/// The chat line for a pop answer, or no line at all. The line fires exactly
/// when something was popped — also for an empty batch — and lists the
/// popped names in their waiting order, each behind an `@`.
pub fn pop_notification(popped: &Option<Vec<Entry>>) -> (r: Option<String>)
    ensures
        (r is Some) <==> (popped is Some),
        popped matches Some(v) ==> r matches Some(m) && m@ == spec_pop_message(entry_names(v@)),
{
    match popped {
        None => None,
        Some(entries) => {
            let mut m = String::from_str("Up next: @");
            let names = join_names(entries, ", @");
            m.append(names.as_str());
            m.append(". You can reach BK in game with the following message: @brittleknee Hi.");
            Some(m)
        },
    }
}

} // verus!
