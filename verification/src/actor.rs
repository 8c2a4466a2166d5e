//! The command protocol: every caller reaches the queue only through a
//! tagged [`Command`], and the actor task answers each with a [`Response`].
//! The actor applies commands strictly one at a time, in arrival order;
//! [`handle_command`] is the whole effect of one such step on the state it
//! owns.

use crate::queue::{
    models_of, spec_add_index, spec_add_state, spec_find, spec_peek, spec_pop_result,
    spec_pop_state, spec_remove_result, spec_remove_state, Entry, EntryModel, QueueModel,
    QueueSnapshot, QueueState,
};
use vstd::prelude::*;

verus! {

/// A tagged request for one atomic queue operation. The single-use reply
/// slot that travels with it belongs to the channel layer, not to the
/// operation itself.
pub enum Command {
    /// Join the queue under `name` (idempotent for a waiting name).
    AddUser { name: String },
    /// Where in the queue `name` waits, if at all.
    FindUser { name: String },
    /// Copies of the first `count` entries.
    PeekQueue { count: usize },
    /// Remove and return up to `count` entries off the front.
    PopQueue { count: usize },
    /// Remove the entry named `name`, if any.
    RemoveUser { name: String },
    /// Flip the open/closed flag.
    ToggleQueue,
    /// Read the open/closed flag.
    GetQueueStatus,
    /// An independent snapshot of the whole state.
    GetQueue,
}

/// The reply to one [`Command`], one variant per request kind.
pub enum Response {
    /// The zero-based position of the added (or already waiting) name.
    Added(usize),
    /// The position of the sought name, or nothing.
    Found(Option<usize>),
    /// Copies of the front entries.
    Peeked(Vec<Entry>),
    /// The removed front entries, or nothing popped.
    Popped(Option<Vec<Entry>>),
    /// The removed entry, or not found.
    Removed(Option<Entry>),
    /// The open/closed flag after the operation.
    Open(bool),
    /// The snapshot.
    Snapshot(QueueSnapshot),
}

/// The mathematical value of a [`Response`].
pub ghost enum ResponseModel {
    Added(int),
    Found(Option<int>),
    Peeked(Seq<EntryModel>),
    Popped(Option<Seq<EntryModel>>),
    Removed(Option<EntryModel>),
    Open(bool),
    Snapshot(Seq<EntryModel>, bool),
}

impl View for Response {
    type V = ResponseModel;

    open spec fn view(&self) -> ResponseModel {
        match self {
            Response::Added(i) => ResponseModel::Added(*i as int),
            Response::Found(o) => ResponseModel::Found(
                match o {
                    Some(i) => Some(*i as int),
                    None => None,
                },
            ),
            Response::Peeked(v) => ResponseModel::Peeked(models_of(v@)),
            Response::Popped(o) => ResponseModel::Popped(
                match o {
                    Some(v) => Some(models_of(v@)),
                    None => None,
                },
            ),
            Response::Removed(o) => ResponseModel::Removed(
                match o {
                    Some(e) => Some(e@),
                    None => None,
                },
            ),
            Response::Open(b) => ResponseModel::Open(*b),
            Response::Snapshot(s) => ResponseModel::Snapshot(models_of(s.entries@), s.is_open),
        }
    }
}

/// Whether a command only reads the state.
pub open spec fn is_read_only(cmd: Command) -> bool {
    ||| cmd matches Command::FindUser { .. }
    ||| cmd matches Command::PeekQueue { .. }
    ||| cmd matches Command::GetQueueStatus
    ||| cmd matches Command::GetQueue
}

/// One step of the actor: the state after a command and the reply sent back
/// for it. `ts` is the join time an `AddUser` step stamps on a fresh entry;
/// no other command looks at it.
pub open spec fn spec_step(q: QueueModel, cmd: Command, ts: i64) -> (QueueModel, ResponseModel) {
    match cmd {
        Command::AddUser { name } => (
            spec_add_state(q, name@, ts),
            ResponseModel::Added(spec_add_index(q, name@)),
        ),
        Command::FindUser { name } => (q, ResponseModel::Found(spec_find(q.entries, name@))),
        Command::PeekQueue { count } => (q, ResponseModel::Peeked(spec_peek(q, count as int))),
        Command::PopQueue { count } => (
            spec_pop_state(q, count as int),
            ResponseModel::Popped(spec_pop_result(q, count as int)),
        ),
        Command::RemoveUser { name } => (
            spec_remove_state(q, name@),
            ResponseModel::Removed(spec_remove_result(q, name@)),
        ),
        Command::ToggleQueue => (
            QueueModel { entries: q.entries, is_open: !q.is_open, next_id: q.next_id },
            ResponseModel::Open(!q.is_open),
        ),
        Command::GetQueueStatus => (q, ResponseModel::Open(q.is_open)),
        Command::GetQueue => (q, ResponseModel::Snapshot(q.entries, q.is_open)),
    }
}

/// The state after the actor has consumed a whole sequence of commands, in
/// exactly that order, with `tss[i]` the join time the `i`-th step would
/// stamp.
pub open spec fn spec_run(q: QueueModel, cmds: Seq<Command>, tss: Seq<i64>) -> QueueModel
    decreases cmds.len(),
{
    if cmds.len() == 0 {
        q
    } else {
        spec_run(spec_step(q, cmds[0], tss[0]).0, cmds.drop_first(), tss.drop_first())
    }
}

/// Apply one command with a given join time. The whole step is pinned by
/// [`spec_step`].
pub fn handle_command_at(state: &mut QueueState, cmd: Command, ts: i64) -> (r: Response)
    requires
        old(state)@.wf(),
        cmd matches Command::AddUser { .. } ==> old(state)@.next_id < u64::MAX,
    ensures
        final(state)@.wf(),
        final(state)@ == spec_step(old(state)@, cmd, ts).0,
        r@ == spec_step(old(state)@, cmd, ts).1,
{
    match cmd {
        Command::AddUser { name } => Response::Added(state.add_user_at(name, ts)),
        Command::FindUser { name } => Response::Found(state.find_user(&name)),
        Command::PeekQueue { count } => Response::Peeked(state.peek_queue(count)),
        Command::PopQueue { count } => Response::Popped(state.pop_queue(count)),
        Command::RemoveUser { name } => Response::Removed(state.remove_user(&name)),
        Command::ToggleQueue => Response::Open(state.toggle()),
        Command::GetQueueStatus => Response::Open(state.status()),
        Command::GetQueue => Response::Snapshot(state.snapshot()),
    }
}

/// Apply one command, stamping a fresh `AddUser` entry with the clock. This
/// is the body of the actor's processing loop; the loop around it only
/// receives commands and delivers replies.
pub fn handle_command(state: &mut QueueState, cmd: Command) -> (r: Response)
    requires
        old(state)@.wf(),
        cmd matches Command::AddUser { .. } ==> old(state)@.next_id < u64::MAX,
    ensures
        final(state)@.wf(),
        exists|ts: i64|
            {
                &&& final(state)@ == #[trigger] spec_step(old(state)@, cmd, ts).0
                &&& r@ == spec_step(old(state)@, cmd, ts).1
            },
{
    let ghost q0 = state@;
    match cmd {
        Command::AddUser { name } => {
            let ghost gname = name@;
            let idx = state.add_user(name);
            proof {
                let ts = choose|ts: i64| state@ == spec_add_state(q0, gname, ts);
                assert(state@ == spec_step(q0, cmd, ts).0);
            }
            Response::Added(idx)
        },
        _ => {
            let r = handle_command_at(state, cmd, 0);
            proof {
                assert(state@ == spec_step(q0, cmd, 0).0);
            }
            r
        },
    }
}

} // verus!
