//! The queue itself: ordered entries plus an open/closed flag, owned by a
//! single actor task and changed only through the operations below.

use vstd::prelude::*;

verus! {

/// One participant's waiting-list record. Created once when the participant
/// joins, immutable thereafter, destroyed on removal.
pub struct Entry {
    /// Identifier, unique over the actor's lifetime; never reused.
    pub id: u64,
    /// Display name; no two live entries share one.
    pub nickname: String,
    /// Join time, in milliseconds.
    pub joined_at_ms: i64,
}

/// The mathematical value of an [`Entry`].
pub ghost struct EntryModel {
    pub id: u64,
    pub nickname: Seq<char>,
    pub joined_at_ms: i64,
}

impl View for Entry {
    type V = EntryModel;

    open spec fn view(&self) -> EntryModel {
        EntryModel { id: self.id, nickname: self.nickname@, joined_at_ms: self.joined_at_ms }
    }
}

impl Clone for Entry {
    fn clone(&self) -> (r: Self)
        ensures
            r@ == self@,
    {
        Entry { id: self.id, nickname: self.nickname.clone(), joined_at_ms: self.joined_at_ms }
    }
}

/// The values of a sequence of entries.
pub open spec fn models_of(s: Seq<Entry>) -> Seq<EntryModel> {
    Seq::new(s.len(), |i: int| s[i]@)
}

/// The mathematical value of a [`QueueState`].
pub ghost struct QueueModel {
    /// Arrival order is wait order: index 0 is the front.
    pub entries: Seq<EntryModel>,
    pub is_open: bool,
    /// The identifier the next fresh entry will get.
    pub next_id: u64,
}

impl QueueModel {
    /// The display names, front to back.
    pub open spec fn names(self) -> Seq<Seq<char>> {
        self.entries.map_values(|e: EntryModel| e.nickname)
    }

    /// Well-formedness: names are pairwise distinct, and identifiers grow
    /// strictly from front to back and stay below the issuing counter (so an
    /// identifier is never reused, even after its entry is removed).
    pub open spec fn wf(self) -> bool {
        &&& forall|i: int, j: int|
            0 <= i < j < self.entries.len() ==> (#[trigger] self.entries[i]).nickname != (
            #[trigger] self.entries[j]).nickname
        &&& forall|i: int, j: int|
            0 <= i < j < self.entries.len() ==> (#[trigger] self.entries[i]).id < (
            #[trigger] self.entries[j]).id
        &&& forall|i: int|
            0 <= i < self.entries.len() ==> (#[trigger] self.entries[i]).id < self.next_id
    }
}

/// First index whose entry carries `name`, if any.
pub open spec fn spec_find(entries: Seq<EntryModel>, name: Seq<char>) -> Option<int>
    decreases entries.len(),
{
    if entries.len() == 0 {
        None
    } else if entries[0].nickname == name {
        Some(0int)
    } else {
        match spec_find(entries.drop_first(), name) {
            Some(i) => Some(i + 1),
            None => None,
        }
    }
}

/// `spec_find` returns the first match: a match at the returned index and
/// none before it, or no match at all.
pub proof fn lemma_spec_find_is_first_match(entries: Seq<EntryModel>, name: Seq<char>)
    ensures
        match spec_find(entries, name) {
            Some(i) => {
                &&& 0 <= i < entries.len()
                &&& entries[i].nickname == name
                &&& forall|j: int| 0 <= j < i ==> (#[trigger] entries[j]).nickname != name
            },
            None => forall|j: int|
                0 <= j < entries.len() ==> (#[trigger] entries[j]).nickname != name,
        },
    decreases entries.len(),
{
    if entries.len() != 0 && entries[0].nickname != name {
        let rest = entries.drop_first();
        lemma_spec_find_is_first_match(rest, name);
        match spec_find(rest, name) {
            Some(i) => {
                assert(entries[i + 1] == rest[i]);
                assert forall|j: int|
                    0 <= j < i + 1 implies (#[trigger] entries[j]).nickname != name by {
                    if j > 0 {
                        assert(rest[j - 1] == entries[j]);
                    }
                }
            },
            None => {
                assert forall|j: int|
                    0 <= j < entries.len() implies (#[trigger] entries[j]).nickname != name by {
                    if j > 0 {
                        assert(rest[j - 1] == entries[j]);
                    }
                }
            },
        }
    }
}

/// Conversely, the first match determines what `spec_find` returns.
pub proof fn lemma_spec_find_of_first_match(entries: Seq<EntryModel>, name: Seq<char>, i: int)
    requires
        0 <= i < entries.len(),
        entries[i].nickname == name,
        forall|j: int| 0 <= j < i ==> (#[trigger] entries[j]).nickname != name,
    ensures
        spec_find(entries, name) == Some(i),
    decreases i,
{
    if i > 0 {
        lemma_spec_find_of_first_match(entries.drop_first(), name, i - 1);
    }
}

/// State after adding `name`: unchanged when the name is already waiting,
/// else the fresh entry is appended and the identifier counter moves on.
pub open spec fn spec_add_state(q: QueueModel, name: Seq<char>, ts: i64) -> QueueModel {
    match spec_find(q.entries, name) {
        Some(_) => q,
        None => QueueModel {
            entries: q.entries.push(
                EntryModel { id: q.next_id, nickname: name, joined_at_ms: ts },
            ),
            is_open: q.is_open,
            next_id: (q.next_id + 1) as u64,
        },
    }
}

/// Index reported for `name` after adding it: the existing position on a
/// rejoin, else the end of the queue.
pub open spec fn spec_add_index(q: QueueModel, name: Seq<char>) -> int {
    match spec_find(q.entries, name) {
        Some(i) => i,
        None => q.entries.len() as int,
    }
}

/// The front `count` entries (all of them when fewer are waiting).
pub open spec fn spec_peek(q: QueueModel, count: int) -> Seq<EntryModel> {
    q.entries.take(if count <= q.entries.len() { count } else { q.entries.len() as int })
}

/// State after popping up to `count` entries from the front.
pub open spec fn spec_pop_state(q: QueueModel, count: int) -> QueueModel {
    if q.entries.len() == 0 {
        q
    } else {
        QueueModel {
            entries: q.entries.skip(
                if count <= q.entries.len() {
                    count
                } else {
                    q.entries.len() as int
                },
            ),
            is_open: q.is_open,
            next_id: q.next_id,
        }
    }
}

/// What popping reports: nothing popped on an empty queue — distinct from an
/// empty batch — else the removed front entries in their original order.
pub open spec fn spec_pop_result(q: QueueModel, count: int) -> Option<Seq<EntryModel>> {
    if q.entries.len() == 0 {
        None
    } else {
        Some(spec_peek(q, count))
    }
}

/// State after removing `name`: the first matching entry leaves, every other
/// entry stays put.
pub open spec fn spec_remove_state(q: QueueModel, name: Seq<char>) -> QueueModel {
    match spec_find(q.entries, name) {
        Some(i) => QueueModel {
            entries: q.entries.remove(i),
            is_open: q.is_open,
            next_id: q.next_id,
        },
        None => q,
    }
}

/// What removal reports: the removed entry, or nothing for an absent name.
pub open spec fn spec_remove_result(q: QueueModel, name: Seq<char>) -> Option<EntryModel> {
    match spec_find(q.entries, name) {
        Some(i) => Some(q.entries[i]),
        None => None,
    }
}

/// An independent copy of the waiting list as a caller may hold it: the
/// entries in order and the open/closed flag, detached from the live state.
pub struct QueueSnapshot {
    pub entries: Vec<Entry>,
    pub is_open: bool,
}

/// The waiting list. Exactly one instance exists for the actor's lifetime;
/// nothing outside the actor ever holds a reference into it.
pub struct QueueState {
    entries: std::collections::VecDeque<Entry>,
    is_open: bool,
    next_id: u64,
}

impl View for QueueState {
    type V = QueueModel;

    closed spec fn view(&self) -> QueueModel {
        QueueModel {
            entries: models_of(self.entries@),
            is_open: self.is_open,
            next_id: self.next_id,
        }
    }
}

/// Relies on `chrono::Local::now` for the wall-clock join time of a fresh
/// entry. The reading depends on the clock, so nothing is claimed of it.
#[verifier::external_body]
fn now_timestamp_ms() -> i64 {
    chrono::Local::now().timestamp_millis()
}

impl QueueState {
    /// The state the actor starts with: no entries, queue closed.
    pub fn new() -> (s: Self)
        ensures
            s@.entries == Seq::<EntryModel>::empty(),
            !s@.is_open,
            s@.next_id == 0,
            s@.wf(),
    {
        let s = QueueState {
            entries: std::collections::VecDeque::new(),
            is_open: false,
            next_id: 0,
        };
        proof {
            assert(s@.entries =~= Seq::<EntryModel>::empty());
        }
        s
    }

    /// How many participants are waiting.
    pub fn len(&self) -> (n: usize)
        ensures
            n == self@.entries.len(),
    {
        self.entries.len()
    }

    /// Whether the identifier counter is spent; adding requires it is not.
    pub fn at_id_capacity(&self) -> (b: bool)
        ensures
            b == (self@.next_id == u64::MAX),
    {
        self.next_id == u64::MAX
    }

    /// Read the open/closed flag.
    pub fn status(&self) -> (open: bool)
        ensures
            open == self@.is_open,
    {
        self.is_open
    }

    /// Flip the open/closed flag and report the value after the flip.
    /// Entries are untouched.
    pub fn toggle(&mut self) -> (open: bool)
        ensures
            open == final(self)@.is_open,
            final(self)@.is_open == !old(self)@.is_open,
            final(self)@.entries == old(self)@.entries,
            final(self)@.next_id == old(self)@.next_id,
    {
        self.is_open = !self.is_open;
        self.is_open
    }

    /// First position holding `name`, if any. Read-only.
    pub fn find_user(&self, name: &String) -> (r: Option<usize>)
        ensures
            match r {
                Some(i) => spec_find(self@.entries, name@) == Some(i as int),
                None => spec_find(self@.entries, name@) is None,
            },
    {
        let n = self.entries.len();
        for i in 0..n
            invariant
                n == self.entries@.len(),
                forall|j: int| 0 <= j < i ==> (#[trigger] self@.entries[j]).nickname != name@,
        {
            if self.entries[i].nickname == *name {
                proof {
                    lemma_spec_find_of_first_match(self@.entries, name@, i as int);
                }
                return Some(i);
            }
        }
        proof {
            lemma_spec_find_is_first_match(self@.entries, name@);
        }
        None
    }

    /// Add `name` with the given join time: a rejoin returns the existing
    /// position and changes nothing; a fresh name is appended, with a fresh
    /// identifier, and its new position — the end — is returned.
    pub fn add_user_at(&mut self, name: String, ts: i64) -> (idx: usize)
        requires
            old(self)@.wf(),
            old(self)@.next_id < u64::MAX,
        ensures
            final(self)@.wf(),
            final(self)@ == spec_add_state(old(self)@, name@, ts),
            idx as int == spec_add_index(old(self)@, name@),
    {
        let ghost q0 = self@;
        match self.find_user(&name) {
            Some(i) => i,
            None => {
                let id = self.next_id;
                self.next_id = id + 1;
                self.entries.push_back(Entry { id, nickname: name, joined_at_ms: ts });
                proof {
                    let added = spec_add_state(q0, name@, ts);
                    assert(self@.entries =~= added.entries);
                    lemma_spec_find_is_first_match(q0.entries, name@);
                    assert forall|i: int, j: int|
                        0 <= i < j < self@.entries.len() implies (#[trigger] self@.entries[i]).id
                        < (#[trigger] self@.entries[j]).id by {
                        if j < q0.entries.len() {
                        } else {
                            assert(q0.entries[i].id < q0.next_id);
                        }
                    }
                }
                self.entries.len() - 1
            },
        }
    }

    /// Add `name`, joining now: as [`Self::add_user_at`], with the join time
    /// read from the clock.
    pub fn add_user(&mut self, name: String) -> (idx: usize)
        requires
            old(self)@.wf(),
            old(self)@.next_id < u64::MAX,
        ensures
            final(self)@.wf(),
            exists|ts: i64| final(self)@ == spec_add_state(old(self)@, name@, ts),
            idx as int == spec_add_index(old(self)@, name@),
    {
        let ts = now_timestamp_ms();
        self.add_user_at(name, ts)
    }

    /// Copies of the first `count` entries (all when fewer wait). Read-only:
    /// the queue is untouched.
    pub fn peek_queue(&self, count: usize) -> (r: Vec<Entry>)
        ensures
            models_of(r@) == spec_peek(self@, count as int),
            r@.len() == spec_peek(self@, count as int).len(),
            forall|i: int| 0 <= i < r@.len() ==> (#[trigger] r@[i])@ == self@.entries[i],
    {
        let n = self.entries.len();
        let k = if count <= n {
            count
        } else {
            n
        };
        let mut r: Vec<Entry> = Vec::new();
        for j in 0..k
            invariant
                k <= n == self.entries@.len(),
                r@.len() == j,
                models_of(r@) == self@.entries.take(j as int),
        {
            let ghost prev = r@;
            let e = self.entries[j].clone();
            r.push(e);
            proof {
                assert forall|i: int|
                    0 <= i < j + 1 implies models_of(r@)[i] == #[trigger] self@.entries.take(
                    j + 1,
                )[i] by {
                    if i < j {
                        assert(models_of(prev)[i] == self@.entries.take(j as int)[i]);
                        assert(r@[i] == prev[i]);
                    } else {
                        assert(r@[i] == e);
                    }
                }
                assert(models_of(r@) =~= self@.entries.take(j + 1));
            }
        }
        proof {
            assert(models_of(r@) =~= spec_peek(self@, count as int));
            assert forall|i: int| 0 <= i < r@.len() implies (#[trigger] r@[i])@
                == self@.entries[i] by {
                assert(models_of(r@)[i] == self@.entries.take(k as int)[i]);
            }
        }
        r
    }

    /// Pop up to `count` entries off the front, in their waiting order. An
    /// empty queue reports nothing popped — not an empty batch. Survivors
    /// keep their order.
    pub fn pop_queue(&mut self, count: usize) -> (r: Option<Vec<Entry>>)
        requires
            old(self)@.wf(),
        ensures
            final(self)@.wf(),
            final(self)@ == spec_pop_state(old(self)@, count as int),
            match r {
                Some(v) => {
                    &&& spec_pop_result(old(self)@, count as int) == Some(models_of(v@))
                    &&& old(self)@.entries.len() > 0
                    &&& v@.len() == spec_peek(old(self)@, count as int).len()
                    &&& forall|i: int|
                        0 <= i < v@.len() ==> (#[trigger] v@[i])@ == old(self)@.entries[i]
                },
                None => spec_pop_result(old(self)@, count as int) is None,
            },
    {
        let ghost q0 = self@;
        let n = self.entries.len();
        if n == 0 {
            proof {
                assert(self@ =~= spec_pop_state(q0, count as int));
            }
            return None;
        }
        let k = if count <= n {
            count
        } else {
            n
        };
        let mut v: Vec<Entry> = Vec::new();
        for j in 0..k
            invariant
                k <= n == q0.entries.len(),
                self.entries@.len() == n - j,
                v@.len() == j,
                self@.entries == q0.entries.skip(j as int),
                models_of(v@) == q0.entries.take(j as int),
                self@.is_open == q0.is_open,
                self@.next_id == q0.next_id,
        {
            let ghost prevq = self@.entries;
            let ghost prevv = v@;
            match self.entries.pop_front() {
                Some(e) => {
                    v.push(e);
                    proof {
                        assert forall|i: int|
                            0 <= i < self@.entries.len() implies self@.entries[i]
                            == #[trigger] q0.entries.skip(j + 1)[i] by {
                            assert(self@.entries[i] == prevq[i + 1]);
                            assert(prevq[i + 1] == q0.entries.skip(j as int)[i + 1]);
                        }
                        assert(self@.entries =~= q0.entries.skip(j + 1));
                        assert(e@ == prevq[0]);
                        assert forall|i: int|
                            0 <= i < j + 1 implies models_of(v@)[i] == #[trigger] q0.entries.take(
                            j + 1,
                        )[i] by {
                            if i < j {
                                assert(models_of(prevv)[i] == q0.entries.take(j as int)[i]);
                                assert(v@[i] == prevv[i]);
                            } else {
                                assert(v@[i] == e);
                                assert(prevq[0] == q0.entries.skip(j as int)[0]);
                            }
                        }
                        assert(models_of(v@) =~= q0.entries.take(j + 1));
                    }
                },
                None => {
                    proof {
                        assert(false);
                    }
                },
            }
        }
        proof {
            assert(self@ =~= spec_pop_state(q0, count as int));
            assert(models_of(v@) =~= spec_peek(q0, count as int));
            assert forall|i: int| 0 <= i < v@.len() implies (#[trigger] v@[i])@
                == q0.entries[i] by {
                assert(models_of(v@)[i] == q0.entries.take(k as int)[i]);
            }
        }
        Some(v)
    }

    /// Remove the first entry named `name` and return it; an absent name is
    /// a no-op reported as not found. No other entry moves relative to the
    /// rest.
    pub fn remove_user(&mut self, name: &String) -> (r: Option<Entry>)
        requires
            old(self)@.wf(),
        ensures
            final(self)@.wf(),
            final(self)@ == spec_remove_state(old(self)@, name@),
            match r {
                Some(e) => spec_remove_result(old(self)@, name@) == Some(e@),
                None => spec_remove_result(old(self)@, name@) is None,
            },
    {
        let ghost q0 = self@;
        match self.find_user(name) {
            None => None,
            Some(i) => {
                proof {
                    lemma_spec_find_is_first_match(q0.entries, name@);
                }
                match self.entries.remove(i) {
                    Some(e) => {
                        proof {
                            assert(self@.entries =~= q0.entries.remove(i as int));
                        }
                        Some(e)
                    },
                    None => {
                        proof {
                            assert(false);
                        }
                        None
                    },
                }
            },
        }
    }

    /// An independent snapshot of the whole state: entry copies in order and
    /// the open/closed flag. Read-only.
    pub fn snapshot(&self) -> (s: QueueSnapshot)
        ensures
            models_of(s.entries@) == self@.entries,
            s.entries@.len() == self@.entries.len(),
            forall|i: int|
                0 <= i < s.entries@.len() ==> (#[trigger] s.entries@[i])@ == self@.entries[i],
            s.is_open == self@.is_open,
    {
        let n = self.entries.len();
        let mut v: Vec<Entry> = Vec::new();
        for j in 0..n
            invariant
                n == self.entries@.len(),
                v@.len() == j,
                models_of(v@) == self@.entries.take(j as int),
        {
            let ghost prev = v@;
            let e = self.entries[j].clone();
            v.push(e);
            proof {
                assert forall|i: int|
                    0 <= i < j + 1 implies models_of(v@)[i] == #[trigger] self@.entries.take(
                    j + 1,
                )[i] by {
                    if i < j {
                        assert(models_of(prev)[i] == self@.entries.take(j as int)[i]);
                        assert(v@[i] == prev[i]);
                    } else {
                        assert(v@[i] == e);
                    }
                }
                assert(models_of(v@) =~= self@.entries.take(j + 1));
            }
        }
        proof {
            assert(self@.entries.take(n as int) =~= self@.entries);
            assert forall|i: int| 0 <= i < v@.len() implies (#[trigger] v@[i])@
                == self@.entries[i] by {
                assert(models_of(v@)[i] == self@.entries[i]);
            }
        }
        QueueSnapshot { entries: v, is_open: self.is_open }
    }
}

} // verus!
