use vstd::prelude::*;
use crate::turn::{str_equals, turn_views, duplicate_all, ChatMessage, TurnView};

verus! {

/// `s` lists its turns in non-decreasing timestamp order.
pub open spec fn sorted_by_time(s: Seq<TurnView>) -> bool {
    forall|i: int, j: int| 0 <= i <= j < s.len() ==> s[i].timestamp <= s[j].timestamp
}

/// `t` placed after every turn of `s` whose timestamp is at most its own and
/// before the later ones, so that equal timestamps keep their insertion order.
pub open spec fn insert_by_time(s: Seq<TurnView>, t: TurnView) -> Seq<TurnView>
    decreases s.len(),
{
    if s.len() == 0 {
        seq![t]
    } else if s.last().timestamp <= t.timestamp {
        s.push(t)
    } else {
        insert_by_time(s.drop_last(), t).push(s.last())
    }
}

/// The position at which `insert_by_time` places a turn stamped `ts`.
pub open spec fn insertion_point(s: Seq<TurnView>, ts: i64) -> int
    decreases s.len(),
{
    if s.len() == 0 {
        0
    } else if s.last().timestamp <= ts {
        s.len() as int
    } else {
        insertion_point(s.drop_last(), ts)
    }
}

/// The last `n` turns of `s`, or all of them when there are fewer.
pub open spec fn last_n(s: Seq<TurnView>, n: nat) -> Seq<TurnView> {
    if s.len() <= n {
        s
    } else {
        s.skip(s.len() - n)
    }
}

/// Where `insert_by_time` places the new turn, and what surrounds it.
pub proof fn lemma_insertion_point(s: Seq<TurnView>, t: TurnView)
    ensures
        0 <= insertion_point(s, t.timestamp) <= s.len(),
        insertion_point(s, t.timestamp) > 0 ==> s[insertion_point(s, t.timestamp) - 1].timestamp
            <= t.timestamp,
        forall|j: int|
            insertion_point(s, t.timestamp) <= j < s.len() ==> s[j].timestamp > t.timestamp,
        insert_by_time(s, t) == s.take(insertion_point(s, t.timestamp)) + seq![t] + s.skip(
            insertion_point(s, t.timestamp),
        ),
    decreases s.len(),
{
    let p = insertion_point(s, t.timestamp);
    if s.len() == 0 {
        assert(s.take(0) + seq![t] + s.skip(0) =~= seq![t]);
    } else if s.last().timestamp <= t.timestamp {
        assert(s.take(p) + seq![t] + s.skip(p) =~= s.push(t));
    } else {
        let d = s.drop_last();
        lemma_insertion_point(d, t);
        assert forall|j: int| p <= j < s.len() implies s[j].timestamp > t.timestamp by {
            if j < d.len() {
                assert(s[j] == d[j]);
            }
        }
        assert(d.take(p) + seq![t] + d.skip(p) + seq![s.last()] =~= s.take(p) + seq![t] + s.skip(
            p,
        ));
    }
}

/// A position with the properties of `insertion_point` is that point.
proof fn lemma_insertion_point_unique(s: Seq<TurnView>, t: TurnView, q: int)
    requires
        0 <= q <= s.len(),
        q > 0 ==> s[q - 1].timestamp <= t.timestamp,
        forall|j: int| q <= j < s.len() ==> s[j].timestamp > t.timestamp,
    ensures
        q == insertion_point(s, t.timestamp),
{
    lemma_insertion_point(s, t);
    let p = insertion_point(s, t.timestamp);
    if q < p {
        assert(s[p - 1].timestamp > t.timestamp);
    } else if p < q {
        assert(s[q - 1].timestamp > t.timestamp);
    }
}

/// Inserting by time keeps a sorted sequence sorted, and adds exactly one turn.
pub proof fn lemma_insert_keeps_sorted(s: Seq<TurnView>, t: TurnView)
    requires
        sorted_by_time(s),
    ensures
        sorted_by_time(insert_by_time(s, t)),
        insert_by_time(s, t).len() == s.len() + 1,
{
    lemma_insertion_point(s, t);
    let p = insertion_point(s, t.timestamp);
    let r = insert_by_time(s, t);
    assert forall|i: int, j: int| 0 <= i <= j < r.len() implies r[i].timestamp
        <= r[j].timestamp by {
        if i < p && j > p {
            assert(s[i].timestamp <= s[p - 1].timestamp);
        } else if i < p && j == p {
            assert(s[i].timestamp <= s[p - 1].timestamp);
        } else if i > p {
            assert(r[i] == s[i - 1] && r[j] == s[j - 1]);
        }
    }
}

/// The turns of one session, in timestamp order.
pub struct SessionLog {
    session_id: String,
    turns: Vec<ChatMessage>,
}

/// The per-session transcript of every session seen so far.
pub struct TranscriptStore {
    logs: Vec<SessionLog>,
}

impl TranscriptStore {
    /// Each session has one log, each log is in timestamp order, and each of
    /// its turns carries its session's identifier.
    pub closed spec fn wf(&self) -> bool {
        &&& forall|i: int, j: int|
            0 <= i < j < self.logs.len() ==> self.logs[i].session_id@ != self.logs[j].session_id@
        &&& forall|i: int| 0 <= i < self.logs.len() ==> Self::log_wf(#[trigger] self.logs[i])
    }

    spec fn log_wf(log: SessionLog) -> bool {
        &&& sorted_by_time(turn_views(log.turns@))
        &&& forall|k: int|
            0 <= k < log.turns@.len() ==> (#[trigger] log.turns@[k]).session_id@ == log.session_id@
    }

    /// The turns stored for session `sid`, in timestamp order; empty for a
    /// session never written.
    pub closed spec fn turns_of(&self, sid: Seq<char>) -> Seq<TurnView> {
        if exists|i: int| 0 <= i < self.logs.len() && self.logs[i].session_id@ == sid {
            let i = choose|i: int| 0 <= i < self.logs.len() && self.logs[i].session_id@ == sid;
            turn_views(self.logs[i].turns@)
        } else {
            Seq::empty()
        }
    }

    proof fn lemma_turns_at(&self, i: int)
        requires
            self.wf(),
            0 <= i < self.logs.len(),
        ensures
            self.turns_of(self.logs[i].session_id@) == turn_views(self.logs[i].turns@),
    {
        let sid = self.logs[i].session_id@;
        let j = choose|j: int| 0 <= j < self.logs.len() && self.logs[j].session_id@ == sid;
        assert(j == i);
    }

    /// A store that holds no turn.
    pub fn new() -> (r: TranscriptStore)
        ensures
            r.wf(),
            forall|sid: Seq<char>| #[trigger] r.turns_of(sid) == Seq::<TurnView>::empty(),
    {
        TranscriptStore { logs: Vec::new() }
    }

    /// The index of the log of session `sid`, if there is one.
    fn find(&self, sid: &str) -> (r: Option<usize>)
        requires
            self.wf(),
        ensures
            match r {
                Some(i) => i < self.logs.len() && self.logs[i as int].session_id@ == sid@,
                None => forall|i: int|
                    0 <= i < self.logs.len() ==> self.logs[i].session_id@ != sid@,
            },
    {
        let mut i: usize = 0;
        while i < self.logs.len()
            invariant
                i <= self.logs.len(),
                forall|j: int| 0 <= j < i ==> self.logs[j].session_id@ != sid@,
            decreases self.logs.len() - i,
        {
            if str_equals(self.logs[i].session_id.as_str(), sid) {
                return Some(i);
            }
            i = i + 1;
        }
        None
    }
}

/// Places `message` in a sorted log after every turn stamped no later.
fn insert_sorted(turns: &mut Vec<ChatMessage>, message: ChatMessage)
    requires
        sorted_by_time(turn_views(old(turns)@)),
    ensures
        turn_views(final(turns)@) == insert_by_time(turn_views(old(turns)@), message@),
        sorted_by_time(turn_views(final(turns)@)),
        forall|k: int|
            0 <= k < final(turns)@.len() ==> (#[trigger] final(turns)@[k]) == message
                || old(turns)@.contains(final(turns)@[k]),
{
    let ghost s = turn_views(turns@);
    let mut p: usize = turns.len();
    while p > 0 && turns[p - 1].timestamp > message.timestamp
        invariant
            p <= turns@.len(),
            turns@ == old(turns)@,
            s == turn_views(turns@),
            forall|j: int| p <= j < turns@.len() ==> turns@[j].timestamp > message.timestamp,
        decreases p,
    {
        p = p - 1;
    }
    proof {
        lemma_insertion_point_unique(s, message@, p as int);
        lemma_insertion_point(s, message@);
        lemma_insert_keeps_sorted(s, message@);
    }
    let ghost before = turns@;
    turns.insert(p, message);
    proof {
        assert(turn_views(turns@) =~= s.take(p as int) + seq![message@] + s.skip(p as int));
        assert forall|k: int| 0 <= k < turns@.len() implies (#[trigger] turns@[k]) == message
            || before.contains(turns@[k]) by {
            if k < p {
                assert(turns@[k] == before[k]);
            } else if k > p {
                assert(turns@[k] == before[k - 1]);
            }
        }
    }
}

/// Appends `message` to the transcript of its session; a session seen for the
/// first time gets a transcript of its own. No other session changes.
pub fn save_message(store: &mut TranscriptStore, message: ChatMessage)
    requires
        old(store).wf(),
    ensures
        final(store).wf(),
        final(store).turns_of(message.session_id@) == insert_by_time(
            old(store).turns_of(message.session_id@),
            message@,
        ),
        forall|sid: Seq<char>|
            sid != message.session_id@ ==> #[trigger] final(store).turns_of(sid) == old(
                store,
            ).turns_of(sid),
{
    let ghost sid = message.session_id@;
    match store.find(message.session_id.as_str()) {
        Some(i) => {
            proof {
                store.lemma_turns_at(i as int);
            }
            let ghost old_logs = store.logs@;
            let mut log = store.logs.remove(i);
            insert_sorted(&mut log.turns, message);
            store.logs.insert(i, log);
            assert(store.logs@ =~= old_logs.update(i as int, store.logs@[i as int]));
            proof {
                assert forall|k: int| 0 <= k < store.logs@[i as int].turns@.len() implies (
                #[trigger] store.logs@[i as int].turns@[k]).session_id@
                    == store.logs@[i as int].session_id@ by {
                    let m = store.logs@[i as int].turns@[k];
                    if m != message {
                        let kk = choose|kk: int|
                            0 <= kk < old_logs[i as int].turns@.len()
                                && old_logs[i as int].turns@[kk] == m;
                        assert(TranscriptStore::log_wf(old_logs[i as int]));
                    }
                }
                assert(TranscriptStore::log_wf(store.logs@[i as int]));
                store.lemma_turns_at(i as int);
                assert forall|other: Seq<char>| other != sid implies #[trigger] store.turns_of(
                    other,
                ) == old(store).turns_of(other) by {
                    if exists|j: int| 0 <= j < old_logs.len() && old_logs[j].session_id@ == other {
                        let j = choose|j: int|
                            0 <= j < old_logs.len() && old_logs[j].session_id@ == other;
                        old(store).lemma_turns_at(j);
                        store.lemma_turns_at(j);
                    } else {
                        assert(!exists|j: int|
                            0 <= j < store.logs.len() && store.logs[j].session_id@ == other);
                    }
                }
            }
        },
        None => {
            let ghost old_logs = store.logs@;
            let sid_copy = message.session_id.clone();
            let mut turns: Vec<ChatMessage> = Vec::new();
            turns.push(message);
            assert(turn_views(turns@) =~= seq![message@]);
            assert(old(store).turns_of(sid) == Seq::<TurnView>::empty());
            store.logs.push(SessionLog { session_id: sid_copy, turns });
            proof {
                assert(TranscriptStore::log_wf(store.logs@.last()));
                store.lemma_turns_at(old_logs.len() as int);
                assert forall|other: Seq<char>| other != sid implies #[trigger] store.turns_of(
                    other,
                ) == old(store).turns_of(other) by {
                    if exists|j: int| 0 <= j < old_logs.len() && old_logs[j].session_id@ == other {
                        let j = choose|j: int|
                            0 <= j < old_logs.len() && old_logs[j].session_id@ == other;
                        old(store).lemma_turns_at(j);
                        store.lemma_turns_at(j);
                    } else {
                        assert(!exists|j: int|
                            0 <= j < store.logs.len() && store.logs[j].session_id@ == other);
                    }
                }
            }
        },
    }
}

/// All turns of session `session_id`, oldest first; empty for an unknown session.
pub fn load_full_messages(store: &TranscriptStore, session_id: &str) -> (r: Vec<ChatMessage>)
    requires
        store.wf(),
    ensures
        turn_views(r@) == store.turns_of(session_id@),
        sorted_by_time(turn_views(r@)),
{
    match store.find(session_id) {
        Some(i) => {
            proof {
                store.lemma_turns_at(i as int);
                assert(TranscriptStore::log_wf(store.logs@[i as int]));
            }
            duplicate_all(&store.logs[i].turns)
        },
        None => {
            let r: Vec<ChatMessage> = Vec::new();
            assert(turn_views(r@) =~= Seq::<TurnView>::empty());
            r
        },
    }
}

/// The most recent `limit` turns of session `session_id`, oldest first; fewer
/// when the session has fewer, and none for an unknown session.
pub fn load_last_messages(store: &TranscriptStore, session_id: &str, limit: usize) -> (r: Vec<
    ChatMessage,
>)
    requires
        store.wf(),
    ensures
        turn_views(r@) == last_n(store.turns_of(session_id@), limit as nat),
        sorted_by_time(turn_views(r@)),
{
    let all = load_full_messages(store, session_id);
    let n = all.len();
    let start: usize = if n > limit { n - limit } else { 0 };
    let mut r: Vec<ChatMessage> = Vec::new();
    let mut i: usize = start;
    while i < n
        invariant
            start <= i <= n,
            n == all@.len(),
            r@.len() == i - start,
            forall|j: int| 0 <= j < r@.len() ==> #[trigger] r@[j]@ == all@[start + j]@,
        decreases n - i,
    {
        r.push(all[i].duplicate());
        i = i + 1;
    }
    proof {
        let s = turn_views(all@);
        assert(turn_views(r@) =~= last_n(s, limit as nat));
    }
    r
}

/// The number of turns stored for session `session_id`.
pub fn session_len(store: &TranscriptStore, session_id: &str) -> (r: usize)
    requires
        store.wf(),
    ensures
        r == store.turns_of(session_id@).len(),
{
    match store.find(session_id) {
        Some(i) => {
            proof {
                store.lemma_turns_at(i as int);
            }
            store.logs[i].turns.len()
        },
        None => 0,
    }
}

/// Whichever appends built it, a store lists the turns of every session in
/// non-decreasing timestamp order.
pub proof fn lemma_transcript_sorted(store: &TranscriptStore, sid: Seq<char>)
    requires
        store.wf(),
    ensures
        sorted_by_time(store.turns_of(sid)),
{
    if exists|i: int| 0 <= i < store.logs.len() && store.logs[i].session_id@ == sid {
        let i = choose|i: int| 0 <= i < store.logs.len() && store.logs[i].session_id@ == sid;
        assert(TranscriptStore::log_wf(store.logs[i]));
    }
}

/// A turn appended to a session is read back from it with the same session,
/// role, content and timestamp; the session grows by exactly that turn, no
/// earlier turn is lost, and a turn stamped no earlier than every stored one
/// is read back last.
pub proof fn lemma_append_round_trip(before: Seq<TurnView>, after: Seq<TurnView>, t: TurnView)
    requires
        after == insert_by_time(before, t),
    ensures
        after.contains(t),
        after.len() == before.len() + 1,
        forall|j: int| 0 <= j < before.len() ==> after.contains(#[trigger] before[j]),
        (forall|j: int| 0 <= j < before.len() ==> #[trigger] before[j].timestamp <= t.timestamp)
            ==> after.last() == t,
{
    lemma_insertion_point(before, t);
    let p = insertion_point(before, t.timestamp);
    assert(after[p] == t);
    assert forall|j: int| 0 <= j < before.len() implies after.contains(#[trigger] before[j]) by {
        if j < p {
            assert(after[j] == before[j]);
        } else {
            assert(after[j + 1] == before[j]);
        }
    }
    if forall|j: int| 0 <= j < before.len() ==> #[trigger] before[j].timestamp <= t.timestamp {
        if p < before.len() {
            assert(before[p].timestamp > t.timestamp);
        }
    }
}

/// A session's transcript after appending `writes` in that order to `start`.
pub open spec fn append_all(start: Seq<TurnView>, writes: Seq<TurnView>) -> Seq<TurnView>
    decreases writes.len(),
{
    if writes.len() == 0 {
        start
    } else {
        insert_by_time(append_all(start, writes.drop_last()), writes.last())
    }
}

/// Whatever the order of the writes, a session that starts empty lists its
/// turns in non-decreasing timestamp order, and holds one turn per write.
pub proof fn lemma_appends_sorted(writes: Seq<TurnView>)
    ensures
        sorted_by_time(append_all(Seq::empty(), writes)),
        append_all(Seq::empty(), writes).len() == writes.len(),
    decreases writes.len(),
{
    if writes.len() > 0 {
        lemma_appends_sorted(writes.drop_last());
        lemma_insert_keeps_sorted(append_all(Seq::empty(), writes.drop_last()), writes.last());
    }
}

} // verus!
