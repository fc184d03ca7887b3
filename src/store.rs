use vstd::prelude::*;
use crate::error::{ErrorKind, Flow, PipelineError};
use crate::turn::{models, Turn, TurnModel};

verus! {

/// Turns in ascending timestamp order (ties only between different users).
pub open spec fn sorted_by_time(s: Seq<TurnModel>) -> bool {
    forall|i: int, j: int| 0 <= i < j < s.len() ==> s[i].timestamp <= s[j].timestamp
}

/// No two turns of one user share a timestamp.
pub open spec fn keys_unique(s: Seq<TurnModel>) -> bool {
    forall|i: int, j: int|
        0 <= i < s.len() && 0 <= j < s.len() && i != j && s[i].user_id == s[j].user_id
            ==> s[i].timestamp != s[j].timestamp
}

pub open spec fn log_wf(s: Seq<TurnModel>) -> bool {
    sorted_by_time(s) && keys_unique(s)
}

/// Whether a turn of `user_id` at `timestamp` is already stored.
pub open spec fn has_key(s: Seq<TurnModel>, user_id: Seq<char>, timestamp: u64) -> bool {
    exists|i: int| 0 <= i < s.len() && s[i].user_id == user_id && s[i].timestamp == timestamp
}

pub open spec fn of_user(user_id: Seq<char>) -> spec_fn(TurnModel) -> bool {
    |t: TurnModel| t.user_id == user_id
}

/// The history of a user: that user's turns, in the order of the log.
pub open spec fn history_of(s: Seq<TurnModel>, user_id: Seq<char>) -> Seq<TurnModel> {
    s.filter(of_user(user_id))
}

pub open spec fn strictly_ascending(h: Seq<TurnModel>) -> bool {
    forall|i: int, j: int| 0 <= i < j < h.len() ==> h[i].timestamp < h[j].timestamp
}

pub open spec fn default_table_name() -> Seq<char> {
    seq!['C', 'h', 'a', 't', 'T', 'a', 'b', 'l', 'e']
}

/// The table that turns are appended to: the configured one, or the default
/// table where none is configured.
pub fn append_table_name(configured: Option<String>) -> (r: String)
    ensures
        r@ == match configured {
            Some(t) => t@,
            None => default_table_name(),
        },
{
    match configured {
        Some(t) => t,
        None => {
            proof { reveal_strlit("ChatTable"); }
            String::from_str("ChatTable")
        },
    }
}

/// `after` is `before` with `t` inserted at some position.
pub open spec fn inserted(before: Seq<TurnModel>, after: Seq<TurnModel>, t: TurnModel) -> bool {
    exists|p: int| 0 <= p <= before.len() && after == #[trigger] before.insert(p, t)
}

/// `ts` is later than every turn of `user_id`.
pub open spec fn later_than_all(s: Seq<TurnModel>, user_id: Seq<char>, ts: u64) -> bool {
    forall|i: int| 0 <= i < s.len() && #[trigger] s[i].user_id == user_id ==> s[i].timestamp < ts
}

/// An append-only store of turns, partitioned by user and ordered by time.
/// Appending a turn whose (user, timestamp) key is taken is refused, and no
/// turn is ever changed or removed.
pub struct ConversationLog {
    turns: Vec<Turn>,
}

impl View for ConversationLog {
    type V = Seq<TurnModel>;

    closed spec fn view(&self) -> Seq<TurnModel> {
        models(self.turns@)
    }
}

impl ConversationLog {
    pub open spec fn wf(&self) -> bool {
        log_wf(self@)
    }

    pub fn new() -> (r: ConversationLog)
        ensures
            r.wf(),
            r@ == Seq::<TurnModel>::empty(),
    {
        let r = ConversationLog { turns: Vec::new() };
        assert(r@ =~= Seq::<TurnModel>::empty());
        r
    }

    pub fn len(&self) -> (r: usize)
        ensures
            r == self@.len(),
    {
        self.turns.len()
    }

    /// Whether a turn of `user_id` at `timestamp` is stored.
    pub fn contains_key(&self, user_id: &String, timestamp: u64) -> (r: bool)
        ensures
            r == has_key(self@, user_id@, timestamp),
    {
        let mut i: usize = 0;
        while i < self.turns.len()
            invariant
                i <= self@.len(),
                self@.len() == self.turns@.len(),
                forall|k: int|
                    0 <= k < i ==> !(#[trigger] self@[k].user_id == user_id@ && self@[k].timestamp
                        == timestamp),
            decreases self.turns@.len() - i,
        {
            assert(self@[i as int] == self.turns@[i as int]@);
            if self.turns[i].user_id == *user_id && self.turns[i].timestamp == timestamp {
                return true;
            }
            i = i + 1;
        }
        false
    }

    /// The latest timestamp among the turns of a user, `None` for a user with
    /// no turn.
    pub fn latest_timestamp(&self, user_id: &String) -> (r: Option<u64>)
        ensures
            r.is_none() <==> forall|i: int| 0 <= i < self@.len() ==> #[trigger] self@[i].user_id
                != user_id@,
            r.is_some() ==> has_key(self@, user_id@, r.unwrap()) && forall|i: int|
                0 <= i < self@.len() && #[trigger] self@[i].user_id == user_id@ ==> self@[i].timestamp
                    <= r.unwrap(),
    {
        let mut latest: Option<u64> = None;
        let ghost mut w: int = 0;
        let mut i: usize = 0;
        while i < self.turns.len()
            invariant
                i <= self@.len(),
                self@.len() == self.turns@.len(),
                latest.is_none() <==> forall|k: int| 0 <= k < i ==> #[trigger] self@[k].user_id
                    != user_id@,
                latest.is_some() ==> 0 <= w < i && self@[w].user_id == user_id@
                    && self@[w].timestamp == latest.unwrap() && forall|k: int|
                    0 <= k < i && #[trigger] self@[k].user_id == user_id@ ==> self@[k].timestamp
                        <= latest.unwrap(),
            decreases self.turns@.len() - i,
        {
            assert(self@[i as int] == self.turns@[i as int]@);
            if self.turns[i].user_id == *user_id {
                let ts = self.turns[i].timestamp;
                latest = match latest {
                    Some(l) => if ts > l {
                        proof { w = i as int; }
                        Some(ts)
                    } else {
                        Some(l)
                    },
                    None => {
                        proof { w = i as int; }
                        Some(ts)
                    },
                };
            }
            proof {
                if latest.is_some() {
                    assert(self@[w].user_id == user_id@);
                }
            }
            i = i + 1;
        }
        proof {
            if latest.is_some() {
                assert(self@[w].user_id == user_id@ && self@[w].timestamp == latest.unwrap());
            }
        }
        latest
    }

    /// A timestamp for a new turn of a user: `now` where the clock has moved
    /// past the user's latest turn, else one microsecond after it. `None` only
    /// where the user already has a turn at the largest timestamp.
    pub fn next_timestamp(&self, user_id: &String, now: u64) -> (r: Option<u64>)
        ensures
            r.is_none() <==> has_key(self@, user_id@, u64::MAX),
            r.is_some() ==> r.unwrap() >= now && later_than_all(self@, user_id@, r.unwrap()),
            r.is_some() ==> !has_key(self@, user_id@, r.unwrap()),
    {
        let latest = self.latest_timestamp(user_id);
        crate::ingest::fresh_timestamp(now, latest)
    }

    /// Stores a turn. Fails with a storage-write error, leaving the log as it
    /// was, when a turn with the same user and timestamp is already stored.
    pub fn append(&mut self, turn: Turn) -> (r: Result<(), PipelineError>)
        requires
            old(self).wf(),
        ensures
            final(self).wf(),
            r.is_ok() <==> !has_key(old(self)@, turn@.user_id, turn@.timestamp),
            r.is_ok() ==> inserted(old(self)@, final(self)@, turn@),
            r.is_err() ==> final(self)@ == old(self)@ && r.unwrap_err().kind
                == ErrorKind::StorageWrite && r.unwrap_err().flow == Flow::Ingest,
    {
        if self.contains_key(&turn.user_id, turn.timestamp) {
            proof { reveal_strlit("turn key already stored"); }
            return Err(
                PipelineError::new(
                    Flow::Ingest,
                    ErrorKind::StorageWrite,
                    String::from_str("turn key already stored"),
                ),
            );
        }
        let ghost s = self@;
        let mut p: usize = 0;
        while p < self.turns.len() && self.turns[p].timestamp <= turn.timestamp
            invariant
                p <= s.len(),
                self@ == s,
                self@.len() == self.turns@.len(),
                forall|k: int| 0 <= k < p ==> #[trigger] s[k].timestamp <= turn.timestamp,
            decreases s.len() - p,
        {
            p = p + 1;
        }
        self.turns.insert(p, turn);
        proof {
            let t = self@[p as int];
            assert(self@ =~= s.insert(p as int, t));
            assert forall|i: int, j: int| 0 <= i < j < self@.len() implies self@[i].timestamp
                <= self@[j].timestamp by {
                if i < p && j > p {
                    assert(s[i].timestamp <= s[j - 1].timestamp);
                }
            }
            assert forall|i: int, j: int|
                0 <= i < self@.len() && 0 <= j < self@.len() && i != j && self@[i].user_id
                    == self@[j].user_id implies self@[i].timestamp != self@[j].timestamp by {
                if i == p {
                    let jj = if j < p { j } else { j - 1 };
                    assert(s[jj].user_id == t.user_id);
                } else if j == p {
                    let ii = if i < p { i } else { i - 1 };
                    assert(s[ii].user_id == t.user_id);
                } else {
                    let ii = if i < p { i } else { i - 1 };
                    let jj = if j < p { j } else { j - 1 };
                    assert(s[ii] == self@[i] && s[jj] == self@[j]);
                }
            }
        }
        Ok(())
    }

    /// The turns of one user, in strictly ascending timestamp order.
    pub fn history(&self, user_id: &String) -> (r: Vec<Turn>)
        requires
            self.wf(),
        ensures
            models(r@) == history_of(self@, user_id@),
            strictly_ascending(models(r@)),
    {
        let ghost s = self@;
        let ghost pred = of_user(user_id@);
        let mut r: Vec<Turn> = Vec::new();
        let mut i: usize = 0;
        assert(s.take(0) =~= Seq::<TurnModel>::empty());
        proof { reveal(Seq::filter); }
        assert(models(r@) =~= s.take(0).filter(pred));
        while i < self.turns.len()
            invariant
                i <= s.len(),
                s == self@,
                pred == of_user(user_id@),
                s.len() == self.turns@.len(),
                models(r@) == s.take(i as int).filter(pred),
            decreases s.len() - i,
        {
            let ghost before = models(r@);
            assert(s[i as int] == self.turns@[i as int]@);
            if self.turns[i].user_id == *user_id {
                r.push(self.turns[i].duplicate());
                assert(models(r@) =~= before.push(s[i as int]));
            }
            proof {
                reveal(Seq::filter);
                let next = s.take(i + 1);
                assert(next.drop_last() =~= s.take(i as int));
                assert(next.last() == s[i as int]);
                assert(next.filter(pred) == if pred(next.last()) {
                    next.drop_last().filter(pred).push(next.last())
                } else {
                    next.drop_last().filter(pred)
                });
            }
            i = i + 1;
        }
        assert(s.take(s.len() as int) =~= s);
        proof { lemma_history_ascending(s, user_id@); }
        r
    }
}

/// A user's history in a well-formed log is in strictly ascending timestamp
/// order, whatever order the turns were appended in.
pub proof fn lemma_history_ascending(s: Seq<TurnModel>, user_id: Seq<char>)
    requires
        log_wf(s),
    ensures
        strictly_ascending(history_of(s, user_id)),
    decreases s.len(),
{
    reveal(Seq::filter);
    if s.len() > 0 {
        let d = s.drop_last();
        assert(log_wf(d)) by {
            assert forall|i: int, j: int|
                0 <= i < d.len() && 0 <= j < d.len() && i != j && d[i].user_id
                    == d[j].user_id implies d[i].timestamp != d[j].timestamp by {
                assert(s[i] == d[i] && s[j] == d[j]);
            }
        }
        lemma_history_ascending(d, user_id);
        let hd = history_of(d, user_id);
        let h = history_of(s, user_id);
        if s.last().user_id == user_id {
            assert(h == hd.push(s.last()));
            assert forall|i: int, j: int| 0 <= i < j < h.len() implies h[i].timestamp
                < h[j].timestamp by {
                if j == h.len() - 1 {
                    assert(hd.contains(h[i]));
                    d.lemma_filter_contains_rev(of_user(user_id), h[i]);
                    let k = choose|k: int| 0 <= k < d.len() && d[k] == h[i];
                    d.lemma_filter_pred(of_user(user_id), i);
                    assert(of_user(user_id)(hd[i]));
                    assert(s[k] == d[k]);
                    assert(s[k].timestamp <= s[s.len() - 1].timestamp);
                }
            }
        }
    }
}

/// Appending a turn adds exactly one turn to its user's history and leaves
/// every other user's history as long as it was.
pub proof fn lemma_append_extends_history(
    s: Seq<TurnModel>,
    p: int,
    t: TurnModel,
    user_id: Seq<char>,
)
    requires
        0 <= p <= s.len(),
    ensures
        history_of(s.insert(p, t), user_id).len() == history_of(s, user_id).len() + if t.user_id
            == user_id {
            1int
        } else {
            0int
        },
{
    let pred = of_user(user_id);
    let a = s.take(p);
    let b = s.skip(p);
    assert(s =~= a + b);
    assert(s.insert(p, t) =~= a + seq![t] + b);
    Seq::filter_distributes_over_add(a, b, pred);
    Seq::filter_distributes_over_add(a + seq![t], b, pred);
    Seq::filter_distributes_over_add(a, seq![t], pred);
    reveal(Seq::filter);
    let one = seq![t];
    assert(one.drop_last() =~= Seq::<TurnModel>::empty());
    assert(Seq::<TurnModel>::empty().filter(pred).len() == 0);
    assert(one.last() == t);
    assert(one.filter(pred).len() == if pred(t) {
        1int
    } else {
        0int
    });
}

/// `logs` is the run of logs that appending `turns` one after the other to an
/// empty log goes through, each turn inserted wherever the log put it.
pub open spec fn append_run(turns: Seq<TurnModel>, logs: Seq<Seq<TurnModel>>) -> bool {
    &&& logs.len() == turns.len() + 1
    &&& logs[0] == Seq::<TurnModel>::empty()
    &&& forall|k: int| 0 <= k < turns.len() ==> #[trigger] inserted(logs[k], logs[k + 1], turns[k])
}

/// After `turns.len()` turns of one user were appended to an empty log, in any
/// order of their timestamps, that user's history holds exactly that many
/// turns, exactly the appended ones, in strictly ascending timestamp order.
pub proof fn lemma_history_after_appends(
    turns: Seq<TurnModel>,
    logs: Seq<Seq<TurnModel>>,
    user_id: Seq<char>,
)
    requires
        append_run(turns, logs),
        forall|k: int| 0 <= k < turns.len() ==> (#[trigger] turns[k]).user_id == user_id,
        log_wf(logs.last()),
    ensures
        history_of(logs.last(), user_id).len() == turns.len(),
        strictly_ascending(history_of(logs.last(), user_id)),
        forall|t: TurnModel| history_of(logs.last(), user_id).contains(t) <==> turns.contains(t),
{
    let last = logs.last();
    let h = history_of(last, user_id);
    let pred = of_user(user_id);
    lemma_run_prefix_contents(turns, logs, turns.len() as int);
    assert(turns.take(turns.len() as int) =~= turns);
    assert forall|t: TurnModel| h.contains(t) <==> turns.contains(t) by {
        if h.contains(t) {
            last.lemma_filter_contains_rev(pred, t);
        }
        if turns.contains(t) {
            assert(last.contains(t));
            let i = choose|i: int| 0 <= i < last.len() && last[i] == t;
            let k = choose|k: int| 0 <= k < turns.len() && turns[k] == t;
            assert(turns[k].user_id == user_id);
            last.lemma_filter_contains(pred, i);
        }
    }
    assert forall|k: int| 0 <= k <= turns.len() implies history_of(#[trigger] logs[k], user_id).len()
        == k by {
        lemma_run_prefix_count(turns, logs, user_id, k);
    }
    lemma_history_ascending(logs.last(), user_id);
}

proof fn lemma_insert_contains(s: Seq<TurnModel>, p: int, t: TurnModel, x: TurnModel)
    requires
        0 <= p <= s.len(),
    ensures
        s.insert(p, t).contains(x) <==> (s.contains(x) || x == t),
{
    let r = s.insert(p, t);
    if r.contains(x) {
        let i = choose|i: int| 0 <= i < r.len() && r[i] == x;
        if i < p {
            assert(s[i] == x);
        } else if i > p {
            assert(s[i - 1] == x);
        }
    }
    if s.contains(x) {
        let i = choose|i: int| 0 <= i < s.len() && s[i] == x;
        if i < p {
            assert(r[i] == x);
        } else {
            assert(r[i + 1] == x);
        }
    }
    if x == t {
        assert(r[p] == x);
    }
}

proof fn lemma_run_prefix_contents(turns: Seq<TurnModel>, logs: Seq<Seq<TurnModel>>, k: int)
    requires
        append_run(turns, logs),
        0 <= k <= turns.len(),
    ensures
        forall|x: TurnModel| logs[k].contains(x) <==> turns.take(k).contains(x),
    decreases k,
{
    if k > 0 {
        lemma_run_prefix_contents(turns, logs, k - 1);
        assert(inserted(logs[k - 1], logs[(k - 1) + 1], turns[k - 1]));
        let p = choose|p: int|
            0 <= p <= logs[k - 1].len() && logs[k] == #[trigger] logs[k - 1].insert(
                p,
                turns[k - 1],
            );
        assert(turns.take(k) =~= turns.take(k - 1).push(turns[k - 1]));
        assert forall|x: TurnModel| logs[k].contains(x) <==> turns.take(k).contains(x) by {
            lemma_insert_contains(logs[k - 1], p, turns[k - 1], x);
            let pre = turns.take(k - 1);
            if turns.take(k).contains(x) && x != turns[k - 1] {
                let i = choose|i: int| 0 <= i < k && turns.take(k)[i] == x;
                assert(pre[i] == x);
            }
            if pre.contains(x) {
                let i = choose|i: int| 0 <= i < pre.len() && pre[i] == x;
                assert(turns.take(k)[i] == x);
            }
            if x == turns[k - 1] {
                assert(turns.take(k)[k - 1] == x);
            }
        }
    }
}

proof fn lemma_run_prefix_count(
    turns: Seq<TurnModel>,
    logs: Seq<Seq<TurnModel>>,
    user_id: Seq<char>,
    k: int,
)
    requires
        append_run(turns, logs),
        forall|k: int| 0 <= k < turns.len() ==> (#[trigger] turns[k]).user_id == user_id,
        0 <= k <= turns.len(),
    ensures
        history_of(logs[k], user_id).len() == k,
    decreases k,
{
    if k == 0 {
        lemma_empty_history(user_id);
    } else {
        lemma_run_prefix_count(turns, logs, user_id, k - 1);
        assert(inserted(logs[k - 1], logs[(k - 1) + 1], turns[k - 1]));
        let p = choose|p: int|
            0 <= p <= logs[k - 1].len() && logs[k] == #[trigger] logs[k - 1].insert(
                p,
                turns[k - 1],
            );
        lemma_append_extends_history(logs[k - 1], p, turns[k - 1], user_id);
    }
}

/// A log with no turns has an empty history for every user.
pub proof fn lemma_empty_history(user_id: Seq<char>)
    ensures
        history_of(Seq::<TurnModel>::empty(), user_id) == Seq::<TurnModel>::empty(),
{
    reveal(Seq::filter);
}

proof fn lemma_history_contains(s: Seq<TurnModel>, user_id: Seq<char>, t: TurnModel)
    ensures
        history_of(s, user_id).contains(t) <==> (s.contains(t) && t.user_id == user_id),
{
    let pred = of_user(user_id);
    let h = history_of(s, user_id);
    if h.contains(t) {
        s.lemma_filter_contains_rev(pred, t);
        let i = choose|i: int| 0 <= i < h.len() && h[i] == t;
        s.lemma_filter_pred(pred, i);
    }
    if s.contains(t) && t.user_id == user_id {
        let i = choose|i: int| 0 <= i < s.len() && s[i] == t;
        s.lemma_filter_contains(pred, i);
    }
}

proof fn lemma_ascending_unique(h1: Seq<TurnModel>, h2: Seq<TurnModel>)
    requires
        strictly_ascending(h1),
        strictly_ascending(h2),
        forall|t: TurnModel| h1.contains(t) <==> h2.contains(t),
    ensures
        h1 == h2,
    decreases h1.len(),
{
    if h1.len() == 0 {
        if h2.len() > 0 {
            assert(h2.contains(h2[0]));
        }
        assert(h1 =~= h2);
    } else if h2.len() == 0 {
        assert(h1.contains(h1[0]));
    } else {
        let a = h1.last();
        let b = h2.last();
        assert(h1.contains(a));
        assert(h2.contains(b));
        let j = choose|j: int| 0 <= j < h2.len() && h2[j] == a;
        let i = choose|i: int| 0 <= i < h1.len() && h1[i] == b;
        assert(a.timestamp <= b.timestamp) by {
            if j < h2.len() - 1 {
                assert(h2[j].timestamp < h2[h2.len() - 1].timestamp);
            }
        }
        assert(b.timestamp <= a.timestamp) by {
            if i < h1.len() - 1 {
                assert(h1[i].timestamp < h1[h1.len() - 1].timestamp);
            }
        }
        assert(j == h2.len() - 1) by {
            if j < h2.len() - 1 {
                assert(h2[j].timestamp < h2[h2.len() - 1].timestamp);
            }
        }
        let d1 = h1.drop_last();
        let d2 = h2.drop_last();
        assert forall|t: TurnModel| d1.contains(t) <==> d2.contains(t) by {
            if d1.contains(t) {
                let k = choose|k: int| 0 <= k < d1.len() && d1[k] == t;
                assert(h1[k] == t);
                assert(h1.contains(t));
                let m = choose|m: int| 0 <= m < h2.len() && h2[m] == t;
                assert(t.timestamp < a.timestamp);
                assert(m != h2.len() - 1);
                assert(d2[m] == t);
            }
            if d2.contains(t) {
                let k = choose|k: int| 0 <= k < d2.len() && d2[k] == t;
                assert(h2[k] == t);
                assert(h2.contains(t));
                let m = choose|m: int| 0 <= m < h1.len() && h1[m] == t;
                assert(t.timestamp < b.timestamp);
                assert(m != h1.len() - 1);
                assert(d1[m] == t);
            }
        }
        lemma_ascending_unique(d1, d2);
        assert(h1 =~= d1.push(a));
        assert(h2 =~= d2.push(b));
    }
}

/// Two well-formed logs that hold the same turns give every user the same
/// history, whatever order the turns were appended in: the order comes from
/// the timestamps alone.
pub proof fn lemma_history_determined(s1: Seq<TurnModel>, s2: Seq<TurnModel>, user_id: Seq<char>)
    requires
        log_wf(s1),
        log_wf(s2),
        forall|t: TurnModel| s1.contains(t) <==> s2.contains(t),
    ensures
        history_of(s1, user_id) == history_of(s2, user_id),
{
    lemma_history_ascending(s1, user_id);
    lemma_history_ascending(s2, user_id);
    assert forall|t: TurnModel|
        history_of(s1, user_id).contains(t) <==> history_of(s2, user_id).contains(t) by {
        lemma_history_contains(s1, user_id, t);
        lemma_history_contains(s2, user_id, t);
    }
    lemma_ascending_unique(history_of(s1, user_id), history_of(s2, user_id));
}

} // verus!
