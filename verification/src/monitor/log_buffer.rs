//! Bounded per-source history of output lines.
use vstd::prelude::*;
use std::collections::VecDeque;
use crate::text::str_eq;

verus! {

/// One line of output from a managed process.
#[derive(Debug)]
pub struct LogEntry {
    pub ts: i64,
    pub source: String,
    pub level: String,
    pub line: String,
}

impl Clone for LogEntry {
    fn clone(&self) -> (r: Self)
        ensures
            r == *self,
    {
        LogEntry {
            ts: self.ts,
            source: self.source.clone(),
            level: self.level.clone(),
            line: self.line.clone(),
        }
    }
}

/// Entries whose source is `"server"` go to the server history; all others to the bridge's.
pub open spec fn routes_to_server(source: Seq<char>) -> bool {
    source == "server"@
}

/// A history after `e` is added: when it already holds `cap` entries (and at
/// least one), the oldest is dropped first.
pub open spec fn pushed(buf: Seq<LogEntry>, cap: nat, e: LogEntry) -> Seq<LogEntry> {
    let kept = if buf.len() >= cap && buf.len() > 0 {
        buf.drop_first()
    } else {
        buf
    };
    kept.push(e)
}

/// The last `n` elements of `s` (all of it when it is shorter).
pub open spec fn last_n<T>(s: Seq<T>, n: nat) -> Seq<T> {
    if s.len() > n {
        s.skip(s.len() - n)
    } else {
        s
    }
}

/// `e` placed into `s` after every entry whose timestamp is not greater than its own.
pub open spec fn insert_by_ts(s: Seq<LogEntry>, e: LogEntry) -> Seq<LogEntry>
    decreases s.len(),
{
    if s.len() == 0 {
        seq![e]
    } else if s.last().ts <= e.ts {
        s.push(e)
    } else {
        insert_by_ts(s.drop_last(), e).push(s.last())
    }
}

/// `s` ordered by timestamp, entries with equal timestamps keeping their order
/// (a stable sort by `ts`).
pub open spec fn sort_by_ts(s: Seq<LogEntry>) -> Seq<LogEntry>
    decreases s.len(),
{
    if s.len() == 0 {
        s
    } else {
        insert_by_ts(sort_by_ts(s.drop_last()), s.last())
    }
}

/// Timestamps never decrease along `s`.
pub open spec fn sorted_by_ts(s: Seq<LogEntry>) -> bool {
    forall|i: int, j: int| 0 <= i <= j < s.len() ==> s[i].ts <= s[j].ts
}

/// The histories of server and bridge output, each holding at most
/// `capacity` entries (at least one once anything was added).
pub struct LogBuffer {
    server: VecDeque<LogEntry>,
    bridge: VecDeque<LogEntry>,
    capacity: usize,
}

/// Both histories, oldest first, and the capacity.
pub struct LogBufferView {
    pub server: Seq<LogEntry>,
    pub bridge: Seq<LogEntry>,
    pub capacity: nat,
}

impl View for LogBuffer {
    type V = LogBufferView;

    closed spec fn view(&self) -> LogBufferView {
        LogBufferView {
            server: self.server@,
            bridge: self.bridge@,
            capacity: self.capacity as nat,
        }
    }
}

/// The largest number of entries a history of capacity `cap` may hold.
pub open spec fn bound(cap: nat) -> nat {
    if cap == 0 {
        1
    } else {
        cap
    }
}

/// Neither history holds more entries than its bound.
pub open spec fn within_capacity(b: LogBufferView) -> bool {
    b.server.len() <= bound(b.capacity) && b.bridge.len() <= bound(b.capacity)
}

fn is_server(source: &str) -> (r: bool)
    ensures
        r == routes_to_server(source@),
{
    str_eq(source, "server")
}

fn insert_sorted(v: &mut Vec<LogEntry>, e: LogEntry)
    ensures
        final(v)@ == insert_by_ts(old(v)@, e),
{
    let mut p = v.len();
    assert(v@.take(p as int) =~= v@);
    assert(v@.skip(p as int) =~= Seq::<LogEntry>::empty());
    while p > 0 && v[p - 1].ts > e.ts
        invariant
            p <= v.len(),
            v@ == old(v)@,
            insert_by_ts(v@, e) == insert_by_ts(v@.take(p as int), e) + v@.skip(p as int),
        decreases p,
    {
        let ghost t = v@.take(p as int);
        assert(t.drop_last() =~= v@.take(p - 1));
        assert(t.last() == v@[p - 1]);
        assert(v@.skip(p - 1) =~= seq![v@[p - 1]] + v@.skip(p as int));
        assert(insert_by_ts(t, e) == insert_by_ts(v@.take(p - 1), e).push(v@[p - 1]));
        assert(insert_by_ts(v@.take(p - 1), e).push(v@[p - 1]) + v@.skip(p as int)
            =~= insert_by_ts(v@.take(p - 1), e) + v@.skip(p - 1));
        p -= 1;
    }
    let ghost before = v@;
    v.insert(p, e);
    assert(insert_by_ts(before.take(p as int), e) == before.take(p as int).push(e));
    assert(v@ =~= before.take(p as int).push(e) + before.skip(p as int));
}

fn copy_last(buf: &VecDeque<LogEntry>, limit: usize) -> (r: Vec<LogEntry>)
    ensures
        r@ == last_n(buf@, limit as nat),
{
    let len = buf.len();
    let skip = if len > limit {
        len - limit
    } else {
        0
    };
    let mut r: Vec<LogEntry> = Vec::new();
    let mut i = skip;
    while i < len
        invariant
            skip <= i <= len,
            len == buf@.len(),
            r@ == buf@.subrange(skip as int, i as int),
        decreases len - i,
    {
        r.push(buf[i].clone());
        assert(buf@.subrange(skip as int, i + 1) =~= buf@.subrange(skip as int, i as int).push(
            buf@[i as int],
        ));
        i += 1;
    }
    assert(buf@.subrange(skip as int, len as int) =~= last_n(buf@, limit as nat));
    r
}

fn push_bounded(buf: &mut VecDeque<LogEntry>, cap: usize, e: LogEntry)
    ensures
        final(buf)@ == pushed(old(buf)@, cap as nat, e),
        old(buf)@.len() <= bound(cap as nat) ==> final(buf)@.len() <= bound(cap as nat),
{
    if buf.len() >= cap {
        let _ = buf.pop_front();
    }
    buf.push_back(e);
    assert(old(buf)@.len() > 0 ==> old(buf)@.drop_first() =~= old(buf)@.subrange(
        1,
        old(buf)@.len() as int,
    ));
}

impl LogBuffer {
    /// Empty histories of the given capacity.
    pub fn new(capacity: usize) -> (b: Self)
        ensures
            b@.server == Seq::<LogEntry>::empty(),
            b@.bridge == Seq::<LogEntry>::empty(),
            b@.capacity == capacity,
            within_capacity(b@),
    {
        LogBuffer {
            server: VecDeque::with_capacity(capacity),
            bridge: VecDeque::with_capacity(capacity),
            capacity,
        }
    }

    /// Adds `entry` to the history of its source, dropping that history's
    /// oldest entry when it is full.
    pub fn push(&mut self, entry: LogEntry)
        ensures
            final(self)@.capacity == old(self)@.capacity,
            routes_to_server(entry.source@) ==> final(self)@.server == pushed(
                old(self)@.server,
                old(self)@.capacity,
                entry,
            ) && final(self)@.bridge == old(self)@.bridge,
            !routes_to_server(entry.source@) ==> final(self)@.bridge == pushed(
                old(self)@.bridge,
                old(self)@.capacity,
                entry,
            ) && final(self)@.server == old(self)@.server,
            within_capacity(old(self)@) ==> within_capacity(final(self)@),
    {
        if is_server(entry.source.as_str()) {
            push_bounded(&mut self.server, self.capacity, entry);
        } else {
            push_bounded(&mut self.bridge, self.capacity, entry);
        }
    }

    /// The latest `limit` entries of one source, oldest first; any source
    /// other than `"server"` reads the bridge history.
    pub fn recent(&self, source: &str, limit: usize) -> (r: Vec<LogEntry>)
        ensures
            r@ == last_n(
                if routes_to_server(source@) {
                    self@.server
                } else {
                    self@.bridge
                },
                limit as nat,
            ),
    {
        if is_server(source) {
            copy_last(&self.server, limit)
        } else {
            copy_last(&self.bridge, limit)
        }
    }

    /// The latest `limit` entries of both sources together, ordered by
    /// timestamp; equal timestamps keep server entries before bridge entries
    /// and each history's own order.
    pub fn recent_all(&self, limit: usize) -> (r: Vec<LogEntry>)
        ensures
            r@ == last_n(sort_by_ts(self@.server + self@.bridge), limit as nat),
    {
        let ghost all_in = self@.server + self@.bridge;
        let mut all: Vec<LogEntry> = Vec::new();
        let ns = self.server.len();
        let nb = self.bridge.len();
        let mut i: usize = 0;
        assert(all_in.take(0) =~= Seq::<LogEntry>::empty());
        while i < ns
            invariant
                ns == self@.server.len(),
                all_in == self@.server + self@.bridge,
                i <= ns,
                all@ == sort_by_ts(all_in.take(i as int)),
            decreases ns - i,
        {
            let e = self.server[i].clone();
            assert(e == all_in[i as int]);
            assert(all_in.take(i + 1).drop_last() =~= all_in.take(i as int));
            insert_sorted(&mut all, e);
            i += 1;
        }
        let mut j: usize = 0;
        while j < nb
            invariant
                ns == self@.server.len(),
                nb == self@.bridge.len(),
                all_in == self@.server + self@.bridge,
                j <= nb,
                all@ == sort_by_ts(all_in.take(ns + j)),
            decreases nb - j,
        {
            let e = self.bridge[j].clone();
            assert(e == all_in[ns + j]);
            assert(all_in.take(ns + j + 1).drop_last() =~= all_in.take(ns + j));
            insert_sorted(&mut all, e);
            j += 1;
        }
        assert(all_in.take(ns + nb) =~= all_in);
        let len = all.len();
        let skip = if len > limit {
            len - limit
        } else {
            0
        };
        let mut r: Vec<LogEntry> = Vec::new();
        let mut k = skip;
        while k < len
            invariant
                skip <= k <= len,
                len == all@.len(),
                r@ == all@.subrange(skip as int, k as int),
            decreases len - k,
        {
            r.push(all[k].clone());
            assert(all@.subrange(skip as int, k + 1) =~= all@.subrange(skip as int, k as int).push(
                all@[k as int],
            ));
            k += 1;
        }
        assert(all@.subrange(skip as int, len as int) =~= last_n(all@, limit as nat));
        r
    }

    /// Empties the history of one source (the bridge's for any source other than `"server"`).
    pub fn clear(&mut self, source: &str)
        ensures
            final(self)@.capacity == old(self)@.capacity,
            routes_to_server(source@) ==> final(self)@.server == Seq::<LogEntry>::empty()
                && final(self)@.bridge == old(self)@.bridge,
            !routes_to_server(source@) ==> final(self)@.bridge == Seq::<LogEntry>::empty()
                && final(self)@.server == old(self)@.server,
            within_capacity(old(self)@) ==> within_capacity(final(self)@),
    {
        if is_server(source) {
            self.server.clear();
        } else {
            self.bridge.clear();
        }
    }
}


/// Timestamps in `s` are all at most `b`.
pub open spec fn all_at_most(s: Seq<LogEntry>, b: i64) -> bool {
    forall|i: int| 0 <= i < s.len() ==> s[i].ts <= b
}

proof fn lemma_insert_by_ts(s: Seq<LogEntry>, e: LogEntry)
    ensures
        insert_by_ts(s, e).to_multiset() == s.to_multiset().insert(e),
        insert_by_ts(s, e).len() == s.len() + 1,
        sorted_by_ts(s) ==> sorted_by_ts(insert_by_ts(s, e)),
        forall|b: i64| all_at_most(s, b) && e.ts <= b ==> all_at_most(insert_by_ts(s, e), b),
    decreases s.len(),
{
    broadcast use vstd::seq_lib::group_to_multiset_ensures;

    if s.len() == 0 {
        assert(seq![e] =~= Seq::<LogEntry>::empty().push(e));
    } else if s.last().ts <= e.ts {
        assert forall|b: i64| all_at_most(s, b) && e.ts <= b implies all_at_most(s.push(e), b) by {
            assert forall|i: int| 0 <= i < s.push(e).len() implies s.push(e)[i].ts <= b by {
                if i < s.len() {
                    assert(s.push(e)[i] == s[i]);
                }
            }
        }
        if sorted_by_ts(s) {
            assert forall|i: int, j: int| 0 <= i <= j < s.push(e).len() implies s.push(e)[i].ts
                <= s.push(e)[j].ts by {
                if j == s.len() && i < s.len() {
                    assert(s[i].ts <= s[s.len() - 1].ts);
                }
            }
        }
    } else {
        let d = s.drop_last();
        let last = s.last();
        lemma_insert_by_ts(d, e);
        let ins = insert_by_ts(d, e);
        assert(s =~= d.push(last));
        assert(ins.push(last).to_multiset() == ins.to_multiset().insert(last));
        assert(d.push(last).to_multiset() == d.to_multiset().insert(last));
        assert(ins.push(last).to_multiset() =~= s.to_multiset().insert(e));
        assert forall|b: i64| all_at_most(s, b) && e.ts <= b implies all_at_most(ins.push(last), b) by {
            assert(all_at_most(d, b)) by {
                assert forall|i: int| 0 <= i < d.len() implies d[i].ts <= b by {
                    assert(d[i] == s[i]);
                }
            }
            assert forall|i: int| 0 <= i < ins.push(last).len() implies ins.push(last)[i].ts <= b by {
                if i < ins.len() {
                    assert(ins.push(last)[i] == ins[i]);
                }
            }
        }
        if sorted_by_ts(s) {
            assert(sorted_by_ts(d)) by {
                assert forall|i: int, j: int| 0 <= i <= j < d.len() implies d[i].ts <= d[j].ts by {
                    assert(d[i] == s[i] && d[j] == s[j]);
                }
            }
            assert(all_at_most(d, last.ts)) by {
                assert forall|i: int| 0 <= i < d.len() implies d[i].ts <= last.ts by {
                    assert(d[i] == s[i]);
                }
            }
            assert(all_at_most(ins, last.ts));
            assert forall|i: int, j: int| 0 <= i <= j < ins.push(last).len() implies ins.push(
                last,
            )[i].ts <= ins.push(last)[j].ts by {
                if j < ins.len() {
                    assert(ins.push(last)[i] == ins[i] && ins.push(last)[j] == ins[j]);
                } else if i < ins.len() {
                    assert(ins.push(last)[i] == ins[i]);
                }
            }
        }
    }
}

/// Law: ordering by timestamp yields a sequence whose timestamps never
/// decrease and which holds exactly the entries it was given.
pub proof fn law_sort_by_ts(s: Seq<LogEntry>)
    ensures
        sorted_by_ts(sort_by_ts(s)),
        sort_by_ts(s).to_multiset() == s.to_multiset(),
        sort_by_ts(s).len() == s.len(),
    decreases s.len(),
{
    broadcast use vstd::seq_lib::group_to_multiset_ensures;

    if s.len() == 0 {
    } else {
        law_sort_by_ts(s.drop_last());
        lemma_insert_by_ts(sort_by_ts(s.drop_last()), s.last());
        assert(s =~= s.drop_last().push(s.last()));
        assert(s.drop_last().push(s.last()).to_multiset() == s.drop_last().to_multiset().insert(
            s.last(),
        ));
    }
}

/// Law: what `recent_all` returns is ordered by timestamp, and every entry it
/// returns is held by one of the two histories.
pub proof fn law_recent_all_is_ordered(b: LogBufferView, limit: nat)
    ensures
        sorted_by_ts(last_n(sort_by_ts(b.server + b.bridge), limit)),
        last_n(sort_by_ts(b.server + b.bridge), limit).len() == if b.server.len() + b.bridge.len()
            > limit {
            limit
        } else {
            (b.server.len() + b.bridge.len()) as nat
        },
        forall|e: LogEntry|
            last_n(sort_by_ts(b.server + b.bridge), limit).contains(e) ==> (b.server + b.bridge).contains(e),
{
    broadcast use vstd::seq_lib::group_to_multiset_ensures;

    let all = b.server + b.bridge;
    law_sort_by_ts(all);
    let srt = sort_by_ts(all);
    let r = last_n(srt, limit);
    assert forall|i: int, j: int| 0 <= i <= j < r.len() implies r[i].ts <= r[j].ts by {
        if srt.len() > limit {
            assert(r[i] == srt[i + srt.len() - limit] && r[j] == srt[j + srt.len() - limit]);
        }
    }
    assert forall|e: LogEntry| r.contains(e) implies all.contains(e) by {
        let k = choose|k: int| 0 <= k < r.len() && r[k] == e;
        if srt.len() > limit {
            assert(r[k] == srt[k + srt.len() - limit]);
            assert(srt.contains(e));
        } else {
            assert(srt.contains(e));
        }
        assert(srt.to_multiset().count(e) > 0);
        assert(all.to_multiset().count(e) > 0);
    }
}

/// A history after adding each of `es`, in order.
pub open spec fn push_all(buf: Seq<LogEntry>, cap: nat, es: Seq<LogEntry>) -> Seq<LogEntry>
    decreases es.len(),
{
    if es.len() == 0 {
        buf
    } else {
        pushed(push_all(buf, cap, es.drop_last()), cap, es.last())
    }
}

/// Law: a history of capacity `cap` that started empty holds the latest `cap`
/// of the entries added to it, oldest first.
pub proof fn law_history_keeps_latest(cap: nat, es: Seq<LogEntry>)
    requires
        cap >= 1,
    ensures
        push_all(Seq::empty(), cap, es) == last_n(es, cap),
    decreases es.len(),
{
    if es.len() > 0 {
        let d = es.drop_last();
        law_history_keeps_latest(cap, d);
        let h = last_n(d, cap);
        if d.len() >= cap {
            assert(h.drop_first().push(es.last()) =~= last_n(es, cap));
        } else {
            assert(h.push(es.last()) =~= last_n(es, cap));
        }
    } else {
        assert(last_n(es, cap) =~= Seq::<LogEntry>::empty());
    }
}

} // verus!
