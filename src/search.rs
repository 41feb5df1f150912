use vstd::prelude::*;

use crate::history::{inserted, HistoryBuffer};
use crate::record::{Color, ContainerLog, LogView};
use crate::text::chars_of;

verus! {

/// `q` occurs in `b` starting at position `p`.
pub open spec fn occurs_at(b: Seq<char>, q: Seq<char>, p: int) -> bool {
    0 <= p && p + q.len() <= b.len() && b.subrange(p, p + q.len()) == q
}

/// The positions at or after `p` where `q` occurs in `b`, ascending; overlapping
/// occurrences all count.
pub open spec fn positions_from(b: Seq<char>, q: Seq<char>, p: int) -> Seq<int>
    decreases b.len() + 1 - p,
{
    if p < 0 || p + q.len() > b.len() {
        Seq::empty()
    } else if occurs_at(b, q, p) {
        seq![p] + positions_from(b, q, p + 1)
    } else {
        positions_from(b, q, p + 1)
    }
}

/// Every position where a non-empty `q` occurs in `b`; none for an empty `q`.
pub open spec fn positions(b: Seq<char>, q: Seq<char>) -> Seq<int> {
    if q.len() == 0 {
        Seq::empty()
    } else {
        positions_from(b, q, 0)
    }
}

/// The integer view of a list of positions.
pub open spec fn as_ints(v: Seq<usize>) -> Seq<int> {
    v.map_values(|m: usize| m as int)
}

/// `q` and `b` agree on the `q.len()` characters from `p` on.
fn agrees_at(b: &Vec<char>, q: &Vec<char>, p: usize) -> (r: bool)
    requires
        p + q@.len() <= b@.len(),
    ensures
        r == occurs_at(b@, q@, p as int),
{
    let n = b.len();
    let mut j: usize = 0;
    while j < q.len()
        invariant
            j <= q@.len(),
            n == b@.len(),
            p + q@.len() <= b@.len(),
            forall|k: int| 0 <= k < j ==> b@[p + k] == q@[k],
        decreases q@.len() - j,
    {
        if b[p + j] != q[j] {
            assert(b@.subrange(p as int, p + q@.len())[j as int] != q@[j as int]);
            return false;
        }
        j = j + 1;
    }
    assert(b@.subrange(p as int, p + q@.len()) =~= q@);
    true
}

/// The positions where `q` occurs in `b`, ascending; none when `q` is empty.
pub fn find_all(b: &Vec<char>, q: &Vec<char>) -> (r: Vec<usize>)
    ensures
        as_ints(r@) == positions(b@, q@),
{
    let mut r: Vec<usize> = Vec::new();
    if q.len() == 0 {
        assert(as_ints(r@) =~= Seq::<int>::empty());
        return r;
    }
    if q.len() > b.len() {
        assert(as_ints(r@) =~= Seq::<int>::empty());
        return r;
    }
    let last = b.len() - q.len();
    let mut p: usize = 0;
    loop
        invariant_except_break
            as_ints(r@) + positions_from(b@, q@, p as int) == positions_from(b@, q@, 0),
        invariant
            last == b@.len() - q@.len(),
            q@.len() > 0,
            p <= last,
        ensures
            as_ints(r@) == positions_from(b@, q@, 0),
        decreases last - p,
    {
        let ghost before = r@;
        if agrees_at(b, q, p) {
            r.push(p);
            assert(as_ints(r@) =~= as_ints(before) + seq![p as int]);
            assert(as_ints(before) + (seq![p as int] + positions_from(b@, q@, p + 1))
                =~= as_ints(r@) + positions_from(b@, q@, p + 1));
        } else {
            assert(as_ints(r@) + positions_from(b@, q@, p + 1) == positions_from(b@, q@, 0));
        }
        if p == last {
            assert(positions_from(b@, q@, p + 1) == Seq::<int>::empty());
            assert(as_ints(r@) + Seq::<int>::empty() =~= as_ints(r@));
            break;
        }
        p = p + 1;
    }
    r
}

/// A record ready to draw: its key and color, its text, and where the query
/// occurs in the text (each mark starts `mark_len` highlighted characters).
#[derive(Clone, Debug)]
pub struct StreamLine {
    pub key: String,
    pub color: Color,
    pub body: String,
    pub marks: Vec<usize>,
    pub mark_len: usize,
}

/// What a drawn line holds, as plain values.
pub struct LineView {
    pub key: Seq<char>,
    pub color: Color,
    pub body: Seq<char>,
    pub marks: Seq<int>,
    pub mark_len: nat,
}

impl View for StreamLine {
    type V = LineView;

    open spec fn view(&self) -> LineView {
        LineView {
            key: self.key@,
            color: self.color,
            body: self.body@,
            marks: as_ints(self.marks@),
            mark_len: self.mark_len as nat,
        }
    }
}

/// A record is shown under query `q` when `q` is empty or occurs in its text.
pub open spec fn shown(r: LogView, q: Seq<char>) -> bool {
    q.len() == 0 || exists|p: int| occurs_at(r.body, q, p)
}

/// The line drawn for record `r` under query `q`.
pub open spec fn line_of(r: LogView, q: Seq<char>) -> LineView {
    LineView { key: r.key, color: r.color, body: r.body, marks: positions(r.body, q), mark_len: q.len() }
}

/// The line of record `r` under query `q`, when it is shown.
pub open spec fn view_of(r: LogView, q: Seq<char>) -> Option<LineView> {
    if shown(r, q) {
        Some(line_of(r, q))
    } else {
        None
    }
}

/// The lines kept by a search over `recs` for query `q`, in arrival order.
pub open spec fn search_spec(recs: Seq<LogView>, q: Seq<char>) -> Seq<LineView>
    decreases recs.len(),
{
    if recs.len() == 0 {
        Seq::empty()
    } else {
        let prev = search_spec(recs.drop_last(), q);
        if shown(recs.last(), q) {
            prev.push(line_of(recs.last(), q))
        } else {
            prev
        }
    }
}

/// The positions of the records that a search keeps, ascending.
pub open spec fn search_indices(recs: Seq<LogView>, q: Seq<char>) -> Seq<int>
    decreases recs.len(),
{
    if recs.len() == 0 {
        Seq::empty()
    } else {
        let prev = search_indices(recs.drop_last(), q);
        if shown(recs.last(), q) {
            prev.push(recs.len() - 1)
        } else {
            prev
        }
    }
}

proof fn lemma_positions_from_start(b: Seq<char>, q: Seq<char>, p: int)
    requires
        q.len() > 0,
        0 <= p,
    ensures
        positions_from(b, q, p).len() > 0 <==> exists|k: int| k >= p && occurs_at(b, q, k),
    decreases b.len() - p,
{
    if p + q.len() > b.len() {
        assert forall|k: int| k >= p implies !occurs_at(b, q, k) by {}
    } else if occurs_at(b, q, p) {
    } else {
        lemma_positions_from_start(b, q, p + 1);
        assert forall|k: int| k >= p && occurs_at(b, q, k) implies k >= p + 1 by {}
    }
}

/// A non-empty query occurs in a text exactly when it has a position there.
proof fn lemma_shown_iff_positions(r: LogView, q: Seq<char>)
    requires
        q.len() > 0,
    ensures
        shown(r, q) <==> positions(r.body, q).len() > 0,
{
    lemma_positions_from_start(r.body, q, 0);
}

/// The line for `rec` under `query`: the record with the query's occurrences
/// marked, or nothing when a non-empty query does not occur in it.
pub fn highlight(rec: &ContainerLog, query: &str) -> (r: Option<StreamLine>)
    ensures
        match r {
            Some(l) => view_of(rec@, query@) == Some(l@),
            None => view_of(rec@, query@) is None,
        },
{
    let q = chars_of(query);
    let b = chars_of(rec.body.as_str());
    let marks = find_all(&b, &q);
    let line = StreamLine {
        key: rec.key.clone(),
        color: rec.color,
        body: rec.body.clone(),
        marks,
        mark_len: q.len(),
    };
    if q.len() == 0 {
        return Some(line);
    }
    proof {
        lemma_shown_iff_positions(rec@, query@);
    }
    if line.marks.len() == 0 {
        None
    } else {
        Some(line)
    }
}

/// Filters a frozen buffer by `query`: the lines of the records in which it
/// occurs, each marked, in arrival order.
pub fn search(recs: &Vec<ContainerLog>, query: &str) -> (r: Vec<StreamLine>)
    ensures
        r@.map_values(|l: StreamLine| l@) == search_spec(recs@.map_values(|x: ContainerLog| x@), query@),
{
    let ghost rv = recs@.map_values(|x: ContainerLog| x@);
    let mut r: Vec<StreamLine> = Vec::new();
    let mut i: usize = 0;
    while i < recs.len()
        invariant
            i <= recs@.len(),
            rv == recs@.map_values(|x: ContainerLog| x@),
            r@.map_values(|l: StreamLine| l@) == search_spec(rv.take(i as int), query@),
        decreases recs@.len() - i,
    {
        let ghost before = r@;
        assert(rv.take(i + 1).drop_last() =~= rv.take(i as int));
        assert(rv.take(i + 1).last() == recs@[i as int]@);
        match highlight(&recs[i], query) {
            Some(l) => {
                r.push(l);
                assert(r@.map_values(|l: StreamLine| l@) =~= before.map_values(|l: StreamLine| l@).push(l@));
            },
            None => {},
        }
        i = i + 1;
    }
    assert(rv.take(recs@.len() as int) =~= rv);
    r
}

/// Whether a change of the query from `before` to `after` calls for a new scan.
pub fn query_changed(before: &String, after: &String) -> (r: bool)
    ensures
        r == (before@ != after@),
{
    !before.eq(after)
}

/// One step of the live display: `rec` joins the buffer, and the line to draw
/// for it under the live query comes back, or nothing when it is not shown.
pub fn receive(buffer: &mut HistoryBuffer<ContainerLog>, rec: ContainerLog, query: &str) -> (r: Option<StreamLine>)
    requires
        old(buffer).wf(),
    ensures
        final(buffer).wf(),
        final(buffer).cap() == old(buffer).cap(),
        final(buffer)@ == inserted(old(buffer)@, old(buffer).cap(), rec),
        match r {
            Some(l) => view_of(rec@, query@) == Some(l@),
            None => view_of(rec@, query@) is None,
        },
{
    let line = highlight(&rec, query);
    buffer.push(rec);
    line
}

/// Searching is a function of the buffer and the query: two searches over the
/// same records for the same query give the same lines.
pub proof fn lemma_search_deterministic(a: Seq<LogView>, b: Seq<LogView>, qa: Seq<char>, qb: Seq<char>)
    requires
        a == b,
        qa == qb,
    ensures
        search_spec(a, qa) == search_spec(b, qb),
{
}

/// A search keeps an order-preserving subset of the buffer: the kept lines are
/// those of the records at strictly increasing positions, and each is shown.
pub proof fn lemma_search_subsequence(recs: Seq<LogView>, q: Seq<char>)
    ensures
        search_indices(recs, q).len() == search_spec(recs, q).len(),
        forall|j: int| 0 <= j < search_indices(recs, q).len() ==>
            0 <= #[trigger] search_indices(recs, q)[j] < recs.len(),
        forall|j: int, k: int| 0 <= j < k < search_indices(recs, q).len() ==>
            search_indices(recs, q)[j] < search_indices(recs, q)[k],
        forall|j: int| 0 <= j < search_indices(recs, q).len() ==> {
            let i = #[trigger] search_indices(recs, q)[j];
            &&& shown(recs[i], q)
            &&& search_spec(recs, q)[j] == line_of(recs[i], q)
        },
    decreases recs.len(),
{
    if recs.len() > 0 {
        let pre = recs.drop_last();
        lemma_search_subsequence(pre, q);
        assert forall|j: int| 0 <= j < search_indices(pre, q).len() implies
            #[trigger] recs[search_indices(pre, q)[j]] == pre[search_indices(pre, q)[j]] by {}
    }
}

} // verus!
