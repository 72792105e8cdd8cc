//! Pairs the begin and end records of stuck threads into one summary each.
//!
//! The database gives back, ordered by time, one record when a thread is
//! found stuck (it has a request) and one when it is released (it has none).
//! A release is paired with the stuck record of the same thread that came
//! before it; a stuck record without a release and a release without a
//! stuck record give a summary of their own.
use vstd::prelude::*;

verus! {

/// A record of the stuck thread table.
#[derive(Debug)]
pub struct StuckthreadRow {
    pub timestamp: u64,
    pub tid: u64,
    pub duration: u64,
    pub name: String,
    pub request: Option<String>,
    pub active: Option<u64>,
}

/// A stuck thread from the time it was found stuck to the time it was
/// released, where these are known.
#[derive(Debug)]
pub struct AggregatedStuckthread {
    pub tid: u64,
    pub begin: Option<u64>,
    pub end: Option<u64>,
    pub name: String,
    pub request: Option<String>,
    pub active_start: Option<u64>,
    pub active_end: Option<u64>,
    pub duration: u64,
}

/// A record with its texts given by their characters.
pub struct RowView {
    pub timestamp: u64,
    pub tid: u64,
    pub duration: u64,
    pub name: Seq<char>,
    pub request: Option<Seq<char>>,
    pub active: Option<u64>,
}

/// A summary with its texts given by their characters.
pub struct AggregatedView {
    pub tid: u64,
    pub begin: Option<u64>,
    pub end: Option<u64>,
    pub name: Seq<char>,
    pub request: Option<Seq<char>>,
    pub active_start: Option<u64>,
    pub active_end: Option<u64>,
    pub duration: u64,
}

/// The characters of an optional text.
pub open spec fn opt_chars(o: Option<String>) -> Option<Seq<char>> {
    match o {
        Some(s) => Some(s@),
        None => None,
    }
}

impl View for StuckthreadRow {
    type V = RowView;

    open spec fn view(&self) -> RowView {
        RowView {
            timestamp: self.timestamp,
            tid: self.tid,
            duration: self.duration,
            name: self.name@,
            request: opt_chars(self.request),
            active: self.active,
        }
    }
}

impl View for AggregatedStuckthread {
    type V = AggregatedView;

    open spec fn view(&self) -> AggregatedView {
        AggregatedView {
            tid: self.tid,
            begin: self.begin,
            end: self.end,
            name: self.name@,
            request: opt_chars(self.request),
            active_start: self.active_start,
            active_end: self.active_end,
            duration: self.duration,
        }
    }
}

/// The position of the first waiting stuck record of thread `tid`.
pub open spec fn find_tid(buf: Seq<RowView>, tid: u64) -> Option<int>
    decreases buf.len(),
{
    if buf.len() == 0 {
        None
    } else {
        match find_tid(buf.drop_last(), tid) {
            Some(i) => Some(i),
            None => if buf.last().tid == tid {
                Some(buf.len() - 1)
            } else {
                None
            },
        }
    }
}

/// The end of a stuck thread: the time of its release, or its start plus the
/// duration of the release when that is later.
pub open spec fn pair_end(begin: RowView, release: RowView) -> int {
    if release.timestamp > begin.timestamp + release.duration {
        release.timestamp as int
    } else {
        begin.timestamp + release.duration
    }
}

/// The summary of a stuck record and its release.
pub open spec fn paired(b: RowView, row: RowView) -> AggregatedView {
    AggregatedView {
        tid: row.tid,
        begin: Some(b.timestamp),
        end: Some(pair_end(b, row) as u64),
        name: b.name,
        request: b.request,
        active_start: b.active,
        active_end: row.active,
        duration: row.duration,
    }
}

/// The summary of a release without a stuck record.
pub open spec fn released_only(row: RowView) -> AggregatedView {
    AggregatedView {
        tid: row.tid,
        begin: None,
        end: Some(row.timestamp),
        name: row.name,
        request: None,
        active_start: None,
        active_end: None,
        duration: row.duration,
    }
}

/// The summary of a stuck record without a release.
pub open spec fn stuck_only(b: RowView) -> AggregatedView {
    AggregatedView {
        tid: b.tid,
        begin: Some(b.timestamp),
        end: None,
        name: b.name,
        request: b.request,
        active_start: b.active,
        active_end: None,
        duration: b.duration,
    }
}

/// Reading one record: the stuck records still waiting for their release,
/// and the summaries so far.
pub open spec fn step(buf: Seq<RowView>, out: Seq<AggregatedView>, row: RowView) -> (Seq<RowView>, Seq<AggregatedView>) {
    match find_tid(buf, row.tid) {
        Some(i) => (buf.remove(i), out.push(paired(buf[i], row))),
        None => if row.request is None {
            (buf, out.push(released_only(row)))
        } else {
            (buf.push(row), out)
        },
    }
}

/// The waiting stuck records and the summaries after reading `rows`.
pub open spec fn run(rows: Seq<RowView>) -> (Seq<RowView>, Seq<AggregatedView>)
    decreases rows.len(),
{
    if rows.len() == 0 {
        (seq![], seq![])
    } else {
        let (buf, out) = run(rows.drop_last());
        step(buf, out, rows.last())
    }
}

/// Every pairing's start plus duration fits in a `u64`.
pub open spec fn pairings_fit(rows: Seq<RowView>) -> bool
    decreases rows.len(),
{
    if rows.len() == 0 {
        true
    } else {
        let buf = run(rows.drop_last()).0;
        &&& pairings_fit(rows.drop_last())
        &&& match find_tid(buf, rows.last().tid) {
            Some(i) => buf[i].timestamp + rows.last().duration <= u64::MAX,
            None => true,
        }
    }
}

/// The summaries of `rows`: those of the pairs and of the releases without a
/// stuck record in the order of the release, then those of the stuck records
/// without a release in the order in which they came.
pub open spec fn aggregate_spec(rows: Seq<RowView>) -> Seq<AggregatedView> {
    let (buf, out) = run(rows);
    out + buf.map_values(|b: RowView| stuck_only(b))
}

/// The first record of a thread lies within the records and is of that
/// thread.
pub proof fn lemma_find_tid_props(s: Seq<RowView>, tid: u64)
    ensures
        find_tid(s, tid) matches Some(i) ==> 0 <= i < s.len() && s[i].tid == tid,
    decreases s.len(),
{
    if s.len() > 0 {
        lemma_find_tid_props(s.drop_last(), tid);
    }
}

/// Pairings fit for every first part of the records when they fit for all.
pub proof fn lemma_pairings_fit_prefix(rows: Seq<RowView>, k: int)
    requires
        pairings_fit(rows),
        0 <= k <= rows.len(),
    ensures
        pairings_fit(rows.take(k)),
    decreases rows.len(),
{
    if k < rows.len() {
        assert(rows.drop_last().take(k) =~= rows.take(k));
        lemma_pairings_fit_prefix(rows.drop_last(), k);
    } else {
        assert(rows.take(k) =~= rows);
    }
}

fn copy_text(o: &Option<String>) -> (r: Option<String>)
    ensures
        opt_chars(r) == opt_chars(*o),
{
    match o {
        Some(s) => Some(s.clone()),
        None => None,
    }
}

fn find_waiting(buf: &Vec<StuckthreadRow>, tid: u64) -> (r: Option<usize>)
    ensures
        r matches Some(k) ==> find_tid(buf@.map_values(|b: StuckthreadRow| b@), tid) == Some(k as int),
        r is None ==> find_tid(buf@.map_values(|b: StuckthreadRow| b@), tid) is None,
{
    let ghost bv = buf@.map_values(|b: StuckthreadRow| b@);
    let mut i: usize = 0;
    while i < buf.len()
        invariant
            i <= buf@.len(),
            bv == buf@.map_values(|b: StuckthreadRow| b@),
            find_tid(bv.take(i as int), tid) is None,
        decreases buf@.len() - i,
    {
        assert(bv.take(i as int + 1).drop_last() =~= bv.take(i as int));
        if buf[i].tid == tid {
            proof {
                assert(bv.take(i as int + 1).last() == bv[i as int]);
                assert(find_tid(bv.take(i as int + 1), tid) == Some(i as int));
                lemma_find_tid_prefix(bv, i as int + 1);
            }
            return Some(i);
        }
        i += 1;
    }
    assert(bv.take(i as int) =~= bv);
    None
}

/// Where the first record of a thread lies in a first part, it lies there in
/// the whole.
proof fn lemma_find_tid_prefix(s: Seq<RowView>, k: int)
    requires
        0 <= k <= s.len(),
    ensures
        forall|tid: u64| #[trigger] find_tid(s.take(k), tid) is Some ==> find_tid(s, tid) == find_tid(s.take(k), tid),
    decreases s.len(),
{
    if k < s.len() {
        assert(s.drop_last().take(k) =~= s.take(k));
        lemma_find_tid_prefix(s.drop_last(), k);
    } else {
        assert(s.take(k) =~= s);
    }
}

/// Pairs the stuck records with their releases; `rows` come ordered by
/// time.
pub fn aggregate_stuckthreads(rows: &Vec<StuckthreadRow>) -> (r: Vec<AggregatedStuckthread>)
    requires
        pairings_fit(rows@.map_values(|x: StuckthreadRow| x@)),
    ensures
        r@.map_values(|a: AggregatedStuckthread| a@) == aggregate_spec(rows@.map_values(|x: StuckthreadRow| x@)),
{
    let ghost rv = rows@.map_values(|x: StuckthreadRow| x@);
    let mut buf: Vec<StuckthreadRow> = Vec::new();
    let mut out: Vec<AggregatedStuckthread> = Vec::new();
    let mut i: usize = 0;
    while i < rows.len()
        invariant
            i <= rows@.len(),
            rv == rows@.map_values(|x: StuckthreadRow| x@),
            pairings_fit(rv),
            run(rv.take(i as int)) == (
                buf@.map_values(|b: StuckthreadRow| b@),
                out@.map_values(|a: AggregatedStuckthread| a@),
            ),
        decreases rows@.len() - i,
    {
        let row = &rows[i];
        proof {
            assert(rv.take(i as int + 1).drop_last() =~= rv.take(i as int));
            assert(rv.take(i as int + 1).last() == row@);
            lemma_pairings_fit_prefix(rv, i as int + 1);
        }
        let ghost bv = buf@.map_values(|b: StuckthreadRow| b@);
        let ghost ov = out@.map_values(|a: AggregatedStuckthread| a@);
        proof {
            lemma_find_tid_props(bv, row.tid);
            let pre = rv.take(i as int + 1);
            assert(pre.drop_last() =~= rv.take(i as int));
            assert(pre.last() == row@);
            assert(run(pre.drop_last()) == (bv, ov));
            assert(run(pre) == step(bv, ov, row@));
            assert(pairings_fit(pre));
        }
        match find_waiting(&buf, row.tid) {
            Some(k) => {
                proof {
                    let pre = rv.take(i as int + 1);
                    assert(find_tid(bv, row.tid) == Some(k as int));
                    assert(find_tid(run(pre.drop_last()).0, pre.last().tid) == Some(k as int));
                    assert(run(pre.drop_last()).0[k as int].timestamp + pre.last().duration <= u64::MAX);
                }
                assert(bv[k as int].timestamp + row.duration <= u64::MAX);
                let b = buf.remove(k);
                let end = if row.timestamp > b.timestamp + row.duration {
                    row.timestamp
                } else {
                    b.timestamp + row.duration
                };
                out.push(
                    AggregatedStuckthread {
                        tid: row.tid,
                        begin: Some(b.timestamp),
                        end: Some(end),
                        name: b.name,
                        request: b.request,
                        active_start: b.active,
                        active_end: row.active,
                        duration: row.duration,
                    },
                );
                proof {
                    assert(buf@.map_values(|x: StuckthreadRow| x@) =~= bv.remove(k as int));
                    assert(out@.map_values(|a: AggregatedStuckthread| a@) =~= ov.push(paired(bv[k as int], row@)));
                }
            },
            None => {
                if row.request.is_none() {
                    out.push(
                        AggregatedStuckthread {
                            tid: row.tid,
                            begin: None,
                            end: Some(row.timestamp),
                            name: row.name.clone(),
                            request: None,
                            active_start: None,
                            active_end: None,
                            duration: row.duration,
                        },
                    );
                    proof {
                        assert(out@.map_values(|a: AggregatedStuckthread| a@) =~= ov.push(released_only(row@)));
                    }
                } else {
                    buf.push(
                        StuckthreadRow {
                            timestamp: row.timestamp,
                            tid: row.tid,
                            duration: row.duration,
                            name: row.name.clone(),
                            request: copy_text(&row.request),
                            active: row.active,
                        },
                    );
                    proof {
                        assert(buf@.map_values(|x: StuckthreadRow| x@) =~= bv.push(row@));
                    }
                }
            },
        }
        i += 1;
    }
    proof {
        assert(rv.take(i as int) =~= rv);
    }
    let ghost ov = out@.map_values(|a: AggregatedStuckthread| a@);
    let ghost bv = buf@.map_values(|b: StuckthreadRow| b@);
    let mut j: usize = 0;
    while j < buf.len()
        invariant
            j <= buf@.len(),
            bv == buf@.map_values(|b: StuckthreadRow| b@),
            out@.map_values(|a: AggregatedStuckthread| a@) == ov + bv.take(j as int).map_values(|b: RowView| stuck_only(b)),
        decreases buf@.len() - j,
    {
        let b = &buf[j];
        let ghost before = out@.map_values(|a: AggregatedStuckthread| a@);
        out.push(
            AggregatedStuckthread {
                tid: b.tid,
                begin: Some(b.timestamp),
                end: None,
                name: b.name.clone(),
                request: copy_text(&b.request),
                active_start: b.active,
                active_end: None,
                duration: b.duration,
            },
        );
        proof {
            assert(bv.take(j as int + 1).map_values(|b: RowView| stuck_only(b)) =~= bv.take(j as int).map_values(|b: RowView| stuck_only(b)).push(stuck_only(bv[j as int])));
            assert(out@.map_values(|a: AggregatedStuckthread| a@) =~= before.push(stuck_only(bv[j as int])));
        }
        j += 1;
    }
    proof {
        assert(bv.take(j as int) =~= bv);
    }
    out
}


/// Whether every pairing's start plus duration fits in a `u64`, as
/// `aggregate_stuckthreads` requires.
pub fn pairings_fit_check(rows: &Vec<StuckthreadRow>) -> (r: bool)
    ensures
        r == pairings_fit(rows@.map_values(|x: StuckthreadRow| x@)),
{
    let ghost rv = rows@.map_values(|x: StuckthreadRow| x@);
    let mut buf: Vec<StuckthreadRow> = Vec::new();
    let mut i: usize = 0;
    while i < rows.len()
        invariant
            i <= rows@.len(),
            rv == rows@.map_values(|x: StuckthreadRow| x@),
            pairings_fit(rv.take(i as int)),
            run(rv.take(i as int)).0 == buf@.map_values(|b: StuckthreadRow| b@),
        decreases rows@.len() - i,
    {
        let row = &rows[i];
        let ghost bv = buf@.map_values(|b: StuckthreadRow| b@);
        proof {
            lemma_find_tid_props(bv, row.tid);
            let pre = rv.take(i as int + 1);
            assert(pre.drop_last() =~= rv.take(i as int));
            assert(pre.last() == row@);
            assert(run(pre) == step(bv, run(rv.take(i as int)).1, row@));
        }
        match find_waiting(&buf, row.tid) {
            Some(k) => {
                if buf[k].timestamp > u64::MAX - row.duration {
                    proof {
                        assert(!pairings_fit(rv.take(i as int + 1)));
                        lemma_pairings_fit_prefix_contra(rv, i as int + 1);
                    }
                    return false;
                }
                let _ = buf.remove(k);
                proof {
                    assert(buf@.map_values(|x: StuckthreadRow| x@) =~= bv.remove(k as int));
                }
            },
            None => {
                if row.request.is_some() {
                    buf.push(
                        StuckthreadRow {
                            timestamp: row.timestamp,
                            tid: row.tid,
                            duration: row.duration,
                            name: row.name.clone(),
                            request: copy_text(&row.request),
                            active: row.active,
                        },
                    );
                    proof {
                        assert(buf@.map_values(|x: StuckthreadRow| x@) =~= bv.push(row@));
                    }
                }
            },
        }
        i += 1;
    }
    proof {
        assert(rv.take(i as int) =~= rv);
    }
    true
}

/// When the pairings of a first part do not fit, those of the whole do not.
proof fn lemma_pairings_fit_prefix_contra(rows: Seq<RowView>, k: int)
    requires
        0 <= k <= rows.len(),
        !pairings_fit(rows.take(k)),
    ensures
        !pairings_fit(rows),
{
    if pairings_fit(rows) {
        lemma_pairings_fit_prefix(rows, k);
    }
}

/// The end of a stuck thread released by `r`: the time of the release, or
/// the start plus the duration the release reports when that is later.
pub open spec fn release_end(start: u64, r: RowView) -> int {
    if r.timestamp > start + r.duration {
        r.timestamp as int
    } else {
        start + r.duration
    }
}

/// A summary that `rows` account for. One with a start time carries the
/// thread, start time, name, request and active count of a stuck record of
/// `rows` (a record with a request); if it has an end, that end, its
/// duration and its closing active count come from a later record of the same
/// thread, otherwise it has the stuck record's duration and no closing count.
/// One without a start time has no request and is a release of its thread in
/// `rows`, with its time as end.
pub open spec fn from_records(rows: Seq<RowView>, s: AggregatedView) -> bool {
    &&& s.begin is Some ==> exists|b: RowView|
        #[trigger] rows.contains(b) && b.request is Some && s.begin == Some(b.timestamp) && b.tid == s.tid
            && b.name == s.name && b.request == s.request && b.active == s.active_start
            && (s.end is None ==> s.duration == b.duration && s.active_end is None)
            && (s.end matches Some(e) ==> exists|r: RowView|
                #[trigger] rows.contains(r) && r.tid == s.tid && s.duration == r.duration
                    && s.active_end == r.active && e == release_end(b.timestamp, r))
    &&& s.begin is None ==> s.request is None && s.active_start is None && s.active_end is None
        && exists|r: RowView|
        #[trigger] rows.contains(r) && r.request is None && r.tid == s.tid && s.end == Some(r.timestamp)
            && s.name == r.name && s.duration == r.duration
}

proof fn lemma_from_records_grow(pre: Seq<RowView>, rows: Seq<RowView>, s: AggregatedView)
    requires
        from_records(pre, s),
        forall|r: RowView| pre.contains(r) ==> rows.contains(r),
    ensures
        from_records(rows, s),
{
    if s.begin is Some {
        let b = choose|b: RowView|
            #[trigger] pre.contains(b) && b.request is Some && s.begin == Some(b.timestamp) && b.tid == s.tid
                && b.name == s.name && b.request == s.request && b.active == s.active_start
                && (s.end is None ==> s.duration == b.duration && s.active_end is None)
                && (s.end matches Some(e) ==> exists|r: RowView|
                    #[trigger] pre.contains(r) && r.tid == s.tid && s.duration == r.duration
                        && s.active_end == r.active && e == release_end(b.timestamp, r));
        assert(rows.contains(b));
        if let Some(e) = s.end {
            let r = choose|r: RowView|
                #[trigger] pre.contains(r) && r.tid == s.tid && s.duration == r.duration
                    && s.active_end == r.active && e == release_end(b.timestamp, r);
            assert(rows.contains(r));
        }
    } else {
        let r = choose|r: RowView|
            #[trigger] pre.contains(r) && r.request is None && r.tid == s.tid && s.end == Some(r.timestamp)
                && s.name == r.name && s.duration == r.duration;
        assert(rows.contains(r));
    }
}

proof fn lemma_run_from_records(rows: Seq<RowView>)
    requires
        pairings_fit(rows),
    ensures
        forall|b: RowView| #[trigger] run(rows).0.contains(b) ==> rows.contains(b) && b.request is Some,
        forall|k: int| 0 <= k < run(rows).1.len() ==> from_records(rows, #[trigger] run(rows).1[k]),
    decreases rows.len(),
{
    if rows.len() > 0 {
        let pre = rows.drop_last();
        let row = rows.last();
        lemma_run_from_records(pre);
        let (buf, out) = run(pre);
        assert forall|r: RowView| pre.contains(r) implies rows.contains(r) by {
            let j = choose|j: int| 0 <= j < pre.len() && pre[j] == r;
            assert(rows[j] == r);
        }
        assert(rows[rows.len() - 1] == row);
        assert(rows.contains(row));
        assert forall|k: int| 0 <= k < out.len() implies from_records(rows, #[trigger] out[k]) by {
            lemma_from_records_grow(pre, rows, out[k]);
        }
        lemma_find_tid_props(buf, row.tid);
        match find_tid(buf, row.tid) {
            Some(i) => {
                let b = buf[i];
                assert(buf.contains(b));
                let nb = buf.remove(i);
                assert forall|x: RowView| #[trigger] nb.contains(x) implies rows.contains(x) && x.request is Some by {
                    let j = choose|j: int| 0 <= j < nb.len() && nb[j] == x;
                    if j < i {
                        assert(buf[j] == x);
                    } else {
                        assert(buf[j + 1] == x);
                    }
                    assert(buf.contains(x));
                }
                let out2 = out.push(paired(b, row));
                assert(b.timestamp + row.duration <= u64::MAX);
                assert(rows.contains(row));
                assert(from_records(rows, paired(b, row)));
                assert forall|k: int| 0 <= k < out2.len() implies from_records(rows, #[trigger] out2[k]) by {
                    if k < out.len() {
                        assert(out2[k] == out[k]);
                    }
                }
            },
            None => {
                if row.request is None {
                    let out2 = out.push(released_only(row));
                    assert(from_records(rows, released_only(row)));
                    assert forall|k: int| 0 <= k < out2.len() implies from_records(rows, #[trigger] out2[k]) by {
                        if k < out.len() {
                            assert(out2[k] == out[k]);
                        }
                    }
                } else {
                    let nb = buf.push(row);
                    assert forall|x: RowView| #[trigger] nb.contains(x) implies rows.contains(x) && x.request is Some by {
                        let j = choose|j: int| 0 <= j < nb.len() && nb[j] == x;
                        if j < buf.len() {
                            assert(buf[j] == x);
                            assert(buf.contains(x));
                        }
                    }
                }
            },
        }
    }
}

/// Every summary comes from the records: one with a start time carries the
/// thread, start, name, request and active count of a stuck record, so the
/// request a stuck thread was serving is kept, whether or not its release
/// came; its end, if any, is the later of the release time and the start plus
/// the release's duration. One without a start time has no request and is a
/// release of its thread.
pub proof fn lemma_summaries_from_records(rows: Seq<RowView>)
    requires
        pairings_fit(rows),
    ensures
        forall|k: int| 0 <= k < aggregate_spec(rows).len() ==> from_records(rows, #[trigger] aggregate_spec(rows)[k]),
{
    lemma_run_from_records(rows);
    let (buf, out) = run(rows);
    let all = aggregate_spec(rows);
    assert forall|k: int| 0 <= k < all.len() implies from_records(rows, #[trigger] all[k]) by {
        if k < out.len() {
            assert(all[k] == out[k]);
        } else {
            let b = buf[k - out.len()];
            assert(buf.contains(b));
            assert(all[k] == stuck_only(b));
            assert(from_records(rows, stuck_only(b)));
        }
    }
}

} // verus!
