//! Planning a parallel run of equilibrium cases and gathering what its workers deliver.

use vstd::prelude::*;
use crate::error::{invalid_input, input_error, fails_with, CeaResult, Error, ErrorView};

verus! {

/// The number of workers when the machine offers `available` (none if it cannot tell, in
/// which case one) and there are `case_count` cases: no more workers than cases, and at least
/// one.
pub open spec fn spec_default_thread_count(available: Option<usize>, case_count: usize) -> usize {
    let offered: usize = match available {
        Some(n) => n,
        None => 1,
    };
    let wanted: usize = if case_count > 1 { case_count } else { 1 };
    if offered < wanted { offered } else { wanted }
}

/// The default number of worker threads for `case_count` cases, given the parallelism the
/// machine offers.
pub fn default_thread_count(available: Option<usize>, case_count: usize) -> (n: usize)
    ensures
        n == spec_default_thread_count(available, case_count),
{
    let offered: usize = match available {
        Some(n) => n,
        None => 1,
    };
    let wanted: usize = if case_count > 1 { case_count } else { 1 };
    if offered < wanted { offered } else { wanted }
}

/// The size of each chunk of `n` cases spread over `threads` workers: the cases divided
/// among `min(threads, n)` workers, rounded up.
pub open spec fn chunk_size(n: int, threads: int) -> int {
    let workers = if threads < n { threads } else { n };
    (n + workers - 1) / workers
}

/// The `i`-th chunk of `n` cases in chunks of `c`.
pub open spec fn chunk(n: int, c: int, i: int) -> (usize, usize) {
    let start = i * c;
    let end = if (i + 1) * c < n { (i + 1) * c } else { n };
    (start as usize, end as usize)
}

/// `v` is the chunking of `n` cases into chunks of `c`: as many chunks as it takes to cover
/// the cases, each the next `c` cases (the last one possibly shorter).
pub open spec fn is_chunking(v: Seq<(usize, usize)>, n: int, c: int) -> bool {
    &&& v.len() * c >= n
    &&& (v.len() - 1) * c < n
    &&& forall|i: int| 0 <= i < v.len() ==> #[trigger] v[i] == chunk(n, c, i)
}

/// `ranges` cut the cases `0..n` into consecutive, non-empty chunks, in order.
pub open spec fn is_partition(ranges: Seq<(usize, usize)>, n: int) -> bool {
    &&& n == 0 <==> ranges.len() == 0
    &&& ranges.len() > 0 ==> ranges[0].0 == 0 && ranges.last().1 == n
    &&& forall|j: int| 0 <= j < ranges.len() ==> (#[trigger] ranges[j]).0 < ranges[j].1
    &&& forall|j: int| 0 <= j < ranges.len() - 1 ==> (#[trigger] ranges[j]).1 == ranges[j + 1].0
}

/// The chunks of a parallel run of `case_count` cases on `threads` workers: none for no
/// cases, a refusal for no workers, else consecutive chunks of [`chunk_size`] cases (the
/// last one possibly shorter), as many as it takes to cover the cases.
pub fn chunk_ranges(case_count: usize, threads: usize) -> (r: CeaResult<Vec<(usize, usize)>>)
    ensures
        case_count == 0 ==> (r matches Ok(v) && v@.len() == 0),
        case_count > 0 && threads == 0 ==> fails_with(
            r,
            input_error("run_parallel_cases"@, "thread count must be greater than zero"@),
        ),
        case_count > 0 && threads > 0 ==> (r matches Ok(v) && is_chunking(v@, case_count as int, chunk_size(case_count as int, threads as int))),
{
    if case_count == 0 {
        return Ok(Vec::new());
    }
    if threads == 0 {
        return Err(invalid_input("run_parallel_cases", "thread count must be greater than zero"));
    }
    let workers: usize = if threads < case_count { threads } else { case_count };
    let c: usize = (case_count - 1) / workers + 1;
    proof {
        let n = case_count as int;
        let w = workers as int;
        assert(c == (n + w - 1) / w && c >= 1) by (nonlinear_arith)
            requires
                w > 0,
                n >= 1,
                c == (n - 1) / w + 1,
        ;
    }
    let mut v: Vec<(usize, usize)> = Vec::new();
    let mut start: usize = 0;
    let ghost mut i: int = 0;
    while start < case_count
        invariant
            c >= 1,
            c == chunk_size(case_count as int, threads as int),
            start <= i * c,
            start < case_count ==> start == i * c,
            start <= case_count,
            v@.len() == i,
            i >= 0,
            i > 0 ==> (i - 1) * c < case_count,
            forall|k: int| 0 <= k < i ==> #[trigger] v@[k] == chunk(case_count as int, c as int, k),
        decreases case_count - start,
    {
        let end: usize = if case_count - start <= c { case_count } else { start + c };
        proof {
            assert((i + 1) * c == i * c + c) by (nonlinear_arith);
        }
        v.push((start, end));
        start = end;
        proof {
            i = i + 1;
        }
    }
    Ok(v)
}

/// The default number of workers is at least one, no more than the cases (or one, when
/// there are none), and no more than the machine offers; so a run with the default number
/// of workers is never refused for want of workers.
pub proof fn lemma_default_thread_count_bounds(available: Option<usize>, case_count: usize)
    requires
        available matches Some(a) ==> a > 0,
    ensures
        1 <= spec_default_thread_count(available, case_count),
        case_count > 0 ==> spec_default_thread_count(available, case_count) <= case_count,
        case_count == 0 ==> spec_default_thread_count(available, case_count) == 1,
        available matches Some(a) ==> spec_default_thread_count(available, case_count) <= a,
        available is None ==> spec_default_thread_count(available, case_count) == 1,
{
}

/// The chunks of a run of `n` cases on `threads` workers cut the cases `0..n` into
/// consecutive, non-empty chunks, in order (so each case is in exactly one chunk), and
/// there are no more chunks, and so no more workers, than threads or cases.
pub proof fn lemma_chunks_partition_cases(n: usize, threads: usize, chunks: Seq<(usize, usize)>)
    requires
        n > 0,
        threads > 0,
        is_chunking(chunks, n as int, chunk_size(n as int, threads as int)),
    ensures
        is_partition(chunks, n as int),
        chunks.len() <= threads,
        chunks.len() <= n,
{
    let ni = n as int;
    let w: int = if threads < n { threads as int } else { ni };
    let c = chunk_size(ni, threads as int);
    let len = chunks.len() as int;
    assert(c == (ni + w - 1) / w);
    assert(c >= 1 && c * w >= ni) by (nonlinear_arith)
        requires
            w >= 1,
            ni >= 1,
            c == (ni + w - 1) / w,
    ;
    assert(len >= 1 && len <= w) by (nonlinear_arith)
        requires
            c >= 1,
            c * w >= ni,
            ni >= 1,
            len * c >= ni,
            (len - 1) * c < ni,
    ;
    assert forall|j: int| 0 <= j < len implies (#[trigger] chunks[j]).0 < chunks[j].1 by {
        assert(chunks[j] == chunk(ni, c, j));
        assert(j * c <= (len - 1) * c && j * c < (j + 1) * c) by (nonlinear_arith)
            requires
                0 <= j < len,
                c >= 1,
        ;
    }
    assert forall|j: int| 0 <= j < len - 1 implies (#[trigger] chunks[j]).1 == chunks[j + 1].0 by {
        assert(chunks[j] == chunk(ni, c, j));
        assert(chunks[j + 1] == chunk(ni, c, j + 1));
        assert((j + 1) * c <= (len - 1) * c) by (nonlinear_arith)
            requires
                0 <= j < len - 1,
                c >= 1,
        ;
    }
    assert(chunks[0] == chunk(ni, c, 0));
    assert(chunks[len - 1] == chunk(ni, c, len - 1));
    assert(len * c == (len - 1) * c + c) by (nonlinear_arith);
}

/// What a worker delivered: nothing if it panicked, else its error or the results of its
/// chunk, in order.
pub type WorkerOutcome<R> = Option<CeaResult<Vec<R>>>;

/// The position of the first worker that panicked or failed, if any.
pub open spec fn first_failure<R>(outcomes: Seq<WorkerOutcome<R>>) -> Option<int>
    decreases outcomes.len(),
{
    if outcomes.len() == 0 {
        None
    } else {
        match first_failure(outcomes.drop_last()) {
            Some(j) => Some(j),
            None => match outcomes.last() {
                Some(Ok(_)) => None,
                _ => Some(outcomes.len() - 1),
            },
        }
    }
}

/// The number of results worker `j` delivered (none if it did not succeed).
pub open spec fn delivered<R>(outcomes: Seq<WorkerOutcome<R>>, j: int) -> int {
    match outcomes[j] {
        Some(Ok(values)) => values@.len() as int,
        _ => 0,
    }
}

/// The position of the first worker that delivered fewer results than its chunk has cases.
pub open spec fn first_short<R>(outcomes: Seq<WorkerOutcome<R>>, ranges: Seq<(usize, usize)>) -> Option<int>
    decreases outcomes.len(),
{
    if outcomes.len() == 0 {
        None
    } else {
        let j = outcomes.len() - 1;
        match first_short(outcomes.drop_last(), ranges) {
            Some(k) => Some(k),
            None => if delivered(outcomes, j) < ranges[j].1 - ranges[j].0 {
                Some(j)
            } else {
                None
            },
        }
    }
}

/// The results a worker delivered: none unless it succeeded.
pub open spec fn values_of<R>(outcome: WorkerOutcome<R>) -> Seq<R> {
    match outcome {
        Some(Ok(values)) => values@,
        _ => Seq::empty(),
    }
}

/// All results the workers delivered, worker after worker.
pub open spec fn all_delivered<R>(outcomes: Seq<WorkerOutcome<R>>) -> Seq<R>
    decreases outcomes.len(),
{
    if outcomes.len() == 0 {
        Seq::empty()
    } else {
        all_delivered(outcomes.drop_last()) + values_of(outcomes.last())
    }
}

/// The decimal digits of `n`.
pub open spec fn decimal(n: nat) -> Seq<char>
    decreases n,
{
    if n < 10 {
        seq![digit(n)]
    } else {
        decimal(n / 10) + seq![digit(n % 10)]
    }
}

pub open spec fn digit(d: nat) -> char {
    if d == 0 { '0' } else if d == 1 { '1' } else if d == 2 { '2' } else if d == 3 { '3' } else if d
        == 4 { '4' } else if d == 5 { '5' } else if d == 6 { '6' } else if d == 7 { '7' } else if d
        == 8 { '8' } else { '9' }
}

fn digit_str(d: usize) -> (s: &'static str)
    requires
        d < 10,
    ensures
        s@ == seq![digit(d as nat)],
{
    proof {
        reveal_strlit("0");
        reveal_strlit("1");
        reveal_strlit("2");
        reveal_strlit("3");
        reveal_strlit("4");
        reveal_strlit("5");
        reveal_strlit("6");
        reveal_strlit("7");
        reveal_strlit("8");
        reveal_strlit("9");
    }
    if d == 0 {
        "0"
    } else if d == 1 {
        "1"
    } else if d == 2 {
        "2"
    } else if d == 3 {
        "3"
    } else if d == 4 {
        "4"
    } else if d == 5 {
        "5"
    } else if d == 6 {
        "6"
    } else if d == 7 {
        "7"
    } else if d == 8 {
        "8"
    } else {
        "9"
    }
}

/// Appends the decimal digits of `n` to `s`.
fn push_decimal(s: &mut String, n: usize)
    ensures
        final(s)@ == old(s)@ + decimal(n as nat),
    decreases n,
{
    if n >= 10 {
        push_decimal(s, n / 10);
    }
    s.append(digit_str(n % 10));
    proof {
        if n >= 10 {
            assert(old(s)@ + decimal(n as nat) == old(s)@ + decimal((n / 10) as nat) + seq![digit((n % 10) as nat)]);
        }
    }
}

/// The context of the error for a case that no worker delivered.
pub open spec fn missing_context(index: nat) -> Seq<char> {
    "run_parallel_cases result "@ + decimal(index)
}

/// `r` is what gathering the outcomes gives: the first panic or failure of a worker, in
/// worker order; else, if some worker delivered fewer results than its chunk has cases, the
/// error that names the first case without a result; else all results in case order.
pub open spec fn gathered<R>(outcomes: Seq<WorkerOutcome<R>>, ranges: Seq<(usize, usize)>, r: CeaResult<Vec<R>>) -> bool {
    match first_failure(outcomes) {
        Some(j) => match outcomes[j] {
            Some(Err(e)) => r matches Err(x) && x@ == e@,
            _ => fails_with(r, ErrorView::ThreadPanic { context: "run_parallel_cases"@ }),
        },
        None => match first_short(outcomes, ranges) {
            Some(j) => fails_with(
                r,
                ErrorView::ThreadPanic {
                    context: missing_context((ranges[j].0 + delivered(outcomes, j)) as nat),
                },
            ),
            None => r matches Ok(v) && v@ == all_delivered(outcomes),
        },
    }
}

proof fn lemma_first_failure_push<R>(outcomes: Seq<WorkerOutcome<R>>, o: WorkerOutcome<R>)
    ensures
        first_failure(outcomes.push(o)) == match first_failure(outcomes) {
            Some(j) => Some(j),
            None => match o {
                Some(Ok(_)) => None,
                _ => Some(outcomes.len() as int),
            },
        },
{
    assert(outcomes.push(o).drop_last() =~= outcomes);
}

proof fn lemma_first_short_push<R>(
    outcomes: Seq<WorkerOutcome<R>>,
    o: WorkerOutcome<R>,
    ranges: Seq<(usize, usize)>,
)
    ensures
        first_short(outcomes.push(o), ranges) == match first_short(outcomes, ranges) {
            Some(k) => Some(k),
            None => if delivered(outcomes.push(o), outcomes.len() as int) < ranges[outcomes.len() as int].1
                - ranges[outcomes.len() as int].0 {
                Some(outcomes.len() as int)
            } else {
                None
            },
        },
{
    assert(outcomes.push(o).drop_last() =~= outcomes);
}

proof fn lemma_first_failure_prefix<R>(outcomes: Seq<WorkerOutcome<R>>, j: int)
    requires
        0 <= j <= outcomes.len(),
        first_failure(outcomes.take(j)) is Some,
    ensures
        first_failure(outcomes) == first_failure(outcomes.take(j)),
    decreases outcomes.len() - j,
{
    if j < outcomes.len() {
        lemma_first_failure_push(outcomes.take(j), outcomes[j]);
        assert(outcomes.take(j).push(outcomes[j]) =~= outcomes.take(j + 1));
        lemma_first_failure_prefix(outcomes, j + 1);
    } else {
        assert(outcomes.take(j) =~= outcomes);
    }
}

/// Every worker succeeded and delivered one result per case of its chunk.
pub open spec fn all_full<R>(outcomes: Seq<WorkerOutcome<R>>, ranges: Seq<(usize, usize)>) -> bool {
    &&& outcomes.len() == ranges.len()
    &&& forall|j: int|
        0 <= j < outcomes.len() ==> (#[trigger] outcomes[j]) is Some && outcomes[j]->0 is Ok
            && values_of(outcomes[j]).len() == ranges[j].1 - ranges[j].0
}

proof fn lemma_full_prefix<R>(outcomes: Seq<WorkerOutcome<R>>, ranges: Seq<(usize, usize)>, n: int, k: int)
    requires
        is_partition(ranges, n),
        all_full(outcomes, ranges),
        0 <= k <= outcomes.len(),
    ensures
        first_failure(outcomes.take(k)) is None,
        first_short(outcomes.take(k), ranges) is None,
        all_delivered(outcomes.take(k)).len() == if k == 0 {
            0
        } else {
            ranges[k - 1].1 as int
        },
        forall|j: int| 0 <= j < k ==> (#[trigger] ranges[j]).1 <= all_delivered(outcomes.take(k)).len(),
        forall|j: int, o: int|
            0 <= j < k && 0 <= o < ranges[j].1 - ranges[j].0 ==> #[trigger] all_delivered(
                outcomes.take(k),
            )[ranges[j].0 + o] == #[trigger] values_of(outcomes[j])[o],
    decreases k,
{
    if k == 0 {
        assert(outcomes.take(0) =~= Seq::<WorkerOutcome<R>>::empty());
    } else {
        let prev = outcomes.take(k - 1);
        let o = outcomes[k - 1];
        lemma_full_prefix(outcomes, ranges, n, k - 1);
        assert(prev.push(o) =~= outcomes.take(k));
        lemma_first_failure_push(prev, o);
        lemma_first_short_push(prev, o, ranges);
        assert(outcomes.take(k).drop_last() =~= prev);
        assert(outcomes[k - 1] is Some && outcomes[k - 1]->0 is Ok);
        assert(delivered(outcomes.take(k), k - 1) == values_of(o).len());
        let before = all_delivered(prev);
        let after = all_delivered(outcomes.take(k));
        assert(after == before + values_of(o));
        if k >= 2 {
            assert(ranges[k - 2].1 == ranges[k - 1].0);
        } else {
            assert(ranges[0].0 == 0);
        }
        assert(before.len() == ranges[k - 1].0);
        assert forall|j: int, i: int|
            0 <= j < k && 0 <= i < ranges[j].1 - ranges[j].0 implies #[trigger] after[ranges[j].0 + i]
            == #[trigger] values_of(outcomes[j])[i] by {
            if j < k - 1 {
                assert(ranges[j].1 <= before.len());
                assert(after[ranges[j].0 + i] == before[ranges[j].0 + i]);
            } else {
                assert(after[ranges[j].0 + i] == values_of(o)[i]);
            }
        }
        assert forall|j: int| 0 <= j < k implies (#[trigger] ranges[j]).1 <= after.len() by {
            if j < k - 1 {
                assert(ranges[j].1 <= before.len());
            }
        }
    }
}

/// When every worker of a run delivered all the results of its chunk, and the chunks cut
/// the cases `0..n` in order, gathering succeeds with one result per case, in case order:
/// the result of the case at offset `o` of chunk `j` is the `o`-th result of worker `j`.
pub proof fn lemma_full_delivery_in_case_order<R>(
    outcomes: Seq<WorkerOutcome<R>>,
    ranges: Seq<(usize, usize)>,
    n: int,
    r: CeaResult<Vec<R>>,
)
    requires
        is_partition(ranges, n),
        all_full(outcomes, ranges),
        gathered(outcomes, ranges, r),
    ensures
        r matches Ok(v) && v@.len() == n && forall|j: int, o: int|
            0 <= j < ranges.len() && 0 <= o < ranges[j].1 - ranges[j].0 ==> v@[ranges[j].0 + o]
                == #[trigger] values_of(outcomes[j])[o],
{
    lemma_full_prefix(outcomes, ranges, n, outcomes.len() as int);
    assert(outcomes.take(outcomes.len() as int) =~= outcomes);
}

/// With no failed worker, every worker succeeded.
pub proof fn lemma_no_failure_means_all_succeeded<R>(outcomes: Seq<WorkerOutcome<R>>)
    requires
        first_failure(outcomes) is None,
    ensures
        forall|j: int| 0 <= j < outcomes.len() ==> (#[trigger] outcomes[j]) is Some && outcomes[j]->0 is Ok,
    decreases outcomes.len(),
{
    if outcomes.len() > 0 {
        lemma_no_failure_means_all_succeeded(outcomes.drop_last());
        assert forall|j: int| 0 <= j < outcomes.len() implies (#[trigger] outcomes[j]) is Some && outcomes[j]->0 is Ok by {
            if j < outcomes.len() - 1 {
                assert(outcomes[j] == outcomes.drop_last()[j]);
            }
        }
    }
}

/// With no short worker, every worker delivered at least as many results as its chunk has
/// cases.
pub proof fn lemma_none_short<R>(outcomes: Seq<WorkerOutcome<R>>, ranges: Seq<(usize, usize)>)
    requires
        first_short(outcomes, ranges) is None,
    ensures
        forall|j: int| 0 <= j < outcomes.len() ==> #[trigger] delivered(outcomes, j) >= ranges[j].1 - ranges[j].0,
    decreases outcomes.len(),
{
    if outcomes.len() > 0 {
        let prev = outcomes.drop_last();
        lemma_none_short(prev, ranges);
        assert forall|j: int| 0 <= j < outcomes.len() implies #[trigger] delivered(outcomes, j) >= ranges[j].1
            - ranges[j].0 by {
            if j < outcomes.len() - 1 {
                assert(outcomes[j] == prev[j]);
                assert(delivered(outcomes, j) == delivered(prev, j));
            }
        }
    }
}

/// Every case of a partition of `0..n` lies in one of its chunks.
pub proof fn lemma_partition_covers(ranges: Seq<(usize, usize)>, n: int, i: int) -> (j: int)
    requires
        is_partition(ranges, n),
        0 <= i < n,
    ensures
        0 <= j < ranges.len(),
        ranges[j].0 <= i < ranges[j].1,
    decreases ranges.len(),
{
    let last = ranges.len() - 1;
    if i >= ranges[last].0 {
        last
    } else {
        let prev = ranges.drop_last();
        let m = ranges[last].0 as int;
        if last == 0 {
            assert(ranges[0].0 == 0);
            assert(false);
        }
        assert(prev.len() > 0);
        assert(ranges[last - 1].1 == ranges[last].0);
        assert(is_partition(prev, m));
        lemma_partition_covers(prev, m, i)
    }
}

/// The chunks of a partition of `0..n` lie within `0..n`.
pub proof fn lemma_partition_within(ranges: Seq<(usize, usize)>, n: int)
    requires
        is_partition(ranges, n),
    ensures
        forall|j: int| 0 <= j < ranges.len() ==> (#[trigger] ranges[j]).1 <= n,
    decreases ranges.len(),
{
    if ranges.len() > 0 {
        let last = ranges.len() - 1;
        let prev = ranges.drop_last();
        if last > 0 {
            assert(ranges[last - 1].1 == ranges[last].0);
            assert(is_partition(prev, ranges[last].0 as int));
            lemma_partition_within(prev, ranges[last].0 as int);
            assert forall|j: int| 0 <= j < ranges.len() implies (#[trigger] ranges[j]).1 <= n by {
                if j < last {
                    assert(ranges[j] == prev[j]);
                }
            }
        }
    }
}

/// Gathers what the workers of a parallel run delivered, one outcome per chunk of `ranges`
/// in order, into the results of all cases.
pub fn collect_results<R>(ranges: &[(usize, usize)], outcomes: Vec<WorkerOutcome<R>>) -> (r: CeaResult<Vec<R>>)
    requires
        outcomes@.len() == ranges@.len(),
        forall|j: int|
            0 <= j < ranges@.len() ==> (#[trigger] ranges@[j]).0 <= ranges@[j].1,
    ensures
        gathered(outcomes@, ranges@, r),
{
    let ghost all = outcomes@;
    let mut rest = outcomes;
    let mut results: Vec<R> = Vec::new();
    let mut short: Option<usize> = None;
    let mut j: usize = 0;
    while j < ranges.len()
        invariant
            all == outcomes@,
            all.len() == ranges@.len(),
            forall|k: int| 0 <= k < ranges@.len() ==> (#[trigger] ranges@[k]).0 <= ranges@[k].1,
            j <= ranges@.len(),
            rest@ == all.skip(j as int),
            first_failure(all.take(j as int)) is None,
            results@ == all_delivered(all.take(j as int)),
            short == match first_short(all.take(j as int), ranges@) {
                Some(k) => Some((ranges@[k].0 + delivered(all, k)) as usize),
                None => None::<usize>,
            },
            first_short(all.take(j as int), ranges@) matches Some(k) ==> 0 <= k < j && delivered(all, k)
                < ranges@[k].1 - ranges@[k].0,
        decreases ranges@.len() - j,
    {
        let o = rest.remove(0);
        proof {
            assert(o == all[j as int]);
            assert(all.take(j as int).push(o) =~= all.take(j + 1));
            lemma_first_failure_push(all.take(j as int), o);
            lemma_first_short_push(all.take(j as int), o, ranges@);
            assert(all.take(j + 1).drop_last() =~= all.take(j as int));
            assert(delivered(all.take(j + 1), j as int) == delivered(all, j as int));
            assert forall|k: int| 0 <= k < j implies delivered(all.take(j + 1), k) == delivered(all, k) by {}
            assert(rest@ =~= all.skip(j + 1));
        }
        match o {
            None => {
                let r = Err(Error::ThreadPanic { context: "run_parallel_cases".to_owned() });
                proof {
                    assert(first_failure(all.take(j + 1)) == Some(j as int));
                    lemma_first_failure_prefix(all, j + 1);
                    assert(first_failure(all) == Some(j as int));
                    assert(all[j as int] is None);
                    assert(gathered(all, ranges@, r));
                }
                return r;
            },
            Some(Err(e)) => {
                let r: CeaResult<Vec<R>> = Err(e);
                proof {
                    assert(first_failure(all.take(j + 1)) == Some(j as int));
                    lemma_first_failure_prefix(all, j + 1);
                    assert(first_failure(all) == Some(j as int));
                    assert(gathered(all, ranges@, r));
                }
                return r;
            },
            Some(Ok(values)) => {
                let mut values = values;
                let got: usize = values.len();
                if short.is_none() && got < ranges[j].1 - ranges[j].0 {
                    short = Some(ranges[j].0 + got);
                }
                results.append(&mut values);
            },
        }
        j = j + 1;
    }
    assert(all.take(j as int) =~= all);
    match short {
        Some(index) => {
            let mut context = "run_parallel_cases result ".to_owned();
            push_decimal(&mut context, index);
            Err(Error::ThreadPanic { context })
        },
        None => Ok(results),
    }
}

} // verus!
