use vstd::prelude::*;

use crate::percentiles::{
    ladder_from_sorted, max_of, median_from_sorted, median_lower_of, median_upper_of, min_of,
    sort_durations, sorted_of, lemma_sorted_of, Median, Percentiles,
};
use crate::request::{
    is_error_status, is_error_status_spec, is_redirect_status, is_redirect_status_spec,
    RequestError, ResponseStats,
};

verus! {

/// What the aggregator keeps of one outcome: the response, or nothing for a failure.
pub open spec fn entry_of(outcome: Result<ResponseStats, RequestError>) -> Option<ResponseStats> {
    match outcome {
        Ok(r) => Some(r),
        Err(_) => None,
    }
}

/// The responses among the recorded outcomes, in order.
pub open spec fn successes(h: Seq<Option<ResponseStats>>) -> Seq<ResponseStats>
    decreases h.len(),
{
    if h.len() == 0 {
        Seq::empty()
    } else {
        let p = successes(h.drop_last());
        match h.last() {
            Some(r) => p.push(r),
            None => p,
        }
    }
}

/// The number of recorded failures.
pub open spec fn failures(h: Seq<Option<ResponseStats>>) -> nat
    decreases h.len(),
{
    if h.len() == 0 {
        0
    } else {
        failures(h.drop_last()) + if h.last() is None {
            1nat
        } else {
            0nat
        }
    }
}

/// The durations of the responses, in order of completion.
pub open spec fn durations_of(h: Seq<Option<ResponseStats>>) -> Seq<u128> {
    successes(h).map_values(|r: ResponseStats| r.duration)
}

/// Sum of the response durations.
pub open spec fn duration_total(h: Seq<Option<ResponseStats>>) -> nat
    decreases h.len(),
{
    if h.len() == 0 {
        0
    } else {
        duration_total(h.drop_last()) + match h.last() {
            Some(r) => r.duration as nat,
            None => 0nat,
        }
    }
}

/// Sum of the response lengths.
pub open spec fn byte_total(h: Seq<Option<ResponseStats>>) -> nat
    decreases h.len(),
{
    if h.len() == 0 {
        0
    } else {
        byte_total(h.drop_last()) + match h.last() {
            Some(r) => r.content_length as nat,
            None => 0nat,
        }
    }
}

/// Whether an outcome counts as an error: a failure, or a status of 400 and above.
pub open spec fn is_error_entry(e: Option<ResponseStats>) -> bool {
    match e {
        Some(r) => is_error_status_spec(r.status),
        None => true,
    }
}

/// Whether an outcome counts as a redirect.
pub open spec fn is_redirect_entry(e: Option<ResponseStats>) -> bool {
    match e {
        Some(r) => is_redirect_status_spec(r.status),
        None => false,
    }
}

/// The number of outcomes that count as errors.
pub open spec fn error_total(h: Seq<Option<ResponseStats>>) -> nat
    decreases h.len(),
{
    if h.len() == 0 {
        0
    } else {
        error_total(h.drop_last()) + if is_error_entry(h.last()) {
            1nat
        } else {
            0nat
        }
    }
}

/// The number of outcomes that count as redirects.
pub open spec fn redirect_total(h: Seq<Option<ResponseStats>>) -> nat
    decreases h.len(),
{
    if h.len() == 0 {
        0
    } else {
        redirect_total(h.drop_last()) + if is_redirect_entry(h.last()) {
            1nat
        } else {
            0nat
        }
    }
}

proof fn lemma_counts_bounded(h: Seq<Option<ResponseStats>>)
    ensures
        error_total(h) <= h.len(),
        redirect_total(h) <= h.len(),
        successes(h).len() + failures(h) == h.len(),
    decreases h.len(),
{
    if h.len() > 0 {
        lemma_counts_bounded(h.drop_last());
    }
}

/// Every recorded outcome is either a response or a failure, so the request count is the
/// number of responses plus the number of failures.
pub proof fn lemma_requests_are_responses_plus_failures(h: Seq<Option<ResponseStats>>)
    ensures
        h.len() == successes(h).len() + failures(h),
        durations_of(h).len() == successes(h).len(),
{
    lemma_counts_bounded(h);
}

proof fn lemma_all_successes_durations(h: Seq<Option<ResponseStats>>, ds: Seq<u128>)
    requires
        h.len() == ds.len(),
        forall|i: int| 0 <= i < h.len() ==> (#[trigger] h[i] matches Some(r) && r.duration == ds[i]),
    ensures
        durations_of(h) == ds,
    decreases h.len(),
{
    if h.len() > 0 {
        let p = h.drop_last();
        let q = ds.drop_last();
        assert forall|i: int| 0 <= i < p.len() implies (#[trigger] p[i] matches Some(r) && r.duration == q[i]) by {
            assert(p[i] == h[i]);
        }
        lemma_all_successes_durations(p, q);
        assert(h[h.len() - 1] matches Some(r) && r.duration == ds[ds.len() - 1]);
        let r = h.last()->Some_0;
        assert(successes(h) == successes(p).push(r));
        assert(durations_of(h) =~= durations_of(p).push(r.duration));
        assert(ds =~= q.push(ds.last()));
    }
}

/// Feeding only responses with durations `ds` gives the median and percentiles of `ds`
/// itself, read off its ascending order.
pub proof fn lemma_round_trip(
    ds: Seq<u128>,
    h: Seq<Option<ResponseStats>>,
    snap: MetricsSnapshot,
    start_ms: u128,
    now_ms: u128,
)
    requires
        h.len() == ds.len(),
        forall|i: int| 0 <= i < h.len() ==> (#[trigger] h[i] matches Some(r) && r.duration == ds[i]),
        snap.describes(h, start_ms, now_ms),
    ensures
        snap.total_requests == ds.len(),
        snap.percentiles.ladder_of(ds),
        snap.median_duration.lower == median_lower_of(ds),
        snap.median_duration.upper == median_upper_of(ds),
        snap.min_duration == min_of(ds),
        snap.max_duration == max_of(ds),
{
    lemma_all_successes_durations(h, ds);
}

/// When every request got a response with an error status, every request counts as an error
/// and every one still contributes its duration.
pub proof fn lemma_error_statuses_keep_durations(h: Seq<Option<ResponseStats>>)
    requires
        forall|i: int| 0 <= i < h.len() ==> (#[trigger] h[i] matches Some(r) && is_error_status_spec(r.status)),
    ensures
        error_total(h) == h.len(),
        durations_of(h).len() == h.len(),
    decreases h.len(),
{
    if h.len() > 0 {
        let p = h.drop_last();
        assert forall|i: int| 0 <= i < p.len() implies (#[trigger] p[i] matches Some(r) && is_error_status_spec(r.status)) by {
            assert(p[i] == h[i]);
        }
        lemma_error_statuses_keep_durations(p);
        assert(h[h.len() - 1] matches Some(r) && is_error_status_spec(r.status));
        let r = h.last()->Some_0;
        assert(successes(h) == successes(p).push(r));
    }
}

/// Before any outcome is recorded the mean, the median and every percentile are zero.
pub proof fn lemma_empty_snapshot(snap: MetricsSnapshot, start_ms: u128, now_ms: u128)
    requires
        snap.describes(Seq::empty(), start_ms, now_ms),
    ensures
        snap.total_requests == 0,
        snap.mean_duration == (Ratio { numer: 0, denom: 1 }),
        snap.median_duration.lower == 0,
        snap.median_duration.upper == 0,
        snap.percentiles == (Percentiles { p10: 0, p25: 0, p50: 0, p75: 0, p90: 0, p95: 0, p99: 0 }),
{
    assert(durations_of(Seq::empty()) =~= Seq::<u128>::empty());
}

/// A quotient `numer / denom` with a positive denominator.
#[derive(Debug, Clone, Copy, PartialEq, Eq, Structural)]
pub struct Ratio {
    pub numer: u128,
    pub denom: u128,
}

/// The raw observations of one run: every outcome recorded so far, with running totals.
pub struct RunMetrics {
    durations: Vec<u128>,
    responses: Vec<ResponseStats>,
    total_requests: u64,
    total_duration: u128,
    total_bytes: u64,
    total_errors: u64,
    total_redirects: u64,
    start_ms: u128,
    history: Ghost<Seq<Option<ResponseStats>>>,
}

/// Derived statistics of a run at one moment.
pub struct MetricsSnapshot {
    pub total_requests: u64,
    pub total_errors: u64,
    pub total_redirects: u64,
    pub total_bytes: u64,
    pub total_duration: u128,
    /// Total duration over total requests; `0 / 1` before the first request.
    pub mean_duration: Ratio,
    pub median_duration: Median,
    pub min_duration: u128,
    pub max_duration: u128,
    pub percentiles: Percentiles,
    /// Requests per second: total requests times 1000 over the milliseconds elapsed,
    /// with an elapsed time of zero counted as one millisecond.
    pub requests_per_second: Ratio,
    pub timestamp: u128,
}

/// Milliseconds from `start_ms` to `now_ms`, zero when the clock reads earlier than the start.
pub open spec fn elapsed_spec(start_ms: u128, now_ms: u128) -> nat {
    if now_ms >= start_ms {
        (now_ms - start_ms) as nat
    } else {
        0
    }
}

impl MetricsSnapshot {
    /// The snapshot of the outcomes `h` of a run that started at `start_ms`, taken at `now_ms`.
    pub open spec fn describes(self, h: Seq<Option<ResponseStats>>, start_ms: u128, now_ms: u128) -> bool {
        let ds = durations_of(h);
        let elapsed = elapsed_spec(start_ms, now_ms);
        &&& self.total_requests == h.len()
        &&& self.total_errors == error_total(h)
        &&& self.total_redirects == redirect_total(h)
        &&& self.total_bytes == byte_total(h)
        &&& self.total_duration == duration_total(h)
        &&& self.mean_duration == (if h.len() == 0 {
            Ratio { numer: 0, denom: 1 }
        } else {
            Ratio { numer: duration_total(h) as u128, denom: h.len() as u128 }
        })
        &&& self.median_duration.lower == median_lower_of(ds)
        &&& self.median_duration.upper == median_upper_of(ds)
        &&& self.min_duration == min_of(ds)
        &&& self.max_duration == max_of(ds)
        &&& self.percentiles.ladder_of(ds)
        &&& self.requests_per_second == (Ratio {
            numer: (h.len() * 1000) as u128,
            denom: if elapsed == 0 { 1 } else { elapsed as u128 },
        })
        &&& self.timestamp == now_ms
    }
}

impl RunMetrics {
    /// Every outcome recorded so far, in order; `None` for a failure.
    pub closed spec fn history(&self) -> Seq<Option<ResponseStats>> {
        self.history@
    }

    /// When the run started, in milliseconds.
    pub closed spec fn start_spec(&self) -> u128 {
        self.start_ms
    }

    /// The totals agree with the recorded outcomes.
    pub closed spec fn wf(&self) -> bool {
        let h = self.history@;
        &&& self.total_requests == h.len()
        &&& self.responses@ == successes(h)
        &&& self.durations@ == durations_of(h)
        &&& self.total_duration == duration_total(h)
        &&& self.total_bytes == byte_total(h)
        &&& self.total_errors == error_total(h)
        &&& self.total_redirects == redirect_total(h)
    }

    /// Whether one more outcome keeps every total within its integer type.
    pub open spec fn can_record_spec(&self, outcome: Result<ResponseStats, RequestError>) -> bool {
        let h = self.history();
        &&& h.len() < u64::MAX
        &&& match outcome {
            Ok(r) => duration_total(h) + r.duration <= u128::MAX && byte_total(h)
                + r.content_length <= u64::MAX,
            Err(_) => true,
        }
    }

    /// An empty record of a run starting at `start_ms`.
    pub fn new(start_ms: u128) -> (r: RunMetrics)
        ensures
            r.wf(),
            r.history() == Seq::<Option<ResponseStats>>::empty(),
            r.start_spec() == start_ms,
    {
        let r = RunMetrics {
            durations: Vec::new(),
            responses: Vec::new(),
            total_requests: 0,
            total_duration: 0,
            total_bytes: 0,
            total_errors: 0,
            total_redirects: 0,
            start_ms,
            history: Ghost(Seq::empty()),
        };
        assert(r.durations@ =~= durations_of(r.history@));
        assert(r.responses@ =~= successes(r.history@));
        r
    }

    /// Whether `record(outcome)` may be called: no total would overflow.
    pub fn can_record(&self, outcome: &Result<ResponseStats, RequestError>) -> (r: bool)
        requires
            self.wf(),
        ensures
            r == self.can_record_spec(*outcome),
    {
        if self.total_requests == u64::MAX {
            return false;
        }
        match outcome {
            Ok(res) => res.duration <= u128::MAX - self.total_duration && res.content_length
                <= u64::MAX - self.total_bytes,
            Err(_) => true,
        }
    }

    /// Records one finished request: a response adds its duration, length and status
    /// classification; a failure counts as a request and as an error, with no duration.
    pub fn record(&mut self, outcome: Result<ResponseStats, RequestError>)
        requires
            old(self).wf(),
            old(self).can_record_spec(outcome),
        ensures
            final(self).wf(),
            final(self).history() == old(self).history().push(entry_of(outcome)),
            final(self).start_spec() == old(self).start_spec(),
    {
        let ghost h = self.history@;
        let ghost e = entry_of(outcome);
        proof {
            lemma_counts_bounded(h);
            assert(h.push(e).drop_last() == h);
        }
        match outcome {
            Ok(res) => {
                self.durations.push(res.duration);
                self.total_requests = self.total_requests + 1;
                self.total_duration = self.total_duration + res.duration;
                self.total_bytes = self.total_bytes + res.content_length;
                if is_error_status(res.status) {
                    self.total_errors = self.total_errors + 1;
                }
                if is_redirect_status(res.status) {
                    self.total_redirects = self.total_redirects + 1;
                }
                self.responses.push(res);
            },
            Err(_) => {
                self.total_requests = self.total_requests + 1;
                self.total_errors = self.total_errors + 1;
            },
        }
        self.history = Ghost(h.push(e));
        proof {
            let h2 = h.push(e);
            assert(successes(h2).map_values(|r: ResponseStats| r.duration) =~= self.durations@);
        }
    }

    /// The number of requests recorded, successful or not.
    pub fn total_requests(&self) -> (r: u64)
        requires
            self.wf(),
        ensures
            r == self.history().len(),
    {
        self.total_requests
    }

    /// The number of recorded outcomes that count as errors.
    pub fn total_errors(&self) -> (r: u64)
        requires
            self.wf(),
        ensures
            r == error_total(self.history()),
    {
        self.total_errors
    }

    /// The number of recorded responses with a redirect status.
    pub fn total_redirects(&self) -> (r: u64)
        requires
            self.wf(),
        ensures
            r == redirect_total(self.history()),
    {
        self.total_redirects
    }

    /// The response durations, in order of completion.
    pub fn durations(&self) -> (r: &Vec<u128>)
        requires
            self.wf(),
        ensures
            r@ == durations_of(self.history()),
    {
        &self.durations
    }

    /// The responses, in order of completion.
    pub fn responses(&self) -> (r: &Vec<ResponseStats>)
        requires
            self.wf(),
        ensures
            r@ == successes(self.history()),
    {
        &self.responses
    }

    /// When the run started, in milliseconds.
    pub fn start_ms(&self) -> (r: u128)
        ensures
            r == self.start_spec(),
    {
        self.start_ms
    }

    /// A private copy of the durations.
    fn copy_durations(&self) -> (r: Vec<u128>)
        ensures
            r@ == self.durations@,
    {
        let mut out: Vec<u128> = Vec::new();
        let n = self.durations.len();
        let mut i: usize = 0;
        while i < n
            invariant
                n == self.durations@.len(),
                i <= n,
                out@ == self.durations@.subrange(0, i as int),
            decreases n - i,
        {
            out.push(self.durations[i]);
            i = i + 1;
            assert(out@ =~= self.durations@.subrange(0, i as int));
        }
        assert(out@ =~= self.durations@);
        out
    }

    /// Derives the statistics of the run at `now_ms` from a sorted private copy of the
    /// durations; the recorded data is left as it is.
    pub fn snapshot(&self, now_ms: u128) -> (r: MetricsSnapshot)
        requires
            self.wf(),
        ensures
            r.describes(self.history(), self.start_spec(), now_ms),
    {
        let ghost h = self.history@;
        let ghost ds = durations_of(h);
        let mut sorted = self.copy_durations();
        sort_durations(&mut sorted);
        proof {
            lemma_sorted_of(ds);
        }
        let percentiles = ladder_from_sorted(&sorted, Ghost(ds));
        let median_duration = median_from_sorted(&sorted, Ghost(ds));
        let n = sorted.len();
        let (min_duration, max_duration) = if n == 0 {
            (0u128, 0u128)
        } else {
            (sorted[0], sorted[n - 1])
        };
        let mean_duration = if self.total_requests == 0 {
            Ratio { numer: 0, denom: 1 }
        } else {
            Ratio { numer: self.total_duration, denom: self.total_requests as u128 }
        };
        let elapsed: u128 = if now_ms >= self.start_ms {
            now_ms - self.start_ms
        } else {
            0
        };
        let requests_per_second = Ratio {
            numer: (self.total_requests as u128) * 1000,
            denom: if elapsed == 0 {
                1
            } else {
                elapsed
            },
        };
        MetricsSnapshot {
            total_requests: self.total_requests,
            total_errors: self.total_errors,
            total_redirects: self.total_redirects,
            total_bytes: self.total_bytes,
            total_duration: self.total_duration,
            mean_duration,
            median_duration,
            min_duration,
            max_duration,
            percentiles,
            requests_per_second,
            timestamp: now_ms,
        }
    }
}

} // verus!
