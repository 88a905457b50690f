use vstd::prelude::*;

verus! {

/// The counters that a worker sends to the master.
#[derive(Clone, Copy, Debug, PartialEq, Eq, Structural)]
pub struct SentResults {
    pub total_requests: u32,
    pub total_failed_requests: u32,
    pub total_connection_errors: u32,
    pub total_response_time: u32,
}

/// Accumulated results of a test, an endpoint or a user.
///
/// `min_response_time == 0` means that no response time was recorded yet
/// (or that the smallest one recorded was zero).
#[derive(Clone, Copy, Debug, PartialEq, Eq, Structural)]
pub struct Results {
    pub total_requests: u32,
    pub total_failed_requests: u32,
    pub total_connection_errors: u32,
    pub total_response_time: u32,
    pub average_response_time: u32,
    pub min_response_time: u32,
    pub median_response_time: u32,
    pub max_response_time: u32,
}

/// One measurement taken by a user for a request.
#[derive(Clone, Copy, Debug, PartialEq, Eq, Structural)]
pub enum Measurement {
    /// A response with a status in 2xx or 3xx, after this many milliseconds.
    ResponseTime(u32),
    /// A response with any other status.
    Failed,
    /// No response at all.
    ConnectionError,
}

impl SentResults {
    /// All counters zero.
    pub open spec fn zero() -> SentResults {
        SentResults {
            total_requests: 0,
            total_failed_requests: 0,
            total_connection_errors: 0,
            total_response_time: 0,
        }
    }
}

impl Results {
    /// Results with nothing recorded.
    pub open spec fn empty() -> Results {
        Results {
            total_requests: 0,
            total_failed_requests: 0,
            total_connection_errors: 0,
            total_response_time: 0,
            average_response_time: 0,
            min_response_time: 0,
            median_response_time: 0,
            max_response_time: 0,
        }
    }

    /// The counters of these results, as sent to the master.
    pub open spec fn sent(self) -> SentResults {
        SentResults {
            total_requests: self.total_requests,
            total_failed_requests: self.total_failed_requests,
            total_connection_errors: self.total_connection_errors,
            total_response_time: self.total_response_time,
        }
    }

    /// Whether one more response time `t` can be recorded without overflow.
    pub open spec fn can_record_time(self, t: u32) -> bool {
        &&& self.total_requests < u32::MAX
        &&& self.total_response_time + t <= u32::MAX
    }

    /// Whether one more failed request can be recorded without overflow.
    pub open spec fn can_record_failure(self) -> bool {
        &&& self.total_requests < u32::MAX
        &&& self.total_failed_requests < u32::MAX
    }

    /// Whether one more connection error can be recorded without overflow.
    pub open spec fn can_record_connection_error(self) -> bool {
        self.total_connection_errors < u32::MAX
    }

    /// Whether the counters of `s` can be added to these results without overflow.
    pub open spec fn can_combine(self, s: SentResults) -> bool {
        &&& self.total_requests + s.total_requests <= u32::MAX
        &&& self.total_failed_requests + s.total_failed_requests <= u32::MAX
        &&& self.total_connection_errors + s.total_connection_errors <= u32::MAX
        &&& self.total_response_time + s.total_response_time <= u32::MAX
    }

    /// These results after a successful request that took `t` milliseconds.
    pub open spec fn with_time(self, t: u32) -> Results {
        let total_requests = (self.total_requests + 1) as u32;
        let total_response_time = (self.total_response_time + t) as u32;
        Results {
            total_requests,
            total_response_time,
            average_response_time: (total_response_time / total_requests) as u32,
            min_response_time: if self.min_response_time == 0 || t < self.min_response_time {
                t
            } else {
                self.min_response_time
            },
            max_response_time: if t > self.max_response_time {
                t
            } else {
                self.max_response_time
            },
            ..self
        }
    }

    /// These results after a failed request (a response outside 2xx and 3xx).
    pub open spec fn with_failure(self) -> Results {
        Results {
            total_requests: (self.total_requests + 1) as u32,
            total_failed_requests: (self.total_failed_requests + 1) as u32,
            ..self
        }
    }

    /// These results after a request that got no response.
    pub open spec fn with_connection_error(self) -> Results {
        Results { total_connection_errors: (self.total_connection_errors + 1) as u32, ..self }
    }

    /// These results with the counters of `s` added; the response time
    /// statistics are left as they are.
    pub open spec fn combined(self, s: SentResults) -> Results {
        Results {
            total_requests: (self.total_requests + s.total_requests) as u32,
            total_failed_requests: (self.total_failed_requests + s.total_failed_requests) as u32,
            total_connection_errors: (self.total_connection_errors
                + s.total_connection_errors) as u32,
            total_response_time: (self.total_response_time + s.total_response_time) as u32,
            ..self
        }
    }

    /// Whether the measurement `m` can be recorded without overflow.
    pub open spec fn can_record(self, m: Measurement) -> bool {
        match m {
            Measurement::ResponseTime(t) => self.can_record_time(t),
            Measurement::Failed => self.can_record_failure(),
            Measurement::ConnectionError => self.can_record_connection_error(),
        }
    }

    /// These results after the measurement `m`.
    pub open spec fn with(self, m: Measurement) -> Results {
        match m {
            Measurement::ResponseTime(t) => self.with_time(t),
            Measurement::Failed => self.with_failure(),
            Measurement::ConnectionError => self.with_connection_error(),
        }
    }

    pub fn new() -> (r: Results)
        ensures
            r == Results::empty(),
    {
        Results {
            total_requests: 0,
            total_failed_requests: 0,
            total_connection_errors: 0,
            total_response_time: 0,
            average_response_time: 0,
            min_response_time: 0,
            median_response_time: 0,
            max_response_time: 0,
        }
    }

    pub fn create_sent_results(&self) -> (s: SentResults)
        ensures
            s == self.sent(),
    {
        SentResults {
            total_requests: self.total_requests,
            total_failed_requests: self.total_failed_requests,
            total_connection_errors: self.total_connection_errors,
            total_response_time: self.total_response_time,
        }
    }

    /// Records a successful request that took `response_time` milliseconds.
    pub fn add_response_time(&mut self, response_time: u32)
        requires
            old(self).can_record_time(response_time),
        ensures
            *final(self) == old(self).with_time(response_time),
            final(self).total_requests == old(self).total_requests + 1,
            final(self).total_response_time == old(self).total_response_time + response_time,
            final(self).total_failed_requests == old(self).total_failed_requests,
            final(self).total_connection_errors == old(self).total_connection_errors,
            final(self).max_response_time >= response_time,
            final(self).max_response_time >= old(self).max_response_time,
            final(self).max_response_time == response_time || final(self).max_response_time
                == old(self).max_response_time,
            final(self).median_response_time == old(self).median_response_time,
    {
        self.total_response_time = self.total_response_time + response_time;
        self.total_requests = self.total_requests + 1;
        self.average_response_time = self.total_response_time / self.total_requests;
        if self.min_response_time == 0 || response_time < self.min_response_time {
            self.min_response_time = response_time;
        }
        if response_time > self.max_response_time {
            self.max_response_time = response_time;
        }
    }

    /// Records a request answered with a status outside 2xx and 3xx.
    pub fn add_failed(&mut self)
        requires
            old(self).can_record_failure(),
        ensures
            *final(self) == old(self).with_failure(),
            final(self).total_requests == old(self).total_requests + 1,
            final(self).total_failed_requests == old(self).total_failed_requests + 1,
            final(self).total_connection_errors == old(self).total_connection_errors,
            final(self).total_response_time == old(self).total_response_time,
            final(self).average_response_time == old(self).average_response_time,
            final(self).min_response_time == old(self).min_response_time,
            final(self).median_response_time == old(self).median_response_time,
            final(self).max_response_time == old(self).max_response_time,
    {
        self.total_requests = self.total_requests + 1;
        self.total_failed_requests = self.total_failed_requests + 1;
    }

    /// Records a request that got no response; it counts neither as a
    /// request nor as a failure.
    pub fn add_connection_error(&mut self)
        requires
            old(self).can_record_connection_error(),
        ensures
            *final(self) == old(self).with_connection_error(),
            final(self).total_connection_errors == old(self).total_connection_errors + 1,
            final(self).total_requests == old(self).total_requests,
            final(self).total_failed_requests == old(self).total_failed_requests,
            final(self).total_response_time == old(self).total_response_time,
            final(self).average_response_time == old(self).average_response_time,
            final(self).min_response_time == old(self).min_response_time,
            final(self).median_response_time == old(self).median_response_time,
            final(self).max_response_time == old(self).max_response_time,
    {
        self.total_connection_errors = self.total_connection_errors + 1;
    }

    /// Records the measurement `m`.
    pub fn record(&mut self, m: Measurement)
        requires
            old(self).can_record(m),
        ensures
            *final(self) == old(self).with(m),
    {
        match m {
            Measurement::ResponseTime(t) => self.add_response_time(t),
            Measurement::Failed => self.add_failed(),
            Measurement::ConnectionError => self.add_connection_error(),
        }
    }

    /// Whether the measurement `m` can be recorded without overflow.
    pub fn fits(&self, m: Measurement) -> (b: bool)
        ensures
            b == self.can_record(m),
    {
        match m {
            Measurement::ResponseTime(t) => self.total_requests < u32::MAX
                && t <= u32::MAX - self.total_response_time,
            Measurement::Failed => self.total_requests < u32::MAX && self.total_failed_requests
                < u32::MAX,
            Measurement::ConnectionError => self.total_connection_errors < u32::MAX,
        }
    }

    pub fn get_total_requests(&self) -> (n: u32)
        ensures
            n == self.total_requests,
    {
        self.total_requests
    }

    pub fn get_total_failed_requests(&self) -> (n: u32)
        ensures
            n == self.total_failed_requests,
    {
        self.total_failed_requests
    }

    /// Adds the counters that a worker sent.
    pub fn combine_sent_results(&mut self, sent: &SentResults)
        requires
            old(self).can_combine(*sent),
        ensures
            *final(self) == old(self).combined(*sent),
    {
        self.total_requests = self.total_requests + sent.total_requests;
        self.total_failed_requests = self.total_failed_requests + sent.total_failed_requests;
        self.total_connection_errors = self.total_connection_errors + sent.total_connection_errors;
        self.total_response_time = self.total_response_time + sent.total_response_time;
    }
}


/// Sum of a sequence of response times.
pub open spec fn sum_times(ts: Seq<u32>) -> nat
    decreases ts.len(),
{
    if ts.len() == 0 {
        0
    } else {
        sum_times(ts.drop_last()) + ts.last() as nat
    }
}

/// Largest of a sequence of response times, 0 for none.
pub open spec fn max_time(ts: Seq<u32>) -> u32
    decreases ts.len(),
{
    if ts.len() == 0 {
        0
    } else {
        let m = max_time(ts.drop_last());
        if ts.last() > m { ts.last() } else { m }
    }
}

/// Smallest of a non-empty sequence of response times.
pub open spec fn min_time(ts: Seq<u32>) -> u32
    decreases ts.len(),
{
    if ts.len() <= 1 {
        ts[0]
    } else {
        let m = min_time(ts.drop_last());
        if ts.last() < m { ts.last() } else { m }
    }
}

/// `r` after recording the response times `ts`, in order.
pub open spec fn record_times(r: Results, ts: Seq<u32>) -> Results
    decreases ts.len(),
{
    if ts.len() == 0 {
        r
    } else {
        record_times(r, ts.drop_last()).with_time(ts.last())
    }
}

/// Recording a series of response times on fresh results counts each of
/// them as a request, sums them into the total response time, keeps the
/// largest as the maximum, the smallest as the minimum (when none is zero)
/// and the integer mean as the average.
pub proof fn lemma_record_times(ts: Seq<u32>)
    requires
        ts.len() < u32::MAX,
        sum_times(ts) <= u32::MAX,
    ensures
        record_times(Results::empty(), ts).total_requests == ts.len(),
        record_times(Results::empty(), ts).total_response_time == sum_times(ts),
        record_times(Results::empty(), ts).max_response_time == max_time(ts),
        ts.len() > 0 ==> record_times(Results::empty(), ts).average_response_time == sum_times(ts)
            / ts.len(),
        ts.len() > 0 && (forall|i: int| 0 <= i < ts.len() ==> ts[i] > 0) ==> record_times(
            Results::empty(),
            ts,
        ).min_response_time == min_time(ts),
        record_times(Results::empty(), ts).total_failed_requests == 0,
        record_times(Results::empty(), ts).total_connection_errors == 0,
    decreases ts.len(),
{
    if ts.len() > 0 {
        let prefix = ts.drop_last();
        assert(sum_times(prefix) <= sum_times(ts));
        lemma_record_times(prefix);
        if prefix.len() > 0 && (forall|i: int| 0 <= i < ts.len() ==> ts[i] > 0) {
            assert forall|i: int| 0 <= i < prefix.len() implies prefix[i] > 0 by {
                assert(prefix[i] == ts[i]);
            }
            lemma_min_time_positive(prefix);
        }
        if prefix.len() == 0 && (forall|i: int| 0 <= i < ts.len() ==> ts[i] > 0) {
            assert(ts[0] == ts.last());
        }
    }
}

proof fn lemma_min_time_positive(ts: Seq<u32>)
    requires
        ts.len() > 0,
        forall|i: int| 0 <= i < ts.len() ==> ts[i] > 0,
    ensures
        min_time(ts) > 0,
    decreases ts.len(),
{
    if ts.len() > 1 {
        let prefix = ts.drop_last();
        assert forall|i: int| 0 <= i < prefix.len() implies prefix[i] > 0 by {
            assert(prefix[i] == ts[i]);
        }
        lemma_min_time_positive(prefix);
        assert(ts.last() == ts[ts.len() - 1]);
    }
}

/// Adding to `r` the counters that `w` sends yields, counter by counter,
/// the sum of both; the response time statistics of `r` are kept.
pub proof fn lemma_combine_adds_counters(r: Results, w: Results)
    requires
        r.can_combine(w.sent()),
    ensures
        r.combined(w.sent()).total_requests == r.total_requests + w.total_requests,
        r.combined(w.sent()).total_failed_requests == r.total_failed_requests
            + w.total_failed_requests,
        r.combined(w.sent()).total_connection_errors == r.total_connection_errors
            + w.total_connection_errors,
        r.combined(w.sent()).total_response_time == r.total_response_time + w.total_response_time,
        r.combined(w.sent()).average_response_time == r.average_response_time,
        r.combined(w.sent()).min_response_time == r.min_response_time,
        r.combined(w.sent()).max_response_time == r.max_response_time,
        r.combined(w.sent()).median_response_time == r.median_response_time,
{
}

/// Combining with nothing sent changes nothing.
pub proof fn lemma_combine_zero(r: Results)
    ensures
        r.can_combine(SentResults::zero()),
        r.combined(SentResults::zero()) == r,
{
}

/// `r` after recording the measurements `ms`, in order.
pub open spec fn record_all(r: Results, ms: Seq<Measurement>) -> Results
    decreases ms.len(),
{
    if ms.len() == 0 {
        r
    } else {
        record_all(r, ms.drop_last()).with(ms.last())
    }
}

/// Whether each measurement of `ms` can be recorded, in order, starting
/// from `r`, without overflow.
pub open spec fn can_record_all(r: Results, ms: Seq<Measurement>) -> bool
    decreases ms.len(),
{
    if ms.len() == 0 {
        true
    } else {
        can_record_all(r, ms.drop_last()) && record_all(r, ms.drop_last()).can_record(ms.last())
    }
}

/// Recording any measurement keeps failed requests within requests: a
/// failure counts as a request too, and a connection error as neither.
pub proof fn lemma_failed_within_requests_step(r: Results, m: Measurement)
    requires
        r.total_failed_requests <= r.total_requests,
        r.can_record(m),
    ensures
        r.with(m).total_failed_requests <= r.with(m).total_requests,
{
}

/// On results built from fresh ones by recording measurements, failed
/// requests never exceed requests.
pub proof fn lemma_failed_within_requests(ms: Seq<Measurement>)
    requires
        can_record_all(Results::empty(), ms),
    ensures
        record_all(Results::empty(), ms).total_failed_requests <= record_all(
            Results::empty(),
            ms,
        ).total_requests,
    decreases ms.len(),
{
    if ms.len() > 0 {
        lemma_failed_within_requests(ms.drop_last());
        lemma_failed_within_requests_step(record_all(Results::empty(), ms.drop_last()), ms.last());
    }
}

/// The largest response time among the measurements, 0 for none.
pub open spec fn max_recorded(ms: Seq<Measurement>) -> u32
    decreases ms.len(),
{
    if ms.len() == 0 {
        0
    } else {
        let m = max_recorded(ms.drop_last());
        match ms.last() {
            Measurement::ResponseTime(t) => if t > m { t } else { m },
            _ => m,
        }
    }
}

/// The sum of the response times among the measurements.
pub open spec fn sum_recorded(ms: Seq<Measurement>) -> int
    decreases ms.len(),
{
    if ms.len() == 0 {
        0
    } else {
        sum_recorded(ms.drop_last()) + match ms.last() {
            Measurement::ResponseTime(t) => t as int,
            _ => 0,
        }
    }
}

/// How many of the measurements satisfy `p`.
pub open spec fn count_where(ms: Seq<Measurement>, p: spec_fn(Measurement) -> bool) -> int
    decreases ms.len(),
{
    if ms.len() == 0 {
        0
    } else {
        count_where(ms.drop_last(), p) + if p(ms.last()) { 1int } else { 0 }
    }
}

/// Results built from fresh ones by recording measurements hold: as many
/// requests as responses (successful or failed), as many failures as
/// failed responses, as many connection errors as requests without a
/// response, the sum of the successful response times, and the largest of
/// them as the maximum. Failures and connection errors leave the response
/// time statistics alone.
pub proof fn lemma_record_all_counts(ms: Seq<Measurement>)
    requires
        can_record_all(Results::empty(), ms),
    ensures
        record_all(Results::empty(), ms).max_response_time == max_recorded(ms),
        record_all(Results::empty(), ms).total_response_time == sum_recorded(ms),
        record_all(Results::empty(), ms).total_requests == count_where(
            ms,
            |m: Measurement| !(m is ConnectionError),
        ),
        record_all(Results::empty(), ms).total_failed_requests == count_where(
            ms,
            |m: Measurement| m is Failed,
        ),
        record_all(Results::empty(), ms).total_connection_errors == count_where(
            ms,
            |m: Measurement| m is ConnectionError,
        ),
        record_all(Results::empty(), ms).median_response_time == 0,
    decreases ms.len(),
{
    if ms.len() > 0 {
        lemma_record_all_counts(ms.drop_last());
    }
}

/// A failed request changes only the request and failure counts; a
/// connection error changes only its own count.
pub proof fn lemma_failure_keeps_statistics(r: Results)
    requires
        r.can_record_failure(),
        r.can_record_connection_error(),
    ensures
        r.with_failure().total_requests == r.total_requests + 1,
        r.with_failure().total_failed_requests == r.total_failed_requests + 1,
        r.with_failure().total_connection_errors == r.total_connection_errors,
        r.with_failure().total_response_time == r.total_response_time,
        r.with_failure().average_response_time == r.average_response_time,
        r.with_failure().min_response_time == r.min_response_time,
        r.with_failure().median_response_time == r.median_response_time,
        r.with_failure().max_response_time == r.max_response_time,
        r.with_connection_error().total_connection_errors == r.total_connection_errors + 1,
        r.with_connection_error().total_requests == r.total_requests,
        r.with_connection_error().total_failed_requests == r.total_failed_requests,
        r.with_connection_error().total_response_time == r.total_response_time,
        r.with_connection_error().average_response_time == r.average_response_time,
        r.with_connection_error().min_response_time == r.min_response_time,
        r.with_connection_error().median_response_time == r.median_response_time,
        r.with_connection_error().max_response_time == r.max_response_time,
{
}

} // verus!
