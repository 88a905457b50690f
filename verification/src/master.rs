use vstd::prelude::*;

use crate::assoc::{find_url, lemma_url_map_entry, lemma_url_map_keys, unique_urls, url_map};
use crate::endpoint::EndPoint;
use crate::results::SentResults;
use crate::status::Status;
use crate::test::Test;
use crate::text::{decimal, decimal_string};
use std::time::Instant;

verus! {

/// Path of the master's websocket endpoint.
pub const WS_ENDPOINT: &'static str = "ws";

/// Counters that a worker reports: the aggregated ones and those of each
/// endpoint url.
#[derive(Debug)]
pub struct ResultsWebsocketMessage {
    pub agg_sent_results: SentResults,
    /// Counters per endpoint url; a url occurs at most once.
    pub endpoints_sent_results: Vec<(String, SentResults)>,
}

impl ResultsWebsocketMessage {
    /// Well-formedness: each url has at most one entry.
    pub open spec fn wf(&self) -> bool {
        unique_urls(self.endpoints_sent_results@)
    }

    /// The per-url counters as a map.
    pub open spec fn endpoint_map(&self) -> Map<Seq<char>, SentResults> {
        url_map(self.endpoints_sent_results@)
    }

    pub fn new(
        agg_sent_results: SentResults,
        endpoints_sent_results: Vec<(String, SentResults)>,
    ) -> (m: ResultsWebsocketMessage)
        ensures
            m.agg_sent_results == agg_sent_results,
            m.endpoints_sent_results == endpoints_sent_results,
    {
        ResultsWebsocketMessage { agg_sent_results, endpoints_sent_results }
    }
}

/// Messages between the master and its workers.
#[derive(Debug)]
pub enum ControlWebSocketMessage {
    /// The test a worker is to run, with its share of the users.
    Create(Test),
    Start,
    Stop,
    Finish,
    /// A worker's current counters.
    Update(ResultsWebsocketMessage),
}

/// The number of workers the master waits for: the requested number, but
/// no more than there are users.
pub open spec fn effective_workers_count(workers_count: u32, user_count: u32) -> u32 {
    if workers_count > user_count {
        user_count
    } else {
        workers_count
    }
}

/// The users handed to the next worker, when `remaining` users are left
/// to hand out: an equal share of the test's users (at most what remains),
/// or all that remains when what would be left after the share is less
/// than a share.
pub open spec fn users_for_next_worker(remaining: u32, user_count: u32, workers_count: u32) -> u32
    recommends
        workers_count > 0,
{
    let share = user_count / workers_count;
    let given = if remaining < share {
        remaining
    } else {
        share
    };
    if (remaining - given) < given {
        remaining
    } else {
        given
    }
}

/// What the next worker gets, in terms of the share `user_count /
/// workers_count`: all that remains when less than two shares remain (so
/// the last worker takes the rest), otherwise exactly one share. So it never
/// gets more than remains, and it gets at least a share whenever a share
/// remains.
pub proof fn lemma_next_worker_share(remaining: u32, user_count: u32, workers_count: u32)
    requires
        workers_count > 0,
    ensures
        users_for_next_worker(remaining, user_count, workers_count) == (if remaining < 2 * (
        user_count / workers_count) {
            remaining as int
        } else {
            (user_count / workers_count) as int
        }),
        users_for_next_worker(remaining, user_count, workers_count) <= remaining,
        remaining >= user_count / workers_count ==> users_for_next_worker(
            remaining,
            user_count,
            workers_count,
        ) >= user_count / workers_count,
{
}

/// The users left to hand out after `k` workers connected.
pub open spec fn remaining_after(user_count: u32, workers_count: u32, k: nat) -> u32
    recommends
        workers_count > 0,
    decreases k,
{
    if k == 0 {
        user_count
    } else {
        let r = remaining_after(user_count, workers_count, (k - 1) as nat);
        (r - users_for_next_worker(r, user_count, workers_count)) as u32
    }
}

/// The users handed to the `k`-th worker to connect, counting from zero.
pub open spec fn users_of_worker(user_count: u32, workers_count: u32, k: nat) -> u32 {
    users_for_next_worker(
        remaining_after(user_count, workers_count, k),
        user_count,
        workers_count,
    )
}


proof fn lemma_remaining_before_last(user_count: u32, workers_count: u32, k: nat)
    requires
        workers_count > 0,
        user_count % workers_count < user_count / workers_count,
        k < workers_count,
    ensures
        remaining_after(user_count, workers_count, k) == user_count - k * (user_count
            / workers_count),
        user_count - k * (user_count / workers_count) == (workers_count - k) * (user_count
            / workers_count) + user_count % workers_count,
    decreases k,
{
    let u = user_count as int;
    let w = workers_count as int;
    let s = u / w;
    let r = u % w;
    assert(u == w * s + r) by (nonlinear_arith)
        requires
            w > 0,
            s == u / w,
            r == u % w,
    ;
    assert(u - k * s == (w - k) * s + r) by (nonlinear_arith)
        requires
            u == w * s + r,
    ;
    if k > 0 {
        let j = (k - 1) as nat;
        lemma_remaining_before_last(user_count, workers_count, j);
        let rem = remaining_after(user_count, workers_count, j);
        assert(rem == (w - j) * s + r);
        assert((w - j) * s >= 2 * s) by (nonlinear_arith)
            requires
                w - j >= 2,
                s >= 0,
        ;
        assert(u - k * s == u - j * s - s) by (nonlinear_arith)
            requires
                k == j + 1,
        ;
    }
}

/// When the users split evenly enough among the workers (the remainder of
/// the division is smaller than the share), every worker but the last to
/// connect gets an equal share, the last one gets the share and the
/// remainder, and no user is left once all workers are connected; later
/// connections get no users.
pub proof fn lemma_users_all_handed_out(user_count: u32, workers_count: u32)
    requires
        workers_count > 0,
        user_count % workers_count < user_count / workers_count,
    ensures
        forall|k: nat|
            k + 1 < workers_count ==> #[trigger] users_of_worker(user_count, workers_count, k)
                == user_count / workers_count,
        users_of_worker(user_count, workers_count, (workers_count - 1) as nat) == user_count
            / workers_count + user_count % workers_count,
        remaining_after(user_count, workers_count, workers_count as nat) == 0,
        forall|k: nat|
            k >= workers_count ==> #[trigger] remaining_after(user_count, workers_count, k) == 0
                && users_of_worker(user_count, workers_count, k) == 0,
{
    let u = user_count as int;
    let w = workers_count as int;
    let s = u / w;
    let r = u % w;
    assert forall|k: nat| k + 1 < workers_count implies #[trigger] users_of_worker(
        user_count,
        workers_count,
        k,
    ) == user_count / workers_count by {
        lemma_remaining_before_last(user_count, workers_count, k);
        assert((w - k) * s >= 2 * s) by (nonlinear_arith)
            requires
                w - k >= 2,
                s >= 0,
        ;
    }
    let last = (workers_count - 1) as nat;
    lemma_remaining_before_last(user_count, workers_count, last);
    assert((w - last) * s == s) by (nonlinear_arith)
        requires
            w - last == 1,
    ;
    assert(remaining_after(user_count, workers_count, last) == s + r);
    assert(remaining_after(user_count, workers_count, workers_count as nat) == 0);
    assert forall|k: nat| k >= workers_count implies #[trigger] remaining_after(
        user_count,
        workers_count,
        k,
    ) == 0 && users_of_worker(user_count, workers_count, k) == 0 by {
        lemma_remaining_zero_after(user_count, workers_count, k);
    }
}

proof fn lemma_remaining_zero_after(user_count: u32, workers_count: u32, k: nat)
    requires
        workers_count > 0,
        remaining_after(user_count, workers_count, workers_count as nat) == 0,
        k >= workers_count,
    ensures
        remaining_after(user_count, workers_count, k) == 0,
        users_of_worker(user_count, workers_count, k) == 0,
    decreases k,
{
    if k > workers_count {
        lemma_remaining_zero_after(user_count, workers_count, (k - 1) as nat);
    }
}

/// Handing out users never gives away more than remains: the users left
/// only decrease, and the users handed to the first `k` workers never
/// exceed the test's users.
pub proof fn lemma_never_over_assigned(user_count: u32, workers_count: u32, k: nat)
    requires
        workers_count > 0,
    ensures
        users_of_worker(user_count, workers_count, k) <= remaining_after(
            user_count,
            workers_count,
            k,
        ),
        remaining_after(user_count, workers_count, k + 1) == remaining_after(
            user_count,
            workers_count,
            k,
        ) - users_of_worker(user_count, workers_count, k),
        remaining_after(user_count, workers_count, k) <= user_count,
    decreases k,
{
    if k > 0 {
        lemma_never_over_assigned(user_count, workers_count, (k - 1) as nat);
    }
}

/// What the master does once the last expected worker is connected.
#[derive(Debug)]
pub enum StartDecision {
    /// Broadcast this message (`Start`) to the workers.
    Broadcast(ControlWebSocketMessage),
    /// The test cannot start: log this text as critical and terminate.
    Abort(String),
}

/// Why the test does not start when the start signal cannot be delivered.
pub open spec fn start_failure_text() -> Seq<char> {
    "Error sending message to main thread, test will not start"@
}

/// The warning logged when more workers are requested than there are
/// users.
pub open spec fn workers_count_warning_text(user_count: u32) -> Seq<char> {
    "Workers count is greater than user count. Workers count will be set to ["@ + decimal(
        user_count as nat,
    ) + "]"@
}

/// The warning logged when the number of workers is cut down to the
/// number of users.
pub fn workers_count_warning(user_count: u32) -> (s: String)
    ensures
        s@ == workers_count_warning_text(user_count),
{
    let mut s = String::from_str(
        "Workers count is greater than user count. Workers count will be set to [",
    );
    s.append(decimal_string(user_count as u64).as_str());
    s.append("]");
    s
}

/// The master's shared state: its status, how many workers it waits for
/// and how many are connected, the users not yet handed to a worker, and
/// the test whose results it aggregates.
#[derive(Debug)]
pub struct State {
    pub status: Status,
    pub workers_count: u32,
    pub connected_workers: u32,
    pub test: Test,
    pub remaining_users: u32,
}

impl State {
    /// The state of a master that waits for `workers_count` workers to run
    /// `test`, clamped to the test's number of users; the flag says whether
    /// it was clamped.
    pub fn new(workers_count: u32, test: Test) -> (r: (State, bool))
        ensures
            r.0.status == Status::Created,
            r.0.workers_count == effective_workers_count(workers_count, test.user_count),
            r.1 <==> workers_count > test.user_count,
            r.0.connected_workers == 0,
            r.0.remaining_users == test.user_count,
            r.0.test == test,
    {
        let user_count = test.get_user_count();
        let clamped = workers_count > user_count;
        let workers_count = if clamped {
            user_count
        } else {
            workers_count
        };
        (
            State {
                status: Status::Created,
                workers_count,
                connected_workers: 0,
                test,
                remaining_users: user_count,
            },
            clamped,
        )
    }

    pub fn get_remaining_users_count(&self) -> (n: u32)
        ensures
            n == self.remaining_users,
    {
        self.remaining_users
    }

    pub fn set_remaining_users_count(&mut self, value: u32)
        ensures
            *final(self) == (State { remaining_users: value, ..*old(self) }),
    {
        self.remaining_users = value;
    }

    /// Counts one more connected worker (wrapping, as an atomic counter).
    pub fn increase_connected_workers_count(&mut self)
        ensures
            *final(self) == (State {
                connected_workers: (if old(self).connected_workers == u32::MAX {
                    0int
                } else {
                    old(self).connected_workers + 1
                }) as u32,
                ..*old(self)
            }),
    {
        self.connected_workers = self.connected_workers.wrapping_add(1);
    }

    /// Counts one connected worker less (wrapping, as an atomic counter).
    pub fn decrease_connected_workers_count(&mut self)
        ensures
            *final(self) == (State {
                connected_workers: (if old(self).connected_workers == 0 {
                    u32::MAX as int
                } else {
                    old(self).connected_workers - 1
                }) as u32,
                ..*old(self)
            }),
    {
        self.connected_workers = self.connected_workers.wrapping_sub(1);
    }

    pub fn get_connected_workers_count(&self) -> (n: u32)
        ensures
            n == self.connected_workers,
    {
        self.connected_workers
    }

    pub fn set_status(&mut self, status: Status)
        ensures
            *final(self) == (State { status, ..*old(self) }),
    {
        self.status = status;
    }

    pub fn get_status(&self) -> (s: Status)
        ensures
            s == self.status,
    {
        self.status.clone()
    }

    pub fn get_workers_count(&self) -> (n: u32)
        ensures
            n == self.workers_count,
    {
        self.workers_count
    }

    /// Hands the next worker its share of the users: sets it as the user
    /// count of `test` (the worker's copy of the test) and takes it from the
    /// remaining users.
    pub fn set_test_workers_count(&mut self, test: &mut Test) -> (n: u32)
        requires
            old(self).workers_count > 0,
        ensures
            n == users_for_next_worker(
                old(self).remaining_users,
                old(test).user_count,
                old(self).workers_count,
            ),
            n <= old(self).remaining_users,
            n == (if old(self).remaining_users < 2 * (old(test).user_count / old(self).workers_count) {
                old(self).remaining_users as int
            } else {
                (old(test).user_count / old(self).workers_count) as int
            }),
            *final(self) == (State { remaining_users: (old(self).remaining_users - n) as u32, ..*old(self) }),
            *final(test) == (Test { user_count: n, ..*old(test) }),
    {
        let remaining_users_count = self.get_remaining_users_count();
        let mut user_count = test.get_user_count() / self.get_workers_count();
        if remaining_users_count < user_count {
            user_count = remaining_users_count;
        }
        let new_remaining_users_count = remaining_users_count - user_count;
        if new_remaining_users_count < user_count {
            user_count = user_count + new_remaining_users_count;
        }
        self.set_remaining_users_count(remaining_users_count - user_count);
        test.set_user_count(user_count);
        proof {
            lemma_next_worker_share(
                old(self).remaining_users,
                old(test).user_count,
                old(self).workers_count,
            );
        }
        user_count
    }

    /// Admits a newly connected worker: counts it, hands `test` (the
    /// worker's copy of the test) its share of the users, and says whether
    /// the test is to start now, that is whether this worker completes the
    /// number the master waits for.
    pub fn worker_connected(&mut self, test: &mut Test) -> (r: (u32, bool))
        requires
            old(self).workers_count > 0,
        ensures
            final(self).connected_workers == (if old(self).connected_workers == u32::MAX {
                0
            } else {
                old(self).connected_workers + 1
            }),
            r.0 == users_for_next_worker(
                old(self).remaining_users,
                old(test).user_count,
                old(self).workers_count,
            ),
            r.0 == (if old(self).remaining_users < 2 * (old(test).user_count / old(self).workers_count) {
                old(self).remaining_users as int
            } else {
                (old(test).user_count / old(self).workers_count) as int
            }),
            final(self).remaining_users == old(self).remaining_users - r.0,
            *final(test) == (Test { user_count: r.0, ..*old(test) }),
            r.1 <==> final(self).connected_workers == old(self).workers_count,
            final(self).status == old(self).status,
            final(self).workers_count == old(self).workers_count,
            final(self).test == old(self).test,
    {
        self.increase_connected_workers_count();
        let n = self.set_test_workers_count(test);
        (n, self.connected_workers == self.workers_count)
    }

    /// Whether a worker's report can be added to the test's results
    /// without overflow.
    pub open spec fn can_combine(&self, message: &ResultsWebsocketMessage) -> bool {
        &&& self.test.results.can_combine(message.agg_sent_results)
        &&& forall|i: int|
            0 <= i < self.test.endpoints@.len() && message.endpoint_map().contains_key(
                #[trigger] self.test.endpoints@[i].url@,
            ) ==> self.test.endpoints@[i].results.can_combine(
                message.endpoint_map()[self.test.endpoints@[i].url@],
            )
    }

    /// The test's endpoint after adding a worker's report.
    pub open spec fn combined_endpoint(e: EndPoint, message: &ResultsWebsocketMessage) -> EndPoint {
        if message.endpoint_map().contains_key(e.url@) {
            EndPoint { results: e.results.combined(message.endpoint_map()[e.url@]), ..e }
        } else {
            e
        }
    }

    fn sent_for(message: &ResultsWebsocketMessage, url: &String) -> (r: Option<SentResults>)
        requires
            message.wf(),
        ensures
            match r {
                Some(s) => message.endpoint_map().contains_key(url@) && message.endpoint_map()[url@]
                    == s,
                None => !message.endpoint_map().contains_key(url@),
            },
    {
        proof {
            lemma_url_map_keys(message.endpoints_sent_results@, url@);
        }
        match find_url(&message.endpoints_sent_results, url) {
            Some(j) => {
                proof {
                    lemma_url_map_entry(message.endpoints_sent_results@, j as int);
                }
                Some(message.endpoints_sent_results[j].1)
            },
            None => None,
        }
    }

    /// Whether a worker's report can be added without overflow.
    pub fn fits(&self, message: &ResultsWebsocketMessage) -> (b: bool)
        requires
            message.wf(),
        ensures
            b == self.can_combine(message),
    {
        let a = &self.test.results;
        let s = &message.agg_sent_results;
        if !(a.total_requests <= u32::MAX - s.total_requests
            && a.total_failed_requests <= u32::MAX - s.total_failed_requests
            && a.total_connection_errors <= u32::MAX - s.total_connection_errors
            && a.total_response_time <= u32::MAX - s.total_response_time) {
            return false;
        }
        let n = self.test.endpoints.len();
        for i in 0..n
            invariant
                n == self.test.endpoints@.len(),
                message.wf(),
                forall|j: int|
                    0 <= j < i && message.endpoint_map().contains_key(
                        #[trigger] self.test.endpoints@[j].url@,
                    ) ==> self.test.endpoints@[j].results.can_combine(
                        message.endpoint_map()[self.test.endpoints@[j].url@],
                    ),
        {
            let e = &self.test.endpoints[i];
            match Self::sent_for(message, &e.url) {
                Some(s) => {
                    let r = &e.results;
                    if !(r.total_requests <= u32::MAX - s.total_requests
                        && r.total_failed_requests <= u32::MAX - s.total_failed_requests
                        && r.total_connection_errors <= u32::MAX - s.total_connection_errors
                        && r.total_response_time <= u32::MAX - s.total_response_time) {
                        return false;
                    }
                },
                None => {},
            }
        }
        true
    }

    /// Adds a worker's report to the test: its aggregated counters to the
    /// test's results, and the counters of each url to every endpoint of
    /// the test with that url. Users' results are not touched.
    pub fn combine_results(&mut self, message: ResultsWebsocketMessage)
        requires
            message.wf(),
            old(self).can_combine(&message),
        ensures
            final(self).test.results == old(self).test.results.combined(message.agg_sent_results),
            final(self).test.endpoints@.len() == old(self).test.endpoints@.len(),
            forall|i: int|
                0 <= i < old(self).test.endpoints@.len() ==> #[trigger] final(self).test.endpoints@[i]
                    == State::combined_endpoint(old(self).test.endpoints@[i], &message),
            final(self).test.users == old(self).test.users,
            final(self).test.same_settings(&old(self).test),
            final(self).status == old(self).status,
            final(self).workers_count == old(self).workers_count,
            final(self).connected_workers == old(self).connected_workers,
            final(self).remaining_users == old(self).remaining_users,
    {
        self.test.results.combine_sent_results(&message.agg_sent_results);
        let n = self.test.endpoints.len();
        for i in 0..n
            invariant
                n == self.test.endpoints@.len(),
                n == old(self).test.endpoints@.len(),
                message.wf(),
                old(self).can_combine(&message),
                forall|j: int|
                    0 <= j < i ==> #[trigger] self.test.endpoints@[j] == State::combined_endpoint(
                        old(self).test.endpoints@[j],
                        &message,
                    ),
                forall|j: int| i <= j < n ==> #[trigger] self.test.endpoints@[j] == old(self).test.endpoints@[j],
                self.test.results == old(self).test.results.combined(message.agg_sent_results),
                self.test.users == old(self).test.users,
                self.test.same_settings(&old(self).test),
                self.status == old(self).status,
                self.workers_count == old(self).workers_count,
                self.connected_workers == old(self).connected_workers,
                self.remaining_users == old(self).remaining_users,
        {
            match Self::sent_for(&message, &self.test.endpoints[i].url) {
                Some(s) => {
                    proof {
                        assert(old(self).test.endpoints@[i as int] == self.test.endpoints@[i as int]);
                    }
                    self.test.endpoints[i].results.combine_sent_results(&s);
                },
                None => {},
            }
        }
    }

    /// Acts on the start signal to the master's own loop, once all workers
    /// are connected: when it was delivered, the test's start is set to
    /// `now` and `Start` is to be broadcast to the workers; otherwise the
    /// master is in error, the test does not start, and the reason is to be
    /// logged as critical before the master terminates.
    pub fn on_start_signal(&mut self, delivered: bool, now: Instant) -> (r: StartDecision)
        ensures
            delivered ==> {
                &&& *final(self) == (State {
                    test: Test { start_timestamp: Some(now), ..old(self).test },
                    ..*old(self)
                })
                &&& r matches StartDecision::Broadcast(m) && m is Start
            },
            !delivered ==> {
                &&& r matches StartDecision::Abort(text) && text@ == start_failure_text()
                    && *final(self) == (State { status: Status::Error(text), ..*old(self) })
            },
    {
        if delivered {
            self.test.set_start_timestamp(now);
            StartDecision::Broadcast(ControlWebSocketMessage::Start)
        } else {
            let text = String::from_str("Error sending message to main thread, test will not start");
            self.set_status(Status::Error(text.clone()));
            StartDecision::Abort(text)
        }
    }

    /// Marks the master stopped; returns the message that tells the
    /// workers to stop.
    pub fn stop(&mut self) -> (m: ControlWebSocketMessage)
        ensures
            *final(self) == (State { status: Status::Stopped, ..*old(self) }),
            m is Stop,
    {
        self.set_status(Status::Stopped);
        ControlWebSocketMessage::Stop
    }

    /// Marks the master finished; returns the message that tells the
    /// workers to finish.
    pub fn finish(&mut self) -> (m: ControlWebSocketMessage)
        ensures
            *final(self) == (State { status: Status::Finished, ..*old(self) }),
            m is Finish,
    {
        self.set_status(Status::Finished);
        ControlWebSocketMessage::Finish
    }
}

} // verus!
