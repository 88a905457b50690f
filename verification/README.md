# rocust

A distributed HTTP load tester. A master waits for a number of workers,
hands each of them a share of the test's simulated users, starts them
together and aggregates the counters they report; each worker runs its
users, which send requests to randomly chosen endpoints with random pauses
and record response times, failures and connection errors.

## Layout

- `src/` — the verified library (Verus):
  - `results.rs`: counters of requests, failures, connection errors and
    response times, and their combination; laws on series of response times
    and on combining.
  - `endpoint.rs`, `endpoint_results.rs`, `status.rs`, `logger.rs`: endpoints,
    life-cycle statuses, the log buffer and log-line format.
  - `user.rs`, `assoc.rs`: users and their per-url results, kept as a list
    with unique urls and specified as a map.
  - `test.rs`, `accounting.rs`: the test (users, endpoints, aggregate),
    recording of measurements, stopping and finishing; the law that every
    measurement is counted once in the aggregate, among the users and among
    the endpoints.
  - `master.rs`: the master's state: clamping of the number of workers,
    division of the users among workers, combining of reports.
  - `worker.rs`: the worker's handling of control messages and the
    computation of the master's websocket url.
  - `text.rs`, `random.rs`: decimal notation; random draws.
- `app/` — the asynchronous runtime around the library: HTTP requests,
  websockets, timers, the log file, the statistics table, JSON messages and
  requests per second (floating point).
- `tests/` — tests of the library.
