use vstd::prelude::*;

use crate::master::{ControlWebSocketMessage, ResultsWebsocketMessage, WS_ENDPOINT};
use crate::status::Status;
use crate::test::{endpoints_sent_map, Test};
use crate::text::{decimal, decimal_string};

verus! {

#[verifier::external_type_specification]
#[verifier::external_body]
pub struct ExParseError(url::ParseError);

/// A parsed address: its serialization and, when its origin is a tuple,
/// the scheme, the host (a domain, or an IP address in its usual notation)
/// and the port (the scheme's default when none is given).
pub struct UrlOrigin {
    pub serialized: String,
    pub tuple: Option<(String, String, u16)>,
}

impl UrlOrigin {
    pub open spec fn tuple_view(&self) -> Option<(Seq<char>, Seq<char>, u16)> {
        match self.tuple {
            Some((scheme, host, port)) => Some((scheme@, host@, port)),
            None => None,
        }
    }
}

/// What `url::Url::parse` makes of `addr`, followed by `Url::origin`:
/// `None` when it does not parse, otherwise the serialized url and the
/// tuple origin (scheme, host, port), if the origin is a tuple.
pub uninterp spec fn url_origin(addr: Seq<char>) -> Option<(Seq<char>, Option<(Seq<char>, Seq<char>, u16)>)>;

/// What `url::Url::parse` makes of `base`, followed by `Url::join` with
/// `path`: `None` when either fails, otherwise the serialized url.
pub uninterp spec fn joined_url(base: Seq<char>, path: Seq<char>) -> Option<Seq<char>>;

/// Parses `addr` with `url::Url::parse` and reads its origin with
/// `Url::origin`; the result is the value named `url_origin(addr)`.
#[verifier::external_body]
fn parse_origin(addr: &str) -> (r: Result<UrlOrigin, url::ParseError>)
    ensures
        match r {
            Ok(o) => url_origin(addr@) == Some((o.serialized@, o.tuple_view())),
            Err(_) => url_origin(addr@) is None,
        },
{
    let url = url::Url::parse(addr)?;
    let tuple = match url.origin() {
        url::Origin::Tuple(scheme, url::Host::Domain(d), port) => Some((scheme, d, port)),
        url::Origin::Tuple(scheme, url::Host::Ipv4(i), port) => Some((scheme, i.to_string(), port)),
        url::Origin::Tuple(scheme, url::Host::Ipv6(i), port) => Some((scheme, i.to_string(), port)),
        url::Origin::Opaque(_) => None,
    };
    Ok(UrlOrigin { serialized: url.to_string(), tuple })
}

/// Parses `base` with `url::Url::parse` and resolves `path` against it with
/// `Url::join`; the result is the value named `joined_url(base, path)`.
#[verifier::external_body]
fn join_url(base: &str, path: &str) -> (r: Result<String, url::ParseError>)
    ensures
        match r {
            Ok(s) => joined_url(base@, path@) == Some(s@),
            Err(_) => joined_url(base@, path@) is None,
        },
{
    Ok(url::Url::parse(base)?.join(path)?.to_string())
}

/// The kinds of `url::ParseError`, with `Other` for kinds that later
/// versions of the url crate may add.
#[derive(Clone, Copy, Debug, PartialEq, Eq, Structural)]
pub enum UrlParseError {
    EmptyHost,
    IdnaError,
    InvalidPort,
    InvalidIpv4Address,
    InvalidIpv6Address,
    InvalidDomainCharacter,
    RelativeUrlWithoutBase,
    RelativeUrlWithCannotBeABaseBase,
    SetHostOnCannotBeABaseUrl,
    Overflow,
    Other,
}

/// The kind of a url parse error.
pub uninterp spec fn parse_error_kind(e: url::ParseError) -> UrlParseError;

/// The kind of `e`: its `url::ParseError` variant, or `Other` for one that
/// this library does not know; the result is the value named
/// `parse_error_kind(e)`.
#[verifier::external_body]
fn kind_of_parse_error(e: &url::ParseError) -> (k: UrlParseError)
    ensures
        k == parse_error_kind(*e),
{
    match e {
        url::ParseError::EmptyHost => UrlParseError::EmptyHost,
        url::ParseError::IdnaError => UrlParseError::IdnaError,
        url::ParseError::InvalidPort => UrlParseError::InvalidPort,
        url::ParseError::InvalidIpv4Address => UrlParseError::InvalidIpv4Address,
        url::ParseError::InvalidIpv6Address => UrlParseError::InvalidIpv6Address,
        url::ParseError::InvalidDomainCharacter => UrlParseError::InvalidDomainCharacter,
        url::ParseError::RelativeUrlWithoutBase => UrlParseError::RelativeUrlWithoutBase,
        url::ParseError::RelativeUrlWithCannotBeABaseBase => UrlParseError::RelativeUrlWithCannotBeABaseBase,
        url::ParseError::SetHostOnCannotBeABaseUrl => UrlParseError::SetHostOnCannotBeABaseUrl,
        url::ParseError::Overflow => UrlParseError::Overflow,
        _ => UrlParseError::Other,
    }
}

/// The text of a url parse error, from its `Display` implementation; nothing
/// is stated of it. Used only for kinds this library does not know.
#[verifier::external_body]
fn parse_error_text(e: &url::ParseError) -> String {
    e.to_string()
}

impl UrlParseError {
    /// How the url crate describes an error of this kind.
    pub open spec fn text(self) -> Seq<char> {
        match self {
            UrlParseError::EmptyHost => "empty host"@,
            UrlParseError::IdnaError => "invalid international domain name"@,
            UrlParseError::InvalidPort => "invalid port number"@,
            UrlParseError::InvalidIpv4Address => "invalid IPv4 address"@,
            UrlParseError::InvalidIpv6Address => "invalid IPv6 address"@,
            UrlParseError::InvalidDomainCharacter => "invalid domain character"@,
            UrlParseError::RelativeUrlWithoutBase => "relative URL without a base"@,
            UrlParseError::RelativeUrlWithCannotBeABaseBase => "relative URL with a cannot-be-a-base base"@,
            UrlParseError::SetHostOnCannotBeABaseUrl => "a cannot-be-a-base URL doesn\u{2019}t have a host to set"@,
            UrlParseError::Overflow => "URLs more than 4 GB are not supported"@,
            UrlParseError::Other => Seq::empty(),
        }
    }

    /// The description of an error of a known kind; `None` for `Other`.
    pub fn describe(&self) -> (s: Option<String>)
        ensures
            match s {
                Some(t) => *self != UrlParseError::Other && t@ == self.text(),
                None => *self == UrlParseError::Other,
            },
    {
        match self {
            UrlParseError::EmptyHost => Some(String::from_str("empty host")),
            UrlParseError::IdnaError => Some(String::from_str("invalid international domain name")),
            UrlParseError::InvalidPort => Some(String::from_str("invalid port number")),
            UrlParseError::InvalidIpv4Address => Some(String::from_str("invalid IPv4 address")),
            UrlParseError::InvalidIpv6Address => Some(String::from_str("invalid IPv6 address")),
            UrlParseError::InvalidDomainCharacter => Some(String::from_str("invalid domain character")),
            UrlParseError::RelativeUrlWithoutBase => Some(String::from_str("relative URL without a base")),
            UrlParseError::RelativeUrlWithCannotBeABaseBase => Some(
                String::from_str("relative URL with a cannot-be-a-base base"),
            ),
            UrlParseError::SetHostOnCannotBeABaseUrl => Some(
                String::from_str("a cannot-be-a-base URL doesn\u{2019}t have a host to set"),
            ),
            UrlParseError::Overflow => Some(String::from_str("URLs more than 4 GB are not supported")),
            UrlParseError::Other => None,
        }
    }
}

/// Why the master's address gives no websocket url.
#[derive(Debug)]
pub enum WorkerUrlError {
    /// The address, or the websocket url built from it, does not parse.
    Parse(url::ParseError),
    /// The scheme is neither `http` nor `https`.
    UnknownScheme(String),
    /// The address has no tuple origin; holds the serialized address.
    InvalidUrl(String),
}

impl WorkerUrlError {
    /// A description of the error.
    pub fn message(&self) -> (s: String)
        ensures
            match self {
                WorkerUrlError::UnknownScheme(scheme) => s@ == "Unknown scheme: "@ + scheme@,
                WorkerUrlError::InvalidUrl(u) => s@ == "Invalid url: "@ + u@,
                WorkerUrlError::Parse(e) => parse_error_kind(*e) != UrlParseError::Other ==> s@
                    == parse_error_kind(*e).text(),
            },
    {
        match self {
            WorkerUrlError::Parse(e) => match kind_of_parse_error(e).describe() {
                Some(t) => t,
                None => parse_error_text(e),
            },
            WorkerUrlError::UnknownScheme(scheme) => {
                let mut s = String::from_str("Unknown scheme: ");
                s.append(scheme.as_str());
                s
            },
            WorkerUrlError::InvalidUrl(u) => {
                let mut s = String::from_str("Invalid url: ");
                s.append(u.as_str());
                s
            },
        }
    }
}

/// The websocket scheme for an http scheme: `ws` for `http`, `wss` for
/// `https`, none for any other.
pub open spec fn ws_scheme_for(scheme: Seq<char>) -> Option<Seq<char>> {
    if scheme == "http"@ {
        Some("ws"@)
    } else if scheme == "https"@ {
        Some("wss"@)
    } else {
        None
    }
}

/// `scheme://host:port`.
pub open spec fn base_url(scheme: Seq<char>, host: Seq<char>, port: u16) -> Seq<char> {
    scheme + "://"@ + host + ":"@ + decimal(port as nat)
}

/// The master's websocket url for the master address `addr`, or the error
/// that `Worker::parse_url` returns.
pub open spec fn websocket_url_of(addr: Seq<char>) -> Option<Seq<char>> {
    match url_origin(addr) {
        Some((_, Some((scheme, host, port)))) => match ws_scheme_for(scheme) {
            Some(ws) => joined_url(base_url(ws, host, port), "ws"@),
            None => None,
        },
        _ => None,
    }
}

/// The websocket base url for a parsed master address:
/// `ws://host:port` for an `http` address, `wss://host:port` for an
/// `https` one.
pub fn websocket_base(origin: UrlOrigin) -> (r: Result<String, WorkerUrlError>)
    ensures
        match origin.tuple_view() {
            Some((scheme, host, port)) => match ws_scheme_for(scheme) {
                Some(ws) => r matches Ok(b) && b@ == base_url(ws, host, port),
                None => r matches Err(WorkerUrlError::UnknownScheme(sc)) && sc@ == scheme,
            },
            None => r matches Err(WorkerUrlError::InvalidUrl(u)) && u@ == origin.serialized@,
        },
{
    let serialized = origin.serialized;
    match origin.tuple {
        Some((scheme, host, port)) => {
            proof {
                reveal_strlit("http");
                reveal_strlit("https");
                reveal_strlit("ws");
                reveal_strlit("wss");
                reveal_strlit("://");
                reveal_strlit(":");
            }
            let http = String::from_str("http");
            let https = String::from_str("https");
            let mut base = if scheme == http {
                String::from_str("ws")
            } else if scheme == https {
                String::from_str("wss")
            } else {
                return Err(WorkerUrlError::UnknownScheme(scheme));
            };
            base.append("://");
            base.append(host.as_str());
            base.append(":");
            let port_text = decimal_string(port as u64);
            base.append(port_text.as_str());
            Ok(base)
        },
        None => Err(WorkerUrlError::InvalidUrl(serialized)),
    }
}

/// The line a worker logs on receiving a control message: the number of
/// users of a received test, or what it is about to do; nothing for a
/// report.
pub open spec fn announcement_text(message: ControlWebSocketMessage) -> Option<Seq<char>> {
    match message {
        ControlWebSocketMessage::Create(t) => Some(
            "Creating Test with ["@ + decimal(t.user_count as nat) + "] users"@,
        ),
        ControlWebSocketMessage::Start => Some("Starting test"@),
        ControlWebSocketMessage::Stop => Some("Stopping test"@),
        ControlWebSocketMessage::Finish => Some("Finishing test"@),
        ControlWebSocketMessage::Update(_) => None,
    }
}

pub fn announcement(message: &ControlWebSocketMessage) -> (s: Option<String>)
    ensures
        match s {
            Some(text) => announcement_text(*message) == Some(text@),
            None => announcement_text(*message) is None,
        },
{
    match message {
        ControlWebSocketMessage::Create(t) => {
            let mut s = String::from_str("Creating Test with [");
            s.append(decimal_string(t.user_count as u64).as_str());
            s.append("] users");
            Some(s)
        },
        ControlWebSocketMessage::Start => Some(String::from_str("Starting test")),
        ControlWebSocketMessage::Stop => Some(String::from_str("Stopping test")),
        ControlWebSocketMessage::Finish => Some(String::from_str("Finishing test")),
        ControlWebSocketMessage::Update(_) => None,
    }
}

/// What a worker does after a control message from the master.
#[derive(Clone, Copy, Debug, PartialEq, Eq, Structural)]
pub enum WorkerCommand {
    /// Nothing beyond the change of state.
    Nothing,
    /// Start running the stored test and reporting its results.
    RunTest,
    /// Stop the test and the worker.
    Stop,
    /// Finish the test and the worker.
    Finish,
}

/// A worker: it connects to the master, receives a test with its share of
/// the users, runs it on command and reports the results.
#[derive(Debug)]
pub struct Worker {
    pub id: String,
    pub status: Status,
    pub master_addr: String,
    pub print_stats_to_console: bool,
}

impl Worker {
    pub fn new(id: String, master_addr: String, print_stats_to_console: bool) -> (w: Worker)
        ensures
            w.id == id,
            w.status == Status::Created,
            w.master_addr == master_addr,
            w.print_stats_to_console == print_stats_to_console,
    {
        Worker { id, status: Status::Created, master_addr, print_stats_to_console }
    }

    pub fn set_status(&mut self, status: Status)
        ensures
            *final(self) == (Worker { status, ..*old(self) }),
    {
        self.status = status;
    }

    pub fn get_status(&self) -> (s: Status)
        ensures
            s == self.status,
    {
        self.status.clone()
    }

    pub fn get_id(&self) -> (i: &String)
        ensures
            *i == self.id,
    {
        &self.id
    }

    /// The websocket url of the master: the master address with `http`
    /// turned into `ws` and `https` into `wss`, reduced to scheme, host and
    /// port, with the websocket path resolved against it.
    pub fn parse_url(&self) -> (r: Result<String, WorkerUrlError>)
        ensures
            match r {
                Ok(u) => websocket_url_of(self.master_addr@) == Some(u@),
                Err(e) => websocket_url_of(self.master_addr@) is None && match e {
                    WorkerUrlError::Parse(_) => url_origin(self.master_addr@) is None || (url_origin(
                        self.master_addr@,
                    ) matches Some((_, Some(t))) && ws_scheme_for(t.0) is Some),
                    WorkerUrlError::UnknownScheme(scheme) => url_origin(self.master_addr@) matches Some(
                        (_, Some((sc, _, _))),
                    ) && sc == scheme@ && ws_scheme_for(scheme@) is None,
                    WorkerUrlError::InvalidUrl(u) => url_origin(self.master_addr@) == Some(
                        (u@, None::<(Seq<char>, Seq<char>, u16)>),
                    ),
                },
            },
    {
        let origin = match parse_origin(self.master_addr.as_str()) {
            Ok(o) => o,
            Err(e) => {
                return Err(WorkerUrlError::Parse(e));
            },
        };
        let base = match websocket_base(origin) {
            Ok(b) => b,
            Err(e) => {
                return Err(e);
            },
        };
        proof {
            reveal_strlit("ws");
        }
        match join_url(base.as_str(), WS_ENDPOINT) {
            Ok(u) => Ok(u),
            Err(e) => Err(WorkerUrlError::Parse(e)),
        }
    }

    /// Prepares a test received from the master to run here: it prints
    /// statistics as this worker does, and runs until told to stop or
    /// finish.
    pub fn accept_test(&self, test: &mut Test)
        ensures
            *final(test) == (Test {
                print_stats_to_console: self.print_stats_to_console,
                run_time: None,
                ..*old(test)
            }),
    {
        test.set_print_stats_to_console(self.print_stats_to_console);
        test.set_run_time(None);
    }

    /// Marks the worker running; says whether there is a test to run.
    pub fn run_test(&mut self, test: &Option<Test>) -> (b: bool)
        ensures
            *final(self) == (Worker { status: Status::Running, ..*old(self) }),
            b <==> test is Some,
    {
        self.set_status(Status::Running);
        test.is_some()
    }

    /// Stops the test, if there is one.
    pub fn stop_test(&self, test: &mut Option<Test>)
        ensures
            match *old(test) {
                Some(t) => *final(test) matches Some(u) && u.stopped_from(&t),
                None => *final(test) is None,
            },
    {
        if let Some(mut t) = test.take() {
            t.stop();
            *test = Some(t);
        }
    }

    /// Finishes the test, if there is one.
    pub fn finish_test(&self, test: &mut Option<Test>)
        ensures
            match *old(test) {
                Some(t) => *final(test) matches Some(u) && u.finished_from(&t),
                None => *final(test) is None,
            },
    {
        if let Some(mut t) = test.take() {
            t.finish();
            *test = Some(t);
        }
    }

    /// Marks the worker stopped and stops its test.
    pub fn stop(&mut self, test: &mut Option<Test>)
        ensures
            *final(self) == (Worker { status: Status::Stopped, ..*old(self) }),
            match *old(test) {
                Some(t) => *final(test) matches Some(u) && u.stopped_from(&t),
                None => *final(test) is None,
            },
    {
        self.set_status(Status::Stopped);
        self.stop_test(test);
    }

    /// Marks the worker finished and finishes its test.
    pub fn finish(&mut self, test: &mut Option<Test>)
        ensures
            *final(self) == (Worker { status: Status::Finished, ..*old(self) }),
            match *old(test) {
                Some(t) => *final(test) matches Some(u) && u.finished_from(&t),
                None => *final(test) is None,
            },
    {
        self.set_status(Status::Finished);
        self.finish_test(test);
    }

    /// The report of the test's counters for the master, if there is a
    /// test.
    pub fn create_results_websocket_message(&self, test: &Option<Test>) -> (m: Option<
        ResultsWebsocketMessage,
    >)
        ensures
            match *test {
                Some(t) => m matches Some(msg) && msg.wf() && msg.agg_sent_results
                    == t.results.sent() && msg.endpoint_map() == endpoints_sent_map(t.endpoints@),
                None => m is None,
            },
    {
        match test {
            Some(t) => {
                let agg_sent_results = t.clone_results().create_sent_results();
                let endpoints_sent_results = t.create_endpoints_sent_results();
                Some(ResultsWebsocketMessage::new(agg_sent_results, endpoints_sent_results))
            },
            None => None,
        }
    }

    /// Acts on a control message from the master: stores a received test
    /// (prepared by `accept_test`), marks the worker running on `Start`,
    /// stops or finishes it and its test on `Stop` or `Finish`, and ignores
    /// reports; returns what remains to be done outside.
    pub fn handle_message(&mut self, test: &mut Option<Test>, message: ControlWebSocketMessage) -> (c:
        WorkerCommand)
        ensures
            match message {
                ControlWebSocketMessage::Create(t) => {
                    &&& *final(self) == *old(self)
                    &&& *final(test) == Some(
                        Test {
                            print_stats_to_console: old(self).print_stats_to_console,
                            run_time: None,
                            ..t
                        },
                    )
                    &&& c == WorkerCommand::Nothing
                },
                ControlWebSocketMessage::Start => {
                    &&& *final(self) == (Worker { status: Status::Running, ..*old(self) })
                    &&& *final(test) == *old(test)
                    &&& c == (if *old(test) is Some {
                        WorkerCommand::RunTest
                    } else {
                        WorkerCommand::Nothing
                    })
                },
                ControlWebSocketMessage::Stop => {
                    &&& *final(self) == (Worker { status: Status::Stopped, ..*old(self) })
                    &&& match *old(test) {
                        Some(t) => *final(test) matches Some(u) && u.stopped_from(&t),
                        None => *final(test) is None,
                    }
                    &&& c == WorkerCommand::Stop
                },
                ControlWebSocketMessage::Finish => {
                    &&& *final(self) == (Worker { status: Status::Finished, ..*old(self) })
                    &&& match *old(test) {
                        Some(t) => *final(test) matches Some(u) && u.finished_from(&t),
                        None => *final(test) is None,
                    }
                    &&& c == WorkerCommand::Finish
                },
                ControlWebSocketMessage::Update(_) => {
                    &&& *final(self) == *old(self)
                    &&& *final(test) == *old(test)
                    &&& c == WorkerCommand::Nothing
                },
            },
    {
        match message {
            ControlWebSocketMessage::Create(mut t) => {
                self.accept_test(&mut t);
                *test = Some(t);
                WorkerCommand::Nothing
            },
            ControlWebSocketMessage::Start => {
                if self.run_test(test) {
                    WorkerCommand::RunTest
                } else {
                    WorkerCommand::Nothing
                }
            },
            ControlWebSocketMessage::Stop => {
                self.stop(test);
                WorkerCommand::Stop
            },
            ControlWebSocketMessage::Finish => {
                self.finish(test);
                WorkerCommand::Finish
            },
            ControlWebSocketMessage::Update(_) => WorkerCommand::Nothing,
        }
    }

    /// Acts on the master closing the connection: the worker and its test
    /// stop.
    pub fn connection_closed(&mut self, test: &mut Option<Test>) -> (c: WorkerCommand)
        ensures
            *final(self) == (Worker { status: Status::Stopped, ..*old(self) }),
            match *old(test) {
                Some(t) => *final(test) matches Some(u) && u.stopped_from(&t),
                None => *final(test) is None,
            },
            c == WorkerCommand::Stop,
    {
        self.stop(test);
        WorkerCommand::Stop
    }
}

} // verus!
