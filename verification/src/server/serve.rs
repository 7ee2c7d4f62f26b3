//! The decisions of a running server: what to do with a request, and how
//! the accept loop and a connection end.

use std::rc::Rc;
use vstd::prelude::*;
use vstd::string::*;
use crate::frontend::middleware::{share, Next};
use crate::runtime::{child_fiber_name, TarantoolHyperExecutor};
use crate::server::config::BindParams;
use crate::server::error::Error;
use crate::server::request::{Request, RequestView};
use crate::server::response::{Body, Response, ResponseView, StatusCode};
use crate::server::table::literal;
use crate::server::wire::extension_count;
use crate::server::{Server, Table};
use crate::text::joined;

verus! {

/// What the main fiber of a server needs: its name, where to listen, and
/// what answers the requests.
pub struct ServerFiber<H, M> {
    pub name: String,
    pub bind: BindParams,
    pub processor: ServerProcessor<H, M>,
}

/// Answers the requests of a started server. Every connection holds one.
pub struct ServerProcessor<H, M> {
    state: Rc<Server<H, M>>,
}

impl<H, M> View for ServerProcessor<H, M> {
    type V = Table<H, M>;

    /// The routing table that requests are answered from.
    closed spec fn view(&self) -> Table<H, M> {
        (*self.state)@
    }
}

impl<H, M> Server<H, M> {
    /// Ends the registration of routes: gives what the main fiber of the
    /// server runs on.
    pub fn into_fiber(self) -> (fiber: ServerFiber<H, M>)
        requires
            self.wf(),
        ensures
            fiber.name@ == self.label(),
            fiber.bind.host@ == self.settings().bind.host@,
            fiber.bind.port == self.settings().bind.port,
            fiber.processor.wf(),
            fiber.processor@ == self@,
            fiber.processor.label() == self.label(),
            forall|path: Seq<char>| #[trigger] fiber.processor.matched(path) == self.matched(path),
    {
        let name = String::from_str(self.name());
        let bind = self.config().bind.duplicate();
        ServerFiber { name, bind, processor: ServerProcessor { state: Rc::new(self) } }
    }
}

/// What to do with a request.
pub enum Dispatch<'a, H, M> {
    /// Run the chain on the request, which carries what the captures of
    /// the pattern hold.
    Run { next: &'a Next<H, M>, request: Request },
    /// Answer with the response: no chain answers to the request.
    Answer { response: Response },
}

/// The response for a request that no pattern answers to.
pub open spec fn not_found_response(response: ResponseView) -> bool {
    &&& response.status == 404
    &&& response.headers == Map::<Seq<char>, Seq<Seq<u8>>>::empty()
    &&& extension_count(response.extensions) == 0
    &&& response.body == Some("404 Not Found".spec_bytes())
}

/// The response for a request whose method the pattern has no chain for.
pub open spec fn method_not_allowed_response(response: ResponseView) -> bool {
    &&& response.status == 405
    &&& response.headers == Map::<Seq<char>, Seq<Seq<u8>>>::empty()
    &&& extension_count(response.extensions) == 0
    &&& response.body == Some("405 Method Not Allowed".spec_bytes())
}

/// What becomes of a request for `method` at `path` that came in as
/// `request`: the chain that the table holds for the pattern that answers,
/// to be run on the request with the captures of the pattern; or the
/// response for a path that no pattern answers to, or for a method that
/// the pattern has no chain for.
pub open spec fn dispatched<H, M>(
    table: Table<H, M>,
    matched: Option<(Seq<char>, Seq<(Seq<char>, Seq<char>)>)>,
    request: RequestView,
    dispatch: Dispatch<'_, H, M>,
) -> bool {
    &&& match matched {
        None => dispatch matches Dispatch::Answer { response } && not_found_response(response@),
        Some((pattern, captures)) => {
            &&& table.patterns.contains(pattern)
            &&& routed(table, pattern, captures, request, dispatch)
        },
    }
    &&& table.patterns.contains(request.path) && literal(request.path) ==> routed(
        table,
        request.path,
        Seq::empty(),
        request,
        dispatch,
    )
}

/// `dispatch` is what the table holds for the method of `request` at the
/// pattern written `pattern`, which captured `captures`.
pub open spec fn routed<H, M>(
    table: Table<H, M>,
    pattern: Seq<char>,
    captures: Seq<(Seq<char>, Seq<char>)>,
    request: RequestView,
    dispatch: Dispatch<'_, H, M>,
) -> bool {
    match table.chain_at(pattern, request.method) {
        None => dispatch matches Dispatch::Answer { response } && method_not_allowed_response(
            response@,
        ),
        Some(chain) => {
            &&& dispatch matches Dispatch::Run { next, request: handed }
            &&& next@ == chain
            &&& handed@ == (RequestView { params: captures, ..request })
        },
    }
}

/// What looking a request up gives: the chain that the table holds for
/// the pattern that answers to the path of `request`, with the request
/// that carries the captures of the pattern; `NotFound` where no pattern
/// answers, `MethodNotAllowed` where the pattern has no chain for the
/// method.
pub open spec fn looked_up<H, M>(
    table: Table<H, M>,
    matched: Option<(Seq<char>, Seq<(Seq<char>, Seq<char>)>)>,
    request: RequestView,
    found: Result<(&Next<H, M>, Request), Error>,
) -> bool {
    &&& match matched {
        None => found == Err::<(&Next<H, M>, Request), Error>(Error::NotFound),
        Some((pattern, captures)) => {
            &&& table.patterns.contains(pattern)
            &&& found_at(table, pattern, captures, request, found)
        },
    }
    &&& table.patterns.contains(request.path) && literal(request.path) ==> found_at(
        table,
        request.path,
        Seq::empty(),
        request,
        found,
    )
}

/// `found` is what the table holds for the method of `request` at the
/// pattern written `pattern`, which captured `captures`.
pub open spec fn found_at<H, M>(
    table: Table<H, M>,
    pattern: Seq<char>,
    captures: Seq<(Seq<char>, Seq<char>)>,
    request: RequestView,
    found: Result<(&Next<H, M>, Request), Error>,
) -> bool {
    match table.chain_at(pattern, request.method) {
        None => found == Err::<(&Next<H, M>, Request), Error>(Error::MethodNotAllowed),
        Some(chain) => {
            &&& found matches Ok((next, handed))
            &&& next@ == chain
            &&& handed@ == (RequestView { params: captures, ..request })
        },
    }
}

/// The request that is handed to a chain carries what the captures of the
/// pattern hold for its path.
pub proof fn handed_request_carries_captures<H, M>(
    table: Table<H, M>,
    request: RequestView,
    found: Result<(&Next<H, M>, Request), Error>,
    pattern: Seq<char>,
    captures: Seq<(Seq<char>, Seq<char>)>,
)
    requires
        looked_up(table, Some((pattern, captures)), request, found),
        found is Ok,
    ensures
        found matches Ok((next, handed)) && handed@.params == captures && Some(next@)
            == table.chain_at(pattern, request.method),
{
}

/// What `handle_error` makes of `error`: the response for a request that
/// found no route or no method, and the error itself otherwise.
pub open spec fn error_handled(error: Error, handled: Result<Response, Error>) -> bool {
    match error {
        Error::NotFound => handled matches Ok(response) && not_found_response(response@),
        Error::MethodNotAllowed => handled matches Ok(response) && method_not_allowed_response(
            response@,
        ),
        _ => handled == Err::<Response, Error>(error),
    }
}

impl<H, M> ServerProcessor<H, M> {
    /// The routing table is well formed.
    pub closed spec fn wf(&self) -> bool {
        (*self.state).wf()
    }

    /// The name of the server.
    pub closed spec fn label(&self) -> Seq<char> {
        (*self.state).label()
    }

    /// What the matcher of the server finds for `path`: the pattern that
    /// answers, with the name and the text of each capture.
    pub closed spec fn matched(&self, path: Seq<char>) -> Option<
        (Seq<char>, Seq<(Seq<char>, Seq<char>)>),
    > {
        (*self.state).matched(path)
    }

    /// The name of the server, for the log lines of a connection.
    pub fn log_ctx(&self) -> (name: &str)
        ensures
            name@ == self.label(),
    {
        self.state.name()
    }

    /// A second handle to the same table, for one more connection.
    pub fn share(&self) -> (copy: Self)
        ensures
            copy@ == self@,
            copy.wf() == self.wf(),
            copy.label() == self.label(),
            forall|path: Seq<char>| #[trigger] copy.matched(path) == self.matched(path),
    {
        ServerProcessor { state: share(&self.state) }
    }

    /// The executor for the futures that the connection driver spawns: it
    /// names their fibers after the server.
    pub fn executor(&self) -> (executor: TarantoolHyperExecutor)
        ensures
            executor@ == child_fiber_name(self.label()),
    {
        TarantoolHyperExecutor::new(self.state.name())
    }

    /// Finds the chain that answers to `request` and hands it the captures
    /// of the pattern.
    pub fn process_request(&self, request: Request) -> (found: Result<
        (&Next<H, M>, Request),
        Error,
    >)
        requires
            self.wf(),
            !request@.taken,
        ensures
            looked_up(self@, self.matched(request@.path), request@, found),
    {
        let resolved = self.state.resolve(request.path(), request.method());
        match resolved {
            Ok((next, params)) => Ok((next, request.with_params(params))),
            Err(error) => Err(error),
        }
    }

    /// Answers a request that found no route or no method; any other error
    /// it hands back.
    pub fn handle_error(&self, error: Error) -> (handled: Result<Response, Error>)
        ensures
            error_handled(error, handled),
    {
        match error {
            Error::NotFound => {
                let mut response = Response::new(Body::from_text("404 Not Found"));
                response.status = StatusCode::not_found();
                Ok(response)
            },
            Error::MethodNotAllowed => {
                let mut response = Response::new(Body::from_text("405 Method Not Allowed"));
                response.status = StatusCode::method_not_allowed();
                Ok(response)
            },
            other => Err(other),
        }
    }

    /// Decides what to do with `request`: run the chain that answers to
    /// it, or answer that there is none.
    pub fn dispatch(&self, request: Request) -> (dispatch: Dispatch<'_, H, M>)
        requires
            self.wf(),
            !request@.taken,
        ensures
            dispatched(self@, self.matched(request@.path), request@, dispatch),
    {
        match self.process_request(request) {
            Ok((next, handed)) => Dispatch::Run { next, request: handed },
            Err(error) => match self.handle_error(error) {
                Ok(response) => Dispatch::Answer { response },
                Err(_) => {
                    // Neither of the two errors of a lookup is handed back.
                    assert(false);
                    Dispatch::Answer { response: Response::new(Body::empty()) }
                },
            },
        }
    }
}

/// The texts of `causes` in one line, each after the first behind an
/// arrow.
pub open spec fn chained(causes: Seq<Seq<char>>) -> Seq<char>
    decreases causes.len(),
{
    if causes.len() == 0 {
        Seq::empty()
    } else if causes.len() == 1 {
        causes[0]
    } else {
        chained(causes.drop_last()) + " -> "@ + causes.last()
    }
}

/// The texts of `causes` as sequences of characters.
pub open spec fn texts(causes: Seq<String>) -> Seq<Seq<char>> {
    causes.map_values(|cause: String| cause@)
}

/// Describes an error with its causes: the text of the error, then the
/// text of what caused it, and so on down the chain.
pub fn error_with_causes(causes: &Vec<String>) -> (text: String)
    ensures
        text@ == chained(texts(causes@)),
{
    if causes.len() == 0 {
        return String::new();
    }
    let mut text = causes[0].clone();
    let mut i: usize = 1;
    while i < causes.len()
        invariant
            1 <= i <= causes.len(),
            text@ == chained(texts(causes@).take(i as int)),
        decreases causes.len() - i,
    {
        let ghost longer = texts(causes@).take(i + 1);
        assert(longer.drop_last() =~= texts(causes@).take(i as int));
        text.append(" -> ");
        text.append(causes[i].as_str());
        i += 1;
    }
    assert(texts(causes@).take(i as int) =~= texts(causes@));
    text
}

/// What the serving of one connection comes to: `causes` holds the error
/// that ended it and what caused that error, and is empty where the
/// connection ended well.
pub fn connection_outcome(causes: &Vec<String>) -> (outcome: Result<(), Error>)
    ensures
        match outcome {
            Ok(()) => causes@.len() == 0,
            Err(Error::ServeExited(reason)) => causes@.len() > 0 && reason@
                == "serve process resulted in error: "@ + chained(texts(causes@)),
            Err(_) => false,
        },
{
    if causes.len() == 0 {
        Ok(())
    } else {
        let chain = error_with_causes(causes);
        Err(Error::ServeExited(joined("serve process resulted in error: ", chain.as_str())))
    }
}

/// What happened to the main fiber of a server.
pub enum ListenerEvent {
    /// The address could not be bound; the text says why.
    BindFailed(String),
    /// The address is bound.
    Bound,
    /// No connection could be accepted; the text says why.
    AcceptFailed(String),
    /// A connection was accepted.
    Accepted,
    /// No fiber could be started for the connection; the text says why.
    SpawnFailed(String),
    /// A fiber serves the connection.
    Spawned,
}

/// What the main fiber of a server does next.
pub enum ListenerStep {
    /// Wait for the next connection.
    Accept,
    /// Start a fiber that serves the connection just accepted.
    Serve,
}

/// What `event` means for the main fiber: the next step, or the error that
/// ends the fiber.
pub open spec fn listener_step(event: ListenerEvent, step: Result<ListenerStep, Error>) -> bool {
    match event {
        ListenerEvent::BindFailed(reason) => step matches Err(Error::InitFailed(text)) && text@
            == "failed to bind to needed address: "@ + reason@,
        ListenerEvent::Bound => step matches Ok(ListenerStep::Accept),
        ListenerEvent::AcceptFailed(reason) => step matches Err(Error::ConnectionError(text))
            && text@ == reason@,
        ListenerEvent::Accepted => step matches Ok(ListenerStep::Serve),
        ListenerEvent::SpawnFailed(reason) => step matches Err(Error::ConnectionError(text))
            && text@ == "unable to spawn fiber for connection handle: "@ + reason@,
        ListenerEvent::Spawned => step matches Ok(ListenerStep::Accept),
    }
}

impl<H, M> ServerFiber<H, M> {
    /// Decides how the main fiber goes on after `event`. A failure to
    /// bind, to accept or to start a connection fiber ends it.
    pub fn on_event(&self, event: ListenerEvent) -> (step: Result<ListenerStep, Error>)
        ensures
            listener_step(event, step),
    {
        match event {
            ListenerEvent::BindFailed(reason) => Err(
                Error::InitFailed(joined("failed to bind to needed address: ", reason.as_str())),
            ),
            ListenerEvent::Bound => Ok(ListenerStep::Accept),
            ListenerEvent::AcceptFailed(reason) => Err(Error::ConnectionError(reason)),
            ListenerEvent::Accepted => Ok(ListenerStep::Serve),
            ListenerEvent::SpawnFailed(reason) => Err(
                Error::ConnectionError(
                    joined("unable to spawn fiber for connection handle: ", reason.as_str()),
                ),
            ),
            ListenerEvent::Spawned => Ok(ListenerStep::Accept),
        }
    }

    /// What `defer` comes to: `refusal` holds why the main fiber could not
    /// be started, or nothing where it was started.
    pub fn deferred(refusal: Option<String>) -> (outcome: Result<(), Error>)
        ensures
            match refusal {
                None => outcome is Ok,
                Some(reason) => outcome matches Err(Error::InitFailed(text)) && text@
                    == "failed to create main fiber: "@ + reason@,
            },
    {
        match refusal {
            None => Ok(()),
            Some(reason) => Err(
                Error::InitFailed(joined("failed to create main fiber: ", reason.as_str())),
            ),
        }
    }
}

} // verus!
