//! The correlation engine of one debugging connection: connection state,
//! call ids, the table of waiters, dispatch of inbound frames, and the
//! enabling of protocol domains. It performs no I/O: the caller writes the
//! frames it is handed and feeds back what arrives.

use crate::error::{ChromeMcpError, ErrorV};
pub use crate::frame::{CdpError, CdpMessage};
use crate::frame::{decode_text, CdpMessageV};
use crate::json::{opt_str_view, opt_view, Json, JsonV, NumberV};
use crate::text::{concat, concat3, decimal, str_eq, u64_to_string};
use std::collections::HashMap;
use vstd::prelude::*;
use vstd::string::*;

verus! {

broadcast use vstd::std_specs::hash::group_hash_axioms;

/// Where a connection stands between creation and close.
#[derive(Clone, Copy, Debug, PartialEq, Eq, Structural)]
pub enum ConnectionState {
    Disconnected,
    Connecting,
    DomainsEnabling,
    Ready,
    Closed,
}

/// One controllable tab, as the browser's discovery endpoint describes it.
#[derive(Clone, Debug, PartialEq)]
pub struct TabInfo {
    pub id: String,
    pub title: String,
    pub url: String,
    pub description: String,
    pub websocket_debugger_url: Option<String>,
}

/// The model of a [`TabInfo`].
pub struct TabInfoV {
    pub id: Seq<char>,
    pub title: Seq<char>,
    pub url: Seq<char>,
    pub description: Seq<char>,
    pub websocket_debugger_url: Option<Seq<char>>,
}

impl View for TabInfo {
    type V = TabInfoV;

    open spec fn view(&self) -> TabInfoV {
        TabInfoV {
            id: self.id@,
            title: self.title@,
            url: self.url@,
            description: self.description@,
            websocket_debugger_url: opt_str_view(self.websocket_debugger_url),
        }
    }
}

/// The views of a list of tabs.
pub open spec fn tabs_view(tabs: Seq<TabInfo>) -> Seq<TabInfoV> {
    Seq::new(tabs.len(), |i: int| tabs[i]@)
}

/// The views of a list of texts.
pub open spec fn strings_view(items: Seq<String>) -> Seq<Seq<char>> {
    Seq::new(items.len(), |i: int| items[i]@)
}

/// The model of a [`CdpClient`]: the next id to hand out, the waiters of the
/// calls in flight, and where the connection stands.
pub struct ClientV<W> {
    pub next_id: u64,
    pub pending: Map<u64, W>,
    pub state: ConnectionState,
    pub host: Seq<char>,
    pub port: u16,
    pub tab_id: Option<Seq<char>>,
    pub domains: Seq<Seq<char>>,
    pub enabled: nat,
}

impl<W> ClientV<W> {
    /// What holds of every client: ids start at 1; every waiter sits under an
    /// id that was handed out; a connection is ready only with all its
    /// domains enabled; and only an open connection has calls in flight.
    pub open spec fn wf(self) -> bool {
        &&& self.next_id >= 1
        &&& self.pending.dom().finite()
        &&& forall|id: u64| self.pending.contains_key(id) ==> 1 <= id < self.next_id
        &&& self.enabled <= self.domains.len()
        &&& (self.state is Ready ==> self.enabled == self.domains.len())
        &&& (self.state is Disconnected || self.state is Connecting || self.state is Closed
            ==> self.pending == Map::<u64, W>::empty())
    }

    /// The request frame that the next call sends.
    pub open spec fn request(self, method: Seq<char>, params: Option<JsonV>) -> CdpMessageV {
        CdpMessageV {
            id: Some(self.next_id),
            method: Some(method),
            params: params,
            result: None,
            error: None,
        }
    }

    /// The client after a call was registered: its waiter sits under the id
    /// that was next, and the next id is one more.
    pub open spec fn register(self, waiter: W) -> ClientV<W> {
        ClientV {
            next_id: (self.next_id + 1) as u64,
            pending: self.pending.insert(self.next_id, waiter),
            ..self
        }
    }

    /// The client after the waiter under `id` was taken out.
    pub open spec fn resolve(self, id: u64) -> ClientV<W> {
        ClientV { pending: self.pending.remove(id), ..self }
    }

    /// The client after its connection was closed: no call is in flight.
    pub open spec fn closed(self) -> ClientV<W> {
        ClientV { state: ConnectionState::Closed, pending: Map::empty(), ..self }
    }

    /// Why a call is refused, where it is: the connection is not ready, or
    /// no id is left to hand out.
    pub open spec fn refusal(self) -> Option<ErrorV> {
        match self.state {
            ConnectionState::Ready => if self.next_id == u64::MAX {
                Some(ErrorV::CdpConnection("Message ids are used up"@))
            } else {
                None
            },
            ConnectionState::Closed => Some(ErrorV::CdpConnection("Connection closed"@)),
            _ => Some(ErrorV::CdpConnection("Connection is not ready"@)),
        }
    }

    /// What connecting to the tab `tab_id` asks of the caller: nothing where
    /// the connection to that tab is ready. Else the tab is looked up first:
    /// a tab that is not in the list, or that has no usable socket address,
    /// is an error whatever the state of the connection; a tab that can be
    /// connected to gives its socket address where no connection is open,
    /// and else the demand that the open connection be closed first.
    pub open spec fn connect_plan(self, tabs: Seq<TabInfoV>, tab_id: Seq<char>) -> Result<
        Option<Seq<char>>,
        ErrorV,
    > {
        if self.state is Ready && self.tab_id == Some(tab_id) {
            Ok(None)
        } else {
            match socket_url(tabs, tab_id) {
                Err(e) => Err(e),
                Ok(address) => if self.state is Disconnected || self.state is Closed {
                    Ok(Some(address))
                } else {
                    Err(ErrorV::InvalidOperation("Close the connection before opening another"@))
                },
            }
        }
    }

    /// The client once a socket to the tab `tab_id` is being opened.
    pub open spec fn connecting(self, tab_id: Seq<char>) -> ClientV<W> {
        ClientV {
            state: ConnectionState::Connecting,
            tab_id: Some(tab_id),
            domains: Seq::empty(),
            enabled: 0,
            ..self
        }
    }

    /// The client once the socket is open and `domains` are to be enabled.
    pub open spec fn enabling(self, domains: Seq<Seq<char>>) -> ClientV<W> {
        ClientV { state: ConnectionState::DomainsEnabling, domains: domains, enabled: 0, ..self }
    }

    /// Whether a domain is waiting to be enabled.
    pub open spec fn enabling_next(self) -> bool {
        self.state is DomainsEnabling && self.enabled < self.domains.len()
    }

    /// The error that ends the connection when enabling a domain fails.
    pub open spec fn activation_error(self, cause: ErrorV) -> ErrorV
        recommends
            self.enabling_next(),
    {
        ErrorV::Activation(
            "Failed to enable "@ + self.domains[self.enabled as int] + ": "@ + cause.message(),
        )
    }

    /// The command that enables the next domain.
    pub open spec fn enable_method(self) -> Seq<char>
        recommends
            self.enabled < self.domains.len(),
    {
        self.domains[self.enabled as int] + ".enable"@
    }
}

/// What became of an inbound frame.
#[derive(Debug)]
pub enum Dispatch<W> {
    /// A reply to a call in flight: the frame goes to the waiter of that call.
    Resolved { id: u64, waiter: W, frame: CdpMessage },
    /// A frame with an id under which nothing waits (a late or repeated
    /// reply): it is dropped.
    Dropped { id: u64 },
    /// A frame without id: it goes to the event sink.
    Event(CdpMessage),
    /// Text that is no frame: it is reported and passed over.
    Malformed(ChromeMcpError),
}

/// How a frame is dispatched by a client `before`, with the client `after`
/// that this leaves.
pub open spec fn dispatched<W>(
    before: ClientV<W>,
    frame: CdpMessageV,
    r: Dispatch<W>,
    after: ClientV<W>,
) -> bool {
    match frame.id {
        Some(id) => if before.pending.contains_key(id) {
            &&& r matches Dispatch::Resolved { id: i, waiter: w, frame: f }
            &&& i == id
            &&& w == before.pending[id]
            &&& f@ == frame
            &&& after == before.resolve(id)
        } else {
            &&& r matches Dispatch::Dropped { id: i }
            &&& i == id
            &&& after == before
        },
        None => {
            &&& r matches Dispatch::Event(f)
            &&& f@ == frame
            &&& after == before
        },
    }
}

/// What the next step of enabling the domains is.
#[derive(Debug)]
pub enum Activation {
    /// Send this request and hand its outcome to `domain_reply`.
    Send(CdpMessage),
    /// Every domain is enabled: the connection is ready.
    Ready,
    /// No domains are being enabled on this connection.
    Refused(ChromeMcpError),
}

/// What is left of a connection that was given up: the error to report and
/// the waiters of the calls that were in flight, each to be resolved with a
/// connection error.
#[derive(Debug)]
pub struct Teardown<W> {
    pub error: ChromeMcpError,
    pub dropped: HashMap<u64, W>,
}

/// The protocol state of one connection. `W` is whatever the caller keeps
/// per call in flight to hand the reply on, such as the sending half of a
/// one-shot channel.
pub struct CdpClient<W> {
    message_id: u64,
    pending_requests: HashMap<u64, W>,
    state: ConnectionState,
    chrome_host: String,
    chrome_port: u16,
    tab_id: Option<String>,
    domains: Vec<String>,
    enabled: usize,
}

impl<W> View for CdpClient<W> {
    type V = ClientV<W>;

    closed spec fn view(&self) -> ClientV<W> {
        ClientV {
            next_id: self.message_id,
            pending: self.pending_requests@,
            state: self.state,
            host: self.chrome_host@,
            port: self.chrome_port,
            tab_id: opt_str_view(self.tab_id),
            domains: strings_view(self.domains@),
            enabled: self.enabled as nat,
        }
    }
}

/// The tab of the given id: the first one in the list that has it.
pub open spec fn find_tab(tabs: Seq<TabInfoV>, tab_id: Seq<char>) -> Option<TabInfoV>
    decreases tabs.len(),
{
    if tabs.len() == 0 {
        None
    } else if tabs[0].id == tab_id {
        Some(tabs[0])
    } else {
        find_tab(tabs.drop_first(), tab_id)
    }
}

/// What the `url` crate makes of a text: the URL in its normal form, or the
/// message of the parse error.
pub uninterp spec fn url_parse(text: Seq<char>) -> Result<Seq<char>, Seq<char>>;

/// `Url::parse`, then `Url::as_str` of the URL or `to_string` of the error.
#[verifier::external_body]
fn parse_url(text: &str) -> (r: Result<String, String>)
    ensures
        match r {
            Ok(u) => url_parse(text@) == Ok::<Seq<char>, Seq<char>>(u@),
            Err(m) => url_parse(text@) == Err::<Seq<char>, Seq<char>>(m@),
        },
{
    match url::Url::parse(text) {
        Ok(u) => Ok(u.as_str().to_string()),
        Err(e) => Err(e.to_string()),
    }
}

/// The socket address to open for the tab `tab_id`, or why there is none.
pub open spec fn socket_url(tabs: Seq<TabInfoV>, tab_id: Seq<char>) -> Result<Seq<char>, ErrorV> {
    match find_tab(tabs, tab_id) {
        None => Err(ErrorV::TabNotFound("Tab "@ + tab_id + " not found"@)),
        Some(tab) => match tab.websocket_debugger_url {
            None => Err(ErrorV::CdpProtocol("Tab has no WebSocket debugger URL"@)),
            Some(address) => match url_parse(address) {
                Ok(normal) => Ok(normal),
                Err(m) => Err(ErrorV::CdpConnection("Invalid WebSocket URL: "@ + m)),
            },
        },
    }
}

/// Finds the tab of the given id in the list.
pub fn lookup_tab<'a>(tabs: &'a Vec<TabInfo>, tab_id: &str) -> (r: Option<&'a TabInfo>)
    ensures
        match r {
            Some(tab) => find_tab(tabs_view(tabs@), tab_id@) == Some(tab@),
            None => find_tab(tabs_view(tabs@), tab_id@) is None,
        },
{
    let ghost all = tabs_view(tabs@);
    let mut i: usize = 0;
    assert(all.subrange(0, all.len() as int) =~= all);
    while i < tabs.len()
        invariant
            i <= tabs.len(),
            all == tabs_view(tabs@),
            find_tab(all, tab_id@) == find_tab(all.subrange(i as int, all.len() as int), tab_id@),
        decreases tabs.len() - i,
    {
        let ghost rest = all.subrange(i as int, all.len() as int);
        assert(rest[0] == tabs@[i as int]@);
        if str_eq(tabs[i].id.as_str(), tab_id) {
            return Some(&tabs[i]);
        }
        assert(rest.drop_first() =~= all.subrange(i + 1, all.len() as int));
        i = i + 1;
    }
    None
}

/// The socket address to open for the tab `tab_id`.
pub fn select_tab(tabs: &Vec<TabInfo>, tab_id: &str) -> (r: Result<String, ChromeMcpError>)
    ensures
        match r {
            Ok(u) => socket_url(tabs_view(tabs@), tab_id@) == Ok::<Seq<char>, ErrorV>(u@),
            Err(e) => socket_url(tabs_view(tabs@), tab_id@) == Err::<Seq<char>, ErrorV>(e@),
        },
{
    match lookup_tab(tabs, tab_id) {
        None => Err(ChromeMcpError::TabNotFound(concat3("Tab ", tab_id, " not found"))),
        Some(tab) => match &tab.websocket_debugger_url {
            None => Err(ChromeMcpError::cdp_protocol("Tab has no WebSocket debugger URL")),
            Some(address) => match parse_url(address.as_str()) {
                Ok(normal) => Ok(normal),
                Err(m) => Err(
                    ChromeMcpError::CdpConnection(concat("Invalid WebSocket URL: ", m.as_str())),
                ),
            },
        },
    }
}

/// The domains that automation needs, in the order in which they are enabled.
pub open spec fn required_domains_spec() -> Seq<Seq<char>> {
    seq!["Runtime"@, "Page"@, "DOM"@, "Input"@, "Network"@, "Accessibility"@]
}

/// The domains that automation needs, in the order in which they are enabled.
pub fn required_domains() -> (r: Vec<String>)
    ensures
        strings_view(r@) == required_domains_spec(),
{
    let mut r: Vec<String> = Vec::new();
    r.push(String::from_str("Runtime"));
    r.push(String::from_str("Page"));
    r.push(String::from_str("DOM"));
    r.push(String::from_str("Input"));
    r.push(String::from_str("Network"));
    r.push(String::from_str("Accessibility"));
    assert(strings_view(r@) =~= required_domains_spec());
    r
}

/// What a reply means to the caller: the error object as an error, else the
/// result, where a reply without result counts as null.
pub open spec fn reply_outcome(frame: CdpMessageV) -> Result<JsonV, ErrorV> {
    match frame.error {
        Some(e) => Err(ErrorV::Protocol { code: e.code, message: e.message, data: e.data }),
        None => match frame.result {
            Some(value) => Ok(value),
            None => Ok(JsonV::Null),
        },
    }
}

/// Turns the reply that a waiter received into the outcome of its call.
pub fn interpret_reply(frame: CdpMessage) -> (r: Result<Json, ChromeMcpError>)
    ensures
        match r {
            Ok(value) => reply_outcome(frame@) == Ok::<JsonV, ErrorV>(value@),
            Err(e) => reply_outcome(frame@) == Err::<JsonV, ErrorV>(e@),
        },
{
    match frame.error {
        Some(e) => Err(ChromeMcpError::Protocol { code: e.code, message: e.message, data: e.data }),
        None => match frame.result {
            Some(value) => Ok(value),
            None => Ok(Json::Null),
        },
    }
}

/// The error of a call whose reply did not come within `timeout_ms` milliseconds.
pub fn timeout_error(timeout_ms: u64) -> (r: ChromeMcpError)
    ensures
        r@ == (ErrorV::Timeout { timeout: timeout_ms }),
{
    ChromeMcpError::Timeout { timeout: timeout_ms }
}

/// The error that the waiters of a closed connection are resolved with.
pub fn connection_closed_error() -> (r: ChromeMcpError)
    ensures
        r@ == ErrorV::CdpConnection("Connection closed"@),
{
    ChromeMcpError::cdp_connection("Connection closed")
}

impl<W> CdpClient<W> {
    #[verifier::type_invariant]
    spec fn inv(self) -> bool {
        self@.wf()
    }

    /// A client for the browser at `host:port`, not connected yet.
    pub fn new(host: &str, port: u16) -> (r: Self)
        ensures
            r@ == (ClientV::<W> {
                next_id: 1,
                pending: Map::empty(),
                state: ConnectionState::Disconnected,
                host: host@,
                port: port,
                tab_id: None,
                domains: Seq::empty(),
                enabled: 0,
            }),
    {
        let r = CdpClient {
            message_id: 1,
            pending_requests: HashMap::new(),
            state: ConnectionState::Disconnected,
            chrome_host: String::from_str(host),
            chrome_port: port,
            tab_id: None,
            domains: Vec::new(),
            enabled: 0,
        };
        assert(strings_view(r.domains@) =~= Seq::<Seq<char>>::empty());
        r
    }

    /// Where the connection stands.
    pub fn state(&self) -> (r: ConnectionState)
        ensures
            r == self@.state,
            self@.wf(),
    {
        proof {
            use_type_invariant(self);
        }
        self.state
    }

    /// The id of the tab this client is connected or connecting to.
    pub fn current_tab_id(&self) -> (r: Option<&str>)
        ensures
            match r {
                Some(t) => self@.tab_id == Some(t@),
                None => self@.tab_id is None,
            },
    {
        match &self.tab_id {
            Some(t) => Some(t.as_str()),
            None => None,
        }
    }

    /// The number of calls in flight.
    pub fn pending_count(&self) -> (r: usize)
        ensures
            r == self@.pending.len(),
    {
        self.pending_requests.len()
    }

    /// Whether a call with this id is in flight.
    pub fn is_pending(&self, id: u64) -> (r: bool)
        ensures
            r == self@.pending.contains_key(id),
    {
        self.pending_requests.contains_key(&id)
    }

    /// Plans the connection to the tab `tab_id`, found in the list `tabs` of
    /// the discovery endpoint. Connecting again to the tab of a ready
    /// connection asks nothing (`None`). Else the tab is looked up: a tab
    /// that is missing, or has no usable socket address, is an error. With no
    /// connection open, the client then moves to `Connecting` and hands back
    /// the socket address to open; with one open, it has to be closed first.
    /// On every error the client stays as it was, its current tab included.
    pub fn connect_to_tab(&mut self, tabs: &Vec<TabInfo>, tab_id: &str) -> (r: Result<
        Option<String>,
        ChromeMcpError,
    >)
        ensures
            final(self)@.wf(),
            match r {
                Ok(plan) => old(self)@.connect_plan(tabs_view(tabs@), tab_id@) == Ok::<
                    Option<Seq<char>>,
                    ErrorV,
                >(opt_str_view(plan)),
                Err(e) => old(self)@.connect_plan(tabs_view(tabs@), tab_id@) == Err::<
                    Option<Seq<char>>,
                    ErrorV,
                >(e@),
            },
            final(self)@ == if r matches Ok(Some(_)) {
                old(self)@.connecting(tab_id@)
            } else {
                old(self)@
            },
    {
        proof {
            use_type_invariant(&*self);
        }
        let same_tab = match &self.tab_id {
            Some(t) => str_eq(t.as_str(), tab_id),
            None => false,
        };
        let ready = match self.state {
            ConnectionState::Ready => true,
            _ => false,
        };
        if ready && same_tab {
            return Ok(None);
        }
        let address = match select_tab(tabs, tab_id) {
            Ok(address) => address,
            Err(e) => {
                return Err(e);
            },
        };
        match self.state {
            ConnectionState::Disconnected | ConnectionState::Closed => {
                self.enabled = 0;
                self.domains = Vec::new();
                self.tab_id = Some(String::from_str(tab_id));
                self.state = ConnectionState::Connecting;
                assert(strings_view(self.domains@) =~= Seq::<Seq<char>>::empty());
                Ok(Some(address))
            },
            _ => Err(
                ChromeMcpError::invalid_operation("Close the connection before opening another"),
            ),
        }
    }

    /// Notes that the socket is open: the domains in `domains` are to be
    /// enabled, in their order, before the connection is ready. Returns
    /// whether a socket was being opened; if none was, nothing changes.
    pub fn socket_opened(&mut self, domains: Vec<String>) -> (r: bool)
        ensures
            final(self)@.wf(),
            r == (old(self)@.state is Connecting),
            final(self)@ == if r {
                old(self)@.enabling(strings_view(domains@))
            } else {
                old(self)@
            },
    {
        proof {
            use_type_invariant(&*self);
        }
        match self.state {
            ConnectionState::Connecting => {
                self.enabled = 0;
                self.domains = domains;
                self.state = ConnectionState::DomainsEnabling;
                true
            },
            _ => false,
        }
    }

    /// Registers a call: the id that is next is assigned, `waiter` is put
    /// under it, and the request frame to write to the socket is handed back.
    /// Outside `Ready` the call is refused and nothing changes.
    pub fn send_command(&mut self, method: &str, params: Option<Json>, waiter: W) -> (r: Result<
        CdpMessage,
        ChromeMcpError,
    >)
        ensures
            final(self)@.wf(),
            match r {
                Ok(frame) => {
                    &&& old(self)@.refusal() is None
                    &&& frame@ == old(self)@.request(method@, opt_view(params))
                    &&& final(self)@ == old(self)@.register(waiter)
                },
                Err(e) => {
                    &&& old(self)@.refusal() == Some(e@)
                    &&& final(self)@ == old(self)@
                },
            },
            final(self)@ == old(self)@.attempt(waiter),
            match r {
                Ok(frame) => frame@.id == old(self)@.attempt_id(),
                Err(_) => old(self)@.attempt_id() is None,
            },
    {
        proof {
            use_type_invariant(&*self);
        }
        match self.state {
            ConnectionState::Ready => {},
            ConnectionState::Closed => {
                return Err(connection_closed_error());
            },
            _ => {
                return Err(ChromeMcpError::cdp_connection("Connection is not ready"));
            },
        }
        if self.message_id == u64::MAX {
            return Err(ChromeMcpError::cdp_connection("Message ids are used up"));
        }
        Ok(self.register(method, params, waiter))
    }

    fn register(&mut self, method: &str, params: Option<Json>, waiter: W) -> (frame: CdpMessage)
        requires
            old(self)@.next_id < u64::MAX,
            old(self)@.state is Ready || old(self)@.state is DomainsEnabling,
        ensures
            frame@ == old(self)@.request(method@, opt_view(params)),
            final(self)@ == old(self)@.register(waiter),
    {
        proof {
            use_type_invariant(&*self);
        }
        let id = self.message_id;
        self.message_id = id + 1;
        let mut table: HashMap<u64, W> = HashMap::new();
        std::mem::swap(&mut self.pending_requests, &mut table);
        table.insert(id, waiter);
        self.pending_requests = table;
        CdpMessage {
            id: Some(id),
            method: Some(String::from_str(method)),
            params: params,
            result: None,
            error: None,
        }
    }

    /// The next step of enabling the domains: the request that enables the
    /// next domain, with `waiter` registered for its reply; or `Ready` once
    /// every domain is enabled, which makes the connection ready.
    pub fn enable_domains(&mut self, waiter: W) -> (r: Activation)
        ensures
            final(self)@.wf(),
            match r {
                Activation::Send(frame) => {
                    &&& old(self)@.enabling_next()
                    &&& old(self)@.next_id < u64::MAX
                    &&& frame@ == old(self)@.request(old(self)@.enable_method(), None)
                    &&& final(self)@ == old(self)@.register(waiter)
                },
                Activation::Ready => {
                    &&& old(self)@.state is DomainsEnabling
                    &&& old(self)@.enabled == old(self)@.domains.len()
                    &&& final(self)@ == (ClientV { state: ConnectionState::Ready, ..old(self)@ })
                },
                Activation::Refused(e) => {
                    &&& final(self)@ == old(self)@
                    &&& if old(self)@.state is DomainsEnabling {
                        &&& old(self)@.enabling_next()
                        &&& old(self)@.next_id == u64::MAX
                        &&& e@ == ErrorV::CdpConnection("Message ids are used up"@)
                    } else {
                        e@ == ErrorV::InvalidOperation("No domains are being enabled"@)
                    }
                },
            },
    {
        proof {
            use_type_invariant(&*self);
        }
        match self.state {
            ConnectionState::DomainsEnabling => {},
            _ => {
                return Activation::Refused(
                    ChromeMcpError::invalid_operation("No domains are being enabled"),
                );
            },
        }
        if self.enabled >= self.domains.len() {
            self.state = ConnectionState::Ready;
            return Activation::Ready;
        }
        if self.message_id == u64::MAX {
            return Activation::Refused(ChromeMcpError::cdp_connection("Message ids are used up"));
        }
        let method = concat(self.domains[self.enabled].as_str(), ".enable");
        Activation::Send(self.register(method.as_str(), None, waiter))
    }

    /// Takes the outcome of the request that `enable_domains` handed out.
    /// Success counts the domain as enabled. Failure gives the connection
    /// up: it is closed, and the waiters in flight are handed back with the
    /// error to report. Where no domain is waiting to be enabled, nothing
    /// changes.
    pub fn domain_reply(&mut self, outcome: Result<Json, ChromeMcpError>) -> (r: Result<
        (),
        Teardown<W>,
    >)
        ensures
            final(self)@.wf(),
            match r {
                Ok(_) => if old(self)@.enabling_next() {
                    &&& outcome is Ok
                    &&& final(self)@ == (ClientV {
                        enabled: old(self)@.enabled + 1,
                        ..old(self)@
                    })
                } else {
                    final(self)@ == old(self)@
                },
                Err(down) => {
                    &&& old(self)@.enabling_next()
                    &&& outcome matches Err(cause)
                    &&& down.error@ == old(self)@.activation_error(cause@)
                    &&& down.dropped@ == old(self)@.pending
                    &&& final(self)@ == old(self)@.closed()
                },
            },
    {
        proof {
            use_type_invariant(&*self);
        }
        let waiting = match self.state {
            ConnectionState::DomainsEnabling => self.enabled < self.domains.len(),
            _ => false,
        };
        if !waiting {
            return Ok(());
        }
        match outcome {
            Ok(_) => {
                self.enabled = self.enabled + 1;
                Ok(())
            },
            Err(cause) => {
                let mut text = concat3("Failed to enable ", self.domains[self.enabled].as_str(), ": ");
                text.append(cause.message().as_str());
                let dropped = self.close();
                Err(Teardown { error: ChromeMcpError::Activation(text), dropped })
            },
        }
    }

    /// Dispatches one inbound frame. A frame with the id of a call in flight
    /// takes the waiter of that call out of the table; a frame with any other
    /// id is dropped; a frame without id is an event.
    pub fn dispatch(&mut self, frame: CdpMessage) -> (r: Dispatch<W>)
        ensures
            final(self)@.wf(),
            dispatched(old(self)@, frame@, r, final(self)@),
    {
        proof {
            use_type_invariant(&*self);
        }
        match frame.id {
            Some(id) => match self.timeout(id) {
                Some(waiter) => Dispatch::Resolved { id, waiter, frame },
                None => Dispatch::Dropped { id },
            },
            None => Dispatch::Event(frame),
        }
    }

    /// Takes the text of one inbound message: text that is no frame is
    /// reported as malformed and changes nothing; a frame is dispatched.
    pub fn receive(&mut self, text: &str) -> (r: Dispatch<W>)
        ensures
            final(self)@.wf(),
            match decode_text(text@) {
                Ok(frame) => dispatched(old(self)@, frame, r, final(self)@),
                Err(e) => {
                    &&& r matches Dispatch::Malformed(reported)
                    &&& reported@ == e
                    &&& final(self)@ == old(self)@
                },
            },
    {
        proof {
            use_type_invariant(&*self);
        }
        match CdpMessage::decode(text) {
            Ok(frame) => self.dispatch(frame),
            Err(e) => Dispatch::Malformed(e),
        }
    }

    /// Gives up waiting for the reply to the call `id`: its waiter, if it is
    /// still in the table, is taken out and handed back. If the reply came
    /// first, nothing is left to do and nothing changes.
    pub fn timeout(&mut self, id: u64) -> (r: Option<W>)
        ensures
            final(self)@.wf(),
            match r {
                Some(waiter) => {
                    &&& old(self)@.pending.contains_key(id)
                    &&& waiter == old(self)@.pending[id]
                    &&& final(self)@ == old(self)@.resolve(id)
                },
                None => {
                    &&& !old(self)@.pending.contains_key(id)
                    &&& final(self)@ == old(self)@
                },
            },
    {
        proof {
            use_type_invariant(&*self);
        }
        let mut table: HashMap<u64, W> = HashMap::new();
        std::mem::swap(&mut self.pending_requests, &mut table);
        let r = table.remove(&id);
        proof {
            if r is None {
                assert(table@ =~= old(self).pending_requests@);
            }
        }
        self.pending_requests = table;
        r
    }

    /// Closes the connection, on request or because the transport failed:
    /// the waiters of all calls in flight are handed back, each to be
    /// resolved with a connection error, and no call is accepted afterwards.
    /// Closing a closed connection hands back nothing and changes nothing.
    pub fn close(&mut self) -> (r: HashMap<u64, W>)
        ensures
            final(self)@.wf(),
            r@ == old(self)@.pending,
            final(self)@ == old(self)@.closed(),
    {
        proof {
            use_type_invariant(&*self);
        }
        let mut dropped: HashMap<u64, W> = HashMap::new();
        std::mem::swap(&mut self.pending_requests, &mut dropped);
        self.state = ConnectionState::Closed;
        dropped
    }
}

impl<W> ClientV<W> {
    /// The client after one call was registered for each of `waiters`, in order.
    pub open spec fn after_calls(self, waiters: Seq<W>) -> ClientV<W>
        decreases waiters.len(),
    {
        if waiters.len() == 0 {
            self
        } else {
            self.after_calls(waiters.drop_last()).register(waiters.last())
        }
    }

    /// The id that the call number `k` of a run of calls is given, counting from 0.
    pub open spec fn assigned_id(self, waiters: Seq<W>, k: int) -> u64
        recommends
            0 <= k < waiters.len(),
    {
        self.after_calls(waiters.take(k)).next_id
    }
}

impl<W> ClientV<W> {
    /// The client after one attempt at a call: the call is registered where
    /// it is accepted, and nothing changes where it is refused.
    pub open spec fn attempt(self, waiter: W) -> ClientV<W> {
        if self.refusal() is None {
            self.register(waiter)
        } else {
            self
        }
    }

    /// The id that an attempt at a call is given: the id that is next, where
    /// the call is accepted.
    pub open spec fn attempt_id(self) -> Option<u64> {
        if self.refusal() is None {
            Some(self.next_id)
        } else {
            None
        }
    }

    /// The client after one attempt at a call for each of `waiters`, in order.
    pub open spec fn after_attempts(self, waiters: Seq<W>) -> ClientV<W>
        decreases waiters.len(),
    {
        if waiters.len() == 0 {
            self
        } else {
            self.after_attempts(waiters.drop_last()).attempt(waiters.last())
        }
    }
}

/// Attempts at calls never lower the id that is next, whatever the state of
/// the connection and however many of them are refused; and they leave a
/// well-formed client.
pub proof fn lemma_counter_never_falls<W>(v: ClientV<W>, waiters: Seq<W>, k: int)
    requires
        v.wf(),
        0 <= k <= waiters.len(),
    ensures
        v.next_id <= v.after_attempts(waiters.take(k)).next_id <= v.after_attempts(waiters).next_id,
        v.after_attempts(waiters).wf(),
        v.after_attempts(waiters).state == v.state,
    decreases waiters.len(),
{
    if waiters.len() == 0 {
        assert(waiters.take(k) =~= waiters);
    } else {
        let front = waiters.drop_last();
        if k == waiters.len() {
            assert(waiters.take(k) =~= waiters);
            lemma_counter_never_falls(v, front, k - 1);
        } else {
            assert(front.take(k) =~= waiters.take(k));
            lemma_counter_never_falls(v, front, k);
        }
    }
}

/// Id uniqueness, in every state: each call that is accepted is given the id
/// that was next and leaves the next id one higher, each call that is
/// refused leaves it as it was, and so of any two calls that are accepted
/// the later one has the higher id.
pub proof fn lemma_accepted_ids_increase<W>(v: ClientV<W>, waiters: Seq<W>, i: int, j: int)
    requires
        v.wf(),
        0 <= i < j < waiters.len(),
        v.after_attempts(waiters.take(i)).attempt_id() is Some,
        v.after_attempts(waiters.take(j)).attempt_id() is Some,
    ensures
        v.after_attempts(waiters.take(i)).attempt_id()->0 < v.after_attempts(
            waiters.take(j),
        ).attempt_id()->0,
        v.after_attempts(waiters.take(i + 1)).next_id == v.after_attempts(
            waiters.take(i),
        ).attempt_id()->0 + 1,
{
    let upto_j = waiters.take(j);
    assert(upto_j.take(i) =~= waiters.take(i));
    assert(upto_j.take(i + 1) =~= waiters.take(i + 1));
    assert(waiters.take(i + 1).drop_last() =~= waiters.take(i));
    lemma_counter_never_falls(v, upto_j, i + 1);
}

/// Only a call that is accepted moves the id that is next: taking a waiter
/// out, closing, and the steps of connecting leave it as it is.
pub proof fn lemma_only_calls_move_the_counter<W>(
    v: ClientV<W>,
    id: u64,
    tab_id: Seq<char>,
    domains: Seq<Seq<char>>,
)
    ensures
        v.resolve(id).next_id == v.next_id,
        v.closed().next_id == v.next_id,
        v.connecting(tab_id).next_id == v.next_id,
        v.enabling(domains).next_id == v.next_id,
        v.refusal() is Some ==> forall|w: W| #[trigger] v.attempt(w) == v,
{
}

/// A run of calls leaves the next id as many higher as there were calls, and
/// leaves a well-formed client.
pub proof fn lemma_after_calls<W>(v: ClientV<W>, waiters: Seq<W>)
    requires
        v.wf(),
        v.state is Ready,
        v.next_id + waiters.len() <= u64::MAX,
    ensures
        v.after_calls(waiters).next_id == v.next_id + waiters.len(),
        v.after_calls(waiters).wf(),
        v.after_calls(waiters).state == v.state,
        forall|id: u64| v.pending.contains_key(id) ==> v.after_calls(waiters).pending.contains_key(id),
    decreases waiters.len(),
{
    if waiters.len() > 0 {
        lemma_after_calls(v, waiters.drop_last());
    }
}

/// Id uniqueness: of any run of calls that a ready client accepts, the ids
/// are handed out in strictly increasing order, so no two calls share one;
/// and none is the id of a call that was in flight before.
pub proof fn lemma_ids_distinct_and_increasing<W>(v: ClientV<W>, waiters: Seq<W>, i: int, j: int)
    requires
        v.wf(),
        v.state is Ready,
        v.next_id + waiters.len() <= u64::MAX,
        0 <= i < j < waiters.len(),
    ensures
        v.assigned_id(waiters, i) == v.next_id + i,
        v.assigned_id(waiters, j) == v.next_id + j,
        v.assigned_id(waiters, i) < v.assigned_id(waiters, j),
        !v.pending.contains_key(v.assigned_id(waiters, i)),
{
    lemma_after_calls(v, waiters.take(i));
    lemma_after_calls(v, waiters.take(j));
}

/// Every call of a run has its own waiter under its own id once the run is
/// registered.
pub proof fn lemma_waiter_under_its_id<W>(v: ClientV<W>, waiters: Seq<W>, k: int)
    requires
        v.wf(),
        v.state is Ready,
        v.next_id + waiters.len() <= u64::MAX,
        0 <= k < waiters.len(),
    ensures
        v.after_calls(waiters).pending.contains_key(v.assigned_id(waiters, k)),
        v.after_calls(waiters).pending[v.assigned_id(waiters, k)] == waiters[k],
    decreases waiters.len(),
{
    let front = waiters.drop_last();
    lemma_after_calls(v, front);
    lemma_after_calls(v, waiters.take(k));
    if k == waiters.len() - 1 {
        assert(waiters.take(k) =~= front);
    } else {
        assert(front.take(k) =~= waiters.take(k));
        lemma_waiter_under_its_id(v, front, k);
    }
}

/// Out-of-order correctness: two calls are registered, the first for the
/// waiter `a`, the second for `b`. If the reply to the second arrives before
/// the reply to the first, each frame still goes to the waiter of its own
/// call, and the table is left holding what it held before the two calls.
pub proof fn lemma_replies_out_of_order<W>(
    v: ClientV<W>,
    a: W,
    b: W,
    reply_a: CdpMessageV,
    reply_b: CdpMessageV,
    first: Dispatch<W>,
    mid: ClientV<W>,
    second: Dispatch<W>,
    end: ClientV<W>,
)
    requires
        v.wf(),
        v.next_id + 2 <= u64::MAX,
        reply_a.id == Some(v.next_id),
        reply_b.id == Some(v.register(a).next_id),
        dispatched(v.register(a).register(b), reply_b, first, mid),
        dispatched(mid, reply_a, second, end),
    ensures
        first matches Dispatch::Resolved { id, waiter, frame } && id == v.next_id + 1 && waiter == b
            && frame@ == reply_b,
        second matches Dispatch::Resolved { id, waiter, frame } && id == v.next_id && waiter == a
            && frame@ == reply_a,
        end.pending == v.pending,
        end.next_id == v.next_id + 2,
{
    let id_a = v.next_id;
    let id_b = (v.next_id + 1) as u64;
    let both = v.register(a).register(b);
    assert(both.pending.contains_key(id_b));
    assert(mid.pending.contains_key(id_a));
    assert(end.pending =~= v.pending);
}

/// Timeout exclusivity: once a call has timed out and its waiter was taken
/// out of the table, a reply to it that arrives late is dropped; it resolves
/// nothing and leaves every other call in flight as it was.
pub proof fn lemma_late_reply_is_dropped<W>(
    v: ClientV<W>,
    id: u64,
    late: CdpMessageV,
    r: Dispatch<W>,
    after: ClientV<W>,
)
    requires
        late.id == Some(id),
        dispatched(v.resolve(id), late, r, after),
    ensures
        r matches Dispatch::Dropped { id: dropped } && dropped == id,
        after == v.resolve(id),
        forall|other: u64|
            other != id && v.pending.contains_key(other) ==> after.pending.contains_key(other)
                && after.pending[other] == v.pending[other],
{
}

/// Activation atomicity: when enabling a domain fails the connection is
/// closed with no call in flight, and from then on every call is refused
/// with a connection error, however many are tried.
pub proof fn lemma_failed_activation_closes<W>(v: ClientV<W>)
    requires
        v.wf(),
    ensures
        v.closed().wf(),
        v.closed().state is Closed,
        v.closed().pending == Map::<u64, W>::empty(),
        v.closed().refusal() == Some(ErrorV::CdpConnection("Connection closed"@)),
        v.closed().closed() == v.closed(),
{
}

/// A command for the browser: what a call sends, before it has an id.
#[derive(Debug, PartialEq)]
pub struct Command {
    pub method: String,
    pub params: Option<Json>,
}

/// The model of a [`Command`].
pub struct CommandV {
    pub method: Seq<char>,
    pub params: Option<JsonV>,
}

impl View for Command {
    type V = CommandV;

    open spec fn view(&self) -> CommandV {
        CommandV { method: self.method@, params: opt_view(self.params) }
    }
}

/// The command `method` with the object of `members` as its parameters.
pub open spec fn command_with(method: Seq<char>, members: Seq<(Seq<char>, JsonV)>) -> CommandV {
    CommandV { method: method, params: Some(JsonV::Object(members)) }
}

/// The command `method` without parameters.
pub open spec fn bare_command(method: Seq<char>) -> CommandV {
    CommandV { method: method, params: None }
}

/// `Page.navigate` to `url`.
pub open spec fn navigate_spec(url: Seq<char>) -> CommandV {
    command_with("Page.navigate"@, seq![("url"@, JsonV::Str(url))])
}

/// `Runtime.evaluate` of `expression`, by value, awaiting a promise.
pub open spec fn evaluate_js_spec(expression: Seq<char>) -> CommandV {
    command_with(
        "Runtime.evaluate"@,
        seq![
            ("expression"@, JsonV::Str(expression)),
            ("returnByValue"@, JsonV::Bool(true)),
            ("awaitPromise"@, JsonV::Bool(true)),
        ],
    )
}

/// `Runtime.evaluate` of `expression`, by value.
pub open spec fn evaluate_value_spec(expression: Seq<char>) -> CommandV {
    command_with(
        "Runtime.evaluate"@,
        seq![("expression"@, JsonV::Str(expression)), ("returnByValue"@, JsonV::Bool(true))],
    )
}

/// `Runtime.evaluate` of `expression`, for its effect.
pub open spec fn run_script_spec(expression: Seq<char>) -> CommandV {
    command_with("Runtime.evaluate"@, seq![("expression"@, JsonV::Str(expression))])
}

/// `Page.captureScreenshot` with the format and quality that are given.
pub open spec fn screenshot_spec(format: Option<Seq<char>>, quality: Option<u32>) -> CommandV {
    command_with(
        "Page.captureScreenshot"@,
        crate::frame::opt_member(
            "format"@,
            match format {
                Some(f) => Some(JsonV::Str(f)),
                None => None,
            },
        ) + crate::frame::opt_member(
            "quality"@,
            match quality {
                Some(q) => Some(JsonV::Num(NumberV::PosInt(q as u64))),
                None => None,
            },
        ),
    )
}

/// `Input.dispatchMouseEvent` of the left button at a point.
pub open spec fn mouse_event_spec(kind: Seq<char>, x: NumberV, y: NumberV) -> CommandV {
    command_with(
        "Input.dispatchMouseEvent"@,
        seq![
            ("type"@, JsonV::Str(kind)),
            ("x"@, JsonV::Num(x)),
            ("y"@, JsonV::Num(y)),
            ("button"@, JsonV::Str("left"@)),
            ("clickCount"@, JsonV::Num(NumberV::PosInt(1))),
        ],
    )
}

/// `Input.dispatchKeyEvent` that types one character.
pub open spec fn char_event_spec(c: char) -> CommandV {
    command_with(
        "Input.dispatchKeyEvent"@,
        seq![("type"@, JsonV::Str("char"@)), ("text"@, JsonV::Str(seq![c]))],
    )
}

/// `DOM.querySelectorAll` for `selector` under the node `root`.
pub open spec fn query_selector_all_spec(root: u64, selector: Seq<char>) -> CommandV {
    command_with(
        "DOM.querySelectorAll"@,
        seq![("nodeId"@, JsonV::Num(NumberV::PosInt(root))), ("selector"@, JsonV::Str(selector))],
    )
}

/// What a reply to `Runtime.evaluate` gives the caller: an exception as an
/// error with its details as text, else the `result` member, or null.
pub open spec fn evaluate_outcome(reply: JsonV) -> Result<JsonV, ErrorV> {
    match reply.get("exceptionDetails"@) {
        Some(details) => Err(
            ErrorV::JavaScriptError("JS Exception: "@ + crate::json::json_text(details.meaning())),
        ),
        None => match reply.get("result"@) {
            Some(value) => Ok(value),
            None => Ok(JsonV::Null),
        },
    }
}

/// The image of a reply to `Page.captureScreenshot`: its `data`, a string.
pub open spec fn screenshot_outcome(reply: JsonV) -> Result<Seq<char>, ErrorV> {
    match reply.get("data"@) {
        Some(JsonV::Str(data)) => Ok(data),
        _ => Err(ErrorV::Screenshot("No screenshot data returned"@)),
    }
}

/// The id of the root node in a reply to `DOM.getDocument`.
pub open spec fn document_root(reply: JsonV) -> Result<u64, ErrorV> {
    match reply.get2("root"@, "nodeId"@) {
        Some(JsonV::Num(NumberV::PosInt(id))) => Ok(id),
        _ => Err(ErrorV::CdpProtocol("Could not get document root"@)),
    }
}

/// The views of a list of commands.
pub open spec fn commands_view(commands: Seq<Command>) -> Seq<CommandV> {
    Seq::new(commands.len(), |i: int| commands[i]@)
}

/// The commands that type a text, one per character.
pub open spec fn type_text_spec(text: Seq<char>) -> Seq<CommandV> {
    Seq::new(text.len(), |i: int| char_event_spec(text[i]))
}

impl Command {
    /// The command `method` with the object of `members` as its parameters.
    pub fn with_params(method: &str, members: Vec<(String, Json)>) -> (r: Command)
        ensures
            r@ == command_with(method@, crate::json::members_view(members@)),
    {
        Command { method: String::from_str(method), params: Some(Json::object(members)) }
    }

    /// The command `method` without parameters.
    pub fn bare(method: &str) -> (r: Command)
        ensures
            r@ == bare_command(method@),
    {
        Command { method: String::from_str(method), params: None }
    }

    /// `Page.navigate` to `url`.
    pub fn navigate(url: &str) -> (r: Command)
        ensures
            r@ == navigate_spec(url@),
    {
        let mut members = crate::json::no_members();
        crate::json::push_member(&mut members, "url", Json::string(url));
        Command::with_params("Page.navigate", members)
    }

    /// `Runtime.evaluate` of `expression`, by value, awaiting a promise.
    pub fn evaluate_js(expression: &str) -> (r: Command)
        ensures
            r@ == evaluate_js_spec(expression@),
    {
        let mut members = crate::json::no_members();
        crate::json::push_member(&mut members, "expression", Json::string(expression));
        crate::json::push_member(&mut members, "returnByValue", Json::Bool(true));
        crate::json::push_member(&mut members, "awaitPromise", Json::Bool(true));
        assert(crate::json::members_view(members@) =~= evaluate_js_spec(
            expression@,
        ).params->0->Object_0);
        Command::with_params("Runtime.evaluate", members)
    }

    /// `Runtime.evaluate` of `expression`, by value.
    pub fn evaluate_value(expression: &str) -> (r: Command)
        ensures
            r@ == evaluate_value_spec(expression@),
    {
        let mut members = crate::json::no_members();
        crate::json::push_member(&mut members, "expression", Json::string(expression));
        crate::json::push_member(&mut members, "returnByValue", Json::Bool(true));
        assert(crate::json::members_view(members@) =~= evaluate_value_spec(
            expression@,
        ).params->0->Object_0);
        Command::with_params("Runtime.evaluate", members)
    }

    /// `Runtime.evaluate` of `expression`, for its effect.
    pub fn run_script(expression: &str) -> (r: Command)
        ensures
            r@ == run_script_spec(expression@),
    {
        let mut members = crate::json::no_members();
        crate::json::push_member(&mut members, "expression", Json::string(expression));
        Command::with_params("Runtime.evaluate", members)
    }

    /// `Page.captureScreenshot` with the format and quality that are given.
    pub fn screenshot(format: Option<&str>, quality: Option<u32>) -> (r: Command)
        ensures
            r@ == screenshot_spec(
                match format {
                    Some(f) => Some(f@),
                    None => None,
                },
                quality,
            ),
    {
        let mut members = crate::json::no_members();
        match format {
            Some(f) => {
                crate::json::push_member(&mut members, "format", Json::string(f));
            },
            None => {},
        }
        match quality {
            Some(q) => {
                crate::json::push_member(&mut members, "quality", Json::from_u64(q as u64));
            },
            None => {},
        }
        let r = Command::with_params("Page.captureScreenshot", members);
        assert(r@.params->0->Object_0 =~= screenshot_spec(
            match format {
                Some(f) => Some(f@),
                None => None,
            },
            quality,
        ).params->0->Object_0);
        r
    }

    /// `Input.dispatchMouseEvent` of the left button at a point; `kind` is
    /// `mousePressed` or `mouseReleased`.
    pub fn mouse_event(kind: &str, x: &serde_json::Number, y: &serde_json::Number) -> (r: Command)
        ensures
            r@ == mouse_event_spec(
                kind@,
                crate::json::number_model(*x),
                crate::json::number_model(*y),
            ),
    {
        let mut members = crate::json::no_members();
        crate::json::push_member(&mut members, "type", Json::string(kind));
        crate::json::push_member(&mut members, "x", Json::Num(x.clone()));
        crate::json::push_member(&mut members, "y", Json::Num(y.clone()));
        crate::json::push_member(&mut members, "button", Json::string("left"));
        crate::json::push_member(&mut members, "clickCount", Json::from_u64(1));
        assert(crate::json::members_view(members@) =~= mouse_event_spec(
            kind@,
            crate::json::number_model(*x),
            crate::json::number_model(*y),
        ).params->0->Object_0);
        Command::with_params("Input.dispatchMouseEvent", members)
    }

    /// The commands that type `text`, one per character.
    pub fn type_text(text: &str) -> (r: Vec<Command>)
        ensures
            commands_view(r@) == type_text_spec(text@),
    {
        let cs = crate::text::chars_of(text);
        let mut out: Vec<Command> = Vec::new();
        let mut i: usize = 0;
        while i < cs.len()
            invariant
                i <= cs.len(),
                cs@ == text@,
                out.len() == i,
                forall|j: int| 0 <= j < i ==> out@[j]@ == char_event_spec(text@[j]),
            decreases cs.len() - i,
        {
            let mut one = String::new();
            one.push(cs[i]);
            assert(one@ =~= seq![cs@[i as int]]);
            let mut members = crate::json::no_members();
            crate::json::push_member(&mut members, "type", Json::string("char"));
            crate::json::push_member(&mut members, "text", Json::Str(one));
            assert(crate::json::members_view(members@) =~= char_event_spec(
                text@[i as int],
            ).params->0->Object_0);
            out.push(Command::with_params("Input.dispatchKeyEvent", members));
            i = i + 1;
        }
        assert(commands_view(out@) =~= type_text_spec(text@));
        out
    }

    /// `Accessibility.getFullAXTree`, which asks for the snapshot of the page.
    pub fn get_accessibility_tree() -> (r: Command)
        ensures
            r@ == bare_command("Accessibility.getFullAXTree"@),
    {
        Command::bare("Accessibility.getFullAXTree")
    }

    /// `DOM.getDocument`, which asks for the root of the document.
    pub fn get_document() -> (r: Command)
        ensures
            r@ == bare_command("DOM.getDocument"@),
    {
        Command::bare("DOM.getDocument")
    }

    /// `DOM.querySelectorAll` for `selector` under the node `root`.
    pub fn query_selector_all(root: u64, selector: &str) -> (r: Command)
        ensures
            r@ == query_selector_all_spec(root, selector@),
    {
        let mut members = crate::json::no_members();
        crate::json::push_member(&mut members, "nodeId", Json::from_u64(root));
        crate::json::push_member(&mut members, "selector", Json::string(selector));
        assert(crate::json::members_view(members@) =~= query_selector_all_spec(
            root,
            selector@,
        ).params->0->Object_0);
        Command::with_params("DOM.querySelectorAll", members)
    }
}

/// Reads the reply to `Runtime.evaluate`.
pub fn evaluate_result(reply: &Json) -> (r: Result<Json, ChromeMcpError>)
    ensures
        match r {
            Ok(value) => evaluate_outcome(reply@) == Ok::<JsonV, ErrorV>(value@),
            Err(e) => evaluate_outcome(reply@) == Err::<JsonV, ErrorV>(e@),
        },
{
    match reply.get("exceptionDetails") {
        Some(details) => Err(
            ChromeMcpError::JavaScriptError(concat("JS Exception: ", details.to_text().as_str())),
        ),
        None => match reply.get("result") {
            Some(value) => Ok(value.clone()),
            None => Ok(Json::Null),
        },
    }
}

/// Reads the image out of the reply to `Page.captureScreenshot`.
pub fn screenshot_result(reply: &Json) -> (r: Result<String, ChromeMcpError>)
    ensures
        match r {
            Ok(data) => screenshot_outcome(reply@) == Ok::<Seq<char>, ErrorV>(data@),
            Err(e) => screenshot_outcome(reply@) == Err::<Seq<char>, ErrorV>(e@),
        },
{
    let data = match reply.get("data") {
        Some(d) => d.as_str(),
        None => None,
    };
    match data {
        Some(d) => Ok(String::from_str(d)),
        None => Err(ChromeMcpError::screenshot_error("No screenshot data returned")),
    }
}

/// Reads the id of the root node out of the reply to `DOM.getDocument`.
pub fn document_root_id(reply: &Json) -> (r: Result<u64, ChromeMcpError>)
    ensures
        match r {
            Ok(id) => document_root(reply@) == Ok::<u64, ErrorV>(id),
            Err(e) => document_root(reply@) == Err::<u64, ErrorV>(e@),
        },
{
    let id = match reply.get("root") {
        Some(root) => match root.get("nodeId") {
            Some(n) => n.as_u64(),
            None => None,
        },
        None => None,
    };
    match id {
        Some(n) => Ok(n),
        None => Err(ChromeMcpError::cdp_protocol("Could not get document root")),
    }
}

/// What registering a call of `command` for `waiter` does to a client and
/// gives back: on a ready connection the request frame with the id that was
/// next, with the waiter put under that id; else the refusal, and no change.
pub open spec fn sent<W>(
    before: ClientV<W>,
    command: CommandV,
    waiter: W,
    r: Result<CdpMessage, ChromeMcpError>,
    after: ClientV<W>,
) -> bool {
    match r {
        Ok(frame) => {
            &&& before.refusal() is None
            &&& frame@ == before.request(command.method, command.params)
            &&& after == before.register(waiter)
        },
        Err(e) => {
            &&& before.refusal() == Some(e@)
            &&& after == before
        },
    }
}

impl<W> CdpClient<W> {
    /// Registers a call of `command`; see `send_command`.
    pub fn send(&mut self, command: Command, waiter: W) -> (r: Result<CdpMessage, ChromeMcpError>)
        ensures
            final(self)@.wf(),
            sent(old(self)@, command@, waiter, r, final(self)@),
    {
        self.send_command(command.method.as_str(), command.params, waiter)
    }
}

/// The text member `key` of an object, which must be there.
pub open spec fn required_text(j: JsonV, key: Seq<char>) -> Result<Seq<char>, Seq<char>> {
    match crate::frame::field(j, key) {
        Some(JsonV::Str(s)) => Ok(s),
        _ => Err("missing or invalid field `"@ + key + "`"@),
    }
}

/// Reads the description of one tab: `id`, `title`, `url` and `description`
/// are required texts, `webSocketDebuggerUrl` is an optional one.
pub open spec fn decode_tab(j: JsonV) -> Result<TabInfoV, Seq<char>> {
    if required_text(j, "id"@) is Err {
        Err(required_text(j, "id"@)->Err_0)
    } else if required_text(j, "title"@) is Err {
        Err(required_text(j, "title"@)->Err_0)
    } else if required_text(j, "url"@) is Err {
        Err(required_text(j, "url"@)->Err_0)
    } else if required_text(j, "description"@) is Err {
        Err(required_text(j, "description"@)->Err_0)
    } else {
        match crate::frame::field(j, "webSocketDebuggerUrl"@) {
            None => Ok(
                TabInfoV {
                    id: required_text(j, "id"@)->Ok_0,
                    title: required_text(j, "title"@)->Ok_0,
                    url: required_text(j, "url"@)->Ok_0,
                    description: required_text(j, "description"@)->Ok_0,
                    websocket_debugger_url: None,
                },
            ),
            Some(JsonV::Str(address)) => Ok(
                TabInfoV {
                    id: required_text(j, "id"@)->Ok_0,
                    title: required_text(j, "title"@)->Ok_0,
                    url: required_text(j, "url"@)->Ok_0,
                    description: required_text(j, "description"@)->Ok_0,
                    websocket_debugger_url: Some(address),
                },
            ),
            Some(_) => Err("missing or invalid field `webSocketDebuggerUrl`"@),
        }
    }
}

/// Reads a list of tabs: every item must describe a tab; the first that
/// does not decides the error.
pub open spec fn decode_tabs(items: Seq<JsonV>) -> Result<Seq<TabInfoV>, Seq<char>>
    decreases items.len(),
{
    if items.len() == 0 {
        Ok(Seq::empty())
    } else {
        match decode_tabs(items.drop_last()) {
            Err(m) => Err(m),
            Ok(front) => match decode_tab(items.last()) {
                Ok(tab) => Ok(front.push(tab)),
                Err(m) => Err(m),
            },
        }
    }
}

/// What the body of the discovery endpoint's answer says: the list of tabs.
pub open spec fn tab_list(body: Seq<char>) -> Result<Seq<TabInfoV>, ErrorV> {
    match crate::json::json_parse(body) {
        Err(m) => Err(ErrorV::CdpProtocol("Failed to parse tab list: "@ + m)),
        Ok(JsonV::Array(items)) => match decode_tabs(items) {
            Ok(tabs) => Ok(tabs),
            Err(m) => Err(ErrorV::CdpProtocol("Failed to parse tab list: "@ + m)),
        },
        Ok(_) => Err(ErrorV::CdpProtocol("Failed to parse tab list: expected a list"@)),
    }
}

fn required_text_of(j: &Json, key: &str) -> (r: Result<String, String>)
    ensures
        match r {
            Ok(s) => required_text(j@, key@) == Ok::<Seq<char>, Seq<char>>(s@),
            Err(m) => required_text(j@, key@) == Err::<Seq<char>, Seq<char>>(m@),
        },
{
    let found = match crate::frame::get_field(j, key) {
        Some(v) => v.as_str(),
        None => None,
    };
    match found {
        Some(s) => Ok(String::from_str(s)),
        None => Err(concat3("missing or invalid field `", key, "`")),
    }
}

impl TabInfo {
    /// Reads the description of one tab from its JSON form.
    pub fn from_json(j: &Json) -> (r: Result<TabInfo, String>)
        ensures
            match r {
                Ok(tab) => decode_tab(j@) == Ok::<TabInfoV, Seq<char>>(tab@),
                Err(m) => decode_tab(j@) == Err::<TabInfoV, Seq<char>>(m@),
            },
    {
        let id = match required_text_of(j, "id") {
            Ok(s) => s,
            Err(m) => {
                return Err(m);
            },
        };
        let title = match required_text_of(j, "title") {
            Ok(s) => s,
            Err(m) => {
                return Err(m);
            },
        };
        let url = match required_text_of(j, "url") {
            Ok(s) => s,
            Err(m) => {
                return Err(m);
            },
        };
        let description = match required_text_of(j, "description") {
            Ok(s) => s,
            Err(m) => {
                return Err(m);
            },
        };
        let websocket_debugger_url = match crate::frame::get_field(j, "webSocketDebuggerUrl") {
            None => None,
            Some(v) => match v.as_str() {
                Some(address) => Some(String::from_str(address)),
                None => {
                    return Err(String::from_str("missing or invalid field `webSocketDebuggerUrl`"));
                },
            },
        };
        Ok(TabInfo { id, title, url, description, websocket_debugger_url })
    }
}

/// Reads the list of tabs from the body of the discovery endpoint's answer.
pub fn parse_tab_list(body: &str) -> (r: Result<Vec<TabInfo>, ChromeMcpError>)
    ensures
        match r {
            Ok(tabs) => tab_list(body@) == Ok::<Seq<TabInfoV>, ErrorV>(tabs_view(tabs@)),
            Err(e) => tab_list(body@) == Err::<Seq<TabInfoV>, ErrorV>(e@),
        },
{
    let parsed = match Json::parse(body) {
        Ok(j) => j,
        Err(m) => {
            return Err(ChromeMcpError::CdpProtocol(concat("Failed to parse tab list: ", m.as_str())));
        },
    };
    let items = match parsed.as_array() {
        Some(items) => items,
        None => {
            return Err(ChromeMcpError::cdp_protocol("Failed to parse tab list: expected a list"));
        },
    };
    let ghost all = crate::json::items_view(items@);
    let mut tabs: Vec<TabInfo> = Vec::new();
    let mut i: usize = 0;
    proof {
        assert(all.take(0) =~= Seq::<JsonV>::empty());
        assert(tabs_view(tabs@) =~= Seq::<TabInfoV>::empty());
    }
    while i < items.len()
        invariant
            i <= items.len(),
            all == crate::json::items_view(items@),
            decode_tabs(all.take(i as int)) == Ok::<Seq<TabInfoV>, Seq<char>>(tabs_view(tabs@)),
            tab_list(body@) == match decode_tabs(all) {
                Ok(t) => Ok::<Seq<TabInfoV>, ErrorV>(t),
                Err(m) => Err::<Seq<TabInfoV>, ErrorV>(
                    ErrorV::CdpProtocol("Failed to parse tab list: "@ + m),
                ),
            },
        decreases items.len() - i,
    {
        let ghost next = all.take(i + 1);
        let ghost before = tabs_view(tabs@);
        proof {
            assert(next.drop_last() =~= all.take(i as int));
            assert(next.last() == items@[i as int]@);
        }
        match TabInfo::from_json(&items[i]) {
            Ok(tab) => {
                tabs.push(tab);
                proof {
                    assert(tabs_view(tabs@) =~= before.push(tab@));
                }
            },
            Err(m) => {
                proof {
                    lemma_decode_tabs_prefix_error(all, i + 1);
                }
                return Err(
                    ChromeMcpError::CdpProtocol(concat("Failed to parse tab list: ", m.as_str())),
                );
            },
        }
        i = i + 1;
    }
    proof {
        assert(all.take(items.len() as int) =~= all);
    }
    Ok(tabs)
}

/// An error among the first `n` items is the error of the whole list.
proof fn lemma_decode_tabs_prefix_error(items: Seq<JsonV>, n: int)
    requires
        0 <= n <= items.len(),
        decode_tabs(items.take(n)) is Err,
    ensures
        decode_tabs(items) == decode_tabs(items.take(n)),
    decreases items.len(),
{
    if n == items.len() {
        assert(items.take(n) =~= items);
    } else {
        assert(items.drop_last().take(n) =~= items.take(n));
        lemma_decode_tabs_prefix_error(items.drop_last(), n);
    }
}

/// The address of the discovery endpoint under `path`.
pub open spec fn endpoint(host: Seq<char>, port: u16, path: Seq<char>) -> Seq<char> {
    "http://"@ + host + ":"@ + decimal(port as nat) + path
}

impl<W> CdpClient<W> {
    fn endpoint_url(&self, path: &str) -> (r: String)
        ensures
            r@ == endpoint(self@.host, self@.port, path@),
    {
        let mut out = String::from_str("http://");
        out.append(self.chrome_host.as_str());
        out.append(":");
        out.append(u64_to_string(self.chrome_port as u64).as_str());
        out.append(path);
        out
    }

    /// The address that lists the tabs.
    pub fn list_tabs_url(&self) -> (r: String)
        ensures
            r@ == endpoint(self@.host, self@.port, "/json"@),
    {
        self.endpoint_url("/json")
    }

    /// The address that opens a new tab, on `url` where one is given.
    pub fn create_tab_url(&self, url: Option<&str>) -> (r: String)
        ensures
            r@ == endpoint(self@.host, self@.port, "/json/new"@) + match url {
                Some(u) => "?"@ + u@,
                None => Seq::empty(),
            },
    {
        let mut out = self.endpoint_url("/json/new");
        match url {
            Some(u) => {
                out.append("?");
                out.append(u);
                assert(out@ =~= endpoint(self@.host, self@.port, "/json/new"@) + ("?"@ + u@));
            },
            None => {
                assert(out@ =~= endpoint(self@.host, self@.port, "/json/new"@) + Seq::<
                    char,
                >::empty());
            },
        }
        out
    }

    /// The address that closes the tab `tab_id`.
    pub fn close_tab_url(&self, tab_id: &str) -> (r: String)
        ensures
            r@ == endpoint(self@.host, self@.port, "/json/close/"@ + tab_id@),
    {
        let path = concat("/json/close/", tab_id);
        self.endpoint_url(path.as_str())
    }

    /// Registers the call that navigates to `url`.
    pub fn navigate(&mut self, url: &str, waiter: W) -> (r: Result<CdpMessage, ChromeMcpError>)
        ensures
            final(self)@.wf(),
            sent(old(self)@, navigate_spec(url@), waiter, r, final(self)@),
    {
        self.send(Command::navigate(url), waiter)
    }

    /// Registers the call that evaluates `expression` in the page.
    pub fn evaluate_js(&mut self, expression: &str, waiter: W) -> (r: Result<
        CdpMessage,
        ChromeMcpError,
    >)
        ensures
            final(self)@.wf(),
            sent(old(self)@, evaluate_js_spec(expression@), waiter, r, final(self)@),
    {
        self.send(Command::evaluate_js(expression), waiter)
    }

    /// Registers the call that takes a screenshot.
    pub fn screenshot(&mut self, format: Option<&str>, quality: Option<u32>, waiter: W) -> (r:
        Result<CdpMessage, ChromeMcpError>)
        ensures
            final(self)@.wf(),
            sent(
                old(self)@,
                screenshot_spec(
                    match format {
                        Some(f) => Some(f@),
                        None => None,
                    },
                    quality,
                ),
                waiter,
                r,
                final(self)@,
            ),
    {
        self.send(Command::screenshot(format, quality), waiter)
    }

    /// Registers the call that asks for the accessibility snapshot.
    pub fn get_accessibility_tree(&mut self, waiter: W) -> (r: Result<CdpMessage, ChromeMcpError>)
        ensures
            final(self)@.wf(),
            sent(
                old(self)@,
                bare_command("Accessibility.getFullAXTree"@),
                waiter,
                r,
                final(self)@,
            ),
    {
        self.send(Command::get_accessibility_tree(), waiter)
    }
}

} // verus!
