//! The connection handler: what the server does with each request of a
//! client, one step at a time.
//!
//! The caller owns the socket, the player processes and the HTTP client. For
//! each socket it accepts it makes a connection with `Connection::new`, which
//! holds no process whatever an earlier connection did. It then performs the
//! action that `Connection::handle` hands out and comes back with the event
//! that tells what came of it. The first action of a connection is always
//! `Action::Read`.

use vstd::prelude::*;
use crate::player::{Player, Command, CommandLine, Launch, play_line, interrupt_line};
use crate::protocol::{Client, Server, RadioStation, FrameError, SearchData};
use crate::search::{Seeker, Query, StationOrder, entries_map, mirror_url, distinct_keys};

verus! {

/// The server's arguments.
#[derive(Debug, Clone, PartialEq, Eq)]
pub struct Args {
    /// Address the server listens on.
    pub addr: String,
}

/// The address a server listens on unless told otherwise.
pub open spec fn default_addr() -> Seq<char> {
    "localhost:8080"@
}

impl Default for Args {
    fn default() -> (a: Args)
        ensures
            a.addr@ == default_addr(),
    {
        Args { addr: String::from_str("localhost:8080") }
    }
}

/// What a connection is waiting for.
#[derive(Debug, Clone, PartialEq, Eq)]
pub enum Phase {
    /// The next request of the client.
    Ready,
    /// The interrupt signal to the player held. With a command, that command
    /// is to start the next player once the signal has gone out.
    Stopping(Option<Command>),
    /// The spawn of a new player.
    Starting,
    /// The mirror's answer to a search.
    Searching,
    /// The end of a write to the client.
    Replying,
    /// Nothing: the connection is over.
    Closed,
}

/// The server's side of one client connection.
#[derive(Debug, Clone, PartialEq, Eq)]
pub struct Connection {
    pub is_playing: bool,
    pub player: Player,
    pub seeker: Seeker,
    pub phase: Phase,
}

/// What came of the last action.
#[derive(Debug, PartialEq, Eq)]
pub enum Event {
    /// A line was read and holds this request.
    Request(Client),
    /// Nothing was read: the client has closed the connection.
    EndOfStream,
    /// The read failed, or the line read is no request.
    Broken(FrameError),
    /// The signal command was started (`None`), or could not be, for the
    /// reason given.
    Signalled(Option<String>),
    /// The player was started as the process given, or could not be, for the
    /// reason given.
    Spawned(Result<u32, String>),
    /// The mirror answered with these stations, or the call failed for the
    /// reason given.
    Found(Result<Vec<RadioStation>, String>),
    /// The answer was written (`None`), or the socket failed for the reason
    /// given.
    Sent(Option<String>),
}

/// What the caller is to do next.
#[derive(Debug, PartialEq, Eq)]
pub enum Action {
    /// Read one line from the client.
    Read,
    /// Start this command, which signals the player held, without waiting for
    /// either process to end.
    Signal(Command),
    /// Start this command, which plays a stream, and keep its process
    /// identifier.
    Spawn(Command),
    /// Post this query to the mirror.
    Search(Query),
    /// Write this answer to the client and flush.
    Send(Server),
    /// Leave the connection, with the error that ended it if there was one.
    Close(Option<FrameError>),
}

/// What a `Phase` says.
pub enum PhaseView {
    Ready,
    Stopping(Option<CommandLine>),
    Starting,
    Searching,
    Replying,
    Closed,
}

/// What a connection knows: the process it holds, if it is playing, the
/// mirror it asks, and what it is waiting for.
pub struct ConnState {
    pub playing: Option<u32>,
    pub host: Seq<char>,
    pub phase: PhaseView,
}

/// What an answer says.
pub enum Reply {
    RadioChList(Seq<RadioStation>),
    Error(Seq<char>),
}

/// What an `Action` says.
pub enum ActionView {
    Read,
    Signal(CommandLine),
    Spawn(CommandLine),
    Search { url: Seq<char>, params: Map<Seq<char>, Seq<char>> },
    Send(Reply),
    Close(Option<FrameError>),
}

impl View for Phase {
    type V = PhaseView;

    open spec fn view(&self) -> PhaseView {
        match self {
            Phase::Ready => PhaseView::Ready,
            Phase::Stopping(Some(next)) => PhaseView::Stopping(Some(next@)),
            Phase::Stopping(None) => PhaseView::Stopping(None),
            Phase::Starting => PhaseView::Starting,
            Phase::Searching => PhaseView::Searching,
            Phase::Replying => PhaseView::Replying,
            Phase::Closed => PhaseView::Closed,
        }
    }
}

impl View for Connection {
    type V = ConnState;

    open spec fn view(&self) -> ConnState {
        ConnState { playing: self.player.child_process_id, host: self.seeker.server@, phase: self.phase@ }
    }
}

impl View for Server {
    type V = Reply;

    open spec fn view(&self) -> Reply {
        match self {
            Server::RadioChList { radio_list } => Reply::RadioChList(radio_list@),
            Server::Error(message) => Reply::Error(message@),
        }
    }
}

impl View for Action {
    type V = ActionView;

    open spec fn view(&self) -> ActionView {
        match self {
            Action::Read => ActionView::Read,
            Action::Signal(c) => ActionView::Signal(c@),
            Action::Spawn(c) => ActionView::Spawn(c@),
            Action::Search(q) => ActionView::Search { url: q.url@, params: entries_map(q.params@) },
            Action::Send(r) => ActionView::Send(r@),
            Action::Close(e) => ActionView::Close(*e),
        }
    }
}

/// The message sent when a search finds nothing.
pub open spec fn nothing_found() -> Seq<char> {
    "No radio stations found."@
}

/// The path of the station search on every mirror.
pub open spec fn search_path() -> Seq<char> {
    "/json/stations/search"@
}

/// The parameters of the query that a search is sent as: the three fields of
/// the request, and the most played stations first.
pub open spec fn search_params(data: SearchData) -> Map<Seq<char>, Seq<char>> {
    Map::<Seq<char>, Seq<char>>::empty().insert("name"@, data.name@).insert("country"@, data.country@).insert(
        "language"@,
        data.language@,
    ).insert("reverse"@, "true"@).insert("order"@, "clickcount"@)
}

/// The state in which every connection starts: nothing is playing, and the
/// first request is awaited.
pub open spec fn fresh(host: Seq<char>) -> ConnState {
    ConnState { playing: None, host, phase: PhaseView::Ready }
}

/// The state a connection is put into to be left.
pub open spec fn closed(s: ConnState) -> ConnState {
    ConnState { phase: PhaseView::Closed, ..s }
}

/// The state in which a connection reads the next request.
pub open spec fn ready(s: ConnState) -> ConnState {
    ConnState { phase: PhaseView::Ready, ..s }
}

/// The state in which a connection writes an answer.
pub open spec fn replying(s: ConnState) -> ConnState {
    ConnState { phase: PhaseView::Replying, ..s }
}

/// What a connection that reads the next request does with what was read.
pub open spec fn on_read(s: ConnState, event: Event) -> (ConnState, ActionView) {
    match event {
        Event::Request(Client::Play { url }) => match s.playing {
            Some(pid) => (
                ConnState { phase: PhaseView::Stopping(Some(play_line(url@))), ..s },
                ActionView::Signal(interrupt_line(pid)),
            ),
            None => (ConnState { phase: PhaseView::Starting, ..s }, ActionView::Spawn(play_line(url@))),
        },
        Event::Request(Client::Stop) => match s.playing {
            Some(pid) => (
                ConnState { phase: PhaseView::Stopping(None), ..s },
                ActionView::Signal(interrupt_line(pid)),
            ),
            None => (s, ActionView::Read),
        },
        Event::Request(Client::Search { search_data }) => (
            ConnState { phase: PhaseView::Searching, ..s },
            ActionView::Search { url: mirror_url(s.host, search_path()), params: search_params(search_data) },
        ),
        Event::EndOfStream => (closed(s), ActionView::Close(None)),
        Event::Broken(error) => (closed(s), ActionView::Close(Some(error))),
        _ => (closed(s), ActionView::Close(Some(FrameError::OutOfTurn))),
    }
}

/// The step of a connection: the state that follows `s` on `event`, and the
/// action asked of the caller.
///
/// A failure of the player or of the mirror is answered with an error
/// message and the connection reads on. A line that cannot be read, a failed
/// write and an event that does not answer the pending action end it.
pub open spec fn step(s: ConnState, event: Event) -> (ConnState, ActionView) {
    match s.phase {
        PhaseView::Ready => on_read(s, event),
        PhaseView::Stopping(next) => match event {
            Event::Signalled(None) => match next {
                Some(spawn) => (ConnState { phase: PhaseView::Starting, ..s }, ActionView::Spawn(spawn)),
                None => (ConnState { playing: None, phase: PhaseView::Ready, ..s }, ActionView::Read),
            },
            Event::Signalled(Some(reason)) => (replying(s), ActionView::Send(Reply::Error(reason@))),
            _ => (closed(s), ActionView::Close(Some(FrameError::OutOfTurn))),
        },
        PhaseView::Starting => match event {
            Event::Spawned(Ok(pid)) => (ConnState { playing: Some(pid), phase: PhaseView::Ready, ..s }, ActionView::Read),
            Event::Spawned(Err(reason)) => (
                ConnState { playing: None, phase: PhaseView::Replying, ..s },
                ActionView::Send(Reply::Error(reason@)),
            ),
            _ => (closed(s), ActionView::Close(Some(FrameError::OutOfTurn))),
        },
        PhaseView::Searching => match event {
            Event::Found(Ok(stations)) => if stations@.len() > 0 {
                (replying(s), ActionView::Send(Reply::RadioChList(stations@)))
            } else {
                (replying(s), ActionView::Send(Reply::Error(nothing_found())))
            },
            Event::Found(Err(reason)) => (replying(s), ActionView::Send(Reply::Error(reason@))),
            _ => (closed(s), ActionView::Close(Some(FrameError::OutOfTurn))),
        },
        PhaseView::Replying => match event {
            Event::Sent(None) => (ready(s), ActionView::Read),
            Event::Sent(Some(reason)) => (closed(s), ActionView::Close(Some(FrameError::Transport(reason)))),
            _ => (closed(s), ActionView::Close(Some(FrameError::OutOfTurn))),
        },
        PhaseView::Closed => (s, ActionView::Close(None)),
    }
}

impl Connection {
    /// The playing flag is set exactly when the player holds a process.
    pub open spec fn wf(&self) -> bool {
        self.is_playing == self.player.child_process_id.is_some()
    }

    /// The connection for a socket just accepted: it plays nothing, asks the
    /// mirror behind `seeker`, and waits for its first request.
    pub fn new(seeker: Seeker) -> (c: Connection)
        ensures
            c.wf(),
            !c.is_playing,
            c@ == fresh(seeker.server@),
    {
        Connection { is_playing: false, player: Player::new(), seeker, phase: Phase::Ready }
    }

    fn resume(&mut self) -> (action: Action)
        requires
            old(self).wf(),
        ensures
            final(self).wf(),
            final(self)@ == ready(old(self)@),
            action@ == ActionView::Read,
    {
        self.phase = Phase::Ready;
        Action::Read
    }

    fn close(&mut self, error: Option<FrameError>) -> (action: Action)
        requires
            old(self).wf(),
        ensures
            final(self).wf(),
            final(self)@ == closed(old(self)@),
            action@ == ActionView::Close(error),
    {
        self.phase = Phase::Closed;
        Action::Close(error)
    }

    fn reply(&mut self, message: String) -> (action: Action)
        requires
            old(self).wf(),
        ensures
            final(self).wf(),
            final(self)@ == replying(old(self)@),
            action@ == ActionView::Send(Reply::Error(message@)),
    {
        self.phase = Phase::Replying;
        Action::Send(Server::Error(message))
    }

    fn start(&mut self, spawn: Command) -> (action: Action)
        requires
            old(self).wf(),
        ensures
            final(self).wf(),
            final(self)@ == (ConnState { phase: PhaseView::Starting, ..old(self)@ }),
            action@ == ActionView::Spawn(spawn@),
    {
        self.phase = Phase::Starting;
        Action::Spawn(spawn)
    }

    fn signal(&mut self, interrupt: Command, next: Option<Command>) -> (action: Action)
        requires
            old(self).wf(),
        ensures
            final(self).wf(),
            final(self)@ == (ConnState {
                phase: PhaseView::Stopping(
                    match next {
                        Some(spawn) => Some(spawn@),
                        None => None,
                    },
                ),
                ..old(self)@
            }),
            action@ == ActionView::Signal(interrupt@),
    {
        self.phase = Phase::Stopping(next);
        Action::Signal(interrupt)
    }

    fn search(&mut self, search_data: SearchData) -> (action: Action)
        requires
            old(self).wf(),
        ensures
            final(self).wf(),
            final(self)@ == (ConnState { phase: PhaseView::Searching, ..old(self)@ }),
            action@ == (ActionView::Search {
                url: mirror_url(old(self)@.host, search_path()),
                params: search_params(search_data),
            }),
    {
        let query: Query = self.seeker.get_radio_station_search_mapper().name(search_data.name).country(
            search_data.country,
        ).language(search_data.language).reverse(true).order(StationOrder::Clickcount).send();
        self.phase = Phase::Searching;
        Action::Search(query)
    }

    fn request(&mut self, request: Client) -> (action: Action)
        requires
            old(self).wf(),
        ensures
            final(self).wf(),
            (final(self)@, action@) == on_read(ready(old(self)@), Event::Request(request)),
    {
        match request {
            Client::Play { url } => {
                let launch: Launch = self.player.play(url.as_str());
                match launch.interrupt {
                    Some(interrupt) => self.signal(interrupt, Some(launch.spawn)),
                    None => self.start(launch.spawn),
                }
            },
            Client::Stop => {
                match self.player.stop() {
                    Some(interrupt) => self.signal(interrupt, None),
                    None => self.resume(),
                }
            },
            Client::Search { search_data } => self.search(search_data),
        }
    }

    /// Takes the event that answers the last action, and says what to do
    /// next.
    pub fn handle(&mut self, event: Event) -> (action: Action)
        requires
            old(self).wf(),
        ensures
            final(self).wf(),
            final(self).is_playing == step(old(self)@, event).0.playing.is_some(),
            (final(self)@, action@) == step(old(self)@, event),
    {
        let mut phase: Phase = Phase::Closed;
        core::mem::swap(&mut self.phase, &mut phase);
        match phase {
            Phase::Ready => match event {
                Event::Request(request) => self.request(request),
                Event::EndOfStream => self.close(None),
                Event::Broken(error) => self.close(Some(error)),
                _ => self.close(Some(FrameError::OutOfTurn)),
            },
            Phase::Stopping(next) => match event {
                Event::Signalled(None) => match next {
                    Some(spawn) => self.start(spawn),
                    None => {
                        self.player.released();
                        self.is_playing = false;
                        self.phase = Phase::Ready;
                        Action::Read
                    },
                },
                Event::Signalled(Some(reason)) => self.reply(reason),
                _ => self.close(Some(FrameError::OutOfTurn)),
            },
            Phase::Starting => match event {
                Event::Spawned(Ok(pid)) => {
                    self.player.started(Some(pid));
                    self.is_playing = true;
                    self.phase = Phase::Ready;
                    Action::Read
                },
                Event::Spawned(Err(reason)) => {
                    self.player.started(None);
                    self.is_playing = false;
                    self.reply(reason)
                },
                _ => self.close(Some(FrameError::OutOfTurn)),
            },
            Phase::Searching => match event {
                Event::Found(Ok(stations)) => {
                    if !stations.is_empty() {
                        self.phase = Phase::Replying;
                        Action::Send(Server::RadioChList { radio_list: stations })
                    } else {
                        self.reply(String::from_str("No radio stations found."))
                    }
                },
                Event::Found(Err(reason)) => self.reply(reason),
                _ => self.close(Some(FrameError::OutOfTurn)),
            },
            Phase::Replying => match event {
                Event::Sent(None) => self.resume(),
                Event::Sent(Some(reason)) => self.close(Some(FrameError::Transport(reason))),
                _ => self.close(Some(FrameError::OutOfTurn)),
            },
            Phase::Closed => Action::Close(None),
        }
    }
}

/// A request to play while a stream is playing replaces it: the process held
/// gets one interrupt signal, then the new player is started, and only then
/// is the next request read. The connection holds a process throughout, and
/// the new one at the end.
pub proof fn law_play_replaces(s: ConnState, url: String, old_pid: u32, new_pid: u32)
    requires
        s.phase == PhaseView::Ready,
        s.playing == Some(old_pid),
    ensures
        ({
            let (s1, a1) = step(s, Event::Request(Client::Play { url }));
            let (s2, a2) = step(s1, Event::Signalled(None));
            let (s3, a3) = step(s2, Event::Spawned(Ok(new_pid)));
            &&& a1 == ActionView::Signal(interrupt_line(old_pid))
            &&& a2 == ActionView::Spawn(play_line(url@))
            &&& a3 == ActionView::Read
            &&& s1.playing.is_some()
            &&& s2.playing.is_some()
            &&& s3 == (ConnState { playing: Some(new_pid), phase: PhaseView::Ready, ..s })
        }),
{
}

/// A request to play on an idle connection starts a player without any
/// signal, and the connection holds the new process once it is reported.
pub proof fn law_play_idle(s: ConnState, url: String, pid: u32)
    requires
        s.phase == PhaseView::Ready,
        s.playing.is_none(),
    ensures
        ({
            let (s1, a1) = step(s, Event::Request(Client::Play { url }));
            let (s2, a2) = step(s1, Event::Spawned(Ok(pid)));
            &&& a1 == ActionView::Spawn(play_line(url@))
            &&& a2 == ActionView::Read
            &&& s2 == (ConnState { playing: Some(pid), phase: PhaseView::Ready, ..s })
        }),
{
}

/// A request to stop on an idle connection changes nothing and asks for
/// nothing but the next request: no signal is sent and no answer written.
pub proof fn law_stop_idle(s: ConnState)
    requires
        s.phase == PhaseView::Ready,
        s.playing.is_none(),
    ensures
        step(s, Event::Request(Client::Stop)) == (s, ActionView::Read),
{
}

/// A request to stop while a stream is playing sends one interrupt signal to
/// the process held; once the signal has gone out nothing is held, and the
/// next request is read without an answer having been written.
pub proof fn law_stop_playing(s: ConnState, pid: u32)
    requires
        s.phase == PhaseView::Ready,
        s.playing == Some(pid),
    ensures
        ({
            let (s1, a1) = step(s, Event::Request(Client::Stop));
            let (s2, a2) = step(s1, Event::Signalled(None));
            &&& a1 == ActionView::Signal(interrupt_line(pid))
            &&& a2 == ActionView::Read
            &&& s2 == (ConnState { playing: None, phase: PhaseView::Ready, ..s })
        }),
{
}

/// No step ever sends an empty station list.
pub proof fn law_station_list_nonempty(s: ConnState, event: Event)
    ensures
        match step(s, event).1 {
            ActionView::Send(Reply::RadioChList(stations)) => stations.len() > 0,
            _ => true,
        },
{
}

/// A search that finds nothing is answered with the error message that says
/// so, and the connection goes on.
pub proof fn law_empty_search(s: ConnState, stations: Vec<RadioStation>)
    requires
        s.phase == PhaseView::Searching,
        stations@.len() == 0,
    ensures
        step(s, Event::Found(Ok(stations))) == (replying(s), ActionView::Send(Reply::Error(nothing_found()))),
        step(replying(s), Event::Sent(None)) == (ready(s), ActionView::Read),
{
}

/// A line that cannot be read as a request ends the connection with that
/// error, and nothing is written to the client. What is playing is not
/// touched, and a connection that is over stays so.
pub proof fn law_broken_line_closes(s: ConnState, error: FrameError, later: Event)
    requires
        s.phase == PhaseView::Ready,
    ensures
        step(s, Event::Broken(error)) == (closed(s), ActionView::Close(Some(error))),
        step(closed(s), later) == (closed(s), ActionView::Close(None)),
{
}

/// A failure of the player or of the mirror never ends the connection: it is
/// answered with the reason as an error message.
pub proof fn law_failures_are_answered(s: ConnState, reason: String)
    ensures
        (s.phase is Stopping) ==> step(s, Event::Signalled(Some(reason))) == (
            replying(s),
            ActionView::Send(Reply::Error(reason@)),
        ),
        s.phase == PhaseView::Starting ==> step(s, Event::Spawned(Err(reason))) == (
            ConnState { playing: None, ..replying(s) },
            ActionView::Send(Reply::Error(reason@)),
        ),
        s.phase == PhaseView::Searching ==> step(s, Event::Found(Err(reason))) == (
            replying(s),
            ActionView::Send(Reply::Error(reason@)),
        ),
{
}

/// A signal only ever goes to the process held, and only on a request read.
pub proof fn law_signal_targets_process_held(s: ConnState, event: Event)
    ensures
        match step(s, event).1 {
            ActionView::Signal(line) => s.phase == PhaseView::Ready && (event matches Event::Request(_))
                && s.playing.is_some() && line == interrupt_line(s.playing.unwrap()),
            _ => true,
        },
{
}

/// Nothing is written to a client but the stations found for its search and
/// the reason of a failure: a request that succeeds otherwise is answered by
/// silence.
pub proof fn law_answers(s: ConnState, event: Event)
    ensures
        match step(s, event).1 {
            ActionView::Send(Reply::RadioChList(stations)) => s.phase == PhaseView::Searching && (
            event matches Event::Found(Ok(found)) && found@ == stations),
            ActionView::Send(Reply::Error(message)) => match event {
                Event::Signalled(Some(reason)) => (s.phase is Stopping) && message == reason@,
                Event::Spawned(Err(reason)) => s.phase == PhaseView::Starting && message == reason@,
                Event::Found(Err(reason)) => s.phase == PhaseView::Searching && message == reason@,
                Event::Found(Ok(found)) => s.phase == PhaseView::Searching && found@.len() == 0 && message
                    == nothing_found(),
                _ => false,
            },
            _ => true,
        },
{
}

/// A connection starts from nothing, whatever ended the one before it: a
/// request to stop is met by silence and no signal, and a request to play
/// starts a player without any signal.
pub proof fn law_fresh_connection(host: Seq<char>, url: String)
    ensures
        step(fresh(host), Event::Request(Client::Stop)) == (fresh(host), ActionView::Read),
        step(fresh(host), Event::Request(Client::Play { url })) == (
            ConnState { phase: PhaseView::Starting, ..fresh(host) },
            ActionView::Spawn(play_line(url@)),
        ),
{
}

} // verus!
