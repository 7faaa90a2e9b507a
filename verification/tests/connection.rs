use radioklw::codec::decode_request;
use radioklw::connection::{Action, Args, Connection, Event, Phase};
use radioklw::player::Command;
use radioklw::protocol::{unframe, Client, FrameError, Incoming, RadioStation, SearchData, Server};
use radioklw::search::{Query, Seeker};

fn s(text: &str) -> String {
    text.to_string()
}

fn words(list: &[&str]) -> Vec<String> {
    list.iter().map(|w| w.to_string()).collect()
}

fn fresh() -> Connection {
    Connection::new(Seeker::new(s("de1.api.radio-browser.info")))
}

fn spawn_of(url: &str) -> Action {
    Action::Spawn(Command { program: s("ffplay"), args: words(&["-nodisp", "-nostats", "-loglevel", "0", url]) })
}

fn signal_to(pid: &str) -> Action {
    Action::Signal(Command { program: s("kill"), args: words(&["-INT", pid]) })
}

fn playing(pid: u32) -> Connection {
    let mut c = fresh();
    assert_eq!(c.handle(Event::Request(Client::Play { url: s("http://first.example/a") })), spawn_of("http://first.example/a"));
    assert_eq!(c.handle(Event::Spawned(Ok(pid))), Action::Read);
    c
}

#[test]
fn new_connection_is_idle_and_ready() {
    let c = fresh();
    assert!(!c.is_playing);
    assert_eq!(c.player.child_process_id, None);
    assert_eq!(c.phase, Phase::Ready);
    assert_eq!(c.seeker.server, "de1.api.radio-browser.info");
}

#[test]
fn two_plays_signal_the_first_process_once_then_spawn() {
    let mut c = playing(100);
    assert!(c.is_playing);
    let a1 = c.handle(Event::Request(Client::Play { url: s("http://second.example/b") }));
    assert_eq!(a1, signal_to("100"));
    assert!(c.is_playing);
    let a2 = c.handle(Event::Signalled(None));
    assert_eq!(a2, spawn_of("http://second.example/b"));
    assert!(c.is_playing);
    let a3 = c.handle(Event::Spawned(Ok(200)));
    assert_eq!(a3, Action::Read);
    assert!(c.is_playing);
    assert_eq!(c.player.child_process_id, Some(200));
    assert_eq!(c.phase, Phase::Ready);
}

#[test]
fn stop_when_idle_does_nothing() {
    let mut c = fresh();
    let before = c.clone();
    assert_eq!(c.handle(Event::Request(Client::Stop)), Action::Read);
    assert_eq!(c, before);
}

#[test]
fn play_then_stop_spawns_and_signals_one_process_without_answer() {
    let mut c = fresh();
    let mut actions = Vec::new();
    actions.push(c.handle(Event::Request(Client::Play { url: s("http://stream.example/radio") })));
    actions.push(c.handle(Event::Spawned(Ok(31337))));
    actions.push(c.handle(Event::Request(Client::Stop)));
    actions.push(c.handle(Event::Signalled(None)));
    assert_eq!(actions, vec![spawn_of("http://stream.example/radio"), Action::Read, signal_to("31337"), Action::Read]);
    assert!(!c.is_playing);
    assert_eq!(c.player.child_process_id, None);
    assert_eq!(c.phase, Phase::Ready);
}

#[test]
fn search_posts_the_query_to_the_mirror() {
    let mut c = fresh();
    let data = SearchData { name: s("BBC"), country: s(""), language: s("") };
    let a = c.handle(Event::Request(Client::Search { search_data: data }));
    assert_eq!(
        a,
        Action::Search(Query {
            url: s("https://de1.api.radio-browser.info/json/stations/search"),
            params: vec![
                (s("name"), s("BBC")),
                (s("country"), s("")),
                (s("language"), s("")),
                (s("reverse"), s("true")),
                (s("order"), s("clickcount")),
            ],
        })
    );
    assert_eq!(c.phase, Phase::Searching);
}

#[test]
fn search_with_one_match_answers_with_the_list() {
    let mut c = fresh();
    let data = SearchData { name: s("BBC"), country: s(""), language: s("") };
    c.handle(Event::Request(Client::Search { search_data: data }));
    let mut st = RadioStation::default();
    st.name = s("BBC World Service");
    let a = c.handle(Event::Found(Ok(vec![st.clone()])));
    assert_eq!(a, Action::Send(Server::RadioChList { radio_list: vec![st] }));
    assert_eq!(c.handle(Event::Sent(None)), Action::Read);
    assert_eq!(c.phase, Phase::Ready);
}

#[test]
fn empty_search_result_is_an_error_answer() {
    let mut c = fresh();
    c.handle(Event::Request(Client::Search { search_data: SearchData::default() }));
    let a = c.handle(Event::Found(Ok(Vec::new())));
    assert_eq!(a, Action::Send(Server::Error(s("No radio stations found."))));
    assert_eq!(c.handle(Event::Sent(None)), Action::Read);
}

#[test]
fn failed_search_is_answered_and_connection_goes_on() {
    let mut c = fresh();
    c.handle(Event::Request(Client::Search { search_data: SearchData::default() }));
    let a = c.handle(Event::Found(Err(s("connection refused"))));
    assert_eq!(a, Action::Send(Server::Error(s("connection refused"))));
    assert_eq!(c.handle(Event::Sent(None)), Action::Read);
    assert_eq!(c.handle(Event::Request(Client::Stop)), Action::Read);
}

#[test]
fn failed_spawn_is_answered_and_nothing_is_held() {
    let mut c = fresh();
    c.handle(Event::Request(Client::Play { url: s("http://x.example") }));
    let a = c.handle(Event::Spawned(Err(s("No such file or directory"))));
    assert_eq!(a, Action::Send(Server::Error(s("No such file or directory"))));
    assert!(!c.is_playing);
    assert_eq!(c.player.child_process_id, None);
    assert_eq!(c.handle(Event::Sent(None)), Action::Read);
}

#[test]
fn failed_spawn_after_replacing_leaves_nothing_held() {
    let mut c = playing(7);
    c.handle(Event::Request(Client::Play { url: s("http://x.example") }));
    c.handle(Event::Signalled(None));
    let a = c.handle(Event::Spawned(Err(s("boom"))));
    assert_eq!(a, Action::Send(Server::Error(s("boom"))));
    assert!(!c.is_playing);
    assert_eq!(c.player.child_process_id, None);
}

#[test]
fn failed_signal_is_answered_and_process_stays_held() {
    let mut c = playing(7);
    assert_eq!(c.handle(Event::Request(Client::Stop)), signal_to("7"));
    let a = c.handle(Event::Signalled(Some(s("kill: not found"))));
    assert_eq!(a, Action::Send(Server::Error(s("kill: not found"))));
    assert!(c.is_playing);
    assert_eq!(c.player.child_process_id, Some(7));
    assert_eq!(c.handle(Event::Sent(None)), Action::Read);
}

#[test]
fn malformed_line_closes_only_this_connection() {
    let mut c = playing(7);
    let mut other = playing(8);
    let err = FrameError::Malformed(s("expected value at line 1 column 1"));
    assert_eq!(c.handle(Event::Broken(err.clone())), Action::Close(Some(err)));
    assert_eq!(c.phase, Phase::Closed);
    assert_eq!(c.handle(Event::Request(Client::Stop)), Action::Close(None));
    assert_eq!(c.player.child_process_id, Some(7));
    assert_eq!(other.phase, Phase::Ready);
    assert_eq!(other.handle(Event::Request(Client::Stop)), signal_to("8"));
}

#[test]
fn end_of_stream_closes_quietly() {
    let mut c = fresh();
    assert_eq!(c.handle(Event::EndOfStream), Action::Close(None));
    assert_eq!(c.phase, Phase::Closed);
}

#[test]
fn failed_write_closes_with_transport_error() {
    let mut c = fresh();
    c.handle(Event::Request(Client::Search { search_data: SearchData::default() }));
    c.handle(Event::Found(Ok(Vec::new())));
    assert_eq!(c.handle(Event::Sent(Some(s("broken pipe")))), Action::Close(Some(FrameError::Transport(s("broken pipe")))));
    assert_eq!(c.phase, Phase::Closed);
}

#[test]
fn event_out_of_turn_closes() {
    let mut c = fresh();
    assert_eq!(c.handle(Event::Spawned(Ok(5))), Action::Close(Some(FrameError::OutOfTurn)));
    assert_eq!(c.player.child_process_id, None);
    let mut c = playing(9);
    c.handle(Event::Request(Client::Stop));
    assert_eq!(c.handle(Event::Sent(None)), Action::Close(Some(FrameError::OutOfTurn)));
}

#[test]
fn next_client_starts_from_nothing() {
    let mut first = playing(42);
    let err = FrameError::Malformed(s("expected value at line 1 column 1"));
    assert_eq!(first.handle(Event::Broken(err.clone())), Action::Close(Some(err)));
    let mut second = Connection::new(first.seeker.clone());
    assert!(!second.is_playing);
    assert_eq!(second.player.child_process_id, None);
    assert_eq!(second.phase, Phase::Ready);
    let before = second.clone();
    assert_eq!(second.handle(Event::Request(Client::Stop)), Action::Read);
    assert_eq!(second, before);
    assert_eq!(second.handle(Event::Request(Client::Play { url: s("http://b.example") })), spawn_of("http://b.example"));
    assert_eq!(second.handle(Event::Spawned(Ok(43))), Action::Read);
    assert_eq!(second.handle(Event::EndOfStream), Action::Close(None));
}

#[test]
fn server_listens_on_localhost_by_default() {
    assert_eq!(Args::default(), Args { addr: s("localhost:8080") });
}

#[test]
fn search_answer_is_written_before_the_next_request_is_read() {
    let mut c = fresh();
    c.handle(Event::Request(Client::Search { search_data: SearchData::default() }));
    let mut st = RadioStation::default();
    st.name = s("BBC World Service");
    c.handle(Event::Found(Ok(vec![st])));
    assert_eq!(c.phase, Phase::Replying);
    assert_eq!(c.handle(Event::Request(Client::Stop)), Action::Close(Some(FrameError::OutOfTurn)));
}

fn read(line: &str) -> Event {
    match unframe(line) {
        Incoming::Closed => Event::EndOfStream,
        Incoming::Payload(text) => match decode_request(&text) {
            Ok(request) => Event::Request(request),
            Err(error) => Event::Broken(error),
        },
    }
}

#[test]
fn search_for_bbc_from_the_line_to_the_answer() {
    let mut c = fresh();
    let a = c.handle(read("{\"Search\":{\"search_data\":{\"name\":\"BBC\",\"country\":\"\",\"language\":\"\"}}}\n"));
    match a {
        Action::Search(q) => {
            assert_eq!(q.url, "https://de1.api.radio-browser.info/json/stations/search");
            assert!(q.params.contains(&(s("name"), s("BBC"))));
            assert!(q.params.contains(&(s("reverse"), s("true"))));
            assert!(q.params.contains(&(s("order"), s("clickcount"))));
        }
        other => panic!("expected a search, got {:?}", other),
    }
    let mut st = RadioStation::default();
    st.name = s("BBC World Service");
    match c.handle(Event::Found(Ok(vec![st]))) {
        Action::Send(Server::RadioChList { radio_list }) => {
            assert_eq!(radio_list.len(), 1);
            assert_eq!(radio_list[0].name, "BBC World Service");
        }
        other => panic!("expected a station list, got {:?}", other),
    }
}

#[test]
fn play_then_stop_from_the_lines() {
    let mut c = fresh();
    let mut actions = Vec::new();
    actions.push(c.handle(read("{\"Play\":{\"url\":\"http://stream.example/radio\"}}\n")));
    actions.push(c.handle(Event::Spawned(Ok(555))));
    actions.push(c.handle(read("{\"Stop\":null}\n")));
    actions.push(c.handle(Event::Signalled(None)));
    assert_eq!(actions, vec![spawn_of("http://stream.example/radio"), Action::Read, signal_to("555"), Action::Read]);
    assert!(actions.iter().all(|a| !matches!(a, Action::Send(_))));
    assert_eq!(c.handle(read("")), Action::Close(None));
}

#[test]
fn malformed_line_from_the_wire_ends_the_connection() {
    let mut c = playing(3);
    match c.handle(read("{\"Play\":\n")) {
        Action::Close(Some(FrameError::Malformed(_))) => {}
        other => panic!("expected the connection to end, got {:?}", other),
    }
    assert_eq!(c.phase, Phase::Closed);
    assert_eq!(c.player.child_process_id, Some(3));
}
