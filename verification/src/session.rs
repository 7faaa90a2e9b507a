//! The client session: the requests a client sends, what it makes of the
//! answer, and what it does when the server cannot be reached.

use vstd::prelude::*;
use crate::protocol::{Client, Server, RadioStation, SearchData};

verus! {

/// What the client was started to do.
#[derive(Debug, Clone, PartialEq, Eq)]
pub enum Commands {
    /// Search radio stations, by name if one is given.
    Search { name: Option<String> },
    /// Choose among the stations saved as favorites.
    Favs,
    /// Stop the stream.
    Stop,
    /// Stop the stream and the local server.
    StopServer,
}

/// The client's arguments.
#[derive(Debug, Clone, PartialEq, Eq)]
pub struct Args {
    /// Country of the stations to search.
    pub country: Option<String>,
    /// Language of the stations to search.
    pub language: Option<String>,
    /// Address of the server.
    pub addr: String,
    pub cmd: Commands,
}

/// What the client does for a command, in this order.
#[derive(Debug, Clone, PartialEq, Eq)]
pub enum Plan {
    /// Send the search, then wait for one answer.
    SearchAndChoose(Client),
    /// Show the favorites saved.
    ShowFavorites,
    /// Send the request to stop.
    StopStream(Client),
    /// Send the request to stop, then stop the local server.
    StopEverything(Client),
}

/// What to do after an attempt to connect has failed.
#[derive(Debug, Clone, Copy, PartialEq, Eq)]
pub enum Recovery {
    /// Launch the local server, wait this many seconds, and connect again.
    LaunchAndRetry { delay_secs: u64 },
    /// Give up.
    Fatal,
}

/// The seconds a client waits for a server it has just launched.
pub const LAUNCH_DELAY_SECS: u64 = 2;

/// The text of an optional argument: empty where it was not given.
pub open spec fn text_or_empty(arg: Option<String>) -> Seq<char> {
    match arg {
        Some(s) => s@,
        None => Seq::<char>::empty(),
    }
}

fn or_empty(arg: Option<String>) -> (s: String)
    ensures
        s@ == text_or_empty(arg),
{
    match arg {
        Some(s) => s,
        None => String::new(),
    }
}

/// What to do after the attempt to connect with the number given (counted
/// from one) has failed: after the first, launch the server and try once
/// more; a later failure is final.
pub fn recovery(failed_attempt: u32) -> (r: Recovery)
    ensures
        r == if failed_attempt <= 1 {
            Recovery::LaunchAndRetry { delay_secs: LAUNCH_DELAY_SECS }
        } else {
            Recovery::Fatal
        },
{
    if failed_attempt <= 1 {
        Recovery::LaunchAndRetry { delay_secs: LAUNCH_DELAY_SECS }
    } else {
        Recovery::Fatal
    }
}

/// The request that plays the stream at `station`.
pub fn play_request(station: &str) -> (r: Client)
    ensures
        r matches Client::Play { url } && url@ == station@,
{
    Client::Play { url: String::from_str(station) }
}

/// The request that stops the stream.
pub fn stop_request() -> (r: Client)
    ensures
        r == Client::Stop,
{
    Client::Stop
}

/// The request that searches for `sdata`.
pub fn search_request(sdata: SearchData) -> (r: Client)
    ensures
        r == (Client::Search { search_data: sdata }),
{
    Client::Search { search_data: sdata }
}

/// The plan for the arguments given. A search takes its three fields from the
/// arguments, each empty where it was not given.
pub fn plan(args: Args) -> (p: Plan)
    ensures
        match args.cmd {
            Commands::Search { name } => p matches Plan::SearchAndChoose(Client::Search { search_data })
                && search_data.name@ == text_or_empty(name) && search_data.country@ == text_or_empty(
                args.country,
            ) && search_data.language@ == text_or_empty(args.language),
            Commands::Favs => p == Plan::ShowFavorites,
            Commands::Stop => p == Plan::StopStream(Client::Stop),
            Commands::StopServer => p == Plan::StopEverything(Client::Stop),
        },
{
    match args.cmd {
        Commands::Search { name } => {
            let search_data = SearchData {
                name: or_empty(name),
                country: or_empty(args.country),
                language: or_empty(args.language),
            };
            Plan::SearchAndChoose(search_request(search_data))
        },
        Commands::Favs => Plan::ShowFavorites,
        Commands::Stop => Plan::StopStream(stop_request()),
        Commands::StopServer => Plan::StopEverything(stop_request()),
    }
}

/// What the client makes of the one answer it reads after a search: the
/// stations to choose from, or the server's message as a failure.
pub fn received(answer: Server) -> (r: Result<Vec<RadioStation>, String>)
    ensures
        match answer {
            Server::RadioChList { radio_list } => r == Ok::<Vec<RadioStation>, String>(radio_list),
            Server::Error(message) => r == Err::<Vec<RadioStation>, String>(message),
        },
{
    match answer {
        Server::RadioChList { radio_list } => Ok(radio_list),
        Server::Error(message) => Err(message),
    }
}

/// The favorites with `station` added at the end.
pub fn add_favorite(favorites: Vec<RadioStation>, station: RadioStation) -> (r: Vec<RadioStation>)
    ensures
        r@ == favorites@.push(station),
{
    let mut list = favorites;
    list.push(station);
    list
}

/// The favorites without the one at index `selected`; the others keep their
/// order.
pub fn remove_favorite(favorites: Vec<RadioStation>, selected: usize) -> (r: Vec<RadioStation>)
    requires
        selected < favorites@.len(),
    ensures
        r@ == favorites@.remove(selected as int),
{
    let mut list = favorites;
    list.remove(selected);
    list
}

} // verus!
