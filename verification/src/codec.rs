//! Messages as JSON text: writing a request or an error answer into a frame,
//! and reading a request from the text of one.
//!
//! A request is a JSON object with a single member, named after the kind of
//! request: `{"Play":{"url":S}}`, `{"Stop":null}` or
//! `{"Search":{"search_data":{"name":S,"country":S,"language":S}}}`, every
//! `S` a string. Members of the inner objects may come in any order. A
//! member that the request does not know is passed over where its value has
//! the form of its known neighbours (a string beside `url` and beside the
//! fields of a search, an object of strings beside `search_data`); a text
//! with any other unknown member is refused.

use vstd::prelude::*;
use std::collections::BTreeMap;
use crate::protocol::{Client, FrameError, SearchData, close_line, line_end};

verus! {

/// What a request says.
pub enum Request {
    Search { name: Seq<char>, country: Seq<char>, language: Seq<char> },
    Play { url: Seq<char> },
    Stop,
}

impl View for Client {
    type V = Request;

    open spec fn view(&self) -> Request {
        match self {
            Client::Search { search_data } => Request::Search {
                name: search_data.name@,
                country: search_data.country@,
                language: search_data.language@,
            },
            Client::Play { url } => Request::Play { url: url@ },
            Client::Stop => Request::Stop,
        }
    }
}

/// What a text holds when read as a JSON object whose members are each
/// `null` or an object of strings: the members in the order of their names,
/// and within each object its members in the order of theirs. `None` where
/// the text is no such object.
pub uninterp spec fn json_flat(text: Seq<char>) -> Option<Seq<(Seq<char>, Option<Seq<(Seq<char>, Seq<char>)>>)>>;

/// What a text holds when read as a JSON object of objects of objects of
/// strings, the members of every object in the order of their names. `None`
/// where the text is no such object.
pub uninterp spec fn json_nested(text: Seq<char>) -> Option<Seq<(Seq<char>, Seq<(Seq<char>, Seq<(Seq<char>, Seq<char>)>)>)>>;

/// Reads a text with `serde_json::from_str` as a map from strings to optional
/// maps from strings to strings, and lists what the maps hold in the order
/// in which they hand it out, which is the order of the keys. Whether the
/// call succeeds and what it gives depend on the text alone, and go by the
/// name `json_flat`.
#[verifier::external_body]
fn parse_flat(text: &str) -> (r: Result<Vec<(String, Option<Vec<(String, String)>>)>, serde_json::Error>)
    ensures
        match r {
            Ok(members) => json_flat(text@) == Some(members.deep_view()),
            Err(_) => json_flat(text@).is_none(),
        },
{
    let parsed: BTreeMap<String, Option<BTreeMap<String, String>>> = serde_json::from_str(text)?;
    Ok(parsed.into_iter().map(|(k, v)| (k, v.map(|fields| fields.into_iter().collect()))).collect())
}

/// Reads a text with `serde_json::from_str` as a map from strings to maps
/// from strings to maps from strings to strings, and lists what the maps hold
/// in the order of their keys. Whether the call succeeds and what it gives
/// depend on the text alone, and go by the name `json_nested`.
#[verifier::external_body]
fn parse_nested(text: &str) -> (r: Result<Vec<(String, Vec<(String, Vec<(String, String)>)>)>, serde_json::Error>)
    ensures
        match r {
            Ok(members) => json_nested(text@) == Some(members.deep_view()),
            Err(_) => json_nested(text@).is_none(),
        },
{
    let parsed: BTreeMap<String, BTreeMap<String, BTreeMap<String, String>>> = serde_json::from_str(text)?;
    Ok(parsed.into_iter().map(|(k, v)| (k, v.into_iter().map(|(n, f)| (n, f.into_iter().collect())).collect())).collect())
}

/// The value of the first member named `key`, if there is one.
pub open spec fn member<V>(members: Seq<(Seq<char>, V)>, key: Seq<char>) -> Option<V>
    decreases members.len(),
{
    if members.len() == 0 {
        None
    } else if members[0].0 == key {
        Some(members[0].1)
    } else {
        member(members.drop_first(), key)
    }
}

/// The search that an object of strings stands for: it needs a name, a
/// country and a language.
pub open spec fn search_of(fields: Seq<(Seq<char>, Seq<char>)>) -> Option<Request> {
    match (member(fields, "name"@), member(fields, "country"@), member(fields, "language"@)) {
        (Some(name), Some(country), Some(language)) => Some(Request::Search { name, country, language }),
        _ => None,
    }
}

/// The request that the members of a flat object stand for: a single member
/// `Play` with an object that has a `url`, or a single member `Stop` with
/// `null`.
pub open spec fn flat_request(members: Seq<(Seq<char>, Option<Seq<(Seq<char>, Seq<char>)>>)>) -> Option<Request> {
    if members.len() != 1 {
        None
    } else {
        match members[0].1 {
            Some(fields) => if members[0].0 == "Play"@ {
                match member(fields, "url"@) {
                    Some(url) => Some(Request::Play { url }),
                    None => None,
                }
            } else {
                None
            },
            None => if members[0].0 == "Stop"@ {
                Some(Request::Stop)
            } else {
                None
            },
        }
    }
}

/// The request that the members of a nested object stand for: a single
/// member `Search` with an object that has a `search_data`.
pub open spec fn nested_request(
    members: Seq<(Seq<char>, Seq<(Seq<char>, Seq<(Seq<char>, Seq<char>)>)>)>,
) -> Option<Request> {
    if members.len() != 1 || members[0].0 != "Search"@ {
        None
    } else {
        match member(members[0].1, "search_data"@) {
            Some(fields) => search_of(fields),
            None => None,
        }
    }
}

/// The request that a text stands for, given what the two readings of it
/// hold.
pub open spec fn request_of(
    flat: Option<Seq<(Seq<char>, Option<Seq<(Seq<char>, Seq<char>)>>)>>,
    nested: Option<Seq<(Seq<char>, Seq<(Seq<char>, Seq<(Seq<char>, Seq<char>)>)>)>>,
) -> Option<Request> {
    match flat {
        Some(members) => flat_request(members),
        None => match nested {
            Some(members) => nested_request(members),
            None => None,
        },
    }
}

fn same(a: &String, b: &str) -> (r: bool)
    ensures
        r == (a@ == b@),
{
    let other: String = String::from_str(b);
    *a == other
}

/// The value of the first field named `key`, if there is one.
pub fn field(fields: &Vec<(String, String)>, key: &str) -> (r: Option<String>)
    ensures
        r.deep_view() == member(fields.deep_view(), key@),
{
    let ghost all = fields.deep_view();
    assert(all.subrange(0, all.len() as int) =~= all);
    let mut i: usize = 0;
    while i < fields.len()
        invariant
            i <= fields.len(),
            all == fields.deep_view(),
            member(all, key@) == member(all.subrange(i as int, all.len() as int), key@),
        decreases fields.len() - i,
    {
        let ghost rest = all.subrange(i as int, all.len() as int);
        assert(rest[0] == all[i as int]);
        assert(rest.drop_first() =~= all.subrange(i + 1, all.len() as int));
        assert(all[i as int] == fields@[i as int].deep_view());
        if same(&fields[i].0, key) {
            return Some(fields[i].1.clone());
        }
        i += 1;
    }
    None
}

/// The search that the fields given stand for.
pub fn read_search(fields: &Vec<(String, String)>) -> (r: Option<Client>)
    ensures
        match r {
            Some(c) => search_of(fields.deep_view()) == Some(c@),
            None => search_of(fields.deep_view()).is_none(),
        },
{
    let name: Option<String> = field(fields, "name");
    let country: Option<String> = field(fields, "country");
    let language: Option<String> = field(fields, "language");
    match (name, country, language) {
        (Some(name), Some(country), Some(language)) => Some(
            Client::Search { search_data: SearchData { name, country, language } },
        ),
        _ => None,
    }
}

/// The request that the members of a flat object stand for.
pub fn read_flat(members: &Vec<(String, Option<Vec<(String, String)>>)>) -> (r: Option<Client>)
    ensures
        match r {
            Some(c) => flat_request(members.deep_view()) == Some(c@),
            None => flat_request(members.deep_view()).is_none(),
        },
{
    if members.len() != 1 {
        return None;
    }
    assert(members.deep_view()[0] == members@[0].deep_view());
    match &members[0].1 {
        Some(fields) => {
            if same(&members[0].0, "Play") {
                match field(fields, "url") {
                    Some(url) => Some(Client::Play { url }),
                    None => None,
                }
            } else {
                None
            }
        },
        None => {
            if same(&members[0].0, "Stop") {
                Some(Client::Stop)
            } else {
                None
            }
        },
    }
}

/// The request that the members of a nested object stand for.
pub fn read_nested(members: &Vec<(String, Vec<(String, Vec<(String, String)>)>)>) -> (r: Option<Client>)
    ensures
        match r {
            Some(c) => nested_request(members.deep_view()) == Some(c@),
            None => nested_request(members.deep_view()).is_none(),
        },
{
    if members.len() != 1 {
        return None;
    }
    assert(members.deep_view()[0] == members@[0].deep_view());
    if !same(&members[0].0, "Search") {
        return None;
    }
    let inner: &Vec<(String, Vec<(String, String)>)> = &members[0].1;
    let ghost all = inner.deep_view();
    assert(all.subrange(0, all.len() as int) =~= all);
    assert(members.deep_view()[0].1 == all);
    let mut i: usize = 0;
    while i < inner.len()
        invariant
            i <= inner.len(),
            all == inner.deep_view(),
            members.deep_view().len() == 1,
            members.deep_view()[0].0 == "Search"@,
            members.deep_view()[0].1 == all,
            member(all, "search_data"@) == member(all.subrange(i as int, all.len() as int), "search_data"@),
        decreases inner.len() - i,
    {
        let ghost rest = all.subrange(i as int, all.len() as int);
        assert(rest[0] == all[i as int]);
        assert(rest.drop_first() =~= all.subrange(i + 1, all.len() as int));
        assert(all[i as int] == inner@[i as int].deep_view());
        if same(&inner[i].0, "search_data") {
            assert(rest[0].0 == "search_data"@);
            assert(member(rest, "search_data"@) == Some(inner@[i as int].1.deep_view()));
            return read_search(&inner[i].1);
        }
        i += 1;
    }
    None
}

/// Reads the request that the text of a frame holds. The text is read as
/// JSON twice, once for each depth a request can have; what the request is
/// follows from what the readings hold, and a text that holds no request is
/// refused as malformed.
pub fn decode_request(text: &str) -> (r: Result<Client, FrameError>)
    ensures
        match r {
            Ok(c) => request_of(json_flat(text@), json_nested(text@)) == Some(c@),
            Err(e) => e is Malformed && request_of(json_flat(text@), json_nested(text@)).is_none(),
        },
{
    let found: Option<Client> = match parse_flat(text) {
        Ok(members) => read_flat(&members),
        Err(error) => match parse_nested(text) {
            Ok(members) => read_nested(&members),
            Err(_) => {
                return Err(FrameError::Malformed(reason(&error)));
            },
        },
    };
    match found {
        Some(c) => Ok(c),
        None => Err(FrameError::Malformed(String::from_str("no request of a known kind"))),
    }
}

/// The JSON string literal that stands for a text: the text between double
/// quotes, with the characters escaped that JSON wants escaped.
pub uninterp spec fn json_string(text: Seq<char>) -> Seq<char>;

#[verifier::external_type_specification]
#[verifier::external_body]
pub struct ExJsonError(serde_json::Error);

/// Writes a text as a JSON string literal with `serde_json::to_string`. The
/// call writes into a buffer in memory, so it always succeeds. What comes
/// back is a function of the text alone and goes by the name `json_string`.
/// A line feed in the text goes out escaped, as every control character
/// does, so the literal holds none.
#[verifier::external_body]
fn quote(text: &str) -> (r: Result<String, serde_json::Error>)
    ensures
        r is Ok,
        r matches Ok(literal) ==> literal@ == json_string(text@),
        r matches Ok(literal) ==> !literal@.contains('\n'),
{
    serde_json::to_string(text)
}

/// The words of a `serde_json::Error`, as its `Display` gives them.
#[verifier::external_body]
fn reason(error: &serde_json::Error) -> (r: String) {
    error.to_string()
}

/// The JSON text of a request to play, around the literal of its URL.
pub open spec fn play_text(url: Seq<char>) -> Seq<char> {
    "{\"Play\":{\"url\":"@ + url + "}}"@
}

/// The JSON text of a request to stop.
pub open spec fn stop_text() -> Seq<char> {
    "{\"Stop\":null}"@
}

/// The JSON text of a search, around the literals of its three fields.
pub open spec fn search_text(name: Seq<char>, country: Seq<char>, language: Seq<char>) -> Seq<char> {
    "{\"Search\":{\"search_data\":{\"name\":"@ + name + ",\"country\":"@ + country + ",\"language\":"@ + language
        + "}}}"@
}

/// The JSON text of an error answer, around the literal of its message.
pub open spec fn error_text(message: Seq<char>) -> Seq<char> {
    "{\"Error\":"@ + message + "}"@
}

/// The JSON text of a request.
pub open spec fn request_text(request: Client) -> Seq<char> {
    match request {
        Client::Play { url } => play_text(json_string(url@)),
        Client::Stop => stop_text(),
        Client::Search { search_data } => search_text(
            json_string(search_data.name@),
            json_string(search_data.country@),
            json_string(search_data.language@),
        ),
    }
}

/// Writes the JSON text of a request to play, given the literal of its URL.
pub fn write_play(url_literal: &str) -> (r: String)
    ensures
        r@ == play_text(url_literal@),
{
    let mut out: String = String::from_str("{\"Play\":{\"url\":");
    out.append(url_literal);
    out.append("}}");
    out
}

/// Writes the JSON text of a search, given the literals of its fields.
pub fn write_search(name_literal: &str, country_literal: &str, language_literal: &str) -> (r: String)
    ensures
        r@ == search_text(name_literal@, country_literal@, language_literal@),
{
    let mut out: String = String::from_str("{\"Search\":{\"search_data\":{\"name\":");
    out.append(name_literal);
    out.append(",\"country\":");
    out.append(country_literal);
    out.append(",\"language\":");
    out.append(language_literal);
    out.append("}}}");
    out
}

/// Writes the JSON text of an error answer, given the literal of its message.
pub fn write_error(message_literal: &str) -> (r: String)
    ensures
        r@ == error_text(message_literal@),
{
    let mut out: String = String::from_str("{\"Error\":");
    out.append(message_literal);
    out.append("}");
    out
}

fn literal(text: &str) -> (r: String)
    ensures
        r@ == json_string(text@),
        !r@.contains('\n'),
{
    quote(text).unwrap()
}

/// A text put together from two texts without line feed holds none.
proof fn lemma_joined_one_line(a: Seq<char>, b: Seq<char>)
    requires
        !a.contains('\n'),
        !b.contains('\n'),
    ensures
        !(a + b).contains('\n'),
{
    if (a + b).contains('\n') {
        let i = choose|i: int| 0 <= i < (a + b).len() && (a + b)[i] == '\n';
        if i < a.len() {
            assert(a[i] == '\n');
        } else {
            assert(b[i - a.len()] == '\n');
        }
    }
}

/// The JSON text of a request to play is one line where the literal is.
pub proof fn lemma_play_one_line(url: Seq<char>)
    requires
        !url.contains('\n'),
    ensures
        !play_text(url).contains('\n'),
{
    reveal_strlit("{\"Play\":{\"url\":");
    reveal_strlit("}}");
    lemma_joined_one_line("{\"Play\":{\"url\":"@, url);
    lemma_joined_one_line("{\"Play\":{\"url\":"@ + url, "}}"@);
}

/// The JSON text of a request to stop is one line.
pub proof fn lemma_stop_one_line()
    ensures
        !stop_text().contains('\n'),
{
    reveal_strlit("{\"Stop\":null}");
}

/// The JSON text of a search is one line where the three literals are.
pub proof fn lemma_search_one_line(name: Seq<char>, country: Seq<char>, language: Seq<char>)
    requires
        !name.contains('\n'),
        !country.contains('\n'),
        !language.contains('\n'),
    ensures
        !search_text(name, country, language).contains('\n'),
{
    reveal_strlit("{\"Search\":{\"search_data\":{\"name\":");
    reveal_strlit(",\"country\":");
    reveal_strlit(",\"language\":");
    reveal_strlit("}}}");
    let t1 = "{\"Search\":{\"search_data\":{\"name\":"@ + name;
    lemma_joined_one_line("{\"Search\":{\"search_data\":{\"name\":"@, name);
    let t2 = t1 + ",\"country\":"@;
    lemma_joined_one_line(t1, ",\"country\":"@);
    let t3 = t2 + country;
    lemma_joined_one_line(t2, country);
    let t4 = t3 + ",\"language\":"@;
    lemma_joined_one_line(t3, ",\"language\":"@);
    let t5 = t4 + language;
    lemma_joined_one_line(t4, language);
    lemma_joined_one_line(t5, "}}}"@);
}

/// The JSON text of an error answer is one line where the literal is.
pub proof fn lemma_error_one_line(message: Seq<char>)
    requires
        !message.contains('\n'),
    ensures
        !error_text(message).contains('\n'),
{
    reveal_strlit("{\"Error\":");
    reveal_strlit("}");
    lemma_joined_one_line("{\"Error\":"@, message);
    lemma_joined_one_line("{\"Error\":"@ + message, "}"@);
}

/// Encodes a request as one frame: its JSON text, which is one line, and a
/// line feed.
pub fn encode_request(request: &Client) -> (line: String)
    ensures
        line@ == request_text(*request) + line_end(),
        !request_text(*request).contains('\n'),
{
    let json: String = match request {
        Client::Play { url } => {
            let l: String = literal(url.as_str());
            proof {
                lemma_play_one_line(l@);
            }
            write_play(l.as_str())
        },
        Client::Stop => {
            proof {
                lemma_stop_one_line();
            }
            String::from_str("{\"Stop\":null}")
        },
        Client::Search { search_data } => {
            let name: String = literal(search_data.name.as_str());
            let country: String = literal(search_data.country.as_str());
            let language: String = literal(search_data.language.as_str());
            proof {
                lemma_search_one_line(name@, country@, language@);
            }
            write_search(name.as_str(), country.as_str(), language.as_str())
        },
    };
    close_line(json)
}

/// Encodes an error answer as one frame: its JSON text, which is one line,
/// and a line feed.
pub fn encode_error(message: &str) -> (line: String)
    ensures
        line@ == error_text(json_string(message@)) + line_end(),
        !error_text(json_string(message@)).contains('\n'),
{
    let l: String = literal(message);
    proof {
        lemma_error_one_line(l@);
    }
    close_line(write_error(l.as_str()))
}

} // verus!
