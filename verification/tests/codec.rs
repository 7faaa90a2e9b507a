use radioklw::codec::{
    decode_request, encode_error, encode_request, field, read_flat, read_nested, read_search, write_error, write_play,
    write_search,
};
use radioklw::protocol::{unframe, Client, FrameError, Incoming, SearchData};

fn s(text: &str) -> String {
    text.to_string()
}

fn pairs(list: &[(&str, &str)]) -> Vec<(String, String)> {
    list.iter().map(|(k, v)| (k.to_string(), v.to_string())).collect()
}

fn search(name: &str, country: &str, language: &str) -> Client {
    Client::Search { search_data: SearchData { name: s(name), country: s(country), language: s(language) } }
}

fn is_malformed(r: Result<Client, FrameError>) -> bool {
    matches!(r, Err(FrameError::Malformed(_)))
}

#[test]
fn play_request_on_the_wire() {
    let req = Client::Play { url: s("http://stream.example/radio") };
    assert_eq!(encode_request(&req), "{\"Play\":{\"url\":\"http://stream.example/radio\"}}\n");
}

#[test]
fn stop_request_on_the_wire() {
    assert_eq!(encode_request(&Client::Stop), "{\"Stop\":null}\n");
}

#[test]
fn search_request_on_the_wire() {
    let req = Client::Search { search_data: SearchData { name: s("BBC"), country: s(""), language: s("") } };
    assert_eq!(
        encode_request(&req),
        "{\"Search\":{\"search_data\":{\"name\":\"BBC\",\"country\":\"\",\"language\":\"\"}}}\n"
    );
}

#[test]
fn error_answer_on_the_wire() {
    assert_eq!(encode_error("No radio stations found."), "{\"Error\":\"No radio stations found.\"}\n");
}

#[test]
fn texts_are_escaped_so_that_a_frame_is_one_line() {
    let req = Client::Play { url: s("a\"b\\c\nd") };
    let line = encode_request(&req);
    assert_eq!(line, "{\"Play\":{\"url\":\"a\\\"b\\\\c\\nd\"}}\n");
    assert_eq!(line.matches('\n').count(), 1);
    let line = encode_error("first\nsecond");
    assert_eq!(line, "{\"Error\":\"first\\nsecond\"}\n");
}

#[test]
fn encoded_requests_are_json_values() {
    let reqs = [
        Client::Stop,
        Client::Play { url: s("http://\u{e9}.example/\"x\"") },
        Client::Search { search_data: SearchData { name: s("tab\there"), country: s("DE"), language: s("\u{1F3B5}") } },
    ];
    for req in reqs {
        let line = encode_request(&req);
        let payload = match unframe(&line) {
            Incoming::Payload(p) => p,
            Incoming::Closed => panic!("a frame is never empty"),
        };
        let value: serde_json::Value = serde_json::from_str(&payload).unwrap();
        match &req {
            Client::Stop => assert!(value["Stop"].is_null()),
            Client::Play { url } => assert_eq!(value["Play"]["url"].as_str(), Some(url.as_str())),
            Client::Search { search_data } => {
                assert_eq!(value["Search"]["search_data"]["name"].as_str(), Some(search_data.name.as_str()));
                assert_eq!(value["Search"]["search_data"]["country"].as_str(), Some(search_data.country.as_str()));
                assert_eq!(value["Search"]["search_data"]["language"].as_str(), Some(search_data.language.as_str()));
            }
        }
    }
}

#[test]
fn writers_wrap_the_literals_given() {
    assert_eq!(write_play("\"u\""), "{\"Play\":{\"url\":\"u\"}}");
    assert_eq!(write_search("1", "2", "3"), "{\"Search\":{\"search_data\":{\"name\":1,\"country\":2,\"language\":3}}}");
    assert_eq!(write_error("\"m\""), "{\"Error\":\"m\"}");
}

#[test]
fn play_request_is_read() {
    assert_eq!(
        decode_request("{\"Play\":{\"url\":\"http://stream.example/radio\"}}"),
        Ok(Client::Play { url: s("http://stream.example/radio") })
    );
}

#[test]
fn stop_request_is_read() {
    assert_eq!(decode_request("{\"Stop\":null}"), Ok(Client::Stop));
}

#[test]
fn search_request_is_read() {
    assert_eq!(
        decode_request("{\"Search\":{\"search_data\":{\"name\":\"BBC\",\"country\":\"\",\"language\":\"\"}}}"),
        Ok(search("BBC", "", ""))
    );
}

#[test]
fn layout_and_member_order_do_not_matter() {
    assert_eq!(decode_request(" { \"Stop\" : null } \n"), Ok(Client::Stop));
    assert_eq!(decode_request("{\"Play\": {\"url\": \"a\\u0062\\n\"}}"), Ok(Client::Play { url: s("ab\n") }));
    assert_eq!(
        decode_request("{\"Search\":{\"search_data\":{\"language\":\"l\",\"name\":\"n\",\"country\":\"c\"}}}"),
        Ok(search("n", "c", "l"))
    );
}

#[test]
fn unknown_members_are_passed_over() {
    assert_eq!(decode_request("{\"Play\":{\"volume\":\"3\",\"url\":\"u\"}}"), Ok(Client::Play { url: s("u") }));
    assert_eq!(
        decode_request("{\"Search\":{\"search_data\":{\"name\":\"n\",\"tag\":\"t\",\"country\":\"c\",\"language\":\"l\"}}}"),
        Ok(search("n", "c", "l"))
    );
}

#[test]
fn malformed_lines_are_refused() {
    for text in [
        "",
        "not json",
        "{",
        "{}",
        "[]",
        "null",
        "42",
        "{\"Dance\":null}",
        "{\"Stop\":1}",
        "{\"Stop\":{}}",
        "{\"Play\":null}",
        "{\"Play\":{}}",
        "{\"Play\":{\"url\":7}}",
        "{\"Play\":{\"link\":\"x\"}}",
        "{\"Play\":{\"url\":\"x\"},\"Stop\":null}",
        "{\"Search\":{}}",
        "{\"Search\":{\"search_data\":{\"name\":\"n\",\"country\":\"c\"}}}",
        "{\"Search\":{\"data\":{\"name\":\"n\",\"country\":\"c\",\"language\":\"l\"}}}",
        "{\"Find\":{\"search_data\":{\"name\":\"n\",\"country\":\"c\",\"language\":\"l\"}}}",
        "{\"Stop\":null} trailing",
    ] {
        assert!(is_malformed(decode_request(text)), "{}", text);
    }
}

#[test]
fn encoded_requests_are_read_back() {
    let reqs = [
        Client::Stop,
        Client::Play { url: s("") },
        Client::Play { url: s("http://\u{e9}.example/\"x\"\\ \n\t\u{1}") },
        search("", "", ""),
        search("tab\there", "DE", "\u{1F3B5}"),
        search("\"}", "{\"Stop\":null}", "\n"),
    ];
    for req in reqs {
        let line = encode_request(&req);
        let payload = match unframe(&line) {
            Incoming::Payload(p) => p,
            Incoming::Closed => panic!("a frame is never empty"),
        };
        assert_eq!(decode_request(&payload), Ok(req));
    }
}

#[test]
fn field_takes_the_first_member_of_that_name() {
    let fields = pairs(&[("a", "1"), ("b", "2"), ("a", "3")]);
    assert_eq!(field(&fields, "a"), Some(s("1")));
    assert_eq!(field(&fields, "b"), Some(s("2")));
    assert_eq!(field(&fields, "c"), None);
    assert_eq!(field(&Vec::new(), "a"), None);
}

#[test]
fn search_needs_all_three_fields() {
    assert_eq!(read_search(&pairs(&[("country", "c"), ("language", "l"), ("name", "n")])), Some(search("n", "c", "l")));
    assert_eq!(read_search(&pairs(&[("country", "c"), ("name", "n")])), None);
    assert_eq!(read_search(&pairs(&[("language", "l"), ("name", "n")])), None);
    assert_eq!(read_search(&pairs(&[("country", "c"), ("language", "l")])), None);
}

#[test]
fn flat_members_give_play_or_stop() {
    assert_eq!(read_flat(&vec![(s("Play"), Some(pairs(&[("url", "u")])))]), Some(Client::Play { url: s("u") }));
    assert_eq!(read_flat(&vec![(s("Stop"), None)]), Some(Client::Stop));
    assert_eq!(read_flat(&vec![(s("Stop"), Some(Vec::new()))]), None);
    assert_eq!(read_flat(&vec![(s("Play"), None)]), None);
    assert_eq!(read_flat(&vec![(s("Play"), Some(pairs(&[("url", "u")]))), (s("Stop"), None)]), None);
    assert_eq!(read_flat(&Vec::new()), None);
}

#[test]
fn nested_members_give_search() {
    let data = pairs(&[("country", "c"), ("language", "l"), ("name", "n")]);
    assert_eq!(read_nested(&vec![(s("Search"), vec![(s("search_data"), data.clone())])]), Some(search("n", "c", "l")));
    assert_eq!(
        read_nested(&vec![(s("Search"), vec![(s("extra"), Vec::new()), (s("search_data"), data.clone())])]),
        Some(search("n", "c", "l"))
    );
    assert_eq!(read_nested(&vec![(s("Search"), vec![(s("extra"), data.clone())])]), None);
    assert_eq!(read_nested(&vec![(s("Play"), vec![(s("search_data"), data)])]), None);
    assert_eq!(read_nested(&Vec::new()), None);
}

#[test]
fn every_frame_is_one_line() {
    let texts = ["", "\n", "\n\n", "a\nb", "\r\n", "\u{0}\u{1f}\u{7f}", "\u{2028}\u{2029}", "\\n"];
    for text in texts {
        let lines = [
            encode_request(&Client::Play { url: s(text) }),
            encode_request(&search(text, text, text)),
            encode_error(text),
        ];
        for line in lines {
            assert!(line.ends_with('\n'));
            assert_eq!(line.matches('\n').count(), 1);
        }
    }
}
