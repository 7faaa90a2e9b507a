use radioklw::search::{Query, SearchMapper, Seeker, StationOrder};

fn s(text: &str) -> String {
    text.to_string()
}

#[test]
fn station_order_words() {
    let all = [
        (StationOrder::Name, "name"),
        (StationOrder::Url, "url"),
        (StationOrder::Homepage, "homepage"),
        (StationOrder::Favicon, "favicon"),
        (StationOrder::Tags, "tags"),
        (StationOrder::Country, "country"),
        (StationOrder::State, "state"),
        (StationOrder::Language, "language"),
        (StationOrder::Votes, "votes"),
        (StationOrder::Codec, "codec"),
        (StationOrder::Bitrate, "bitrate"),
        (StationOrder::Lastcheckok, "lastcheckok"),
        (StationOrder::Lastchecktime, "lastchecktime"),
        (StationOrder::Clicktimestamp, "clicktimestamp"),
        (StationOrder::Clickcount, "clickcount"),
        (StationOrder::Clicktrend, "clicktrend"),
        (StationOrder::Changetimestamp, "changetimestamp"),
        (StationOrder::Random, "random"),
    ];
    for (order, word) in all {
        assert_eq!(order.to_string(), word);
    }
}

#[test]
fn new_mapper_is_empty() {
    let m = SearchMapper::new(Seeker::new(s("de1.example")));
    assert!(m.map.is_empty());
    assert_eq!(m.get("name"), None);
    assert_eq!(m.api.server, "de1.example");
}

#[test]
fn seeker_hands_out_empty_mapper_on_same_mirror() {
    let seeker = Seeker::new(s("nl1.example"));
    let m = seeker.get_radio_station_search_mapper();
    assert!(m.map.is_empty());
    assert_eq!(m.api, seeker);
}

#[test]
fn builders_set_their_parameters() {
    let m = SearchMapper::new(Seeker::new(s("h")))
        .name(s("BBC"))
        .country(s("UK"))
        .language(s("english"))
        .reverse(true)
        .order(StationOrder::Clickcount);
    assert_eq!(m.get("name"), Some(s("BBC")));
    assert_eq!(m.get("country"), Some(s("UK")));
    assert_eq!(m.get("language"), Some(s("english")));
    assert_eq!(m.get("reverse"), Some(s("true")));
    assert_eq!(m.get("order"), Some(s("clickcount")));
    assert_eq!(m.get("tag"), None);
    assert_eq!(m.map.len(), 5);
}

#[test]
fn reverse_false_is_spelled_out() {
    let m = SearchMapper::new(Seeker::new(s("h"))).reverse(false);
    assert_eq!(m.get("reverse"), Some(s("false")));
}

#[test]
fn later_value_replaces_earlier() {
    let m = SearchMapper::new(Seeker::new(s("h")))
        .name(s("first"))
        .country(s("FR"))
        .name(s("second"))
        .order(StationOrder::Votes)
        .order(StationOrder::Random);
    assert_eq!(m.get("name"), Some(s("second")));
    assert_eq!(m.get("country"), Some(s("FR")));
    assert_eq!(m.get("order"), Some(s("random")));
    assert_eq!(m.map.len(), 3);
}

#[test]
fn insert_keeps_other_parameters() {
    let mut m = SearchMapper::new(Seeker::new(s("h")));
    m.insert(s("a"), s("1"));
    m.insert(s("b"), s("2"));
    m.insert(s("a"), s("3"));
    assert_eq!(m.map, vec![(s("a"), s("3")), (s("b"), s("2"))]);
}

#[test]
fn mapper_send_addresses_the_search_path() {
    let q = SearchMapper::new(Seeker::new(s("de1.api.radio-browser.info"))).name(s("jazz")).send();
    assert_eq!(
        q,
        Query {
            url: s("https://de1.api.radio-browser.info/json/stations/search"),
            params: vec![(s("name"), s("jazz"))],
        }
    );
}

#[test]
fn seeker_send_joins_host_and_path() {
    let q = Seeker::new(s("host.example")).send("/json/stats", vec![(s("k"), s("v"))]);
    assert_eq!(q.url, "https://host.example/json/stats");
    assert_eq!(q.params, vec![(s("k"), s("v"))]);
}
