//! The search query builder: the parameters of a directory search and the
//! request that carries them to the active mirror.

use vstd::prelude::*;
use crate::text::join3;

verus! {

/// The field by which the directory orders its answer.
#[derive(Debug, Clone, Copy, PartialEq, Eq)]
pub enum StationOrder {
    Name,
    Url,
    Homepage,
    Favicon,
    Tags,
    Country,
    State,
    Language,
    Votes,
    Codec,
    Bitrate,
    Lastcheckok,
    Lastchecktime,
    Clicktimestamp,
    Clickcount,
    Clicktrend,
    Changetimestamp,
    Random,
}

/// The word by which the directory knows an order.
pub open spec fn order_word(order: StationOrder) -> Seq<char> {
    match order {
        StationOrder::Name => "name"@,
        StationOrder::Url => "url"@,
        StationOrder::Homepage => "homepage"@,
        StationOrder::Favicon => "favicon"@,
        StationOrder::Tags => "tags"@,
        StationOrder::Country => "country"@,
        StationOrder::State => "state"@,
        StationOrder::Language => "language"@,
        StationOrder::Votes => "votes"@,
        StationOrder::Codec => "codec"@,
        StationOrder::Bitrate => "bitrate"@,
        StationOrder::Lastcheckok => "lastcheckok"@,
        StationOrder::Lastchecktime => "lastchecktime"@,
        StationOrder::Clicktimestamp => "clicktimestamp"@,
        StationOrder::Clickcount => "clickcount"@,
        StationOrder::Clicktrend => "clicktrend"@,
        StationOrder::Changetimestamp => "changetimestamp"@,
        StationOrder::Random => "random"@,
    }
}

/// The word that stands for a flag in a query.
pub open spec fn flag_word(flag: bool) -> Seq<char> {
    if flag {
        "true"@
    } else {
        "false"@
    }
}

impl StationOrder {
    /// The order's word as a string.
    pub fn to_string(&self) -> (s: String)
        ensures
            s@ == order_word(*self),
    {
        let word: &'static str = match self {
            StationOrder::Name => "name",
            StationOrder::Url => "url",
            StationOrder::Homepage => "homepage",
            StationOrder::Favicon => "favicon",
            StationOrder::Tags => "tags",
            StationOrder::Country => "country",
            StationOrder::State => "state",
            StationOrder::Language => "language",
            StationOrder::Votes => "votes",
            StationOrder::Codec => "codec",
            StationOrder::Bitrate => "bitrate",
            StationOrder::Lastcheckok => "lastcheckok",
            StationOrder::Lastchecktime => "lastchecktime",
            StationOrder::Clicktimestamp => "clicktimestamp",
            StationOrder::Clickcount => "clickcount",
            StationOrder::Clicktrend => "clicktrend",
            StationOrder::Changetimestamp => "changetimestamp",
            StationOrder::Random => "random",
        };
        String::from_str(word)
    }
}

/// No two entries share a key.
pub open spec fn distinct_keys(e: Seq<(String, String)>) -> bool {
    forall|i: int, j: int| 0 <= i < j < e.len() ==> (#[trigger] e[i]).0@ != (#[trigger] e[j]).0@
}

/// The mapping that a list of entries stands for: each key with its value, a
/// later entry winning over an earlier one with the same key.
pub open spec fn entries_map(e: Seq<(String, String)>) -> Map<Seq<char>, Seq<char>>
    decreases e.len(),
{
    if e.len() == 0 {
        Map::empty()
    } else {
        entries_map(e.drop_last()).insert(e.last().0@, e.last().1@)
    }
}

/// A key is mapped exactly when some entry carries it.
pub proof fn lemma_entries_domain(e: Seq<(String, String)>, key: Seq<char>)
    ensures
        entries_map(e).contains_key(key) <==> exists|i: int| 0 <= i < e.len() && (#[trigger] e[i]).0@ == key,
    decreases e.len(),
{
    if e.len() > 0 {
        let front = e.drop_last();
        lemma_entries_domain(front, key);
        if entries_map(e).contains_key(key) {
            if e.last().0@ == key {
                assert(e[e.len() - 1].0@ == key);
            } else {
                let i = choose|i: int| 0 <= i < front.len() && (#[trigger] front[i]).0@ == key;
                assert(e[i].0@ == key);
            }
        }
        if exists|i: int| 0 <= i < e.len() && (#[trigger] e[i]).0@ == key {
            let i = choose|i: int| 0 <= i < e.len() && (#[trigger] e[i]).0@ == key;
            if i < e.len() - 1 {
                assert(front[i].0@ == key);
            }
        }
    }
}

/// With distinct keys, each entry's key is mapped to that entry's value.
pub proof fn lemma_entries_value(e: Seq<(String, String)>, i: int)
    requires
        distinct_keys(e),
        0 <= i < e.len(),
    ensures
        entries_map(e).contains_key(e[i].0@),
        entries_map(e)[e[i].0@] == e[i].1@,
    decreases e.len(),
{
    let front = e.drop_last();
    if i < e.len() - 1 {
        assert(distinct_keys(front)) by {
            assert forall|a: int, b: int| 0 <= a < b < front.len() implies (#[trigger] front[a]).0@
                != (#[trigger] front[b]).0@ by {
                assert(e[a].0@ != e[b].0@);
            }
        }
        lemma_entries_value(front, i);
        assert(front[i] == e[i]);
        assert(e[i].0@ != e[e.len() - 1].0@);
    }
}

/// Replacing the value of an entry is an insertion under that entry's key.
pub proof fn lemma_entries_update(e: Seq<(String, String)>, i: int, entry: (String, String))
    requires
        distinct_keys(e),
        0 <= i < e.len(),
        entry.0@ == e[i].0@,
    ensures
        distinct_keys(e.update(i, entry)),
        entries_map(e.update(i, entry)) == entries_map(e).insert(entry.0@, entry.1@),
    decreases e.len(),
{
    let u = e.update(i, entry);
    assert(distinct_keys(u)) by {
        assert forall|a: int, b: int| 0 <= a < b < u.len() implies (#[trigger] u[a]).0@ != (#[trigger] u[b]).0@ by {
            assert(e[a].0@ != e[b].0@);
        }
    }
    let front = e.drop_last();
    if i == e.len() - 1 {
        assert(u.drop_last() =~= front);
        assert(entries_map(u) =~= entries_map(e).insert(entry.0@, entry.1@));
    } else {
        assert(distinct_keys(front)) by {
            assert forall|a: int, b: int| 0 <= a < b < front.len() implies (#[trigger] front[a]).0@
                != (#[trigger] front[b]).0@ by {
                assert(e[a].0@ != e[b].0@);
            }
        }
        assert(front[i] == e[i]);
        lemma_entries_update(front, i, entry);
        assert(u.drop_last() =~= front.update(i, entry));
        assert(u.last() == e.last());
        assert(e[i].0@ != e[e.len() - 1].0@);
        assert(entries_map(u) =~= entries_map(e).insert(entry.0@, entry.1@));
    }
}

/// A handle on the active mirror: the host that every search goes to.
#[derive(Debug, Clone, PartialEq, Eq)]
pub struct Seeker {
    pub server: String,
}

/// A request for the caller to post: the address, and the parameters that
/// make up its body.
#[derive(Debug, Clone, PartialEq, Eq)]
pub struct Query {
    pub url: String,
    pub params: Vec<(String, String)>,
}

/// The address of a path on a mirror.
pub open spec fn mirror_url(host: Seq<char>, path: Seq<char>) -> Seq<char> {
    "https://"@ + host + path
}

impl Seeker {
    /// A handle on the mirror `server`.
    pub fn new(server: String) -> (s: Seeker)
        ensures
            s.server == server,
    {
        Seeker { server }
    }

    /// The request that posts `map` to the path `end` of the mirror.
    pub fn send(self, end: &str, map: Vec<(String, String)>) -> (q: Query)
        ensures
            q.url@ == mirror_url(self.server@, end@),
            q.params == map,
    {
        Query { url: join3("https://", self.server.as_str(), end), params: map }
    }

    /// An empty search bound to this mirror.
    pub fn get_radio_station_search_mapper(&self) -> (m: SearchMapper)
        ensures
            m.wf(),
            m@ == Map::<Seq<char>, Seq<char>>::empty(),
            m.api.server == self.server,
    {
        SearchMapper::new(Seeker { server: self.server.clone() })
    }
}

/// A search in the making: parameters by name, and the mirror to ask.
#[derive(Debug, Clone, PartialEq, Eq)]
pub struct SearchMapper {
    pub map: Vec<(String, String)>,
    pub api: Seeker,
}

impl View for SearchMapper {
    type V = Map<Seq<char>, Seq<char>>;

    open spec fn view(&self) -> Map<Seq<char>, Seq<char>> {
        entries_map(self.map@)
    }
}

impl SearchMapper {
    /// No parameter is held twice.
    pub open spec fn wf(&self) -> bool {
        distinct_keys(self.map@)
    }

    /// A search without parameters.
    pub fn new(api: Seeker) -> (m: SearchMapper)
        ensures
            m.wf(),
            m@ == Map::<Seq<char>, Seq<char>>::empty(),
            m.api == api,
    {
        SearchMapper { api, map: Vec::new() }
    }

    /// Sets the parameter `key` to `value`, replacing an earlier value.
    pub fn insert(&mut self, key: String, value: String)
        requires
            old(self).wf(),
        ensures
            final(self).wf(),
            final(self)@ == old(self)@.insert(key@, value@),
            final(self).api == old(self).api,
    {
        let mut i: usize = 0;
        while i < self.map.len()
            invariant
                i <= self.map.len(),
                *self == *old(self),
                self.wf(),
                forall|j: int| 0 <= j < i ==> (#[trigger] self.map@[j]).0@ != key@,
            decreases self.map.len() - i,
        {
            if self.map[i].0 == key {
                proof {
                    lemma_entries_update(self.map@, i as int, (key, value));
                }
                self.map.set(i, (key, value));
                return ;
            }
            i += 1;
        }
        proof {
            let grown = self.map@.push((key, value));
            assert(grown.drop_last() =~= self.map@);
            assert(distinct_keys(grown));
        }
        self.map.push((key, value));
    }

    /// The value held for `key`, if any.
    pub fn get(&self, key: &str) -> (r: Option<String>)
        requires
            self.wf(),
        ensures
            match r {
                Some(v) => self@.contains_key(key@) && self@[key@] == v@,
                None => !self@.contains_key(key@),
            },
    {
        let wanted: String = String::from_str(key);
        let mut i: usize = 0;
        while i < self.map.len()
            invariant
                i <= self.map.len(),
                self.wf(),
                wanted@ == key@,
                forall|j: int| 0 <= j < i ==> (#[trigger] self.map@[j]).0@ != key@,
            decreases self.map.len() - i,
        {
            if self.map[i].0 == wanted {
                proof {
                    lemma_entries_value(self.map@, i as int);
                }
                return Some(self.map[i].1.clone());
            }
            i += 1;
        }
        proof {
            lemma_entries_domain(self.map@, key@);
        }
        None
    }

    /// Constrains the station's name.
    pub fn name(self, name: String) -> (m: SearchMapper)
        requires
            self.wf(),
        ensures
            m.wf(),
            m@ == self@.insert("name"@, name@),
            m.api == self.api,
    {
        let mut m = self;
        m.insert(String::from_str("name"), name);
        m
    }

    /// Constrains the station's country.
    pub fn country(self, country: String) -> (m: SearchMapper)
        requires
            self.wf(),
        ensures
            m.wf(),
            m@ == self@.insert("country"@, country@),
            m.api == self.api,
    {
        let mut m = self;
        m.insert(String::from_str("country"), country);
        m
    }

    /// Constrains the station's language.
    pub fn language(self, language: String) -> (m: SearchMapper)
        requires
            self.wf(),
        ensures
            m.wf(),
            m@ == self@.insert("language"@, language@),
            m.api == self.api,
    {
        let mut m = self;
        m.insert(String::from_str("language"), language);
        m
    }

    /// Asks for the answer in descending order, or not.
    pub fn reverse(self, reverse: bool) -> (m: SearchMapper)
        requires
            self.wf(),
        ensures
            m.wf(),
            m@ == self@.insert("reverse"@, flag_word(reverse)),
            m.api == self.api,
    {
        let mut m = self;
        let word: &'static str = if reverse {
            "true"
        } else {
            "false"
        };
        m.insert(String::from_str("reverse"), String::from_str(word));
        m
    }

    /// Chooses the field that the answer is ordered by.
    pub fn order(self, order: StationOrder) -> (m: SearchMapper)
        requires
            self.wf(),
        ensures
            m.wf(),
            m@ == self@.insert("order"@, order_word(order)),
            m.api == self.api,
    {
        let mut m = self;
        m.insert(String::from_str("order"), order.to_string());
        m
    }

    /// The request that carries this search to its mirror.
    pub fn send(self) -> (q: Query)
        requires
            self.wf(),
        ensures
            q.url@ == mirror_url(self.api.server@, "/json/stations/search"@),
            distinct_keys(q.params@),
            entries_map(q.params@) == self@,
    {
        self.api.send("/json/stations/search", self.map)
    }
}

} // verus!
