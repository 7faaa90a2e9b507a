//! Mirror discovery: picking one responsive mirror of the directory out of
//! the addresses that its well-known name resolves to.
//!
//! The caller resolves names and probes hosts; `Discovery` decides what to ask
//! next and when the search is over. The addresses are tried in a random
//! order, one after the other, and the first host that answers its health
//! probe is taken.

use vstd::prelude::*;
use rand::seq::SliceRandom;
use crate::text::{texts, join3};
use crate::search::mirror_url;

verus! {

/// What a mirror reports of itself when probed.
#[derive(Debug, Clone, PartialEq, Eq, Default)]
pub struct ServerStats {
    pub supported_version: i64,
    pub software_version: String,
    pub status: String,
    pub stations: i64,
    pub stations_broken: i64,
    pub tags: i64,
    pub clicks_last_hour: i64,
    pub clicks_last_day: i64,
    pub languages: i64,
    pub countries: i64,
}

/// The words of the warning about a mirror whose status is `status`.
pub open spec fn status_warning(status: Seq<char>) -> Seq<char> {
    "Error: server status: "@ + status
}

impl ServerStats {
    /// Whether the mirror calls itself healthy.
    pub fn is_ok(&self) -> (b: bool)
        ensures
            b == (self.status@ == "OK"@),
    {
        let ok: String = String::from_str("OK");
        self.status == ok
    }

    /// The warning to log about this report, if it deserves one. A mirror that
    /// answered is accepted whatever it reports; a status other than `OK` is
    /// only worth a line in the log.
    pub fn warning(&self) -> (w: Option<String>)
        ensures
            match w {
                Some(text) => self.status@ != "OK"@ && text@ == status_warning(self.status@),
                None => self.status@ == "OK"@,
            },
    {
        if self.is_ok() {
            None
        } else {
            Some(String::from_str("Error: server status: ").concat(self.status.as_str()))
        }
    }
}

/// Why discovery ended without a mirror.
#[derive(Debug, Clone, Copy, PartialEq, Eq)]
pub enum DiscoveryError {
    /// No address led to a host that answered its health probe.
    NoMirrorAvailable,
}

/// Where a discovery stands with the address at hand.
#[derive(Debug, Clone, PartialEq, Eq)]
pub enum Stage {
    /// Its host name is being looked up.
    Resolving,
    /// The host named is being probed.
    Probing(String),
    /// The host named answered: the search is over.
    Found(String),
}

/// A discovery in progress: the addresses in the order they are tried, the
/// index of the one at hand, and the stage reached with it.
#[derive(Debug, Clone, PartialEq, Eq)]
pub struct Discovery {
    pub addrs: Vec<String>,
    pub pos: usize,
    pub stage: Stage,
}

/// What the caller is to do next.
#[derive(Debug, PartialEq, Eq)]
pub enum MirrorAction {
    /// Look up the host name of this address.
    Resolve(String),
    /// Send a health probe: a GET of `url`, which lies on `host`.
    Probe { host: String, url: String },
    /// Nothing more: this is the outcome.
    Finished(Result<String, DiscoveryError>),
}

/// What came of the last action.
#[derive(Debug, Clone, PartialEq, Eq)]
pub enum MirrorEvent {
    /// The lookup gave this host name, or failed.
    Resolved(Option<String>),
    /// The probe was answered, or failed.
    Probed(bool),
}

/// What a `Stage` says.
pub enum StageView {
    Resolving,
    Probing(Seq<char>),
    Found(Seq<char>),
}

/// What a `Discovery` says: the addresses as texts in the order tried, the
/// index of the one at hand, and the stage reached with it.
pub struct DiscoveryState {
    pub order: Seq<Seq<char>>,
    pub pos: int,
    pub stage: StageView,
}

/// What a `MirrorAction` says.
pub enum Step {
    Resolve(Seq<char>),
    Probe { host: Seq<char>, url: Seq<char> },
    Finished(Option<Seq<char>>),
}

/// What a `MirrorEvent` says.
pub enum Answer {
    Resolved(Option<Seq<char>>),
    Probed(bool),
}

impl View for Stage {
    type V = StageView;

    open spec fn view(&self) -> StageView {
        match self {
            Stage::Resolving => StageView::Resolving,
            Stage::Probing(h) => StageView::Probing(h@),
            Stage::Found(h) => StageView::Found(h@),
        }
    }
}

impl View for Discovery {
    type V = DiscoveryState;

    open spec fn view(&self) -> DiscoveryState {
        DiscoveryState { order: texts(self.addrs@), pos: self.pos as int, stage: self.stage@ }
    }
}

impl View for MirrorAction {
    type V = Step;

    open spec fn view(&self) -> Step {
        match self {
            MirrorAction::Resolve(a) => Step::Resolve(a@),
            MirrorAction::Probe { host, url } => Step::Probe { host: host@, url: url@ },
            MirrorAction::Finished(Ok(h)) => Step::Finished(Some(h@)),
            MirrorAction::Finished(Err(_)) => Step::Finished(None),
        }
    }
}

impl View for MirrorEvent {
    type V = Answer;

    open spec fn view(&self) -> Answer {
        match self {
            MirrorEvent::Resolved(Some(h)) => Answer::Resolved(Some(h@)),
            MirrorEvent::Resolved(None) => Answer::Resolved(None),
            MirrorEvent::Probed(ok) => Answer::Probed(*ok),
        }
    }
}

/// The path of the health probe on every mirror.
pub open spec fn stats_path() -> Seq<char> {
    "/json/stats"@
}

/// The state in which a discovery over `order` starts.
pub open spec fn initial(order: Seq<Seq<char>>) -> DiscoveryState {
    DiscoveryState { order, pos: 0, stage: StageView::Resolving }
}

/// What a discovery in state `s` asks for.
pub open spec fn next_step(s: DiscoveryState) -> Step {
    match s.stage {
        StageView::Found(h) => Step::Finished(Some(h)),
        StageView::Resolving => if 0 <= s.pos < s.order.len() {
            Step::Resolve(s.order[s.pos])
        } else {
            Step::Finished(None)
        },
        StageView::Probing(h) => if 0 <= s.pos < s.order.len() {
            Step::Probe { host: h, url: mirror_url(h, stats_path()) }
        } else {
            Step::Finished(None)
        },
    }
}

/// The state that follows `s` once the answer `a` is known. A failed lookup
/// or probe moves on to the next address; an answered probe ends the search.
/// An answer that the state did not ask for changes nothing.
pub open spec fn after(s: DiscoveryState, a: Answer) -> DiscoveryState {
    if !(0 <= s.pos < s.order.len()) {
        s
    } else {
        match (s.stage, a) {
            (StageView::Resolving, Answer::Resolved(Some(h))) => DiscoveryState {
                stage: StageView::Probing(h),
                ..s
            },
            (StageView::Resolving, Answer::Resolved(None)) => DiscoveryState { pos: s.pos + 1, ..s },
            (StageView::Probing(h), Answer::Probed(true)) => DiscoveryState {
                stage: StageView::Found(h),
                ..s
            },
            (StageView::Probing(_), Answer::Probed(false)) => DiscoveryState {
                pos: s.pos + 1,
                stage: StageView::Resolving,
                ..s
            },
            _ => s,
        }
    }
}

/// Whether an address leads to a usable mirror in a world where `names` gives
/// the host name of each address that has one and `healthy` holds the hosts
/// that answer a probe.
pub open spec fn passes(addr: Seq<char>, names: Map<Seq<char>, Seq<char>>, healthy: Set<Seq<char>>) -> bool {
    names.contains_key(addr) && healthy.contains(names[addr])
}

/// The mirror that trying the addresses of `order` one by one arrives at: the
/// host of the first address that passes, if any does.
pub open spec fn select(order: Seq<Seq<char>>, names: Map<Seq<char>, Seq<char>>, healthy: Set<Seq<char>>) -> Option<
    Seq<char>,
>
    decreases order.len(),
{
    if order.len() == 0 {
        None
    } else if passes(order[0], names, healthy) {
        Some(names[order[0]])
    } else {
        select(order.drop_first(), names, healthy)
    }
}

/// The answer that the world gives to a step.
pub open spec fn answer_to(step: Step, names: Map<Seq<char>, Seq<char>>, healthy: Set<Seq<char>>) -> Answer {
    match step {
        Step::Resolve(addr) => Answer::Resolved(
            if names.contains_key(addr) {
                Some(names[addr])
            } else {
                None
            },
        ),
        Step::Probe { host, url } => Answer::Probed(healthy.contains(host)),
        Step::Finished(_) => Answer::Probed(false),
    }
}

/// How far a state is from the end of its search.
pub open spec fn distance(s: DiscoveryState) -> nat {
    if 0 <= s.pos < s.order.len() {
        match s.stage {
            StageView::Resolving => (2 * (s.order.len() - s.pos) + 1) as nat,
            StageView::Probing(_) => (2 * (s.order.len() - s.pos)) as nat,
            StageView::Found(_) => 0,
        }
    } else {
        0
    }
}

/// The outcome of a discovery that starts in state `s` and is given the
/// world's answers until it finishes.
pub open spec fn run(s: DiscoveryState, names: Map<Seq<char>, Seq<char>>, healthy: Set<Seq<char>>) -> Option<
    Seq<char>,
>
    decreases distance(s),
{
    match next_step(s) {
        Step::Finished(outcome) => outcome,
        step => run(after(s, answer_to(step, names, healthy)), names, healthy),
    }
}

/// Shuffles the addresses with `rand::seq::SliceRandom::shuffle`, driven by
/// the generator of `rand::thread_rng`. The shuffle only swaps elements, so
/// the same addresses are there afterwards, each as often as before; in which
/// order is left open.
#[verifier::external_body]
fn shuffle(addrs: &mut Vec<String>)
    ensures
        texts(final(addrs)@).to_multiset() == texts(old(addrs)@).to_multiset(),
{
    addrs.shuffle(&mut rand::thread_rng());
}

impl Discovery {
    /// Starts a discovery over the addresses given, in a random order.
    pub fn new(addrs: Vec<String>) -> (d: Discovery)
        ensures
            d@.order.to_multiset() == texts(addrs@).to_multiset(),
            d@ == initial(d@.order),
    {
        let mut addrs = addrs;
        shuffle(&mut addrs);
        Discovery { addrs, pos: 0, stage: Stage::Resolving }
    }

    /// Starts a discovery that tries the addresses in the order given.
    pub fn in_order(addrs: Vec<String>) -> (d: Discovery)
        ensures
            d@ == initial(texts(addrs@)),
    {
        Discovery { addrs, pos: 0, stage: Stage::Resolving }
    }

    /// What the caller is to do next.
    pub fn next(&self) -> (action: MirrorAction)
        ensures
            action@ == next_step(self@),
    {
        match &self.stage {
            Stage::Found(h) => MirrorAction::Finished(Ok(h.clone())),
            Stage::Resolving => {
                if self.pos < self.addrs.len() {
                    MirrorAction::Resolve(self.addrs[self.pos].clone())
                } else {
                    MirrorAction::Finished(Err(DiscoveryError::NoMirrorAvailable))
                }
            },
            Stage::Probing(h) => {
                if self.pos < self.addrs.len() {
                    MirrorAction::Probe { host: h.clone(), url: join3("https://", h.as_str(), "/json/stats") }
                } else {
                    MirrorAction::Finished(Err(DiscoveryError::NoMirrorAvailable))
                }
            },
        }
    }

    /// Takes note of what came of the last action.
    pub fn record(&mut self, event: MirrorEvent)
        ensures
            final(self)@ == after(old(self)@, event@),
    {
        if self.pos >= self.addrs.len() {
            return ;
        }
        let stage: Stage = self.stage.clone_stage();
        match (stage, event) {
            (Stage::Resolving, MirrorEvent::Resolved(Some(h))) => {
                self.stage = Stage::Probing(h);
            },
            (Stage::Resolving, MirrorEvent::Resolved(None)) => {
                self.pos = self.pos + 1;
            },
            (Stage::Probing(h), MirrorEvent::Probed(true)) => {
                self.stage = Stage::Found(h);
            },
            (Stage::Probing(_), MirrorEvent::Probed(false)) => {
                self.pos = self.pos + 1;
                self.stage = Stage::Resolving;
            },
            _ => {},
        }
    }
}

impl Stage {
    fn clone_stage(&self) -> (s: Stage)
        ensures
            s == *self,
    {
        match self {
            Stage::Resolving => Stage::Resolving,
            Stage::Probing(h) => Stage::Probing(h.clone()),
            Stage::Found(h) => Stage::Found(h.clone()),
        }
    }
}

/// A discovery that is given the world's answers ends where `select` says:
/// with the host of the first address, in the order tried, that resolves to a
/// host answering its probe, and without a mirror if there is none.
pub proof fn law_run_selects(order: Seq<Seq<char>>, names: Map<Seq<char>, Seq<char>>, healthy: Set<Seq<char>>)
    ensures
        run(initial(order), names, healthy) == select(order, names, healthy),
{
    lemma_run_from(order, 0, names, healthy);
    assert(order.subrange(0, order.len() as int) =~= order);
}

proof fn lemma_run_from(order: Seq<Seq<char>>, pos: int, names: Map<Seq<char>, Seq<char>>, healthy: Set<Seq<char>>)
    requires
        0 <= pos <= order.len(),
    ensures
        run(DiscoveryState { order, pos, stage: StageView::Resolving }, names, healthy) == select(
            order.subrange(pos, order.len() as int),
            names,
            healthy,
        ),
    decreases order.len() - pos,
{
    let s = DiscoveryState { order, pos, stage: StageView::Resolving };
    let rest = order.subrange(pos, order.len() as int);
    if pos < order.len() {
        assert(rest[0] == order[pos]);
        assert(rest.drop_first() =~= order.subrange(pos + 1, order.len() as int));
        let addr = order[pos];
        let s1 = after(s, answer_to(next_step(s), names, healthy));
        assert(run(s, names, healthy) == run(s1, names, healthy));
        if names.contains_key(addr) {
            let h = names[addr];
            assert(s1 == DiscoveryState { order, pos, stage: StageView::Probing(h) });
            let s2 = after(s1, answer_to(next_step(s1), names, healthy));
            assert(run(s1, names, healthy) == run(s2, names, healthy));
            if healthy.contains(h) {
                assert(s2 == DiscoveryState { order, pos, stage: StageView::Found(h) });
                assert(run(s2, names, healthy) == Some(h));
            } else {
                assert(s2 == DiscoveryState { order, pos: pos + 1, stage: StageView::Resolving });
                lemma_run_from(order, pos + 1, names, healthy);
            }
        } else {
            assert(s1 == DiscoveryState { order, pos: pos + 1, stage: StageView::Resolving });
            lemma_run_from(order, pos + 1, names, healthy);
        }
    } else {
        assert(rest.len() == 0);
    }
}

/// The outcome depends only on which addresses pass: a mirror is found
/// exactly when some address passes, and the mirror found is the host of an
/// address that passes.
pub proof fn law_select_outcome(order: Seq<Seq<char>>, names: Map<Seq<char>, Seq<char>>, healthy: Set<Seq<char>>)
    ensures
        match select(order, names, healthy) {
            Some(h) => exists|i: int|
                0 <= i < order.len() && passes(#[trigger] order[i], names, healthy) && names[order[i]] == h,
            None => forall|i: int| 0 <= i < order.len() ==> !passes(#[trigger] order[i], names, healthy),
        },
    decreases order.len(),
{
    if order.len() > 0 {
        if passes(order[0], names, healthy) {
        } else {
            let rest = order.drop_first();
            law_select_outcome(rest, names, healthy);
            match select(rest, names, healthy) {
                Some(h) => {
                    let i = choose|i: int|
                        0 <= i < rest.len() && passes(#[trigger] rest[i], names, healthy) && names[rest[i]] == h;
                    assert(order[i + 1] == rest[i]);
                },
                None => {
                    assert forall|i: int| 0 <= i < order.len() implies !passes(
                        #[trigger] order[i],
                        names,
                        healthy,
                    ) by {
                        if i > 0 {
                            assert(order[i] == rest[i - 1]);
                        }
                    }
                },
            }
        }
    }
}

/// Where the addresses that pass all lead to one host, that host is found,
/// whatever the order in which the addresses are tried.
pub proof fn law_single_mirror(
    order: Seq<Seq<char>>,
    names: Map<Seq<char>, Seq<char>>,
    healthy: Set<Seq<char>>,
    addr: Seq<char>,
)
    requires
        order.contains(addr),
        passes(addr, names, healthy),
        forall|i: int|
            0 <= i < order.len() && passes(#[trigger] order[i], names, healthy) ==> names[order[i]] == names[addr],
    ensures
        select(order, names, healthy) == Some(names[addr]),
{
    law_select_outcome(order, names, healthy);
    let k = choose|k: int| 0 <= k < order.len() && order[k] == addr;
    assert(passes(order[k], names, healthy));
}

/// Two orders of the same addresses, of which those that pass all lead to one
/// host, end with the same outcome.
pub proof fn law_order_irrelevant(
    first: Seq<Seq<char>>,
    second: Seq<Seq<char>>,
    names: Map<Seq<char>, Seq<char>>,
    healthy: Set<Seq<char>>,
)
    requires
        first.to_multiset() == second.to_multiset(),
        forall|i: int, j: int|
            0 <= i < first.len() && 0 <= j < first.len() && passes(#[trigger] first[i], names, healthy) && passes(
                #[trigger] first[j],
                names,
                healthy,
            ) ==> names[first[i]] == names[first[j]],
    ensures
        select(first, names, healthy) == select(second, names, healthy),
{
    law_select_outcome(first, names, healthy);
    law_select_outcome(second, names, healthy);
    assert forall|a: Seq<char>| first.contains(a) <==> second.contains(a) by {
        vstd::seq_lib::to_multiset_contains(first, a);
        vstd::seq_lib::to_multiset_contains(second, a);
    }
    match select(first, names, healthy) {
        Some(h) => {
            let i = choose|i: int|
                0 <= i < first.len() && passes(#[trigger] first[i], names, healthy) && names[first[i]] == h;
            assert(first.contains(first[i]));
            assert(second.contains(first[i]));
            let k = choose|k: int| 0 <= k < second.len() && second[k] == first[i];
            assert(passes(second[k], names, healthy));
            match select(second, names, healthy) {
                Some(g) => {
                    let j = choose|j: int|
                        0 <= j < second.len() && passes(#[trigger] second[j], names, healthy) && names[second[j]]
                            == g;
                    assert(second.contains(second[j]));
                    assert(first.contains(second[j]));
                    let m = choose|m: int| 0 <= m < first.len() && first[m] == second[j];
                    assert(passes(first[m], names, healthy));
                    assert(names[first[i]] == names[first[m]]);
                },
                None => {},
            }
        },
        None => {
            match select(second, names, healthy) {
                Some(g) => {
                    let j = choose|j: int|
                        0 <= j < second.len() && passes(#[trigger] second[j], names, healthy) && names[second[j]]
                            == g;
                    assert(second.contains(second[j]));
                    assert(first.contains(second[j]));
                    let m = choose|m: int| 0 <= m < first.len() && first[m] == second[j];
                    assert(passes(first[m], names, healthy));
                },
                None => {},
            }
        },
    }
}

/// Where no address passes, no mirror is found, whatever the order.
pub proof fn law_no_mirror(order: Seq<Seq<char>>, names: Map<Seq<char>, Seq<char>>, healthy: Set<Seq<char>>)
    requires
        forall|i: int| 0 <= i < order.len() ==> !passes(#[trigger] order[i], names, healthy),
    ensures
        select(order, names, healthy).is_none(),
        run(initial(order), names, healthy).is_none(),
{
    law_select_outcome(order, names, healthy);
    law_run_selects(order, names, healthy);
}

/// Where exactly one of the addresses passes, a discovery over any shuffle of
/// them ends with the host of that address.
pub proof fn law_one_passing_address(
    addrs: Seq<Seq<char>>,
    shuffled: Seq<Seq<char>>,
    names: Map<Seq<char>, Seq<char>>,
    healthy: Set<Seq<char>>,
    k: int,
)
    requires
        shuffled.to_multiset() == addrs.to_multiset(),
        0 <= k < addrs.len(),
        passes(addrs[k], names, healthy),
        forall|i: int| 0 <= i < addrs.len() && i != k ==> !passes(#[trigger] addrs[i], names, healthy),
    ensures
        run(initial(shuffled), names, healthy) == Some(names[addrs[k]]),
{
    law_run_selects(shuffled, names, healthy);
    law_order_irrelevant(addrs, shuffled, names, healthy);
    assert(addrs.contains(addrs[k]));
    law_single_mirror(addrs, names, healthy, addrs[k]);
}

} // verus!
