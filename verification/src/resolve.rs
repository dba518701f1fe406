//! Target resolution: mapping the user's specifier to a concrete surface.
//!
//! The whole screen resolves to the root surface and an explicit identifier
//! parses locally: neither issues a request. A name or class search fetches
//! the root's client list once, then probes the candidates in list order,
//! one property read each, and the first match wins. The round trips are an
//! unverified driver's; the [`Resolver`] here makes every decision, and
//! [`resolve_with_probes`] runs a whole search against an already-supplied
//! property table, counting the round trips a driver would issue.

use crate::errors::Error;
use crate::target::TargetSpecifier;
use crate::target::is_valid_window_id;
use crate::target::parse_window_id;
use crate::target::window_id_value;
use crate::text::MatchKind;
use crate::text::candidate_matches;
use crate::text::lower_needle;
use crate::text::lower_of;
use crate::text::property_matches;
use vstd::prelude::*;

verus! {

/// What a search returns once the candidates before position `i` have been
/// ruled out: the first matching candidate from there on, in list order, or
/// exhaustion.
pub open spec fn search_outcome(
    clients: Seq<u32>,
    props: Seq<Seq<u8>>,
    kind: MatchKind,
    needle_lower: Seq<char>,
) -> Result<u32, Error>
    recommends
        props.len() == clients.len(),
    decreases clients.len(),
{
    if clients.len() == 0 {
        Err(Error::TargetNotFound)
    } else if candidate_matches(kind, needle_lower, props[0]) {
        Ok(clients[0])
    } else {
        search_outcome(clients.drop_first(), props.drop_first(), kind, needle_lower)
    }
}

/// How many candidates a search probes: each candidate up to and including
/// the first match, or all of them when none matches.
pub open spec fn probes_used(props: Seq<Seq<u8>>, kind: MatchKind, needle_lower: Seq<char>) -> nat
    decreases props.len(),
{
    if props.len() == 0 {
        0
    } else if candidate_matches(kind, needle_lower, props[0]) {
        1
    } else {
        1 + probes_used(props.drop_first(), kind, needle_lower)
    }
}

/// What resolving a specifier returns, given the client list and the
/// property table a search would read.
pub open spec fn resolution_outcome(
    t: TargetSpecifier,
    root: u32,
    clients: Seq<u32>,
    props: Seq<Seq<u8>>,
) -> Result<u32, Error> {
    match t {
        TargetSpecifier::WholeScreen => Ok(root),
        TargetSpecifier::ByIdentifier(id) => if is_valid_window_id(id@) {
            Ok(window_id_value(id@) as u32)
        } else {
            Err(Error::InvalidIdentifier)
        },
        TargetSpecifier::ByName(n) => search_outcome(clients, props, MatchKind::Name, lower_of(n@)),
        TargetSpecifier::ByClass(n) => search_outcome(
            clients,
            props,
            MatchKind::Class,
            lower_of(n@),
        ),
    }
}

/// How often resolving a specifier queries the client list: once for a
/// search, never otherwise.
pub open spec fn resolution_list_queries(t: TargetSpecifier) -> nat {
    match t {
        TargetSpecifier::ByName(_) => 1,
        TargetSpecifier::ByClass(_) => 1,
        _ => 0,
    }
}

/// How many candidate property probes resolving a specifier issues.
pub open spec fn resolution_probes(t: TargetSpecifier, props: Seq<Seq<u8>>) -> nat {
    match t {
        TargetSpecifier::ByName(n) => probes_used(props, MatchKind::Name, lower_of(n@)),
        TargetSpecifier::ByClass(n) => probes_used(props, MatchKind::Class, lower_of(n@)),
        _ => 0,
    }
}

/// Resolving the whole screen returns the root surface and issues no
/// request at all: no client-list query and no property probe.
pub proof fn lemma_whole_screen_no_requests(root: u32, clients: Seq<u32>, props: Seq<Seq<u8>>)
    ensures
        resolution_outcome(TargetSpecifier::WholeScreen, root, clients, props) == Ok::<
            u32,
            Error,
        >(root),
        resolution_list_queries(TargetSpecifier::WholeScreen) == 0,
        resolution_probes(TargetSpecifier::WholeScreen, props) == 0,
{
}

/// Ruling out the first `i` candidates moves a search past them: its
/// outcome is the outcome on the remaining candidates, and it probes those
/// `i` before whatever the rest costs.
proof fn lemma_search_skip(
    clients: Seq<u32>,
    props: Seq<Seq<u8>>,
    kind: MatchKind,
    needle_lower: Seq<char>,
    i: int,
)
    requires
        props.len() == clients.len(),
        0 <= i <= clients.len(),
        forall|j: int| 0 <= j < i ==> !candidate_matches(kind, needle_lower, props[j]),
    ensures
        search_outcome(clients, props, kind, needle_lower) == search_outcome(
            clients.skip(i),
            props.skip(i),
            kind,
            needle_lower,
        ),
        probes_used(props, kind, needle_lower) == i + probes_used(
            props.skip(i),
            kind,
            needle_lower,
        ),
    decreases i,
{
    if i == 0 {
        assert(clients.skip(0) =~= clients);
        assert(props.skip(0) =~= props);
    } else {
        assert(!candidate_matches(kind, needle_lower, props[0]));
        lemma_search_skip(clients.drop_first(), props.drop_first(), kind, needle_lower, i - 1);
        assert(clients.drop_first().skip(i - 1) =~= clients.skip(i));
        assert(props.drop_first().skip(i - 1) =~= props.skip(i));
    }
}

/// First match wins, by enumeration order: when only the k-th candidate
/// (1-indexed, list order) matches, the search probes exactly the first k
/// candidates and returns the k-th.
pub proof fn lemma_only_kth_matches(
    clients: Seq<u32>,
    props: Seq<Seq<u8>>,
    kind: MatchKind,
    needle_lower: Seq<char>,
    k: int,
)
    requires
        props.len() == clients.len(),
        1 <= k <= clients.len(),
        candidate_matches(kind, needle_lower, props[k - 1]),
        forall|i: int|
            0 <= i < clients.len() && i != k - 1 ==> !candidate_matches(
                kind,
                needle_lower,
                props[i],
            ),
    ensures
        search_outcome(clients, props, kind, needle_lower) == Ok::<u32, Error>(clients[k - 1]),
        probes_used(props, kind, needle_lower) == k,
{
    lemma_search_skip(clients, props, kind, needle_lower, k - 1);
    assert(clients.skip(k - 1)[0] == clients[k - 1]);
    assert(props.skip(k - 1)[0] == props[k - 1]);
}

/// A search over candidates none of which matches probes every one of them
/// exactly once and fails with `TargetNotFound`.
pub proof fn lemma_no_match_exhausts(
    clients: Seq<u32>,
    props: Seq<Seq<u8>>,
    kind: MatchKind,
    needle_lower: Seq<char>,
)
    requires
        props.len() == clients.len(),
        forall|i: int| 0 <= i < clients.len() ==> !candidate_matches(kind, needle_lower, props[i]),
    ensures
        search_outcome(clients, props, kind, needle_lower) == Err::<u32, Error>(
            Error::TargetNotFound,
        ),
        probes_used(props, kind, needle_lower) == clients.len(),
{
    lemma_search_skip(clients, props, kind, needle_lower, clients.len() as int);
    assert(clients.skip(clients.len() as int).len() == 0);
}

/// One candidate property read, as the driver reports it back.
pub enum PropertyRead<'a> {
    /// The read succeeded; an absent or empty property is an empty value.
    Value(&'a Vec<u8>),
    /// The read itself failed: this aborts the whole resolution with a
    /// protocol failure, distinct from an ordinary no-match outcome.
    Failed,
}

/// The search half of resolution: candidates in the server's enumeration
/// order, probed one at a time, first match wins.
pub struct Resolver {
    /// Which property of each candidate the search inspects.
    pub kind: MatchKind,
    /// The needle, lowercased once up front.
    pub needle_lower: Vec<char>,
    /// The root's client list, in the server's enumeration order.
    pub clients: Vec<u32>,
    /// How many candidates have been ruled out so far.
    pub idx: usize,
}

impl Resolver {
    /// The position never runs past the list.
    pub open spec fn wf(self) -> bool {
        self.idx <= self.clients@.len()
    }

    /// Start a search over a freshly fetched client list.
    pub fn new(kind: MatchKind, needle: &str, clients: Vec<u32>) -> (r: Resolver)
        ensures
            r.wf(),
            r.kind == kind,
            r.needle_lower@ == lower_of(needle@),
            r.clients == clients,
            r.idx == 0,
    {
        let needle_lower = lower_needle(needle);
        Resolver { kind, needle_lower, clients, idx: 0 }
    }

    /// The candidate whose property must be probed next, or nothing when
    /// every candidate has been ruled out.
    pub fn pending_candidate(&self) -> (r: Option<u32>)
        requires
            self.wf(),
        ensures
            r == if self.idx < self.clients@.len() {
                Some(self.clients@[self.idx as int])
            } else {
                None::<u32>
            },
    {
        if self.idx < self.clients.len() {
            Some(self.clients[self.idx])
        } else {
            None
        }
    }

    /// Judge the pending candidate by its property read. A match ends the
    /// search with that candidate; a failed read aborts it; a non-match
    /// rules the candidate out and moves on.
    pub fn offer_property(&mut self, read: PropertyRead<'_>) -> (r: Option<Result<u32, Error>>)
        requires
            old(self).wf(),
            old(self).idx < old(self).clients@.len(),
        ensures
            final(self).wf(),
            final(self).kind == old(self).kind,
            final(self).needle_lower == old(self).needle_lower,
            final(self).clients == old(self).clients,
            match read {
                PropertyRead::Failed => r == Some(Err::<u32, Error>(Error::ProtocolError))
                    && final(self).idx == old(self).idx,
                PropertyRead::Value(prop) => if candidate_matches(
                    old(self).kind,
                    old(self).needle_lower@,
                    prop@,
                ) {
                    r == Some(Ok::<u32, Error>(old(self).clients@[old(self).idx as int]))
                        && final(self).idx == old(self).idx
                } else {
                    r is None && final(self).idx == old(self).idx + 1
                },
            },
    {
        let n = self.clients.len();
        match read {
            PropertyRead::Failed => Some(Err(Error::ProtocolError)),
            PropertyRead::Value(prop) => {
                if property_matches(self.kind, &self.needle_lower, prop) {
                    Some(Ok(self.clients[self.idx]))
                } else {
                    assert(self.idx < n);
                    self.idx = self.idx + 1;
                    None
                }
            },
        }
    }

    /// The search failed: only once every candidate has been probed and
    /// ruled out may resolution end with `TargetNotFound`. Recoverable,
    /// never a process abort.
    pub fn exhausted(&self) -> (r: Result<u32, Error>)
        requires
            self.wf(),
            self.idx == self.clients@.len(),
        ensures
            r == Err::<u32, Error>(Error::TargetNotFound),
    {
        Err(Error::TargetNotFound)
    }
}

/// The first decision of a resolution, before any round trip.
pub enum ResolutionStart {
    /// The target is already a concrete surface: no request needed.
    Resolved(u32),
    /// The supplied identifier does not parse: rejected before any request.
    Rejected(Error),
    /// A search is needed: fetch the client list, then probe candidates.
    Search(MatchKind, String),
}

/// Decide how a specifier resolves. The whole screen is the root surface
/// and an explicit identifier is parsed locally, neither touching the
/// server; a name or class specifier opens a search.
pub fn begin_resolution(t: &TargetSpecifier, root: u32) -> (r: ResolutionStart)
    ensures
        match *t {
            TargetSpecifier::WholeScreen => r == ResolutionStart::Resolved(root),
            TargetSpecifier::ByIdentifier(id) => if is_valid_window_id(id@) {
                r matches ResolutionStart::Resolved(w) && w == window_id_value(id@)
            } else {
                r == ResolutionStart::Rejected(Error::InvalidIdentifier)
            },
            TargetSpecifier::ByName(n) => r matches ResolutionStart::Search(k, s) && k
                == MatchKind::Name && s@ == n@,
            TargetSpecifier::ByClass(n) => r matches ResolutionStart::Search(k, s) && k
                == MatchKind::Class && s@ == n@,
        },
{
    match t {
        TargetSpecifier::WholeScreen => ResolutionStart::Resolved(root),
        TargetSpecifier::ByIdentifier(id) => match parse_window_id(id.as_str()) {
            Ok(w) => ResolutionStart::Resolved(w),
            Err(e) => ResolutionStart::Rejected(e),
        },
        TargetSpecifier::ByName(n) => ResolutionStart::Search(MatchKind::Name, n.clone()),
        TargetSpecifier::ByClass(n) => ResolutionStart::Search(MatchKind::Class, n.clone()),
    }
}

/// What one full resolution run did: its outcome and the round trips it
/// issued, split into client-list queries and candidate property probes.
pub struct ResolutionTrace {
    pub outcome: Result<u32, Error>,
    pub list_queries: usize,
    pub probes: usize,
}

/// Resolve a specifier to completion against an already-supplied client
/// list and property table, counting the round trips a live driver would
/// issue. `props` pairs with `clients` position by position.
pub fn resolve_with_probes(
    t: &TargetSpecifier,
    root: u32,
    clients: Vec<u32>,
    props: &Vec<Vec<u8>>,
) -> (r: ResolutionTrace)
    requires
        props@.len() == clients@.len(),
    ensures
        r.outcome == resolution_outcome(*t, root, clients@, props.deep_view()),
        r.list_queries == resolution_list_queries(*t),
        r.probes == resolution_probes(*t, props.deep_view()),
{
    let ghost cl = clients@;
    let ghost pv = props.deep_view();
    let (kind, needle) = match begin_resolution(t, root) {
        ResolutionStart::Resolved(w) => {
            return ResolutionTrace { outcome: Ok(w), list_queries: 0, probes: 0 };
        },
        ResolutionStart::Rejected(e) => {
            return ResolutionTrace { outcome: Err(e), list_queries: 0, probes: 0 };
        },
        ResolutionStart::Search(kind, needle) => (kind, needle),
    };
    let ghost nl = lower_of(needle@);
    let n = clients.len();
    let mut resolver = Resolver::new(kind, needle.as_str(), clients);
    let mut probes: usize = 0;
    while probes < n
        invariant
            resolver.wf(),
            resolver.kind == kind,
            resolver.needle_lower@ == nl,
            resolver.clients@ == cl,
            cl == clients@,
            n == cl.len(),
            pv.len() == cl.len(),
            pv == props.deep_view(),
            forall|j: int| 0 <= j < pv.len() ==> pv[j] == props@[j]@,
            probes == resolver.idx,
            forall|j: int| 0 <= j < probes ==> !candidate_matches(kind, nl, pv[j]),
            resolution_list_queries(*t) == 1,
            resolution_outcome(*t, root, cl, pv) == search_outcome(cl, pv, kind, nl),
            resolution_probes(*t, pv) == probes_used(pv, kind, nl),
        decreases n - probes,
    {
        let prop = &props[probes];
        let step = resolver.offer_property(PropertyRead::Value(prop));
        match step {
            Some(outcome) => {
                proof {
                    assert(candidate_matches(kind, nl, pv[probes as int]));
                    lemma_search_skip(cl, pv, kind, nl, probes as int);
                    assert(cl.skip(probes as int).len() > 0);
                    assert(cl.skip(probes as int)[0] == cl[probes as int]);
                    assert(pv.skip(probes as int)[0] == pv[probes as int]);
                    assert(search_outcome(cl.skip(probes as int), pv.skip(probes as int), kind, nl)
                        == Ok::<u32, Error>(cl[probes as int]));
                    assert(probes_used(pv.skip(probes as int), kind, nl) == 1);
                }
                return ResolutionTrace { outcome, list_queries: 1, probes: probes + 1 };
            },
            None => {
                probes = probes + 1;
            },
        }
    }
    let outcome = resolver.exhausted();
    proof {
        lemma_search_skip(cl, pv, kind, nl, cl.len() as int);
        assert(cl.skip(cl.len() as int).len() == 0);
    }
    ResolutionTrace { outcome, list_queries: 1, probes }
}

} // verus!
