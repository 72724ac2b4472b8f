//! Resolution of a handle or a DID into one verified identity.
//!
//! A handle names a DID (by an HTTPS document and by a DNS record) and a
//! DID's directory document names its handles and its data server. The
//! resolver follows both directions until nothing new turns up, and then
//! demands that every source agreed. It performs no lookup itself: it says
//! which lookup it needs next and is told what came back.

use vstd::prelude::*;
use crate::text::{chars_of, has_prefix, join, starts_with, stripped, strip_prefix, texts};

verus! {

/// The identity that a resolution arrived at.
#[derive(Debug, Clone, PartialEq, Eq)]
pub struct ResolvedHandle {
    /// The one DID that every source named.
    pub did: String,
    /// The endpoint of the DID's one personal data server.
    pub pds: String,
    /// The handles of the DID, each once.
    pub handles: Vec<String>,
}

/// The ways in which a lookup or a resolution fails.
#[derive(Debug, Clone, Copy, PartialEq, Eq, Structural)]
pub enum ResolveError {
    /// The resolution did not settle within ten rounds.
    ResolutionDepthExceeded,
    /// The DNS records of one handle name more than one DID.
    AmbiguousHandle,
    /// The sources named more than one DID.
    MultipleDids,
    /// No handle was found.
    NoHandlesFound,
    /// The sources named more than one personal data server.
    MultiplePds,
    /// No DID was found.
    NoDidFound,
    /// No personal data server was found.
    NoPdsFound,
    /// The DNS records of a handle name no DID.
    NoDidRecord,
    /// The HTTPS document of a handle does not start with `did:`.
    InvalidResponse,
    /// A source could not be reached.
    Transport,
}

/// The mathematical form of a resolved identity.
pub struct Identity {
    pub did: Seq<char>,
    pub pds: Seq<char>,
    pub handles: Seq<Seq<char>>,
}

impl View for ResolvedHandle {
    type V = Identity;

    open spec fn view(&self) -> Identity {
        Identity { did: self.did@, pds: self.pds@, handles: texts(self.handles@) }
    }
}

/// What the resolver waits for.
pub enum Pending {
    /// The directory's answer about `did`; the handle `then`, if any, is
    /// checked next, in the same round.
    Directory { did: Seq<char>, then: Option<Seq<char>> },
    /// The outcome of checking `handle`.
    Handle { handle: Seq<char> },
    /// Nothing: every queued DID and handle has been looked up.
    Settled,
    /// Nothing: the resolution has failed.
    Failed(ResolveError),
}

/// The mathematical form of a resolver's state.
pub struct Resolution {
    /// Every DID queued for a directory query, in the order of arrival.
    pub dids: Seq<Seq<char>>,
    /// How many of them, from the front, have been picked.
    pub dids_done: nat,
    /// Every handle queued for checking, in the order of arrival.
    pub handles: Seq<Seq<char>>,
    /// How many of them, from the front, have been picked.
    pub handles_done: nat,
    /// The DIDs that handles named.
    pub found_dids: Seq<Seq<char>>,
    /// The handles that directory documents named.
    pub found_handles: Seq<Seq<char>>,
    /// The data servers that directory documents named.
    pub found_pds: Seq<Seq<char>>,
    /// The rounds begun so far.
    pub rounds: nat,
    /// What the resolver waits for.
    pub pending: Pending,
}

/// What came back from a lookup, in mathematical form.
pub enum Event {
    /// The directory's document for the DID asked about, as data servers
    /// and handles, or `None` where the query failed.
    Directory(Option<(Seq<Seq<char>>, Seq<Seq<char>>)>),
    /// What the HTTPS document and the DNS records of the handle asked
    /// about each came to.
    Handle { http: Result<Seq<char>, ResolveError>, dns: Result<Seq<char>, ResolveError> },
}

/// What the resolver asks for next, in mathematical form.
pub enum Action {
    QueryDirectory { did: Seq<char> },
    VerifyHandle { handle: Seq<char> },
    Done(Result<Identity, ResolveError>),
}

/// The most rounds a resolution may begin.
pub open spec fn max_rounds() -> nat {
    10
}

/// `list` with `item` at its end, unless `list` holds `item` already.
pub open spec fn insert_new(list: Seq<Seq<char>>, item: Seq<char>) -> Seq<Seq<char>> {
    if list.contains(item) {
        list
    } else {
        list.push(item)
    }
}

/// `list` with each of `items` inserted in turn.
pub open spec fn extend_new(list: Seq<Seq<char>>, items: Seq<Seq<char>>) -> Seq<Seq<char>>
    decreases items.len(),
{
    if items.len() == 0 {
        list
    } else {
        extend_new(insert_new(list, items[0]), items.drop_first())
    }
}

/// The state before the first round: the subject queued as a DID where it
/// starts with `did:`, as a handle otherwise.
pub open spec fn seeded(subject: Seq<char>) -> Resolution {
    let is_did = starts_with(subject, "did:"@);
    Resolution {
        dids: if is_did { seq![subject] } else { Seq::empty() },
        dids_done: 0,
        handles: if is_did { Seq::empty() } else { seq![subject] },
        handles_done: 0,
        found_dids: Seq::empty(),
        found_handles: Seq::empty(),
        found_pds: Seq::empty(),
        rounds: 0,
        pending: Pending::Settled,
    }
}

/// Begins a round: fails where ten rounds have begun already; otherwise
/// picks the first DID and the first handle not yet picked. With neither
/// left the resolution has settled.
pub open spec fn next_round(s: Resolution) -> Resolution {
    if s.rounds >= max_rounds() {
        Resolution { pending: Pending::Failed(ResolveError::ResolutionDepthExceeded), ..s }
    } else {
        let did = if s.dids_done < s.dids.len() {
            Some(s.dids[s.dids_done as int])
        } else {
            None
        };
        let handle = if s.handles_done < s.handles.len() {
            Some(s.handles[s.handles_done as int])
        } else {
            None
        };
        Resolution {
            dids_done: if did is Some { s.dids_done + 1 } else { s.dids_done },
            handles_done: if handle is Some { s.handles_done + 1 } else { s.handles_done },
            rounds: s.rounds + 1,
            pending: match did {
                Some(d) => Pending::Directory { did: d, then: handle },
                None => match handle {
                    Some(h) => Pending::Handle { handle: h },
                    None => Pending::Settled,
                },
            },
            ..s
        }
    }
}

/// The state in which the resolution of `subject` starts: the subject is
/// queued and the first round begun.
pub open spec fn start(subject: Seq<char>) -> Resolution {
    next_round(seeded(subject))
}

/// Takes in a directory document: its data servers and handles are found,
/// and its handles are queued for checking. A failed query changes nothing.
pub open spec fn record_directory(
    s: Resolution,
    answer: Option<(Seq<Seq<char>>, Seq<Seq<char>>)>,
) -> Resolution {
    match answer {
        None => s,
        Some((pds, handles)) => Resolution {
            found_pds: extend_new(s.found_pds, pds),
            found_handles: extend_new(s.found_handles, handles),
            handles: extend_new(s.handles, handles),
            ..s
        },
    }
}

/// Takes in a DID that a handle named: it is found, and queued for a
/// directory query. A lookup that failed changes nothing.
pub open spec fn record_did(s: Resolution, lookup: Result<Seq<char>, ResolveError>) -> Resolution {
    match lookup {
        Err(_) => s,
        Ok(did) => Resolution {
            dids: insert_new(s.dids, did),
            found_dids: insert_new(s.found_dids, did),
            ..s
        },
    }
}

/// The state after `event`. An answer to what is pending is taken in and
/// the next lookup chosen; DNS records that name several DIDs fail the
/// resolution at once. Any other event changes nothing.
pub open spec fn step(s: Resolution, event: Event) -> Resolution {
    match (s.pending, event) {
        (Pending::Directory { did, then }, Event::Directory(answer)) => {
            let recorded = record_directory(s, answer);
            match then {
                Some(h) => Resolution { pending: Pending::Handle { handle: h }, ..recorded },
                None => next_round(recorded),
            }
        },
        (Pending::Handle { handle }, Event::Handle { http, dns }) => {
            if dns == Err::<Seq<char>, ResolveError>(ResolveError::AmbiguousHandle) {
                Resolution { pending: Pending::Failed(ResolveError::AmbiguousHandle), ..s }
            } else {
                next_round(record_did(record_did(s, http), dns))
            }
        },
        _ => s,
    }
}

/// What a settled resolution comes to: the sources must have named exactly
/// one DID, at least one handle, and exactly one data server.
pub open spec fn outcome(s: Resolution) -> Result<Identity, ResolveError> {
    if s.found_dids.len() > 1 {
        Err(ResolveError::MultipleDids)
    } else if s.found_handles.len() == 0 {
        Err(ResolveError::NoHandlesFound)
    } else if s.found_pds.len() > 1 {
        Err(ResolveError::MultiplePds)
    } else if s.found_dids.len() == 0 {
        Err(ResolveError::NoDidFound)
    } else if s.found_pds.len() == 0 {
        Err(ResolveError::NoPdsFound)
    } else {
        Ok(Identity { did: s.found_dids[0], pds: s.found_pds[0], handles: s.found_handles })
    }
}

/// What the resolver in state `s` asks for.
pub open spec fn action_of(s: Resolution) -> Action {
    match s.pending {
        Pending::Directory { did, then } => Action::QueryDirectory { did },
        Pending::Handle { handle } => Action::VerifyHandle { handle },
        Pending::Settled => Action::Done(outcome(s)),
        Pending::Failed(e) => Action::Done(Err(e)),
    }
}

/// Some record of `records` is `did=` followed by `did`.
pub open spec fn names_did(records: Seq<Seq<char>>, did: Seq<char>) -> bool {
    exists|i: int| 0 <= i < records.len() && stripped(#[trigger] records[i], "did="@) == Some(did)
}

/// What the TXT records of a handle come to: the one DID they name;
/// `AmbiguousHandle` where they name several; `NoDidRecord` where they name
/// none.
pub open spec fn dns_outcome(records: Seq<Seq<char>>, out: Result<Seq<char>, ResolveError>)
    -> bool {
    match out {
        Ok(did) => names_did(records, did) && forall|other: Seq<char>|
            names_did(records, other) ==> other == did,
        Err(ResolveError::AmbiguousHandle) => exists|a: Seq<char>, b: Seq<char>|
            names_did(records, a) && names_did(records, b) && a != b,
        Err(ResolveError::NoDidRecord) => forall|did: Seq<char>| !names_did(records, did),
        Err(_) => false,
    }
}

/// The view of a DID or the error that came in its place.
pub open spec fn lookup_view(r: Result<String, ResolveError>) -> Result<Seq<char>, ResolveError> {
    match r {
        Ok(t) => Ok(t@),
        Err(e) => Err(e),
    }
}

/// What the sources of the network say: the directory of each DID, as the
/// data servers and handles of its document, and the HTTPS document and
/// the DNS records of each handle, as the DID they name.
pub struct Sources {
    pub directory: spec_fn(Seq<char>) -> Option<(Seq<Seq<char>>, Seq<Seq<char>>)>,
    pub http: spec_fn(Seq<char>) -> Result<Seq<char>, ResolveError>,
    pub dns: spec_fn(Seq<char>) -> Result<Seq<char>, ResolveError>,
}

/// The resolution has ended.
pub open spec fn ended(s: Resolution) -> bool {
    s.pending is Settled || s.pending is Failed
}

/// What the sources answer to the lookup that `s` waits for.
pub open spec fn answer(s: Resolution, sources: Sources) -> Event {
    match s.pending {
        Pending::Handle { handle } => Event::Handle {
            http: (sources.http)(handle),
            dns: (sources.dns)(handle),
        },
        Pending::Directory { did, then } => Event::Directory((sources.directory)(did)),
        _ => Event::Directory(None),
    }
}

/// The state after `lookups` lookups, each answered by the sources.
pub open spec fn run(s: Resolution, sources: Sources, lookups: nat) -> Resolution
    decreases lookups,
{
    if lookups == 0 {
        s
    } else {
        run(step(s, answer(s, sources)), sources, (lookups - 1) as nat)
    }
}

/// The state of a resolver is sound: no list holds an item twice, no more
/// items are picked than are queued, no more rounds begun than allowed,
/// whatever was found is queued for its own lookup, and a settled resolver
/// has picked all that was queued.
pub open spec fn well_formed(s: Resolution) -> bool {
    &&& s.dids.no_duplicates()
    &&& s.handles.no_duplicates()
    &&& s.found_dids.no_duplicates()
    &&& s.found_handles.no_duplicates()
    &&& s.found_pds.no_duplicates()
    &&& s.dids_done <= s.dids.len()
    &&& s.handles_done <= s.handles.len()
    &&& s.rounds <= max_rounds()
    &&& forall|did: Seq<char>| s.found_dids.contains(did) ==> s.dids.contains(did)
    &&& forall|handle: Seq<char>| s.found_handles.contains(handle) ==> s.handles.contains(handle)
    &&& s.pending is Settled ==> s.dids_done == s.dids.len() && s.handles_done == s.handles.len()
}

/// An upper bound on the lookups that a resolution may still ask for.
pub open spec fn lookups_left(s: Resolution) -> int {
    match s.pending {
        Pending::Settled => 0,
        Pending::Failed(_) => 0,
        Pending::Directory { did, then: Some(_) } => 2 * (max_rounds() - s.rounds) + 2,
        Pending::Directory { did, then: None } => 2 * (max_rounds() - s.rounds) + 1,
        Pending::Handle { handle } => 2 * (max_rounds() - s.rounds) + 1,
    }
}

/// Inserting keeps a list free of repeats and never shortens it; the list
/// holds afterwards what it held and the item, and nothing else.
pub proof fn lemma_insert_new(list: Seq<Seq<char>>, item: Seq<char>)
    ensures
        insert_new(list, item).contains(item),
        insert_new(list, item).len() >= list.len(),
        forall|other: Seq<char>|
            #![trigger insert_new(list, item).contains(other)]
            insert_new(list, item).contains(other) <==> list.contains(other) || other == item,
        list.no_duplicates() ==> insert_new(list, item).no_duplicates(),
{
    let after = insert_new(list, item);
    if list.contains(item) {
    } else {
        assert(after[list.len() as int] == item);
        assert forall|other: Seq<char>| list.contains(other) implies after.contains(other) by {
            let i = choose|i: int| 0 <= i < list.len() && list[i] == other;
            assert(after[i] == other);
        }
    }
}

/// Extending keeps a list free of repeats, never shortens it, and holds
/// afterwards what the list held and what was added, and nothing else.
pub proof fn lemma_extend_new(list: Seq<Seq<char>>, items: Seq<Seq<char>>)
    ensures
        extend_new(list, items).len() >= list.len(),
        list.no_duplicates() ==> extend_new(list, items).no_duplicates(),
        forall|x: Seq<char>|
            #![trigger extend_new(list, items).contains(x)]
            extend_new(list, items).contains(x) <==> list.contains(x) || items.contains(x),
    decreases items.len(),
{
    if items.len() > 0 {
        let first = insert_new(list, items[0]);
        let rest = items.drop_first();
        lemma_insert_new(list, items[0]);
        lemma_extend_new(first, rest);
        assert forall|x: Seq<char>|
            #![trigger extend_new(list, items).contains(x)]
            extend_new(list, items).contains(x) <==> list.contains(x) || items.contains(
                x,
            ) by {
            assert(extend_new(list, items) == extend_new(first, rest));
            assert(items.contains(items[0]));
            if rest.contains(x) {
                let i = choose|i: int| 0 <= i < rest.len() && rest[i] == x;
                assert(items[i + 1] == x);
            }
            if items.contains(x) {
                let i = choose|i: int| 0 <= i < items.len() && items[i] == x;
                if i > 0 {
                    assert(rest[i - 1] == x);
                }
            }
        }
    }
}

/// Extending by a single item is inserting it.
pub proof fn lemma_extend_new_one(list: Seq<Seq<char>>, item: Seq<char>)
    ensures
        extend_new(list, seq![item]) == insert_new(list, item),
{
    let one = seq![item];
    assert(one[0] == item);
    assert(one.drop_first() =~= Seq::<Seq<char>>::empty());
    assert(extend_new(insert_new(list, item), Seq::<Seq<char>>::empty()) == insert_new(list, item));
}

/// Every resolution starts in a sound state.
pub proof fn lemma_start_well_formed(subject: Seq<char>)
    ensures
        well_formed(start(subject)),
        !ended(start(subject)),
        start(subject).rounds == 1,
{
}

/// Taking in a directory document keeps the state sound.
pub proof fn lemma_record_directory_well_formed(
    s: Resolution,
    answer: Option<(Seq<Seq<char>>, Seq<Seq<char>>)>,
)
    requires
        well_formed(s),
        !(s.pending is Settled),
    ensures
        well_formed(record_directory(s, answer)),
{
    match answer {
        None => {},
        Some((pds, handles)) => {
            lemma_extend_new(s.found_pds, pds);
            lemma_extend_new(s.found_handles, handles);
            lemma_extend_new(s.handles, handles);
            let after = record_directory(s, answer);
            assert forall|handle: Seq<char>| after.found_handles.contains(handle) implies after
                .handles.contains(handle) by {
                assert(extend_new(s.found_handles, handles).contains(handle));
                if s.found_handles.contains(handle) {
                    assert(s.handles.contains(handle));
                }
                assert(extend_new(s.handles, handles).contains(handle));
            }
        },
    }
}

/// Taking in a DID that a handle named keeps the state sound.
pub proof fn lemma_record_did_well_formed(s: Resolution, lookup: Result<Seq<char>, ResolveError>)
    requires
        well_formed(s),
        !(s.pending is Settled),
    ensures
        well_formed(record_did(s, lookup)),
{
    match lookup {
        Ok(did) => {
            lemma_insert_new(s.dids, did);
            lemma_insert_new(s.found_dids, did);
            let after = record_did(s, lookup);
            assert forall|other: Seq<char>| after.found_dids.contains(other) implies after.dids
                .contains(other) by {
                assert(insert_new(s.found_dids, did).contains(other));
                if s.found_dids.contains(other) {
                    assert(s.dids.contains(other));
                }
                assert(insert_new(s.dids, did).contains(other));
            }
        },
        Err(_) => {},
    }
}

/// Beginning a round keeps the state sound.
pub proof fn lemma_next_round_well_formed(s: Resolution)
    requires
        well_formed(s),
        !(s.pending is Settled),
    ensures
        well_formed(next_round(s)),
{
}

/// Every step keeps the state sound.
pub proof fn lemma_step_well_formed(s: Resolution, event: Event)
    requires
        well_formed(s),
    ensures
        well_formed(step(s, event)),
{
    match (s.pending, event) {
        (Pending::Directory { did, then }, Event::Directory(answer)) => {
            lemma_record_directory_well_formed(s, answer);
            let recorded = record_directory(s, answer);
            match then {
                Some(h) => {
                    assert(well_formed(Resolution { pending: Pending::Handle { handle: h }, ..recorded }));
                },
                None => {
                    lemma_next_round_well_formed(recorded);
                },
            }
        },
        (Pending::Handle { handle }, Event::Handle { http, dns }) => {
            lemma_record_did_well_formed(s, http);
            lemma_record_did_well_formed(record_did(s, http), dns);
            lemma_next_round_well_formed(record_did(record_did(s, http), dns));
        },
        _ => {},
    }
}

/// Every answered lookup brings the end nearer: a resolution that has not
/// ended has strictly fewer lookups left after the sources answered.
pub proof fn lemma_step_spends_a_lookup(s: Resolution, sources: Sources)
    requires
        well_formed(s),
        !ended(s),
    ensures
        0 <= lookups_left(step(s, answer(s, sources))) < lookups_left(s),
{
    lemma_step_well_formed(s, answer(s, sources));
}

/// Running on keeps the state sound and spends the lookups that are left.
pub proof fn lemma_run_spends_lookups(s: Resolution, sources: Sources, lookups: nat)
    requires
        well_formed(s),
    ensures
        well_formed(run(s, sources, lookups)),
        ended(run(s, sources, lookups)) || lookups_left(run(s, sources, lookups)) <= lookups_left(s)
            - lookups,
    decreases lookups,
{
    if lookups > 0 {
        let next = step(s, answer(s, sources));
        lemma_step_well_formed(s, answer(s, sources));
        if !ended(s) {
            lemma_step_spends_a_lookup(s, sources);
        }
        lemma_run_spends_lookups(next, sources, (lookups - 1) as nat);
    }
}

/// Whatever the subject and whatever the sources say, a resolution ends
/// within nineteen lookups and within ten rounds: it settles or it fails.
pub proof fn lemma_resolution_ends(subject: Seq<char>, sources: Sources)
    ensures
        ended(run(start(subject), sources, 19)),
        run(start(subject), sources, 19).rounds <= max_rounds(),
{
    lemma_start_well_formed(subject);
    lemma_run_spends_lookups(start(subject), sources, 19);
}

/// A settled resolver has looked up every DID and every handle that was
/// queued, and among them every DID and every handle that was found:
/// nothing that any source named was left unchecked.
pub proof fn lemma_settled_is_a_fixpoint(s: Resolution)
    requires
        well_formed(s),
        s.pending is Settled,
    ensures
        s.dids.take(s.dids_done as int) == s.dids,
        s.handles.take(s.handles_done as int) == s.handles,
        forall|did: Seq<char>| s.found_dids.contains(did) ==> s.dids.contains(did),
        forall|handle: Seq<char>| s.found_handles.contains(handle) ==> s.handles.contains(handle),
{
    assert(s.dids.take(s.dids_done as int) =~= s.dids);
    assert(s.handles.take(s.handles_done as int) =~= s.handles);
}

/// A resolution that ended well found exactly one DID and exactly one data
/// server, which it names, and at least one handle.
pub proof fn lemma_identity_is_single(s: Resolution, identity: Identity)
    requires
        outcome(s) == Ok::<Identity, ResolveError>(identity),
    ensures
        s.found_dids == seq![identity.did],
        s.found_pds == seq![identity.pds],
        identity.handles == s.found_handles,
        identity.handles.len() >= 1,
{
    assert(s.found_dids =~= seq![identity.did]);
    assert(s.found_pds =~= seq![identity.pds]);
}

/// Where a handle and a DID list each other, with one data server, the
/// resolution of either of them settles after two lookups, in its third
/// round, on that DID, that data server and that handle.
pub proof fn lemma_mutual_listing_resolves(
    subject: Seq<char>,
    handle: Seq<char>,
    did: Seq<char>,
    pds: Seq<char>,
    sources: Sources,
)
    requires
        subject == handle || subject == did,
        !starts_with(handle, "did:"@),
        starts_with(did, "did:"@),
        (sources.directory)(did) == Some((seq![pds], seq![handle])),
        (sources.http)(handle) == Ok::<Seq<char>, ResolveError>(did) || (sources.dns)(handle)
            == Ok::<Seq<char>, ResolveError>(did),
        (sources.http)(handle) is Ok ==> (sources.http)(handle) == Ok::<Seq<char>, ResolveError>(
            did,
        ),
        (sources.dns)(handle) is Ok ==> (sources.dns)(handle) == Ok::<Seq<char>, ResolveError>(did),
        (sources.dns)(handle) != Err::<Seq<char>, ResolveError>(ResolveError::AmbiguousHandle),
    ensures
        action_of(run(start(subject), sources, 2)) == Action::Done(
            Ok(Identity { did, pds, handles: seq![handle] }),
        ),
        run(start(subject), sources, 2).rounds == 3,
{
    let s0 = start(subject);
    let s1 = step(s0, answer(s0, sources));
    let s2 = step(s1, answer(s1, sources));
    assert(run(s0, sources, 2) == s2) by {
        assert(run(s2, sources, 0) == s2);
        assert(run(s1, sources, 1) == run(s2, sources, 0));
        assert(run(s0, sources, 2) == run(s1, sources, 1));
    }
    let none = Seq::<Seq<char>>::empty();
    lemma_extend_new_one(none, pds);
    lemma_extend_new_one(none, handle);
    lemma_extend_new_one(seq![handle], handle);
    assert(seq![handle].contains(handle)) by {
        assert(seq![handle][0] == handle);
    }
    assert(seq![did].contains(did)) by {
        assert(seq![did][0] == did);
    }
    assert(none.push(did) =~= seq![did]);
    assert(none.push(pds) =~= seq![pds]);
    assert(none.push(handle) =~= seq![handle]);
    if subject == handle {
        assert(s0.pending == Pending::Handle { handle });
        let found = record_did(record_did(s0, (sources.http)(handle)), (sources.dns)(handle));
        assert(found.dids == seq![did]);
        assert(found.found_dids == seq![did]);
        assert(s1 == next_round(found));
        assert(s1.pending == Pending::Directory { did, then: None });
        assert(s2.found_pds == seq![pds]);
        assert(s2.found_handles == seq![handle]);
        assert(s2.found_dids == seq![did]);
        assert(s2.pending is Settled);
    } else {
        assert(s0.pending == Pending::Directory { did, then: None });
        let listed = record_directory(s0, (sources.directory)(did));
        assert(listed.handles == seq![handle]);
        assert(s1 == next_round(listed));
        assert(s1.pending == Pending::Handle { handle });
        let found = record_did(record_did(s1, (sources.http)(handle)), (sources.dns)(handle));
        assert(found.dids == seq![did]);
        assert(found.found_dids == seq![did]);
        assert(s2 == next_round(found));
        assert(s2.found_pds == seq![pds]);
        assert(s2.found_handles == seq![handle]);
        assert(s2.pending is Settled);
    }
    assert(outcome(s2) == Ok::<Identity, ResolveError>(Identity { did, pds, handles: seq![handle] }));
}

/// Where the HTTPS document and the DNS records of a handle name two
/// different DIDs, both are found.
pub proof fn lemma_disagreement_is_found(s: Resolution, a: Seq<char>, b: Seq<char>)
    requires
        s.pending is Handle,
        a != b,
    ensures
        step(s, Event::Handle { http: Ok(a), dns: Ok(b) }).found_dids.len() >= 2,
{
    let first = insert_new(s.found_dids, a);
    let second = insert_new(first, b);
    lemma_insert_new(s.found_dids, a);
    lemma_insert_new(first, b);
    assert(first.contains(a));
    assert(insert_new(first, b).contains(a));
    assert(second.contains(b));
    let i = choose|i: int| 0 <= i < second.len() && second[i] == a;
    let j = choose|j: int| 0 <= j < second.len() && second[j] == b;
    assert(i != j);
}

/// No step forgets a DID that was found.
pub proof fn lemma_found_dids_stay(s: Resolution, event: Event)
    ensures
        step(s, event).found_dids.len() >= s.found_dids.len(),
{
    match (s.pending, event) {
        (Pending::Handle { handle }, Event::Handle { http, dns }) => {
            let first = record_did(s, http);
            match http {
                Ok(did) => {
                    lemma_insert_new(s.found_dids, did);
                },
                Err(_) => {},
            }
            match dns {
                Ok(did) => {
                    lemma_insert_new(first.found_dids, did);
                },
                Err(_) => {},
            }
        },
        _ => {},
    }
}

/// Once two DIDs are found, no later state of the resolution ends with an
/// identity, whatever the sources say: where it settles, it fails with
/// `MultipleDids`.
pub proof fn lemma_disagreement_is_fatal(s: Resolution, sources: Sources, lookups: nat)
    requires
        s.found_dids.len() >= 2,
    ensures
        run(s, sources, lookups).found_dids.len() >= 2,
        !(action_of(run(s, sources, lookups)) matches Action::Done(Ok(_))),
        run(s, sources, lookups).pending is Settled ==> action_of(run(s, sources, lookups))
            == Action::Done(Err(ResolveError::MultipleDids)),
    decreases lookups,
{
    if lookups > 0 {
        lemma_found_dids_stay(s, answer(s, sources));
        lemma_disagreement_is_fatal(step(s, answer(s, sources)), sources, (lookups - 1) as nat);
    }
}

/// DNS records that name several DIDs fail the resolution at once.
pub proof fn lemma_ambiguity_is_fatal(s: Resolution, http: Result<Seq<char>, ResolveError>)
    requires
        s.pending is Handle,
    ensures
        action_of(step(s, Event::Handle { http, dns: Err(ResolveError::AmbiguousHandle) }))
            == Action::Done(Err(ResolveError::AmbiguousHandle)),
{
}

/// What came back from a lookup.
#[derive(Debug, PartialEq, Eq)]
pub enum ResolveEvent {
    /// The directory's document for the DID asked about, as the data
    /// servers and handles that `plc_query` reads from it, or `None` where
    /// the query failed.
    Directory(Option<(Vec<String>, Vec<String>)>),
    /// What the HTTPS document and the DNS records of the handle asked
    /// about each came to.
    Handle { http: Result<String, ResolveError>, dns: Result<String, ResolveError> },
}

impl View for ResolveEvent {
    type V = Event;

    open spec fn view(&self) -> Event {
        match *self {
            ResolveEvent::Directory(None) => Event::Directory(None),
            ResolveEvent::Directory(Some(answer)) => Event::Directory(
                Some((texts(answer.0@), texts(answer.1@))),
            ),
            ResolveEvent::Handle { http, dns } => Event::Handle {
                http: lookup_view(http),
                dns: lookup_view(dns),
            },
        }
    }
}

/// What the resolver asks for next.
#[derive(Debug, PartialEq, Eq)]
pub enum ResolveAction {
    /// Fetch the directory's document for `did`.
    QueryDirectory { did: String },
    /// Fetch the HTTPS document and the DNS records of `handle`.
    VerifyHandle { handle: String },
    /// Nothing more: the resolution has ended, with an identity or an error.
    Done(Result<ResolvedHandle, ResolveError>),
}

impl View for ResolveAction {
    type V = Action;

    open spec fn view(&self) -> Action {
        match *self {
            ResolveAction::QueryDirectory { did } => Action::QueryDirectory { did: did@ },
            ResolveAction::VerifyHandle { handle } => Action::VerifyHandle { handle: handle@ },
            ResolveAction::Done(Ok(identity)) => Action::Done(Ok(identity@)),
            ResolveAction::Done(Err(e)) => Action::Done(Err(e)),
        }
    }
}

enum Waiting {
    Directory { did: String, then: Option<String> },
    Handle { handle: String },
    Settled,
    Failed(ResolveError),
}

/// The state of one resolution.
pub struct Resolver {
    dids: Vec<String>,
    dids_done: usize,
    handles: Vec<String>,
    handles_done: usize,
    found_dids: Vec<String>,
    found_handles: Vec<String>,
    found_pds: Vec<String>,
    rounds: u8,
    waiting: Waiting,
}

impl View for Waiting {
    type V = Pending;

    closed spec fn view(&self) -> Pending {
        match *self {
            Waiting::Directory { did, then } => Pending::Directory {
                did: did@,
                then: match then {
                    Some(h) => Some(h@),
                    None => None,
                },
            },
            Waiting::Handle { handle } => Pending::Handle { handle: handle@ },
            Waiting::Settled => Pending::Settled,
            Waiting::Failed(e) => Pending::Failed(e),
        }
    }
}

impl View for Resolver {
    type V = Resolution;

    closed spec fn view(&self) -> Resolution {
        Resolution {
            dids: texts(self.dids@),
            dids_done: self.dids_done as nat,
            handles: texts(self.handles@),
            handles_done: self.handles_done as nat,
            found_dids: texts(self.found_dids@),
            found_handles: texts(self.found_handles@),
            found_pds: texts(self.found_pds@),
            rounds: self.rounds as nat,
            pending: self.waiting@,
        }
    }
}

fn holds(list: &Vec<String>, item: &String) -> (out: bool)
    ensures
        out == texts(list@).contains(item@),
{
    let mut i: usize = 0;
    while i < list.len()
        invariant
            i <= list.len(),
            forall|k: int| 0 <= k < i ==> texts(list@)[k] != item@,
        decreases list.len() - i,
    {
        if list[i] == *item {
            assert(texts(list@)[i as int] == item@);
            return true;
        }
        i += 1;
    }
    false
}

fn insert_unique(list: &mut Vec<String>, item: String)
    ensures
        texts(final(list)@) == insert_new(texts(old(list)@), item@),
{
    if !holds(list, &item) {
        list.push(item);
        assert(texts(list@) =~= texts(old(list)@).push(item@));
    }
}

fn extend_unique(list: &mut Vec<String>, items: &Vec<String>)
    ensures
        texts(final(list)@) == extend_new(texts(old(list)@), texts(items@)),
{
    let ghost all = texts(items@);
    let mut i: usize = 0;
    assert(all.skip(0) =~= all);
    while i < items.len()
        invariant
            i <= items.len(),
            all == texts(items@),
            extend_new(texts(old(list)@), all) == extend_new(texts(list@), all.skip(i as int)),
        decreases items.len() - i,
    {
        assert(all.skip(i as int)[0] == items@[i as int]@);
        assert(all.skip(i as int).drop_first() =~= all.skip(i + 1));
        insert_unique(list, items[i].clone());
        i += 1;
    }
}

/// The handle to check after the directory's answer, where the resolver
/// waits for such an answer.
fn then_handle(waiting: &Waiting) -> (out: Option<Option<String>>)
    ensures
        match out {
            Some(then) => waiting@ matches Pending::Directory { did, then: expected } && expected
                == match then {
                Some(h) => Some(h@),
                None => None,
            },
            None => !(waiting@ is Directory),
        },
{
    match waiting {
        Waiting::Directory { did, then: Some(h) } => Some(Some(h.clone())),
        Waiting::Directory { did, then: None } => Some(None),
        _ => None,
    }
}

fn awaits_handle(waiting: &Waiting) -> (out: bool)
    ensures
        out == waiting@ is Handle,
{
    match waiting {
        Waiting::Handle { handle } => true,
        _ => false,
    }
}

fn is_ambiguous(lookup: &Result<String, ResolveError>) -> (out: bool)
    ensures
        out == (lookup_view(*lookup) == Err::<Seq<char>, ResolveError>(
            ResolveError::AmbiguousHandle,
        )),
{
    match lookup {
        Err(ResolveError::AmbiguousHandle) => true,
        _ => false,
    }
}

fn record_lookup(r: &mut Resolver, lookup: Result<String, ResolveError>)
    ensures
        final(r)@ == record_did(old(r)@, lookup_view(lookup)),
{
    match lookup {
        Ok(did) => {
            insert_unique(&mut r.dids, did.clone());
            insert_unique(&mut r.found_dids, did);
        },
        Err(_) => {},
    }
}

fn begin_round(r: Resolver) -> (out: Resolver)
    ensures
        out@ == next_round(r@),
{
    let mut r = r;
    if r.rounds >= 10 {
        r.waiting = Waiting::Failed(ResolveError::ResolutionDepthExceeded);
        return r;
    }
    let did: Option<String> = if r.dids_done < r.dids.len() {
        Some(r.dids[r.dids_done].clone())
    } else {
        None
    };
    let handle: Option<String> = if r.handles_done < r.handles.len() {
        Some(r.handles[r.handles_done].clone())
    } else {
        None
    };
    if did.is_some() {
        r.dids_done = r.dids_done + 1;
    }
    if handle.is_some() {
        r.handles_done = r.handles_done + 1;
    }
    r.rounds = r.rounds + 1;
    r.waiting = match did {
        Some(d) => Waiting::Directory { did: d, then: handle },
        None => match handle {
            Some(h) => Waiting::Handle { handle: h },
            None => Waiting::Settled,
        },
    };
    r
}

fn conclude(r: &Resolver) -> (out: Result<ResolvedHandle, ResolveError>)
    ensures
        match out {
            Ok(identity) => outcome(r@) == Ok::<Identity, ResolveError>(identity@),
            Err(e) => outcome(r@) == Err::<Identity, ResolveError>(e),
        },
{
    if r.found_dids.len() > 1 {
        Err(ResolveError::MultipleDids)
    } else if r.found_handles.len() == 0 {
        Err(ResolveError::NoHandlesFound)
    } else if r.found_pds.len() > 1 {
        Err(ResolveError::MultiplePds)
    } else if r.found_dids.len() == 0 {
        Err(ResolveError::NoDidFound)
    } else if r.found_pds.len() == 0 {
        Err(ResolveError::NoPdsFound)
    } else {
        Ok(
            ResolvedHandle {
                did: r.found_dids[0].clone(),
                pds: r.found_pds[0].clone(),
                handles: r.found_handles.clone(),
            },
        )
    }
}

impl Resolver {
    /// Starts the resolution of `subject`, a DID where it starts with
    /// `did:` and a handle otherwise.
    pub fn new(subject: &str) -> (out: Resolver)
        ensures
            out@ == start(subject@),
            well_formed(out@),
    {
        proof {
            lemma_start_well_formed(subject@);
        }
        let mut seed = Resolver {
            dids: Vec::new(),
            dids_done: 0,
            handles: Vec::new(),
            handles_done: 0,
            found_dids: Vec::new(),
            found_handles: Vec::new(),
            found_pds: Vec::new(),
            rounds: 0,
            waiting: Waiting::Settled,
        };
        if has_prefix(&chars_of(subject), "did:") {
            seed.dids.push(subject.to_owned());
            assert(texts(seed.dids@) =~= seq![subject@]);
        } else {
            seed.handles.push(subject.to_owned());
            assert(texts(seed.handles@) =~= seq![subject@]);
        }
        assert(texts(seed.dids@) =~= seeded(subject@).dids);
        assert(texts(seed.handles@) =~= seeded(subject@).handles);
        assert(texts(seed.found_dids@) =~= seeded(subject@).found_dids);
        assert(texts(seed.found_handles@) =~= seeded(subject@).found_handles);
        assert(texts(seed.found_pds@) =~= seeded(subject@).found_pds);
        begin_round(seed)
    }

    /// What the resolver asks for: a lookup, or nothing more once the
    /// resolution has ended.
    pub fn action(&self) -> (out: ResolveAction)
        ensures
            out@ == action_of(self@),
    {
        match &self.waiting {
            Waiting::Directory { did, then } => ResolveAction::QueryDirectory { did: did.clone() },
            Waiting::Handle { handle } => ResolveAction::VerifyHandle { handle: handle.clone() },
            Waiting::Settled => ResolveAction::Done(conclude(self)),
            Waiting::Failed(e) => ResolveAction::Done(Err(*e)),
        }
    }
}

/// One step of a resolution: takes in what came back from the lookup that
/// the resolver asked for, and says what it asks for next.
///
/// An event that does not answer the pending lookup leaves the state as it
/// was, so the same lookup is asked for again.
pub fn resolve_handle(resolver: Resolver, event: ResolveEvent) -> (out: (Resolver, ResolveAction))
    ensures
        out.0@ == step(resolver@, event@),
        out.1@ == action_of(out.0@),
        well_formed(resolver@) ==> well_formed(out.0@),
{
    proof {
        if well_formed(resolver@) {
            lemma_step_well_formed(resolver@, event@);
        }
    }
    let mut r = resolver;
    let next = match event {
        ResolveEvent::Directory(answer) => match then_handle(&r.waiting) {
            None => r,
            Some(then) => {
                match answer {
                    None => {},
                    Some((pds, names)) => {
                        extend_unique(&mut r.found_pds, &pds);
                        extend_unique(&mut r.found_handles, &names);
                        extend_unique(&mut r.handles, &names);
                    },
                }
                match then {
                    Some(handle) => {
                        r.waiting = Waiting::Handle { handle };
                        r
                    },
                    None => begin_round(r),
                }
            },
        },
        ResolveEvent::Handle { http, dns } => if !awaits_handle(&r.waiting) {
            r
        } else if is_ambiguous(&dns) {
            r.waiting = Waiting::Failed(ResolveError::AmbiguousHandle);
            r
        } else {
            record_lookup(&mut r, http);
            record_lookup(&mut r, dns);
            begin_round(r)
        },
    };
    let action = next.action();
    (next, action)
}

/// The name whose TXT records prove a handle: `_atproto.` and the handle.
pub fn dns_name(handle: &str) -> (name: String)
    ensures
        name@ == "_atproto."@ + handle@,
{
    join("_atproto.", handle)
}

/// The URL of the document that proves a handle over HTTPS.
pub fn well_known_url(handle: &str) -> (url: String)
    ensures
        url@ == "https://"@ + handle@ + "/.well-known/atproto-did"@,
{
    let mut url = join("https://", handle);
    url.append("/.well-known/atproto-did");
    url
}

/// The DID that the TXT records of a handle name. Each record that starts
/// with `did=` names what follows; the rest are passed over.
pub fn resolve_handle_dns(records: &Vec<String>) -> (out: Result<String, ResolveError>)
    ensures
        dns_outcome(texts(records@), lookup_view(out)),
{
    let ghost all = texts(records@);
    let mut found: Option<String> = None;
    let mut i: usize = 0;
    while i < records.len()
        invariant
            i <= records.len(),
            all == texts(records@),
            match found {
                None => forall|k: int| 0 <= k < i ==> stripped(#[trigger] all[k], "did="@) is None,
                Some(did) => {
                    &&& names_did(all, did@)
                    &&& forall|k: int|
                        0 <= k < i ==> (stripped(#[trigger] all[k], "did="@) is None || stripped(
                            all[k],
                            "did="@,
                        ) == Some(did@))
                },
            },
        decreases records.len() - i,
    {
        assert(all[i as int] == records@[i as int]@);
        match strip_prefix(records[i].as_str(), "did=") {
            None => {},
            Some(did) => {
                match &found {
                    None => {
                        found = Some(did);
                    },
                    Some(first) => {
                        if *first != did {
                            assert(names_did(all, did@));
                            return Err(ResolveError::AmbiguousHandle);
                        }
                    },
                }
            },
        }
        i += 1;
    }
    match found {
        Some(did) => Ok(did),
        None => Err(ResolveError::NoDidRecord),
    }
}

/// The DID that the HTTPS document of a handle names: the whole body,
/// where it starts with `did:`.
pub fn resolve_handle_http(body: &str) -> (out: Result<String, ResolveError>)
    ensures
        lookup_view(out) == if starts_with(body@, "did:"@) {
            Ok::<Seq<char>, ResolveError>(body@)
        } else {
            Err(ResolveError::InvalidResponse)
        },
{
    let chars = chars_of(body);
    if has_prefix(&chars, "did:") {
        Ok(body.to_owned())
    } else {
        Err(ResolveError::InvalidResponse)
    }
}

} // verus!
