//! The PLC directory: where its documents live, what a DID's document says
//! of handles and data servers, which entry of an audit log is the chain's
//! tip, and whether a submission was accepted.

use vstd::prelude::*;
use crate::text::{same_text, texts, trim_prefix, without_prefix};

verus! {

/// One service of a DID's document.
#[derive(Debug, Clone, PartialEq, Eq)]
pub struct PlcService {
    /// The service's type.
    pub service_type: String,
    /// The URL at which the service is reached.
    pub service_endpoint: String,
}

/// What the directory says of a DID: its handles and its services.
#[derive(Debug, Clone, PartialEq, Eq)]
pub struct ResolveDid {
    /// The names the DID is also known as, most of them `at://` handles.
    pub also_known_as: Vec<String>,
    /// The DID's services.
    pub service: Vec<PlcService>,
}

/// A point in time: whole seconds since the Unix epoch, and the nanoseconds
/// within the second.
#[derive(Debug, Clone, Copy, PartialEq, Eq, Structural)]
pub struct Timestamp {
    pub seconds: i64,
    pub nanos: u32,
}

/// One entry of a DID's audit log.
#[derive(Debug, Clone, PartialEq, Eq)]
pub struct AuditEntry {
    /// The operation, as JSON text.
    pub operation: String,
    /// The content identifier of the operation.
    pub cid: String,
    /// When the directory took the operation in.
    pub created_at: Timestamp,
}

/// The ways in which work with the directory fails.
#[derive(Debug, Clone, Copy, PartialEq, Eq, Structural)]
pub enum PlcError {
    /// The audit log is empty.
    NoOperationsFound,
    /// The directory refused a submission, as it does when the operation's
    /// `prev` no longer names the chain's tip; `status` is the HTTP status
    /// of its answer.
    ChainConflict { status: u16 },
}

/// `a` is strictly before `b`.
pub open spec fn before(a: Timestamp, b: Timestamp) -> bool {
    a.seconds < b.seconds || (a.seconds == b.seconds && a.nanos < b.nanos)
}

/// Entry `index` is the tip of the chain: no entry was created after it,
/// and every entry that follows it in the log was created before it. So of
/// several entries created last at the same instant, the tip is the one
/// that stands last in the log.
pub open spec fn is_tip(log: Seq<AuditEntry>, index: int) -> bool {
    &&& 0 <= index < log.len()
    &&& forall|j: int|
        0 <= j < log.len() ==> !before(log[index].created_at, (#[trigger] log[j]).created_at)
    &&& forall|j: int|
        index < j < log.len() ==> before((#[trigger] log[j]).created_at, log[index].created_at)
}

/// The position of the tip in a log that is not empty.
pub open spec fn tip_index(log: Seq<AuditEntry>) -> int {
    choose|index: int| is_tip(log, index)
}

/// The service type of a personal data server.
pub open spec fn pds_service_type() -> Seq<char> {
    "AtprotoPersonalDataServer"@
}

/// The endpoints of the services that are personal data servers, in the
/// order of the document.
pub open spec fn pds_endpoints(services: Seq<PlcService>) -> Seq<Seq<char>>
    decreases services.len(),
{
    if services.len() == 0 {
        Seq::empty()
    } else {
        let before = pds_endpoints(services.drop_last());
        if services.last().service_type@ == pds_service_type() {
            before.push(services.last().service_endpoint@)
        } else {
            before
        }
    }
}

/// The handles of a document: each name without its leading `at://`.
pub open spec fn handles_of(names: Seq<String>) -> Seq<Seq<char>> {
    Seq::new(names.len(), |i: int| without_prefix(names[i]@, "at://"@))
}

/// A log has at most one tip.
pub proof fn lemma_tip_is_unique(log: Seq<AuditEntry>, a: int, b: int)
    requires
        is_tip(log, a),
        is_tip(log, b),
    ensures
        a == b,
{
    if a < b {
        assert(before(log[b].created_at, log[a].created_at));
        assert(!before(log[b].created_at, log[a].created_at));
    } else if b < a {
        assert(before(log[a].created_at, log[b].created_at));
        assert(!before(log[a].created_at, log[b].created_at));
    }
}

/// The tip was created no earlier than any entry of the log: it holds the
/// greatest creation time.
pub proof fn lemma_tip_is_latest(log: Seq<AuditEntry>, j: int)
    requires
        0 <= j < log.len(),
        exists|index: int| is_tip(log, index),
    ensures
        0 <= tip_index(log) < log.len(),
        !before(log[tip_index(log)].created_at, log[j].created_at),
{
}

/// Where creation times never decrease along the log, as in a log that is
/// only ever appended to, the tip is the last entry: picking the latest
/// entry and picking the last entry then agree.
pub proof fn lemma_tip_of_ordered_log(log: Seq<AuditEntry>)
    requires
        log.len() > 0,
        forall|i: int, j: int|
            0 <= i <= j < log.len() ==> !before(
                (#[trigger] log[j]).created_at,
                (#[trigger] log[i]).created_at,
            ),
    ensures
        is_tip(log, log.len() - 1),
        tip_index(log) == log.len() - 1,
{
    assert(is_tip(log, log.len() - 1));
    lemma_tip_is_unique(log, log.len() - 1, tip_index(log));
}

fn is_before(a: &Timestamp, b: &Timestamp) -> (out: bool)
    ensures
        out == before(*a, *b),
{
    a.seconds < b.seconds || (a.seconds == b.seconds && a.nanos < b.nanos)
}

/// The URL of a DID's document in the directory at `plc_hostname`.
pub fn document_url(plc_hostname: &str, did: &str) -> (url: String)
    ensures
        url@ == "https://"@ + plc_hostname@ + "/"@ + did@,
{
    let mut url = "https://".to_owned();
    url.append(plc_hostname);
    url.append("/");
    url.append(did);
    url
}

/// The URL of a DID's document data, the view that patches start from.
pub fn data_url(plc_hostname: &str, did: &str) -> (url: String)
    ensures
        url@ == "https://"@ + plc_hostname@ + "/"@ + did@ + "/data"@,
{
    let mut url = document_url(plc_hostname, did);
    url.append("/data");
    url
}

/// The URL of a DID's audit log.
pub fn audit_log_url(plc_hostname: &str, did: &str) -> (url: String)
    ensures
        url@ == "https://"@ + plc_hostname@ + "/"@ + did@ + "/log/audit"@,
{
    let mut url = document_url(plc_hostname, did);
    url.append("/log/audit");
    url
}

/// What a DID's document says: the endpoints of its personal data servers
/// and its handles, each list in the order of the document.
pub fn plc_query(document: &ResolveDid) -> (out: (Vec<String>, Vec<String>))
    ensures
        texts(out.0@) == pds_endpoints(document.service@),
        texts(out.1@) == handles_of(document.also_known_as@),
{
    let mut handles: Vec<String> = Vec::new();
    let mut i: usize = 0;
    while i < document.also_known_as.len()
        invariant
            i <= document.also_known_as.len(),
            handles@.len() == i,
            forall|k: int| 0 <= k < i ==> handles@[k]@ == without_prefix(
                #[trigger] document.also_known_as@[k]@,
                "at://"@,
            ),
        decreases document.also_known_as.len() - i,
    {
        handles.push(trim_prefix(document.also_known_as[i].as_str(), "at://"));
        i += 1;
    }
    assert(texts(handles@) =~= handles_of(document.also_known_as@));

    let mut pds: Vec<String> = Vec::new();
    let mut j: usize = 0;
    assert(document.service@.take(0) =~= Seq::<PlcService>::empty());
    while j < document.service.len()
        invariant
            j <= document.service.len(),
            texts(pds@) == pds_endpoints(document.service@.take(j as int)),
        decreases document.service.len() - j,
    {
        let ghost upto = document.service@.take(j + 1);
        assert(upto.drop_last() =~= document.service@.take(j as int));
        assert(upto.last() == document.service@[j as int]);
        let service = &document.service[j];
        if same_text(service.service_type.as_str(), "AtprotoPersonalDataServer") {
            let ghost old_pds = pds@;
            pds.push(service.service_endpoint.clone());
            assert(texts(pds@) =~= texts(old_pds).push(service.service_endpoint@));
        }
        j += 1;
    }
    assert(document.service@.take(document.service.len() as int) =~= document.service@);
    (pds, handles)
}

/// The position of the chain's tip in `log`: the entry with the greatest
/// creation time, the last of them where several share it. `None` exactly
/// where the log is empty.
pub fn latest_entry(log: &Vec<AuditEntry>) -> (out: Option<usize>)
    ensures
        out is None <==> log.len() == 0,
        out matches Some(index) ==> is_tip(log@, index as int) && index == tip_index(log@),
{
    if log.len() == 0 {
        return None;
    }
    let mut best: usize = 0;
    let mut i: usize = 1;
    while i < log.len()
        invariant
            0 <= best < i <= log.len(),
            forall|j: int|
                0 <= j < i ==> !before(log@[best as int].created_at, (#[trigger] log@[j]).created_at),
            forall|j: int|
                best < j < i ==> before((#[trigger] log@[j]).created_at, log@[best as int].created_at),
        decreases log.len() - i,
    {
        if !is_before(&log[i].created_at, &log[best].created_at) {
            best = i;
        }
        i += 1;
    }
    proof {
        assert(is_tip(log@, best as int));
        lemma_tip_is_unique(log@, best as int, tip_index(log@));
    }
    Some(best)
}

/// The content identifier and the operation of the chain's tip.
pub fn did_plc_last_operation(log: &Vec<AuditEntry>) -> (out: Result<(String, String), PlcError>)
    ensures
        out is Err <==> log.len() == 0,
        out matches Err(e) ==> e == PlcError::NoOperationsFound,
        out matches Ok(pair) ==> {
            &&& is_tip(log@, tip_index(log@))
            &&& pair.0@ == log@[tip_index(log@)].cid@
            &&& pair.1@ == log@[tip_index(log@)].operation@
        },
{
    match latest_entry(log) {
        None => Err(PlcError::NoOperationsFound),
        Some(index) => Ok((log[index].cid.clone(), log[index].operation.clone())),
    }
}

/// Whether the directory accepted a submission, by the status of its
/// answer: accepted exactly for 200 to 299.
pub fn submit_operation(status: u16) -> (out: Result<(), PlcError>)
    ensures
        out == if 200 <= status <= 299 {
            Ok::<(), PlcError>(())
        } else {
            Err(PlcError::ChainConflict { status })
        },
{
    if 200 <= status && status <= 299 {
        Ok(())
    } else {
        Err(PlcError::ChainConflict { status })
    }
}

} // verus!
