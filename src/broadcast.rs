use vstd::prelude::*;
use crate::error::Error;
use crate::models::{Proxy, SuccessResponse, status_text, success_response};

verus! {

/// The HTTP verb of an outbound call.
#[derive(Debug, Clone, Copy, PartialEq, Eq)]
pub enum Method {
    Get,
    Post,
    Delete,
}

/// How the outcomes of one broadcast are folded into one result.
#[derive(Debug, Clone, Copy, PartialEq, Eq)]
pub enum Policy {
    /// Wait for every call and succeed whatever the calls gave.
    BestEffort,
    /// Fail with the first failure to complete, if there is one.
    FailFast,
}

/// The operations that are broadcast to every peer.
#[derive(Debug, Clone, Copy, PartialEq, Eq)]
pub enum SyncKind {
    SetOne,
    SetMulti,
    Delete,
    Health,
}

/// What one outbound call came to.
#[derive(Debug, Clone, PartialEq, Eq)]
pub enum Outcome {
    /// A response came back; its status is not looked at.
    Delivered,
    /// The transport failed; the text of its error.
    Failed(String),
}

/// One broadcast unit: verb, path suffix and, but for a health check, the
/// JSON body as text.
#[derive(Debug, Clone, PartialEq, Eq)]
pub struct SyncOperation {
    pub method: Method,
    pub path: String,
    pub body: Option<String>,
}

/// One call to one peer.
#[derive(Debug, Clone, PartialEq, Eq)]
pub struct OutboundCall {
    pub method: Method,
    pub url: String,
    pub body: Option<String>,
}

pub open spec fn kind_method(k: SyncKind) -> Method {
    match k {
        SyncKind::SetOne => Method::Post,
        SyncKind::SetMulti => Method::Post,
        SyncKind::Delete => Method::Delete,
        SyncKind::Health => Method::Get,
    }
}

pub open spec fn kind_path(k: SyncKind) -> Seq<char> {
    match k {
        SyncKind::SetOne => "/proxy-sync/v1"@,
        SyncKind::SetMulti => "/proxy-sync/v1/multi"@,
        SyncKind::Delete => "/proxy-sync/v1"@,
        SyncKind::Health => "/health"@,
    }
}

pub open spec fn kind_policy(k: SyncKind) -> Policy {
    match k {
        SyncKind::Health => Policy::FailFast,
        _ => Policy::BestEffort,
    }
}

pub open spec fn kind_message(k: SyncKind) -> Seq<char> {
    match k {
        SyncKind::SetOne => "Set data to all proxies successfully"@,
        SyncKind::SetMulti => "Set multi data to all proxies successfully"@,
        SyncKind::Delete => "Delete data from all proxies successfully"@,
        SyncKind::Health => "All proxies functional"@,
    }
}

/// The text of the first failure in `s` at or after position `i`.
pub open spec fn first_failure_from(s: Seq<Outcome>, i: int) -> Option<String>
    decreases s.len() - i,
{
    if i < 0 || i >= s.len() {
        None
    } else {
        match s[i] {
            Outcome::Failed(e) => Some(e),
            Outcome::Delivered => first_failure_from(s, i + 1),
        }
    }
}

/// The result of a broadcast whose calls completed with `s`, in the order
/// they completed.
pub open spec fn aggregate_result(policy: Policy, s: Seq<Outcome>) -> Result<(), Error> {
    match policy {
        Policy::BestEffort => Ok(()),
        Policy::FailFast => match first_failure_from(s, 0) {
            None => Ok(()),
            Some(e) => Err(Error::CannotReachProxies(e)),
        },
    }
}

proof fn lemma_failure_found_from(s: Seq<Outcome>, i: int, k: int)
    requires
        0 <= i <= k < s.len(),
        s[k] is Failed,
    ensures
        first_failure_from(s, i) is Some,
    decreases k - i,
{
    if i < k {
        lemma_failure_found_from(s, i + 1, k);
    }
}

proof fn lemma_no_failure_from(s: Seq<Outcome>, i: int)
    requires
        0 <= i <= s.len(),
        forall|j: int| 0 <= j < s.len() ==> #[trigger] s[j] is Delivered,
    ensures
        first_failure_from(s, i) is None,
    decreases s.len() - i,
{
    if i < s.len() {
        lemma_no_failure_from(s, i + 1);
    }
}

/// A best-effort broadcast succeeds whichever of its calls failed.
pub proof fn lemma_best_effort_never_fails(s: Seq<Outcome>)
    ensures
        aggregate_result(Policy::BestEffort, s) == Ok::<(), Error>(()),
{
}

/// A fail-fast broadcast in which some call failed fails, reporting an
/// unreachable peer.
pub proof fn lemma_fail_fast_reports_unreachable(s: Seq<Outcome>, k: int)
    requires
        0 <= k < s.len(),
        s[k] is Failed,
    ensures
        aggregate_result(Policy::FailFast, s) is Err,
        aggregate_result(Policy::FailFast, s)->Err_0 is CannotReachProxies,
{
    lemma_failure_found_from(s, 0, k);
}

/// A fail-fast broadcast in which every call was answered succeeds.
pub proof fn lemma_fail_fast_all_answered(s: Seq<Outcome>)
    requires
        forall|j: int| 0 <= j < s.len() ==> #[trigger] s[j] is Delivered,
    ensures
        aggregate_result(Policy::FailFast, s) == Ok::<(), Error>(()),
{
    lemma_no_failure_from(s, 0);
}

/// With no peer there is no call, and a broadcast under either policy
/// succeeds.
pub proof fn lemma_empty_fleet_succeeds(policy: Policy)
    ensures
        aggregate_result(policy, Seq::<Outcome>::empty()) == Ok::<(), Error>(()),
{
}

impl SyncKind {
    pub fn method(&self) -> (r: Method)
        ensures
            r == kind_method(*self),
    {
        match self {
            SyncKind::SetOne => Method::Post,
            SyncKind::SetMulti => Method::Post,
            SyncKind::Delete => Method::Delete,
            SyncKind::Health => Method::Get,
        }
    }

    /// The suffix appended to a peer's url.
    pub fn path(&self) -> (r: String)
        ensures
            r@ == kind_path(*self),
    {
        match self {
            SyncKind::SetOne => String::from_str("/proxy-sync/v1"),
            SyncKind::SetMulti => String::from_str("/proxy-sync/v1/multi"),
            SyncKind::Delete => String::from_str("/proxy-sync/v1"),
            SyncKind::Health => String::from_str("/health"),
        }
    }

    /// Health checks fail fast; writes are best effort.
    pub fn policy(&self) -> (r: Policy)
        ensures
            r == kind_policy(*self),
    {
        match self {
            SyncKind::Health => Policy::FailFast,
            _ => Policy::BestEffort,
        }
    }

    /// The message of the response once the broadcast succeeded.
    pub fn success_message(&self) -> (r: String)
        ensures
            r@ == kind_message(*self),
    {
        match self {
            SyncKind::SetOne => String::from_str("Set data to all proxies successfully"),
            SyncKind::SetMulti => String::from_str("Set multi data to all proxies successfully"),
            SyncKind::Delete => String::from_str("Delete data from all proxies successfully"),
            SyncKind::Health => String::from_str("All proxies functional"),
        }
    }
}

impl SyncOperation {
    /// The operation of `kind`; a health check carries no body whatever
    /// `body` is.
    pub fn new(kind: SyncKind, body: Option<String>) -> (r: SyncOperation)
        ensures
            r.method == kind_method(kind),
            r.path@ == kind_path(kind),
            kind is Health ==> r.body is None,
            !(kind is Health) ==> r.body == body,
    {
        let b = match kind {
            SyncKind::Health => None,
            _ => body,
        };
        SyncOperation { method: kind.method(), path: kind.path(), body: b }
    }

    /// Sets one key on every peer.
    pub fn set_one(body: String) -> (r: SyncOperation)
        ensures
            r.method == Method::Post,
            r.path@ == "/proxy-sync/v1"@,
            r.body == Some(body),
    {
        SyncOperation::new(SyncKind::SetOne, Some(body))
    }

    /// Sets several keys on every peer.
    pub fn set_multi(body: String) -> (r: SyncOperation)
        ensures
            r.method == Method::Post,
            r.path@ == "/proxy-sync/v1/multi"@,
            r.body == Some(body),
    {
        SyncOperation::new(SyncKind::SetMulti, Some(body))
    }

    /// Deletes one key on every peer.
    pub fn delete(body: String) -> (r: SyncOperation)
        ensures
            r.method == Method::Delete,
            r.path@ == "/proxy-sync/v1"@,
            r.body == Some(body),
    {
        SyncOperation::new(SyncKind::Delete, Some(body))
    }

    /// Probes every peer's health endpoint.
    pub fn health() -> (r: SyncOperation)
        ensures
            r.method == Method::Get,
            r.path@ == "/health"@,
            r.body is None,
    {
        SyncOperation::new(SyncKind::Health, None)
    }
}

/// One outbound call per peer, in the order of `peers`: the peer's url with
/// the operation's path appended, the operation's verb and its body.
pub fn plan_broadcast(peers: &Vec<Proxy>, op: &SyncOperation) -> (r: Vec<OutboundCall>)
    ensures
        r.len() == peers.len(),
        forall|i: int|
            0 <= i < r.len() ==> {
                &&& (#[trigger] r[i]).method == op.method
                &&& r[i].url@ == peers[i].url@ + op.path@
                &&& r[i].body == op.body
            },
{
    let mut r: Vec<OutboundCall> = Vec::new();
    let mut i: usize = 0;
    while i < peers.len()
        invariant
            i <= peers.len(),
            r.len() == i,
            forall|j: int|
                0 <= j < i ==> {
                    &&& (#[trigger] r[j]).method == op.method
                    &&& r[j].url@ == peers[j].url@ + op.path@
                    &&& r[j].body == op.body
                },
        decreases peers.len() - i,
    {
        let mut url = peers[i].url.clone();
        url.append(op.path.as_str());
        let body = match &op.body {
            Some(b) => Some(b.clone()),
            None => None,
        };
        r.push(OutboundCall { method: op.method, url, body });
        i = i + 1;
    }
    r
}

/// Folds the outcomes of one broadcast, given in the order the calls
/// completed: best effort always succeeds; fail fast fails with the first
/// failure, as `CannotReachProxies`, and succeeds when there is none.
pub fn aggregate(policy: Policy, outcomes: &Vec<Outcome>) -> (r: Result<(), Error>)
    ensures
        r == aggregate_result(policy, outcomes@),
{
    match policy {
        Policy::BestEffort => Ok(()),
        Policy::FailFast => {
            let mut i: usize = 0;
            while i < outcomes.len()
                invariant
                    i <= outcomes.len(),
                    policy == Policy::FailFast,
                    first_failure_from(outcomes@, 0) == first_failure_from(outcomes@, i as int),
                decreases outcomes.len() - i,
            {
                match &outcomes[i] {
                    Outcome::Failed(e) => {
                        assert(first_failure_from(outcomes@, i as int) == Some(*e));
                        return Err(Error::CannotReachProxies(e.clone()));
                    },
                    Outcome::Delivered => {},
                }
                i = i + 1;
            }
            Ok(())
        },
    }
}

/// The answer to a broadcast of `kind` whose calls completed with
/// `outcomes`: the success body with the kind's message, or the error of
/// the kind's policy.
pub fn broadcast_response(kind: SyncKind, outcomes: &Vec<Outcome>) -> (r: Result<
    SuccessResponse,
    Error,
>)
    ensures
        aggregate_result(kind_policy(kind), outcomes@) is Ok ==> r is Ok && r->Ok_0.code@
            == status_text(200) && r->Ok_0.message@ == kind_message(kind) && r->Ok_0.error@
            == Seq::<char>::empty(),
        aggregate_result(kind_policy(kind), outcomes@) is Err ==> r is Err && r->Err_0
            == aggregate_result(kind_policy(kind), outcomes@)->Err_0,
{
    match aggregate(kind.policy(), outcomes) {
        Ok(()) => {
            let message = kind.success_message();
            Ok(success_response(200, message.as_str()))
        },
        Err(e) => Err(e),
    }
}

} // verus!
