//! The service's three operations — submit a scan, read the configuration,
//! update the configuration — and the two result-delivery policies layered on
//! one result stream: a synchronous batch response, or an immediate
//! acknowledgment followed by a push per result to a webhook sink.
//!
//! Everything here decides; the HTTP transport, the engine driving the scan
//! and the webhook posts are outside concerns acting on these decisions.

use vstd::prelude::*;
use crate::auth::{opt_view, spec_authorized, validator};
use crate::config::{ObserverWardConfig, config_eq, clone_config, is_merged, merge};

verus! {

/// Opaque match payload the engine reports for one matched service.
#[derive(Debug, PartialEq, Eq)]
pub struct MatchedResult {
    /// What the engine recorded about the match.
    pub detail: String,
}

/// One unit of a scan's output stream: a target and what matched on it.
#[derive(Debug, PartialEq, Eq)]
pub struct ExecuteResult {
    /// The target this result is about.
    pub target: String,
    /// Matched-service name to match payload.
    pub matched: Vec<(String, MatchedResult)>,
}

/// What the scan endpoint does with a request.
pub enum ScanDecision {
    /// The credential did not pass the auth gate; the request is answered
    /// with an unauthorized status and goes no further.
    Unauthorized,
    /// Respond with an empty acknowledgment now and push each result of a
    /// scan under this merged configuration to its webhook sink.
    Webhook(ObserverWardConfig),
    /// Run a scan under this merged configuration to completion and respond
    /// with all results in one batch.
    Batch(ObserverWardConfig),
}

/// What the configuration-update endpoint does with a request.
pub enum ConfigDecision {
    /// The credential did not pass the auth gate; nothing is merged, nothing
    /// refreshed, nothing replaced.
    Unauthorized,
    /// Run the refresh operations this merged configuration asks for,
    /// recompute the cluster, replace it, and confirm with this
    /// configuration.
    Apply(ObserverWardConfig),
}

/// One observable step of result delivery.
#[derive(Debug, PartialEq, Eq)]
pub enum DeliveryEvent {
    /// The empty HTTP acknowledgment of a webhook-mode submission.
    Ack,
    /// One result's match mapping posted to the webhook sink.
    Push(Vec<(String, MatchedResult)>),
    /// The single HTTP response of a batch-mode submission.
    BatchResponse(Vec<Vec<(String, MatchedResult)>>),
}

/// What the webhook pump sees on the result stream.
pub enum StreamEvent {
    /// The engine completed one more result.
    Item(ExecuteResult),
    /// The producer closed the stream: the scan is over.
    Closed,
}

/// What the webhook pump does with one stream event.
#[derive(Debug, PartialEq, Eq)]
pub enum PumpAction {
    /// Post this match mapping to the webhook sink.
    Forward(Vec<(String, MatchedResult)>),
    /// The stream is over; stop pumping.
    Stop,
}

/// Scan submission: the auth gate decides first — an unauthorized request
/// never reaches the merge — then the merged configuration's webhook field
/// (the caller's, untouched by the merge) picks the delivery mode.
pub fn what_web_api(
    credential: &Option<String>,
    request: &ObserverWardConfig,
    server: &ObserverWardConfig,
) -> (d: ScanDecision)
    ensures
        !spec_authorized(opt_view(server.token), opt_view(*credential)) ==> d
            == ScanDecision::Unauthorized,
        spec_authorized(opt_view(server.token), opt_view(*credential)) ==> match d {
            ScanDecision::Unauthorized => false,
            ScanDecision::Webhook(m) => request.webhook is Some && is_merged(
                *request,
                *server,
                m,
            ),
            ScanDecision::Batch(m) => request.webhook is None && is_merged(*request, *server, m),
        },
{
    if !validator(&server.token, credential) {
        return ScanDecision::Unauthorized;
    }
    let merged = merge(request, server);
    if merged.webhook.is_some() {
        ScanDecision::Webhook(merged)
    } else {
        ScanDecision::Batch(merged)
    }
}

/// Configuration update: the auth gate decides first — an unauthorized
/// request changes nothing — then the request is merged over the server's
/// pinned fields and applied.
pub fn set_config_api(
    credential: &Option<String>,
    request: &ObserverWardConfig,
    server: &ObserverWardConfig,
) -> (d: ConfigDecision)
    ensures
        !spec_authorized(opt_view(server.token), opt_view(*credential)) ==> d
            == ConfigDecision::Unauthorized,
        spec_authorized(opt_view(server.token), opt_view(*credential)) ==> match d {
            ConfigDecision::Unauthorized => false,
            ConfigDecision::Apply(m) => is_merged(*request, *server, m),
        },
{
    if !validator(&server.token, credential) {
        return ConfigDecision::Unauthorized;
    }
    ConfigDecision::Apply(merge(request, server))
}

/// Configuration read: the server's pinned configuration verbatim, or
/// nothing when the credential does not pass the auth gate.
pub fn get_config_api(credential: &Option<String>, server: &ObserverWardConfig) -> (d: Option<
    ObserverWardConfig,
>)
    ensures
        match d {
            Option::Some(c) => spec_authorized(opt_view(server.token), opt_view(*credential))
                && config_eq(c, *server),
            Option::None => !spec_authorized(opt_view(server.token), opt_view(*credential)),
        },
{
    if !validator(&server.token, credential) {
        return Option::None;
    }
    Option::Some(clone_config(server))
}

/// Copy of one result's match mapping.
fn clone_matched(m: &Vec<(String, MatchedResult)>) -> (r: Vec<(String, MatchedResult)>)
    ensures
        r@ == m@,
{
    let mut r: Vec<(String, MatchedResult)> = Vec::new();
    let mut i: usize = 0;
    while i < m.len()
        invariant
            i <= m@.len(),
            r@ == m@.subrange(0, i as int),
        decreases m@.len() - i,
    {
        let name = m[i].0.clone();
        let payload = MatchedResult { detail: m[i].1.detail.clone() };
        proof {
            assert((name, payload) == m@[i as int]);
        }
        r.push((name, payload));
        proof {
            assert(r@ =~= m@.subrange(0, i + 1 as int));
        }
        i = i + 1;
    }
    proof {
        assert(r@ =~= m@);
    }
    r
}

/// Batch accumulation: the match mappings of all results of one scan, one
/// entry per result the engine reported, in completion order — nothing
/// dropped, nothing delivered twice.
pub fn collect_batch(results: &Vec<ExecuteResult>) -> (batch: Vec<Vec<(String, MatchedResult)>>)
    ensures
        batch@.len() == results@.len(),
        forall|i: int| 0 <= i < results@.len() ==> batch@[i]@ == results@[i].matched@,
{
    let mut batch: Vec<Vec<(String, MatchedResult)>> = Vec::new();
    let mut i: usize = 0;
    while i < results.len()
        invariant
            i <= results@.len(),
            batch@.len() == i,
            forall|j: int| 0 <= j < i ==> batch@[j]@ == results@[j].matched@,
        decreases results@.len() - i,
    {
        batch.push(clone_matched(&results[i].matched));
        i = i + 1;
    }
    batch
}

/// One turn of the webhook pump: forward each result's match mapping as it
/// completes, stop exactly when the producer closes the stream.
pub fn webhook_pump_step(event: StreamEvent) -> (a: PumpAction)
    ensures
        match event {
            StreamEvent::Item(r) => a == PumpAction::Forward(r.matched),
            StreamEvent::Closed => a == PumpAction::Stop,
        },
{
    match event {
        StreamEvent::Item(r) => PumpAction::Forward(r.matched),
        StreamEvent::Closed => PumpAction::Stop,
    }
}

/// Delivery trace of a webhook-mode submission: the acknowledgment is the
/// first event — it precedes every push — and then each result's match
/// mapping is pushed in completion order, one push per result.
pub fn webhook_delivery(results: &Vec<ExecuteResult>) -> (events: Vec<DeliveryEvent>)
    ensures
        events@.len() == results@.len() + 1,
        events@[0] == DeliveryEvent::Ack,
        forall|i: int|
            1 <= i < events@.len() ==> (#[trigger] events@[i] matches DeliveryEvent::Push(m)
                && m@ == results@[i - 1].matched@),
        forall|i: int|
            0 <= i < events@.len() && (#[trigger] events@[i] is Push) ==> 0 < i,
{
    let mut events: Vec<DeliveryEvent> = Vec::new();
    events.push(DeliveryEvent::Ack);
    let mut i: usize = 0;
    while i < results.len()
        invariant
            i <= results@.len(),
            events@.len() == i + 1,
            events@[0] == DeliveryEvent::Ack,
            forall|j: int|
                1 <= j < events@.len() ==> (#[trigger] events@[j] matches DeliveryEvent::Push(m)
                    && m@ == results@[j - 1].matched@),
        decreases results@.len() - i,
    {
        events.push(DeliveryEvent::Push(clone_matched(&results[i].matched)));
        i = i + 1;
    }
    events
}

/// Delivery trace of a batch-mode submission: exactly one observable event,
/// the response carrying every result's match mapping in completion order.
pub fn batch_delivery(results: &Vec<ExecuteResult>) -> (events: Vec<DeliveryEvent>)
    ensures
        events@.len() == 1,
        events@[0] matches DeliveryEvent::BatchResponse(batch) && batch@.len() == results@.len()
            && (forall|i: int| 0 <= i < results@.len() ==> batch@[i]@ == results@[i].matched@),
{
    let batch = collect_batch(results);
    let mut events: Vec<DeliveryEvent> = Vec::new();
    events.push(DeliveryEvent::BatchResponse(batch));
    events
}

} // verus!
