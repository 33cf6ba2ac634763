use vstd::prelude::*;

use crate::filter::{default_rules, drops, filter_drops, has_private_prefix, policy_rules,
    rule_matches, FilterRule};
use crate::model::BidRequest;
use crate::serialize::{encode_request, json_request};
use crate::validate::{valid_request, validate};

verus! {

/// Terminal state of one pipeline pass, as the caller sees it.
#[derive(Clone, Copy, Debug, PartialEq, Eq, Structural)]
pub enum Outcome {
    /// The request passed both stages and the sink acknowledged it.
    Published,
    /// The inbound payload could not be decoded into a bid request at all;
    /// this happens before stage 1 runs.
    MalformedPayload,
    /// The request failed structural validation (stage 1).
    BadRequest,
    /// A policy rule suppressed the request (stage 2); deliberate, not an
    /// error.
    Dropped,
    /// An accepted request could not be encoded: an internal defect, never
    /// produced by this crate's own encoder.
    SerializationError,
    /// The publish sink could not accept the payload within the bounded
    /// wait; the only outcome the caller may retry.
    BrokerUnavailable,
}

/// The publish sink's answer to the single submission of one payload.
#[derive(Clone, Copy, Debug, PartialEq, Eq, Structural)]
pub enum PublishAck {
    /// The sink locally acknowledged the payload within the bounded wait.
    Acked,
    /// The sink refused the payload (full send buffer, timeout, or
    /// connectivity failure) within the bounded wait.
    Rejected,
}

/// What the pipeline asks its caller to do with one decoded request.
pub enum Decision {
    /// Stage 1 rejected the request: answer with a client error.
    Reject,
    /// Stage 2 suppressed the request: answer success-with-no-content.
    Drop,
    /// Both stages passed: submit this canonical payload to the sink,
    /// exactly once, and settle on the sink's answer.
    Forward(Vec<char>),
}

/// A request that passed both decision stages and is owed exactly one
/// publish attempt.
pub open spec fn admitted(r: BidRequest) -> bool {
    valid_request(r) && !drops(r)
}

/// The terminal state of a full pipeline pass over a decoded request,
/// given the sink's answer to the publish attempt. The answer is consulted
/// only when the request is admitted; no stage is skipped or reordered.
pub open spec fn pipeline_outcome(r: BidRequest, ack: PublishAck) -> Outcome {
    if !valid_request(r) {
        Outcome::BadRequest
    } else if drops(r) {
        Outcome::Dropped
    } else if ack is Acked {
        Outcome::Published
    } else {
        Outcome::BrokerUnavailable
    }
}

/// Runs stages 1 and 2 in order, short-circuiting on the first terminal
/// answer, and serializes an admitted request for the publish sink.
pub fn decide(r: &BidRequest) -> (d: Decision)
    ensures
        d is Reject <==> !valid_request(*r),
        d is Drop <==> valid_request(*r) && drops(*r),
        d is Forward <==> admitted(*r),
        d matches Decision::Forward(payload) ==> payload@ == json_request(*r),
{
    if !validate(r) {
        return Decision::Reject;
    }
    let rules = default_rules();
    if filter_drops(&rules, r) {
        return Decision::Drop;
    }
    Decision::Forward(encode_request(r))
}

/// Classifies the sink's answer to the one publish attempt of an admitted
/// request.
pub fn settle(ack: PublishAck) -> (o: Outcome)
    ensures
        o == (if ack is Acked {
            Outcome::Published
        } else {
            Outcome::BrokerUnavailable
        }),
{
    match ack {
        PublishAck::Acked => Outcome::Published,
        PublishAck::Rejected => Outcome::BrokerUnavailable,
    }
}

/// The HTTP status code for a terminal state.
pub open spec fn status_of(o: Outcome) -> u16 {
    match o {
        Outcome::Published => 200,
        Outcome::MalformedPayload => 400,
        Outcome::BadRequest => 400,
        Outcome::Dropped => 204,
        Outcome::SerializationError => 500,
        Outcome::BrokerUnavailable => 503,
    }
}

/// Maps a terminal state to the HTTP status code the caller receives.
pub fn http_status(o: &Outcome) -> (s: u16)
    ensures
        s == status_of(*o),
{
    match o {
        Outcome::Published => 200,
        Outcome::MalformedPayload => 400,
        Outcome::BadRequest => 400,
        Outcome::Dropped => 204,
        Outcome::SerializationError => 500,
        Outcome::BrokerUnavailable => 503,
    }
}

/// The HTTP response body for a terminal state; a drop answers with no
/// content.
pub open spec fn body_of(o: Outcome) -> Seq<char> {
    match o {
        Outcome::Published => "{\"status\":\"accepted\"}"@,
        Outcome::MalformedPayload => "{\"status\":\"bad request\"}"@,
        Outcome::BadRequest => "{\"status\":\"bad request\"}"@,
        Outcome::Dropped => ""@,
        Outcome::SerializationError => "{\"status\":\"serialization error\"}"@,
        Outcome::BrokerUnavailable => "{\"status\":\"kafka buffer full\"}"@,
    }
}

/// Maps a terminal state to the HTTP response body the caller receives.
pub fn status_body(o: &Outcome) -> (b: &'static str)
    ensures
        b@ == body_of(*o),
{
    match o {
        Outcome::Published => "{\"status\":\"accepted\"}",
        Outcome::MalformedPayload => "{\"status\":\"bad request\"}",
        Outcome::BadRequest => "{\"status\":\"bad request\"}",
        Outcome::Dropped => "",
        Outcome::SerializationError => "{\"status\":\"serialization error\"}",
        Outcome::BrokerUnavailable => "{\"status\":\"kafka buffer full\"}",
    }
}

/// Stage order: a structurally invalid request terminates at `BadRequest`
/// whatever its other fields say and whatever the sink would have
/// answered; it never reaches the filter or the publisher.
pub proof fn lemma_invalid_terminates_bad_request(r: BidRequest, ack: PublishAck)
    requires
        !valid_request(r),
    ensures
        pipeline_outcome(r, ack) == Outcome::BadRequest,
{
}

/// Opt-out suppression: a valid request whose device has the
/// limit-ad-tracking flag set is dropped whatever its other fields say and
/// whatever the sink would have answered; it never reaches the publisher.
pub proof fn lemma_opt_out_terminates_dropped(r: BidRequest, ack: PublishAck)
    requires
        valid_request(r),
        r.device matches Some(d) && d.lmt == 1,
    ensures
        pipeline_outcome(r, ack) == Outcome::Dropped,
{
    assert(policy_rules()[0] == FilterRule::LimitAdTracking);
    assert(rule_matches(policy_rules()[0], r));
}

/// Internal-traffic suppression: a valid request whose device IP begins
/// with the private-network prefix is dropped whatever the sink would have
/// answered; it never reaches the publisher.
pub proof fn lemma_private_ip_terminates_dropped(r: BidRequest, ack: PublishAck)
    requires
        valid_request(r),
        r.device matches Some(d) && d.ip matches Some(ip) && has_private_prefix(ip@),
    ensures
        pipeline_outcome(r, ack) == Outcome::Dropped,
{
    assert(policy_rules()[1] == FilterRule::PrivateNetworkIp);
    assert(rule_matches(policy_rules()[1], r));
}

/// Exactly-once publishing: an admitted request's terminal state is
/// decided by the sink's answer to its single publish attempt alone —
/// `Published` exactly on acknowledgment, `BrokerUnavailable` exactly on
/// refusal, and never anything else.
pub proof fn lemma_admitted_settles_on_ack(r: BidRequest, ack: PublishAck)
    requires
        admitted(r),
    ensures
        pipeline_outcome(r, ack) == Outcome::Published <==> ack is Acked,
        pipeline_outcome(r, ack) == Outcome::BrokerUnavailable <==> ack is Rejected,
{
}

/// The validator and the filter are pure functions of the request: given
/// the same request again, each stage decides the same way, so running a
/// stage twice cannot change its outcome.
pub proof fn lemma_stages_deterministic(r1: BidRequest, r2: BidRequest)
    requires
        r1 == r2,
    ensures
        valid_request(r1) == valid_request(r2),
        drops(r1) == drops(r2),
{
}

} // verus!
