use bid_receiver::filter::{default_rules, filter_drops, rule_applies, FilterRule};
use bid_receiver::model::{BidApp, BidDevice, BidRequest, BidSite};
use bid_receiver::pipeline::{decide, http_status, settle, status_body, Decision, Outcome,
    PublishAck};
use bid_receiver::validate::validate;

fn device(ip: Option<&str>, lmt: i32) -> BidDevice {
    BidDevice { ip: ip.map(|s| s.to_string()), os: None, lmt, ua: None }
}

fn site(domain: &str) -> BidSite {
    BidSite { id: None, domain: domain.to_string() }
}

fn request(
    id: &str,
    site: Option<BidSite>,
    app: Option<BidApp>,
    device: Option<BidDevice>,
) -> BidRequest {
    BidRequest { id: id.to_string(), site, app, device, user: None }
}

#[test]
fn scenario_published() {
    let r = request("r1", Some(site("example.com")), None, Some(device(Some("8.8.8.8"), 0)));
    let d = decide(&r);
    match d {
        Decision::Forward(payload) => {
            let s: String = payload.into_iter().collect();
            assert_eq!(
                s,
                "{\"id\":\"r1\",\"site\":{\"domain\":\"example.com\"},\"device\":{\"lmt\":0,\"ip\":\"8.8.8.8\"}}"
            );
        }
        _ => panic!("expected a forward decision"),
    }
    let o = settle(PublishAck::Acked);
    assert_eq!(o, Outcome::Published);
    assert_eq!(http_status(&o), 200);
    assert_eq!(status_body(&o), "{\"status\":\"accepted\"}");
}

#[test]
fn scenario_empty_id() {
    let r = request("", Some(site("example.com")), None, Some(device(None, 0)));
    assert!(matches!(decide(&r), Decision::Reject));
    let o = Outcome::BadRequest;
    assert_eq!(http_status(&o), 400);
    assert_eq!(status_body(&o), "{\"status\":\"bad request\"}");
}

#[test]
fn scenario_opt_out() {
    let r = request("r2", Some(site("example.com")), None, Some(device(None, 1)));
    assert!(matches!(decide(&r), Decision::Drop));
    let o = Outcome::Dropped;
    assert_eq!(http_status(&o), 204);
    assert_eq!(status_body(&o), "");
}

#[test]
fn scenario_private_ip() {
    let app = BidApp { bundle: "com.app".to_string() };
    let r = request("r3", None, Some(app), Some(device(Some("10.10.5.5"), 0)));
    assert!(matches!(decide(&r), Decision::Drop));
    let o = Outcome::Dropped;
    assert_eq!(http_status(&o), 204);
}

#[test]
fn scenario_broker_unavailable() {
    let r = request("r4", Some(site("example.com")), None, Some(device(Some("8.8.8.8"), 0)));
    assert!(matches!(decide(&r), Decision::Forward(_)));
    let o = settle(PublishAck::Rejected);
    assert_eq!(o, Outcome::BrokerUnavailable);
    assert_eq!(http_status(&o), 503);
    assert_eq!(status_body(&o), "{\"status\":\"kafka buffer full\"}");
}

#[test]
fn validator_missing_device() {
    let r = request("r5", Some(site("example.com")), None, None);
    assert!(!validate(&r));
    assert!(matches!(decide(&r), Decision::Reject));
}

#[test]
fn validator_missing_site_and_app() {
    let r = request("r6", None, None, Some(device(None, 0)));
    assert!(!validate(&r));
    assert!(matches!(decide(&r), Decision::Reject));
}

#[test]
fn validator_app_alone_suffices() {
    let app = BidApp { bundle: "com.app".to_string() };
    let r = request("r7", None, Some(app), Some(device(None, 0)));
    assert!(validate(&r));
    assert!(matches!(decide(&r), Decision::Forward(_)));
}

#[test]
fn validation_precedes_filtering() {
    // Invalid and matching a filter rule at once: stage 1 answers first.
    let r = request("", Some(site("example.com")), None, Some(device(None, 1)));
    assert!(matches!(decide(&r), Decision::Reject));
}

#[test]
fn stages_idempotent() {
    let cases = [
        request("r8", Some(site("example.com")), None, Some(device(Some("10.10.9.9"), 0))),
        request("r9", Some(site("example.com")), None, Some(device(None, 1))),
        request("", None, None, None),
        request("r10", Some(site("example.com")), None, Some(device(Some("8.8.8.8"), 0))),
    ];
    let rules = default_rules();
    for r in cases.iter() {
        assert_eq!(validate(r), validate(r));
        assert_eq!(filter_drops(&rules, r), filter_drops(&rules, r));
    }
}

#[test]
fn filter_rule_order() {
    let rules = default_rules();
    assert_eq!(rules, vec![FilterRule::LimitAdTracking, FilterRule::PrivateNetworkIp]);
}

#[test]
fn filter_rules_independent() {
    let rules = default_rules();
    let opt_out = request("a", Some(site("example.com")), None, Some(device(None, 1)));
    assert!(rule_applies(&FilterRule::LimitAdTracking, &opt_out));
    assert!(!rule_applies(&FilterRule::PrivateNetworkIp, &opt_out));
    assert!(filter_drops(&rules, &opt_out));
    let internal = request("b", Some(site("example.com")), None, Some(device(Some("10.10.0.1"), 0)));
    assert!(!rule_applies(&FilterRule::LimitAdTracking, &internal));
    assert!(rule_applies(&FilterRule::PrivateNetworkIp, &internal));
    assert!(filter_drops(&rules, &internal));
}

#[test]
fn private_prefix_edges() {
    let rules = default_rules();
    // "10.100.1.1" shares only five characters with the prefix "10.10.".
    let near_miss = request("c", Some(site("example.com")), None, Some(device(Some("10.100.1.1"), 0)));
    assert!(!filter_drops(&rules, &near_miss));
    // The bare prefix itself is enough.
    let exact = request("d", Some(site("example.com")), None, Some(device(Some("10.10."), 0)));
    assert!(filter_drops(&rules, &exact));
    // Too short to carry the prefix.
    let short = request("e", Some(site("example.com")), None, Some(device(Some("10.1"), 0)));
    assert!(!filter_drops(&rules, &short));
    // The prefix must sit at the start.
    let shifted = request("f", Some(site("example.com")), None, Some(device(Some("9.10.10.1"), 0)));
    assert!(!filter_drops(&rules, &shifted));
}

#[test]
fn http_mapping_all_outcomes() {
    assert_eq!(http_status(&Outcome::Published), 200);
    assert_eq!(http_status(&Outcome::MalformedPayload), 400);
    assert_eq!(http_status(&Outcome::BadRequest), 400);
    assert_eq!(http_status(&Outcome::Dropped), 204);
    assert_eq!(http_status(&Outcome::SerializationError), 500);
    assert_eq!(http_status(&Outcome::BrokerUnavailable), 503);
    assert_eq!(status_body(&Outcome::MalformedPayload), "{\"status\":\"bad request\"}");
    assert_eq!(status_body(&Outcome::SerializationError), "{\"status\":\"serialization error\"}");
}

#[test]
fn publish_attempt_iff_admitted() {
    // Exactly the requests passing both stages yield a forward decision.
    let admitted = request("g", Some(site("example.com")), None, Some(device(Some("8.8.8.8"), 0)));
    assert!(matches!(decide(&admitted), Decision::Forward(_)));
    let invalid = request("", Some(site("example.com")), None, Some(device(None, 0)));
    assert!(!matches!(decide(&invalid), Decision::Forward(_)));
    let dropped = request("h", Some(site("example.com")), None, Some(device(None, 1)));
    assert!(!matches!(decide(&dropped), Decision::Forward(_)));
}
