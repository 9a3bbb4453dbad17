use instance_launch::config::{Config, OriginPolicy};
use instance_launch::launch::build_launch_plan;
use instance_launch::request::InstanceRequest;
use instance_launch::service::{handle_request, RequestDecision};

fn deployment(tag_enabled: bool, key: Option<&str>) -> Config {
    Config {
        instance_type: "t4g.large".to_string(),
        key_pair_name: key.map(|k| k.to_string()),
        tag_enabled,
        name_required: false,
        echo_instance_id: true,
        allowed_origins: OriginPolicy::Any,
        listen_port: 8080,
        provider_timeout_secs: Some(30),
    }
}

#[test]
fn plan_fixes_counts_at_one() {
    let cfg = deployment(true, Some("deploy-key"));
    let req = InstanceRequest {
        ami_id: "ami-0abcd".to_string(),
        instance_name: Some("web-1".to_string()),
    };
    let p = build_launch_plan(&req, &cfg);
    assert_eq!(p.min_count, 1);
    assert_eq!(p.max_count, 1);
    assert_eq!(p.image_id, "ami-0abcd");
    assert_eq!(p.instance_type, "t4g.large");
    assert_eq!(p.key_name, Some("deploy-key".to_string()));
}

#[test]
fn supplied_name_becomes_one_name_tag() {
    let cfg = deployment(true, None);
    let req = InstanceRequest {
        ami_id: "ami-1".to_string(),
        instance_name: Some("web-1".to_string()),
    };
    let p = build_launch_plan(&req, &cfg);
    assert_eq!(p.tags.len(), 1);
    assert_eq!(p.tags[0].resource_type, "instance");
    assert_eq!(p.tags[0].key, "Name");
    assert_eq!(p.tags[0].value, "web-1");
    assert_eq!(p.key_name, None);
}

#[test]
fn omitted_name_sends_no_tag() {
    let cfg = deployment(true, Some("deploy-key"));
    let req = InstanceRequest { ami_id: "ami-1".to_string(), instance_name: None };
    let p = build_launch_plan(&req, &cfg);
    assert_eq!(p.tags.len(), 0);
}

#[test]
fn disabled_tagging_sends_no_tag() {
    let cfg = deployment(false, None);
    let req = InstanceRequest {
        ami_id: "ami-1".to_string(),
        instance_name: Some("web-1".to_string()),
    };
    let p = build_launch_plan(&req, &cfg);
    assert_eq!(p.tags.len(), 0);
}

#[test]
fn valid_body_decides_one_call() {
    let cfg = deployment(true, Some("deploy-key"));
    let body = b"{\"ami_id\":\"ami-0abcd\",\"instance_name\":\"web-1\"}";
    match handle_request(body, &cfg) {
        RequestDecision::CallProvider(p) => {
            assert_eq!(p.image_id, "ami-0abcd");
            assert_eq!(p.instance_type, "t4g.large");
            assert_eq!(p.min_count, 1);
            assert_eq!(p.max_count, 1);
            assert_eq!(p.tags.len(), 1);
            assert_eq!(p.tags[0].value, "web-1");
        },
        RequestDecision::Reject(_) => panic!("a valid body must lead to the provider call"),
    }
}

#[test]
fn invalid_body_decides_rejection() {
    let cfg = deployment(true, None);
    match handle_request(b"{\"ami_id\":7}", &cfg) {
        RequestDecision::CallProvider(_) => panic!("an invalid body must never reach the provider"),
        RequestDecision::Reject(r) => {
            assert_eq!(r.status, 400);
            assert_eq!(r.body, "");
        },
    }
}

#[test]
fn non_json_body_decides_rejection() {
    let cfg = deployment(false, None);
    match handle_request(b"<xml/>", &cfg) {
        RequestDecision::CallProvider(_) => panic!("a non-JSON body must never reach the provider"),
        RequestDecision::Reject(r) => {
            assert_eq!(r.status, 400);
            assert_eq!(r.body, "");
        },
    }
}

#[test]
fn two_requests_are_handled_independently() {
    let cfg = deployment(true, Some("deploy-key"));
    let body_a = b"{\"ami_id\":\"ami-aaaa\",\"instance_name\":\"a\"}";
    let body_b = b"{\"ami_id\":\"ami-bbbb\",\"instance_name\":\"b\"}";
    let d_a = handle_request(body_a, &cfg);
    let d_b = handle_request(body_b, &cfg);
    match (d_a, d_b) {
        (RequestDecision::CallProvider(pa), RequestDecision::CallProvider(pb)) => {
            assert_eq!(pa.image_id, "ami-aaaa");
            assert_eq!(pb.image_id, "ami-bbbb");
            assert_eq!(pa.tags[0].value, "a");
            assert_eq!(pb.tags[0].value, "b");
        },
        _ => panic!("each valid body must lead to its own provider call"),
    }
    // Handling is deterministic: the same body decides the same call again.
    assert_eq!(handle_request(body_a, &cfg), handle_request(body_a, &cfg));
}
