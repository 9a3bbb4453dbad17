use instance_launch::config::{Config, OriginPolicy};
use instance_launch::request::{decode_request, InstanceRequest, RequestError};

fn test_config(name_required: bool) -> Config {
    Config {
        instance_type: "t4g.large".to_string(),
        key_pair_name: Some("deploy-key".to_string()),
        tag_enabled: true,
        name_required,
        echo_instance_id: true,
        allowed_origins: OriginPolicy::Any,
        listen_port: 8080,
        provider_timeout_secs: Some(30),
    }
}

#[test]
fn valid_body_with_both_fields() {
    let cfg = test_config(true);
    let body = b"{\"ami_id\":\"ami-0abcd\",\"instance_name\":\"web-1\"}";
    let r = decode_request(body, &cfg);
    assert_eq!(
        r,
        Ok(InstanceRequest {
            ami_id: "ami-0abcd".to_string(),
            instance_name: Some("web-1".to_string()),
        })
    );
}

#[test]
fn valid_body_without_optional_name() {
    let cfg = test_config(false);
    let body = b"{\"ami_id\":\"ami-0abcd\"}";
    let r = decode_request(body, &cfg);
    assert_eq!(
        r,
        Ok(InstanceRequest { ami_id: "ami-0abcd".to_string(), instance_name: None })
    );
}

#[test]
fn unknown_fields_are_ignored() {
    let cfg = test_config(false);
    let body = b"{\"ami_id\":\"ami-1\",\"color\":\"blue\"}";
    let r = decode_request(body, &cfg);
    assert_eq!(
        r,
        Ok(InstanceRequest { ami_id: "ami-1".to_string(), instance_name: None })
    );
}

#[test]
fn empty_ami_id_string_is_accepted() {
    let cfg = test_config(false);
    let body = b"{\"ami_id\":\"\"}";
    let r = decode_request(body, &cfg);
    assert_eq!(
        r,
        Ok(InstanceRequest { ami_id: "".to_string(), instance_name: None })
    );
}

#[test]
fn non_json_body_is_rejected() {
    let cfg = test_config(true);
    assert_eq!(decode_request(b"not json at all", &cfg), Err(RequestError::NotJson));
}

#[test]
fn empty_body_is_rejected() {
    let cfg = test_config(false);
    assert_eq!(decode_request(b"", &cfg), Err(RequestError::NotJson));
}

#[test]
fn truncated_json_is_rejected() {
    let cfg = test_config(false);
    assert_eq!(decode_request(b"{\"ami_id\":\"ami-1\"", &cfg), Err(RequestError::NotJson));
}

#[test]
fn missing_ami_id_is_rejected() {
    let cfg = test_config(false);
    assert_eq!(decode_request(b"{\"other\":1}", &cfg), Err(RequestError::MissingAmiId));
}

#[test]
fn non_object_document_is_missing_ami_id() {
    let cfg = test_config(false);
    assert_eq!(decode_request(b"[1,2,3]", &cfg), Err(RequestError::MissingAmiId));
}

#[test]
fn non_string_ami_id_is_rejected() {
    let cfg = test_config(false);
    assert_eq!(
        decode_request(b"{\"ami_id\":42}", &cfg),
        Err(RequestError::AmiIdNotString)
    );
}

#[test]
fn missing_required_name_is_rejected() {
    let cfg = test_config(true);
    assert_eq!(
        decode_request(b"{\"ami_id\":\"ami-1\"}", &cfg),
        Err(RequestError::MissingInstanceName)
    );
}

#[test]
fn non_string_name_is_rejected() {
    let cfg = test_config(false);
    assert_eq!(
        decode_request(b"{\"ami_id\":\"ami-1\",\"instance_name\":[]}", &cfg),
        Err(RequestError::InstanceNameNotString)
    );
}
