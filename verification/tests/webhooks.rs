use css_server::webhooks::{validate_url, webhook_signature, webhook_signature_matches};

fn rejected(url: &str) -> bool {
    validate_url(url).is_err()
}

#[test]
fn an_ordinary_destination_is_permitted() {
    assert!(validate_url("https://matrix.example.org/_matrix/hook").is_ok());
    assert!(validate_url("http://example.org:8080/hook").is_ok());
}

#[test]
fn a_private_address_is_still_permitted() {
    assert!(validate_url("http://10.0.0.9:8080/hook").is_ok());
    assert!(validate_url("http://192.168.1.50/hook").is_ok());
    assert!(validate_url("http://172.16.4.4/hook").is_ok());
}

#[test]
fn the_cloud_metadata_address_is_refused() {
    assert!(rejected("http://169.254.169.254/latest/meta-data/"));
    assert!(rejected("https://169.254.169.254/"));
    assert!(rejected("http://169.254.169.254:80/computeMetadata/v1/"));
}

#[test]
fn the_rest_of_the_link_local_range_is_refused_too() {
    assert!(rejected("http://169.254.0.1/"));
    assert!(rejected("http://169.254.255.254/"));
}

#[test]
fn an_encoded_metadata_address_is_refused() {
    for url in ["http://2852039166/", "http://0xa9fea9fe/", "http://0251.0376.0251.0376/"] {
        assert!(rejected(url), "{url} was permitted");
    }
}

#[test]
fn userinfo_does_not_smuggle_a_host_past_the_check() {
    assert!(rejected("http://example.org@169.254.169.254/"));
}

#[test]
fn ipv6_link_local_and_the_aws_v6_metadata_address_are_refused() {
    assert!(rejected("http://[fe80::1]/"));
    assert!(rejected("http://[fe80::200:5aee:feaa:20a2]/"));
    assert!(rejected("http://[fd00:ec2::254]/"));
}

#[test]
fn another_unique_local_address_is_still_permitted() {
    assert!(validate_url("http://[fd12:3456::1]/hook").is_ok());
}

#[test]
fn a_non_http_scheme_is_refused() {
    assert!(rejected("file:///etc/passwd"));
    assert!(rejected("javascript:alert(1)"));
    assert!(rejected("ftp://example.org/"));
}

#[test]
fn something_that_is_not_a_url_is_refused_rather_than_parsed_loosely() {
    assert!(rejected(""));
    assert!(rejected("not a url"));
    assert!(rejected("http://"));
}

#[test]
fn a_hostname_is_not_resolved_and_therefore_not_checked() {
    assert!(validate_url("http://metadata.example.org/").is_ok());
}

#[test]
fn receiver_signatures_are_hex_hmacs_of_the_body() {
    let body = b"The quick brown fox jumps over the lazy dog";
    let sig = webhook_signature("key", body);
    assert_eq!(sig, "sha256=f7bc83f430538424b13298e6aa6fb143ef4d59a14946175997479dbc2d1a3cd8");
    assert!(webhook_signature_matches("key", body, &sig));
    assert!(!webhook_signature_matches("other", body, &sig));
    assert!(!webhook_signature_matches("key", b"tampered", &sig));
}

#[test]
fn the_whole_fe80_slash_10_block_is_refused_and_nothing_past_it() {
    assert!(validate_url("http://[fe80::1]/hook").is_err());
    assert!(validate_url("https://[febf:ffff::1]/hook").is_err());
    assert!(validate_url("https://[fd00:ec2::254]/hook").is_err());
    assert!(validate_url("https://[fec0::1]/hook").is_ok());
    assert!(validate_url("https://[fd00:ec2::253]/hook").is_ok());
}
