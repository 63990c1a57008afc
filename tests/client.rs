use yangtze::client::{check_response, decimal, trim_slashes_exec, Method, YangtzeClient, YangtzeConfig};
use yangtze::error::YangtzeError;

fn client(address: &str) -> Result<YangtzeClient, YangtzeError> {
    YangtzeClient::new(&YangtzeConfig { address: address.to_string() })
}

#[test]
fn new_keeps_host_and_port() {
    let c = client("http://127.0.0.1:8080").unwrap();
    assert_eq!(c.address(), "127.0.0.1:8080");
}

#[test]
fn new_defaults_port_to_80() {
    let c = client("http://example.com/some/path").unwrap();
    assert_eq!(c.address(), "example.com:80");
}

#[test]
fn new_rejects_bad_urls() {
    assert!(matches!(client("not a url"), Err(YangtzeError::InvalidConfig(ref m)) if m == "invalid yangtze-apiserver url"));
    assert!(matches!(client("unix:/run/foo.socket"), Err(YangtzeError::InvalidConfig(ref m)) if m == "invalid yangtze-apiserver host"));
}

#[test]
fn unbound_client_cannot_prepare_requests() {
    let c = client("http://127.0.0.1:8080").unwrap();
    assert!(!c.is_bound());
    assert!(matches!(c.prepare_request(Method::Get, None, None), Err(YangtzeError::InvalidConfig(_))));
    let c = c.version("v1alpha1");
    assert!(matches!(c.prepare_request(Method::Get, None, None), Err(YangtzeError::InvalidConfig(_))));
}

#[test]
fn bound_client_addresses_version_and_kind() {
    let c = client("http://127.0.0.1:8080").unwrap().version("v1alpha1").kind("fabric");
    assert!(c.is_bound());
    let r = c.prepare_request(Method::Get, Some("/abc/".to_string()), None).unwrap();
    assert_eq!(r.method, Method::Get);
    assert_eq!(r.url, "http://127.0.0.1:8080/v1alpha1/fabric/abc");
    assert_eq!(r.body, "");
    let r = c.clone().prepare_request(Method::Post, None, Some("{}".to_string())).unwrap();
    assert_eq!(r.method, Method::Post);
    assert_eq!(r.url, "http://127.0.0.1:8080/v1alpha1/fabric");
    assert_eq!(r.body, "{}");
}

#[test]
fn responses_other_than_ok_are_remote_errors() {
    assert_eq!(check_response(200, vec![1, 2]).unwrap(), vec![1, 2]);
    match check_response(404, vec![]) {
        Err(YangtzeError::RestfulError(m)) => assert_eq!(m, "404"),
        _ => panic!("expected a remote error"),
    }
}

#[test]
fn decimal_writes_digits() {
    assert_eq!(decimal(0), "0");
    assert_eq!(decimal(7), "7");
    assert_eq!(decimal(8080), "8080");
    assert_eq!(decimal(u64::MAX), "18446744073709551615");
}

#[test]
fn trim_takes_slashes_off_both_ends() {
    assert_eq!(trim_slashes_exec("//a/b//"), "a/b");
    assert_eq!(trim_slashes_exec("///"), "");
    assert_eq!(trim_slashes_exec(""), "");
    assert_eq!(trim_slashes_exec("abc"), "abc");
}
