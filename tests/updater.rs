use duckdns_ip_updater::{interpret_response, join_domains, update_url, Error, ErrorKind};

fn strings(items: &[&str]) -> Vec<String> {
    items.iter().map(|s| String::from(*s)).collect()
}

fn failure(query: &str) -> Result<(), Error> {
    Err(Error {
        kind: ErrorKind::InvalidRequest,
        message: format!("{} IP domains could not be updated", query),
    })
}

#[test]
fn url_joins_domains_in_order() {
    assert_eq!(
        update_url(&strings(&["a", "b"]), "T"),
        "https://www.duckdns.org/update?domains=a,b&token=T"
    );
}

#[test]
fn join_keeps_order_and_repetitions() {
    assert_eq!(join_domains(&strings(&["b", "a", "b"])), "b,a,b");
    assert_eq!(join_domains(&strings(&["only"])), "only");
    assert_eq!(join_domains(&Vec::new()), "");
}

#[test]
fn exact_ok_body_succeeds() {
    assert_eq!(interpret_response(Some(String::from("OK")), "a,b"), Ok(()));
}

#[test]
fn other_bodies_fail_naming_domains() {
    for body in ["ok", "KO", "", "OK\n", " OK"] {
        assert_eq!(interpret_response(Some(String::from(body)), "a,b"), failure("a,b"));
    }
}

#[test]
fn connection_failure_names_domains() {
    assert_eq!(interpret_response(None, "a,b"), failure("a,b"));
}

#[test]
fn same_response_gives_same_outcome_twice() {
    let url = update_url(&strings(&["a", "b"]), "T");
    assert_eq!(url, update_url(&strings(&["a", "b"]), "T"));
    assert_eq!(interpret_response(Some(String::from("OK")), "a,b"), Ok(()));
    assert_eq!(interpret_response(Some(String::from("OK")), "a,b"), Ok(()));
}
