use vstd::prelude::*;

use crate::config::valid_config;
use crate::error::{Error, ErrorKind};

verus! {

/// How long the single update request may take, in seconds.
pub const REQUEST_TIMEOUT_SECS: u64 = 15;

/// The views of a sequence of strings.
pub open spec fn string_views(v: Seq<String>) -> Seq<Seq<char>> {
    v.map_values(|s: String| s@)
}

/// The items joined with a comma between two neighbours, in their order.
pub open spec fn comma_joined(items: Seq<Seq<char>>) -> Seq<char>
    decreases items.len(),
{
    if items.len() == 0 {
        Seq::empty()
    } else if items.len() == 1 {
        items[0]
    } else {
        comma_joined(items.drop_last()) + seq![','] + items.last()
    }
}

/// The address of the update request for a joined domain list and a token.
pub open spec fn request_url(domains_query: Seq<char>, token: Seq<char>) -> Seq<char> {
    "https://www.duckdns.org/update?domains="@ + domains_query + "&token="@ + token
}

/// The message of a failed update of the joined domain list.
pub open spec fn failure_message(domains_query: Seq<char>) -> Seq<char> {
    domains_query + " IP domains could not be updated"@
}

/// The only response body that reports a successful update.
pub open spec fn is_success_body(body: Seq<char>) -> bool {
    body == "OK"@
}

/// The address for two domains and a token names both domains in their order, joined by
/// one comma, followed by the token.
pub proof fn lemma_two_domain_url(first: Seq<char>, second: Seq<char>, token: Seq<char>)
    ensures
        request_url(comma_joined(seq![first, second]), token) == "https://www.duckdns.org/update?domains="@
            + first + ","@ + second + "&token="@ + token,
{
    reveal_strlit(",");
    let items = seq![first, second];
    assert(items.drop_last() =~= seq![first]);
    assert(comma_joined(items.drop_last()) == first);
    assert(","@ =~= seq![',']);
    assert(comma_joined(items) =~= first + ","@ + second);
}

/// Joins the domains with commas, keeping their order and every repetition.
pub fn join_domains(domains: &Vec<String>) -> (r: String)
    ensures
        r@ == comma_joined(string_views(domains@)),
{
    let mut joined = String::new();
    let mut i: usize = 0;
    while i < domains.len()
        invariant
            i <= domains.len(),
            joined@ == comma_joined(string_views(domains@.subrange(0, i as int))),
        decreases domains.len() - i,
    {
        let ghost before = domains@.subrange(0, i as int);
        let ghost after = domains@.subrange(0, i + 1);
        if i > 0 {
            joined.append(",");
        }
        joined.append(domains[i].as_str());
        proof {
            reveal_strlit(",");
            assert(after.drop_last() =~= before);
            assert(string_views(after).drop_last() =~= string_views(before));
            assert(joined@ =~= comma_joined(string_views(after)));
        }
        i = i + 1;
    }
    assert(domains@.subrange(0, domains.len() as int) =~= domains@);
    joined
}

/// Builds the update address from the domains and the token.
pub fn update_url(domains: &Vec<String>, token: &str) -> (r: String)
    ensures
        r@ == request_url(comma_joined(string_views(domains@)), token@),
{
    let query = join_domains(domains);
    url_for_query(&query, token)
}

fn url_for_query(domains_query: &String, token: &str) -> (r: String)
    ensures
        r@ == request_url(domains_query@, token@),
{
    let mut url = String::from_str("https://www.duckdns.org/update?domains=");
    url.append(domains_query.as_str());
    url.append("&token=");
    url.append(token);
    url
}

/// Decides the outcome of the update from the response body, `None` when no body was read.
pub fn interpret_response(body: Option<String>, domains_query: &str) -> (r: Result<(), Error>)
    ensures
        r.is_ok() <==> (body.is_some() && is_success_body(body->0@)),
        r matches Err(e) ==> e.kind == ErrorKind::InvalidRequest
            && e.message@ == failure_message(domains_query@),
{
    let expected = String::from_str("OK");
    let succeeded = match &body {
        Some(content) => *content == expected,
        None => false,
    };
    if succeeded {
        Ok(())
    } else {
        let mut message = String::from_str(domains_query);
        message.append(" IP domains could not be updated");
        Err(Error { kind: ErrorKind::InvalidRequest, message })
    }
}

/// Relies on ureq 1's `get`, `Request::timeout`, `Request::call` and
/// `Response::into_string`: sends one GET request to `url` and reads the body as text,
/// `None` when the body could not be read. A transport failure comes back as a body of
/// error text. What comes back depends on the network. The timeout is bounded because
/// ureq adds it to the current instant and panics when that overflows.
#[verifier::external_body]
fn fetch_body(url: &str, timeout_secs: u64) -> (r: Option<String>)
    requires
        0 < timeout_secs <= 3600,
{
    ureq::get(url).timeout(std::time::Duration::from_secs(timeout_secs)).call().into_string().ok()
}

/// Sends the single update request for the domains and reports whether the provider
/// answered with exactly `OK`. The domains and the token must form a valid configuration,
/// so that no request leaves with an empty domain list, domain or token.
pub fn update_ips(domains: &Vec<String>, token: &str) -> (r: Result<(), Error>)
    requires
        valid_config(string_views(domains@), token@),
    ensures
        r matches Err(e) ==> e.kind == ErrorKind::InvalidRequest
            && e.message@ == failure_message(comma_joined(string_views(domains@))),
{
    let domains_query = join_domains(domains);
    let url = url_for_query(&domains_query, token);
    let body = fetch_body(url.as_str(), REQUEST_TIMEOUT_SECS);
    interpret_response(body, domains_query.as_str())
}

} // verus!
