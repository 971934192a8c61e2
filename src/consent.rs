//! Consent: the owner's decision on a pending request, and the page that
//! asks for it.

use vstd::prelude::*;

verus! {

/// What the resource owner said to a pending authorization request.
#[derive(Debug, PartialEq, Eq, Clone)]
pub enum ConsentDecision {
    /// The owner has not answered yet: a consent page is to be shown.
    InProgress,
    /// The owner with this identifier approved the request.
    Authorized(String),
    /// The owner refused, or nobody could be identified as the owner.
    Denied,
}

/// The decision for a submitted consent form: approval counts only when an
/// owner could be identified.
pub open spec fn decision_of(allowed: bool, owner: Option<Seq<char>>) -> Option<Seq<char>> {
    match owner {
        Some(o) => if allowed {
            Some(o)
        } else {
            None
        },
        None => None,
    }
}

/// Turns a submitted consent form into a decision. `owner` is the owner
/// that the request's session identifies, if any; without one the request
/// is denied whatever the form says.
pub fn consent_decision(allowed: bool, owner: Option<String>) -> (r: ConsentDecision)
    ensures
        r != ConsentDecision::InProgress,
        owner is None ==> r == ConsentDecision::Denied,
        !allowed ==> r == ConsentDecision::Denied,
        r matches ConsentDecision::Authorized(o) ==> owner is Some && allowed && o@ == owner->0@,
        (allowed && owner is Some) ==> r is Authorized,
{
    match owner {
        Some(o) => if allowed {
            ConsentDecision::Authorized(o)
        } else {
            ConsentDecision::Denied
        },
        None => ConsentDecision::Denied,
    }
}

/// The `application/x-www-form-urlencoded` text of a list of pairs.
pub uninterp spec fn form_encoded(pairs: Seq<(Seq<char>, Seq<char>)>) -> Seq<char>;

/// The text of each pair of strings.
pub open spec fn pairs_text(pairs: Seq<(String, String)>) -> Seq<(Seq<char>, Seq<char>)> {
    pairs.map_values(|p: (String, String)| (p.0@, p.1@))
}

/// Relies on `serde_urlencoded::to_string`: a sequence of string pairs is
/// written as `key=value` items joined by `&`, each part percent-encoded;
/// string keys and values never make it fail.
#[verifier::external_body]
fn encode_form(pairs: &Vec<(String, String)>) -> (r: Option<String>)
    ensures
        r is Some,
        r matches Some(s) ==> s@ == form_encoded(pairs_text(pairs@)),
{
    serde_urlencoded::to_string(pairs).ok()
}

/// The consent page for a pending request: it names the client, its
/// redirect URI and the scope, and offers two buttons that post the request
/// back to `route` with `allow=true` or `deny=true`.
pub open spec fn consent_page(
    route: Seq<char>,
    client_id: Seq<char>,
    redirect_uri: Seq<char>,
    scope: Seq<char>,
    query: Seq<char>,
) -> Seq<char> {
    "<html>'"@ + client_id + "' (at "@ + redirect_uri + ") is requesting permission for '"@ + scope
        + "'\n<form method=\"post\">\n    <input type=\"submit\" value=\"Accept\" formaction=\""@
        + route + "?"@ + query + "&allow=true\">\n    <input type=\"submit\" value=\"Deny\" formaction=\""@
        + route + "?"@ + query + "&deny=true\">\n</form>\n</html>"@
}

/// The request parameters that the consent form carries back.
pub open spec fn consent_query_pairs(client_id: Seq<char>, redirect_uri: Seq<char>, state: Option<Seq<char>>) -> Seq<
    (Seq<char>, Seq<char>),
> {
    let base = seq![
        ("response_type"@, "code"@),
        ("client_id"@, client_id),
        ("redirect_uri"@, redirect_uri),
    ];
    match state {
        Some(s) => base.push(("state"@, s)),
        None => base,
    }
}

/// Renders the consent page for a request of `client_id` bound to
/// `redirect_uri` for the scope written `scope`, to be posted back to
/// `route`.
pub fn consent_page_html(
    route: &str,
    client_id: &str,
    redirect_uri: &str,
    scope: &str,
    state: Option<&str>,
) -> (page: String)
    ensures
        page@ == consent_page(
            route@,
            client_id@,
            redirect_uri@,
            scope@,
            form_encoded(
                consent_query_pairs(
                    client_id@,
                    redirect_uri@,
                    match state {
                        Some(s) => Some(s@),
                        None => None,
                    },
                ),
            ),
        ),
{
    let mut pairs: Vec<(String, String)> = Vec::new();
    pairs.push((String::from_str("response_type"), String::from_str("code")));
    pairs.push((String::from_str("client_id"), client_id.to_owned()));
    pairs.push((String::from_str("redirect_uri"), redirect_uri.to_owned()));
    match state {
        Some(s) => pairs.push((String::from_str("state"), s.to_owned())),
        None => {},
    }
    let ghost st = match state {
        Some(s) => Some(s@),
        None => None,
    };
    proof {
        reveal_strlit("response_type");
        reveal_strlit("code");
        reveal_strlit("client_id");
        reveal_strlit("redirect_uri");
        reveal_strlit("state");
        assert(pairs_text(pairs@) =~= consent_query_pairs(client_id@, redirect_uri@, st));
    }
    let query = match encode_form(&pairs) {
        Some(q) => q,
        None => String::new(),
    };
    let mut page = String::from_str("<html>'");
    page.append(client_id);
    page.append("' (at ");
    page.append(redirect_uri);
    page.append(") is requesting permission for '");
    page.append(scope);
    page.append("'\n<form method=\"post\">\n    <input type=\"submit\" value=\"Accept\" formaction=\"");
    page.append(route);
    page.append("?");
    page.append(query.as_str());
    page.append("&allow=true\">\n    <input type=\"submit\" value=\"Deny\" formaction=\"");
    page.append(route);
    page.append("?");
    page.append(query.as_str());
    page.append("&deny=true\">\n</form>\n</html>");
    page
}

} // verus!
