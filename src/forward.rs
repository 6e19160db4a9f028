//! The forward-auth decision taken for each proxied request.

use crate::policy::{policy_for, AuthPolicy, PolicyModel, PolicyTable};
use crate::token::{header_kid, lists_key, token_identity, validate_token};
use jsonwebtoken::jwk::JwkSet;
use vstd::prelude::*;

verus! {

/// The index of the first character at or after `i` that is not a `/`.
pub open spec fn skip_slashes(s: Seq<char>, i: int) -> int
    decreases s.len() - i,
{
    if 0 <= i < s.len() && s[i] == '/' {
        skip_slashes(s, i + 1)
    } else {
        i
    }
}

/// Whether `c` ends a path segment: a separator, or the start of the query
/// or of the fragment.
pub open spec fn ends_segment(c: char) -> bool {
    c == '/' || c == '?' || c == '#'
}

/// The index of the first segment end at or after `i`, or the length.
pub open spec fn segment_end(s: Seq<char>, i: int) -> int
    decreases s.len() - i,
{
    if 0 <= i < s.len() && !ends_segment(s[i]) {
        segment_end(s, i + 1)
    } else {
        i
    }
}

/// The application a forwarded URI addresses: its first path segment once
/// the leading separators are dropped, without any query or fragment.
pub open spec fn app_name_of(uri: Seq<char>) -> Seq<char> {
    uri.subrange(skip_slashes(uri, 0), segment_end(uri, skip_slashes(uri, 0)))
}

fn ends_segment_char(c: char) -> (r: bool)
    ensures
        r == ends_segment(c),
{
    c == '/' || c == '?' || c == '#'
}

/// The application named by a forwarded URI.
pub fn app_name(uri: &str) -> (r: String)
    ensures
        r@ == app_name_of(uri@),
{
    let n = uri.unicode_len();
    let mut i: usize = 0;
    while i < n && uri.get_char(i) == '/'
        invariant
            n == uri@.len(),
            i <= n,
            skip_slashes(uri@, i as int) == skip_slashes(uri@, 0),
        decreases n - i,
    {
        i = i + 1;
    }
    let mut j: usize = i;
    while j < n && !ends_segment_char(uri.get_char(j))
        invariant
            n == uri@.len(),
            i <= j <= n,
            i as int == skip_slashes(uri@, 0),
            segment_end(uri@, j as int) == segment_end(uri@, i as int),
        decreases n - j,
    {
        j = j + 1;
    }
    String::from_str(uri.substring_char(i, j))
}

/// What the proxy is told.
pub enum Decision {
    /// Let the request through, with the identity to forward, if any.
    Allow { identity: Option<String> },
    /// Refuse it.
    Deny,
}

/// The mathematical value of a decision.
pub enum DecisionModel {
    Allow { identity: Option<Seq<char>> },
    Deny,
}

/// The view of an optional string.
pub open spec fn opt_view(o: Option<String>) -> Option<Seq<char>> {
    match o {
        Some(s) => Some(s@),
        None => None,
    }
}

/// The view of an optional string slice.
pub open spec fn opt_str_view(o: Option<&str>) -> Option<Seq<char>> {
    match o {
        Some(s) => Some(s@),
        None => None,
    }
}

impl View for Decision {
    type V = DecisionModel;

    open spec fn view(&self) -> DecisionModel {
        match self {
            Decision::Allow { identity } => DecisionModel::Allow { identity: opt_view(*identity) },
            Decision::Deny => DecisionModel::Deny,
        }
    }
}

/// The identity forwarded for requests to an open application.
pub open spec fn anonymous_identity() -> Seq<char> {
    "anonymous"@
}

/// The identity forwarded for requests that presented the shared secret.
pub open spec fn secret_holder_identity() -> Seq<char> {
    "api-key-user"@
}

/// The outcome of comparing a presented secret with the configured one.
pub open spec fn shared_secret_decision(secret: Seq<char>, presented: Option<Seq<char>>) -> DecisionModel {
    match presented {
        Some(p) => if p == secret {
            DecisionModel::Allow { identity: Some(secret_holder_identity()) }
        } else {
            DecisionModel::Deny
        },
        None => DecisionModel::Deny,
    }
}

/// Where a request stands once its application's policy has been read.
pub enum Route {
    /// Decided without a token.
    Decided { decision: Decision },
    /// The bearer token must be validated for this tenant and client.
    ValidateToken { tenant_id: String, client_id: String },
}

/// The mathematical value of a route.
pub enum RouteModel {
    Decided { decision: DecisionModel },
    ValidateToken { tenant_id: Seq<char>, client_id: Seq<char> },
}

impl View for Route {
    type V = RouteModel;

    open spec fn view(&self) -> RouteModel {
        match self {
            Route::Decided { decision } => RouteModel::Decided { decision: decision@ },
            Route::ValidateToken { tenant_id, client_id } => RouteModel::ValidateToken {
                tenant_id: tenant_id@,
                client_id: client_id@,
            },
        }
    }
}

/// The route for a request to an application under `policy`, given the
/// presented secret.
pub open spec fn route_for_policy(policy: PolicyModel, presented: Option<Seq<char>>) -> RouteModel {
    match policy {
        PolicyModel::Open => RouteModel::Decided {
            decision: DecisionModel::Allow { identity: Some(anonymous_identity()) },
        },
        PolicyModel::SharedSecret { secret } => RouteModel::Decided {
            decision: shared_secret_decision(secret, presented),
        },
        PolicyModel::FederatedIdentity { tenant_id, client_id } => RouteModel::ValidateToken {
            tenant_id,
            client_id,
        },
    }
}

/// The route for a request with this forwarded URI and presented secret.
pub open spec fn route_of(
    table: Map<Seq<char>, PolicyModel>,
    uri: Seq<char>,
    presented: Option<Seq<char>>,
) -> RouteModel {
    if app_name_of(uri).len() == 0 {
        RouteModel::Decided { decision: DecisionModel::Allow { identity: None } }
    } else {
        route_for_policy(policy_for(table, app_name_of(uri)), presented)
    }
}

/// Compares the presented secret with the configured one.
pub fn check_shared_secret(secret: &String, presented: Option<&str>) -> (r: Decision)
    ensures
        r@ == shared_secret_decision(secret@, opt_str_view(presented)),
{
    proof {
        reveal_strlit("api-key-user");
    }
    match presented {
        Some(p) => {
            let p = String::from_str(p);
            if p == *secret {
                Decision::Allow { identity: Some(String::from_str("api-key-user")) }
            } else {
                Decision::Deny
            }
        },
        None => Decision::Deny,
    }
}

/// Resolves the application of a forwarded URI, reads its policy, and decides
/// the request where no token is involved. `presented_secret` is the
/// shared-secret header, absent when the request had none.
pub fn route_request(table: &PolicyTable, forwarded_uri: &str, presented_secret: Option<&str>) -> (r:
    Route)
    requires
        table.wf(),
    ensures
        r@ == route_of(table@, forwarded_uri@, opt_str_view(presented_secret)),
{
    let app = app_name(forwarded_uri);
    if app.unicode_len() == 0 {
        return Route::Decided { decision: Decision::Allow { identity: None } };
    }
    let policy = table.get(app.as_str());
    proof {
        reveal_strlit("anonymous");
    }
    match policy {
        AuthPolicy::Open => Route::Decided {
            decision: Decision::Allow { identity: Some(String::from_str("anonymous")) },
        },
        AuthPolicy::SharedSecret { secret } => Route::Decided {
            decision: check_shared_secret(&secret, presented_secret),
        },
        AuthPolicy::FederatedIdentity { tenant_id, client_id } => Route::ValidateToken {
            tenant_id,
            client_id,
        },
    }
}

/// The status that carries a decision back to the proxy.
pub open spec fn status_of(d: DecisionModel) -> u16 {
    match d {
        DecisionModel::Allow { .. } => 200,
        DecisionModel::Deny => 401,
    }
}

impl Decision {
    /// 200 for a request let through, 401 for one refused.
    pub fn status_code(&self) -> (r: u16)
        ensures
            r == status_of(self@),
    {
        match self {
            Decision::Allow { .. } => 200,
            Decision::Deny => 401,
        }
    }
}

/// Decides a request to an application with a federated policy. `token` is
/// the bearer token of the request, absent when it had none; `keys` is the
/// tenant's key set, absent when it could not be had.
pub fn authorize_token(token: Option<&str>, keys: Option<&JwkSet>, tenant_id: &str, client_id: &str) -> (r:
    Decision)
    ensures
        token is None ==> r@ == DecisionModel::Deny,
        keys is None ==> r@ == DecisionModel::Deny,
        token matches Some(t) && header_kid(t@) is None ==> r@ == DecisionModel::Deny,
        token matches Some(t) && keys matches Some(k) && header_kid(t@) matches Some(kid)
            && !lists_key(*k, kid) ==> r@ == DecisionModel::Deny,
        r@ matches DecisionModel::Allow { identity } ==> (token matches Some(t) && identity == Some(
            token_identity(t@),
        )),
{
    match (token, keys) {
        (Some(t), Some(k)) => match validate_token(t, k, tenant_id, client_id) {
            Ok(identity) => Decision::Allow { identity: Some(identity) },
            Err(_) => Decision::Deny,
        },
        _ => Decision::Deny,
    }
}

/// A request to an application that has no policy of its own is let
/// through as anonymous, whatever else it carries.
pub proof fn lemma_unlisted_app_is_open(
    table: Map<Seq<char>, PolicyModel>,
    uri: Seq<char>,
    presented: Option<Seq<char>>,
)
    requires
        app_name_of(uri).len() > 0,
        !table.contains_key(app_name_of(uri)),
    ensures
        route_of(table, uri, presented) == (RouteModel::Decided {
            decision: DecisionModel::Allow { identity: Some(anonymous_identity()) },
        }),
        status_of(DecisionModel::Allow { identity: Some(anonymous_identity()) }) == 200,
{
}

/// Under a shared-secret policy, a request that presents the secret is let
/// through as the secret holder, and one that presents anything else, or
/// nothing, is refused with 401.
pub proof fn lemma_shared_secret_gate(
    table: Map<Seq<char>, PolicyModel>,
    uri: Seq<char>,
    secret: Seq<char>,
    presented: Option<Seq<char>>,
)
    requires
        app_name_of(uri).len() > 0,
        table.contains_key(app_name_of(uri)),
        table[app_name_of(uri)] == (PolicyModel::SharedSecret { secret }),
    ensures
        presented == Some(secret) ==> route_of(table, uri, presented) == (RouteModel::Decided {
            decision: DecisionModel::Allow { identity: Some(secret_holder_identity()) },
        }),
        presented != Some(secret) ==> route_of(table, uri, presented) == (RouteModel::Decided {
            decision: DecisionModel::Deny,
        }),
        status_of(DecisionModel::Deny) == 401,
{
}

} // verus!
