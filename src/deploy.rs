//! The container runtime's arguments for running an application behind the
//! reverse proxy, with the proxy's routing and forward-auth labels.

use vstd::prelude::*;

verus! {

/// The views of a sequence of strings.
pub open spec fn view_all(s: Seq<String>) -> Seq<Seq<char>> {
    s.map_values(|x: String| x@)
}

/// The proxy labels of an application: a router for the application itself,
/// which strips its path prefix and consults the forward-auth endpoint on
/// the manager, and a router for its editor, which does not.
pub open spec fn proxy_labels_of(app: Seq<char>, manager_ip: Seq<char>) -> Seq<Seq<char>> {
    seq![
        "--label=traefik.enable=true"@,
        "--label=traefik.http.routers."@ + app + ".rule=PathPrefix(`/"@ + app + "`)"@,
        "--label=traefik.http.routers."@ + app + ".service="@ + app,
        "--label=traefik.http.middlewares."@ + app + "-strip.stripprefix.prefixes=/"@ + app + "/, /"@ + app,
        "--label=traefik.http.services."@ + app + ".loadbalancer.server.port=80"@,
        "--label=traefik.http.middlewares."@ + app + "-auth.forwardauth.address=http://"@ + manager_ip + ":8081/api/verify"@,
        "--label=traefik.http.middlewares."@ + app + "-auth.forwardauth.authRequestHeaders=X-API-Key,Authorization"@,
        "--label=traefik.http.middlewares."@ + app + "-auth.forwardauth.authResponseHeaders=X-Forwarded-User"@,
        "--label=traefik.http.routers."@ + app + ".middlewares="@ + app + "-auth,"@ + app + "-strip"@,
        "--label=traefik.http.routers."@ + app + "-ide.rule=PathPrefix(`/"@ + app + "-ide`)"@,
        "--label=traefik.http.routers."@ + app + "-ide.service="@ + app + "-ide"@,
        "--label=traefik.http.middlewares."@ + app + "-ide-strip.stripprefix.prefixes=/"@ + app + "-ide"@,
        "--label=traefik.http.routers."@ + app + "-ide.middlewares="@ + app + "-ide-strip"@,
        "--label=traefik.http.services."@ + app + "-ide.loadbalancer.server.port=8000"@,
    ]
}

/// The arguments that start an application's container detached, on the
/// shared network, with its directory mounted and its name in the
/// environment.
pub open spec fn container_args_of(app: Seq<char>) -> Seq<Seq<char>> {
    seq![
        "run"@,
        "-d"@,
        "--name"@,
        app,
        "--network"@,
        "mcp-net"@,
        "-v"@,
        "/apps/"@ + app + ":/app"@,
        "-e"@,
        "APP_NAME="@ + app,
    ]
}

/// The full argument list of the run command: the container arguments, the
/// proxy labels, and the image name.
pub open spec fn run_args_of(app: Seq<char>, manager_ip: Seq<char>) -> Seq<Seq<char>> {
    container_args_of(app) + proxy_labels_of(app, manager_ip) + seq![app]
}

/// The proxy labels of `app`, whose forward-auth calls go to `manager_ip`.
pub fn proxy_labels(app: &str, manager_ip: &str) -> (r: Vec<String>)
    ensures
        view_all(r@) == proxy_labels_of(app@, manager_ip@),
{
    let mut r: Vec<String> = Vec::new();
    r.push(String::from_str("--label=traefik.enable=true"));
    let mut label = String::from_str("--label=traefik.http.routers.");
    label.append(app);
    label.append(".rule=PathPrefix(`/");
    label.append(app);
    label.append("`)");
    r.push(label);
    let mut label = String::from_str("--label=traefik.http.routers.");
    label.append(app);
    label.append(".service=");
    label.append(app);
    r.push(label);
    let mut label = String::from_str("--label=traefik.http.middlewares.");
    label.append(app);
    label.append("-strip.stripprefix.prefixes=/");
    label.append(app);
    label.append("/, /");
    label.append(app);
    r.push(label);
    let mut label = String::from_str("--label=traefik.http.services.");
    label.append(app);
    label.append(".loadbalancer.server.port=80");
    r.push(label);
    let mut label = String::from_str("--label=traefik.http.middlewares.");
    label.append(app);
    label.append("-auth.forwardauth.address=http://");
    label.append(manager_ip);
    label.append(":8081/api/verify");
    r.push(label);
    let mut label = String::from_str("--label=traefik.http.middlewares.");
    label.append(app);
    label.append("-auth.forwardauth.authRequestHeaders=X-API-Key,Authorization");
    r.push(label);
    let mut label = String::from_str("--label=traefik.http.middlewares.");
    label.append(app);
    label.append("-auth.forwardauth.authResponseHeaders=X-Forwarded-User");
    r.push(label);
    let mut label = String::from_str("--label=traefik.http.routers.");
    label.append(app);
    label.append(".middlewares=");
    label.append(app);
    label.append("-auth,");
    label.append(app);
    label.append("-strip");
    r.push(label);
    let mut label = String::from_str("--label=traefik.http.routers.");
    label.append(app);
    label.append("-ide.rule=PathPrefix(`/");
    label.append(app);
    label.append("-ide`)");
    r.push(label);
    let mut label = String::from_str("--label=traefik.http.routers.");
    label.append(app);
    label.append("-ide.service=");
    label.append(app);
    label.append("-ide");
    r.push(label);
    let mut label = String::from_str("--label=traefik.http.middlewares.");
    label.append(app);
    label.append("-ide-strip.stripprefix.prefixes=/");
    label.append(app);
    label.append("-ide");
    r.push(label);
    let mut label = String::from_str("--label=traefik.http.routers.");
    label.append(app);
    label.append("-ide.middlewares=");
    label.append(app);
    label.append("-ide-strip");
    r.push(label);
    let mut label = String::from_str("--label=traefik.http.services.");
    label.append(app);
    label.append("-ide.loadbalancer.server.port=8000");
    r.push(label);
    assert(view_all(r@) =~= proxy_labels_of(app@, manager_ip@));
    r
}

/// The container arguments of `app`.
pub fn container_args(app: &str) -> (r: Vec<String>)
    ensures
        view_all(r@) == container_args_of(app@),
{
    let mut r: Vec<String> = Vec::new();
    r.push(String::from_str("run"));
    r.push(String::from_str("-d"));
    r.push(String::from_str("--name"));
    r.push(String::from_str(app));
    r.push(String::from_str("--network"));
    r.push(String::from_str("mcp-net"));
    r.push(String::from_str("-v"));
    let mut arg = String::from_str("/apps/");
    arg.append(app);
    arg.append(":/app");
    r.push(arg);
    r.push(String::from_str("-e"));
    let mut arg = String::from_str("APP_NAME=");
    arg.append(app);
    r.push(arg);
    assert(view_all(r@) =~= container_args_of(app@));
    r
}

/// The argument list of the run command for `app`.
pub fn run_args(app: &str, manager_ip: &str) -> (r: Vec<String>)
    ensures
        view_all(r@) == run_args_of(app@, manager_ip@),
{
    let mut r = container_args(app);
    let labels = proxy_labels(app, manager_ip);
    let ghost head = r@;
    let mut i: usize = 0;
    while i < labels.len()
        invariant
            i <= labels@.len(),
            r@ == head + labels@.subrange(0, i as int),
        decreases labels@.len() - i,
    {
        r.push(labels[i].clone());
        assert(labels@.subrange(0, i + 1) =~= labels@.subrange(0, i as int).push(labels@[i as int]));
        i = i + 1;
    }
    r.push(String::from_str(app));
    proof {
        assert(labels@.subrange(0, i as int) =~= labels@);
        assert(view_all(r@) =~= run_args_of(app@, manager_ip@));
    }
    r
}

} // verus!
