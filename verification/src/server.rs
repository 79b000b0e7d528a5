//! What the HTTP front end takes from the library: the fixed answers of its
//! probes and the route the webhook is served on.

use vstd::prelude::*;
use vstd::string::StrSliceExecFns;
use vstd::string::StringExecFns;

verus! {

/// The answer of the liveness probe.
pub fn ping() -> (answer: &'static str)
    ensures
        answer@ == "pong"@,
{
    "pong"
}

/// Route the webhook is served on when none usable is configured.
pub open spec fn default_webhook_path() -> Seq<char> {
    "/webhook"@
}

/// The route the webhook is served on for a configured path: the default
/// when the path is empty or just `/`, else the path itself, with a leading
/// `/` put in front where it lacks one.
pub open spec fn webhook_route(path: Seq<char>) -> Seq<char> {
    if path.len() == 0 || path == seq!['/'] {
        default_webhook_path()
    } else if path[0] == '/' {
        path
    } else {
        seq!['/'] + path
    }
}

/// Normalises the configured webhook path into the route to serve.
pub fn normalize_webhook_path(path: &str) -> (route: String)
    ensures
        route@ == webhook_route(path@),
{
    let length = path.unicode_len();
    if length == 0 {
        return String::from_str("/webhook");
    }
    let first = path.get_char(0);
    if first == '/' {
        if length == 1 {
            assert(path@ =~= seq!['/']);
            String::from_str("/webhook")
        } else {
            String::from_str(path)
        }
    } else {
        let mut route = String::new();
        route.push('/');
        route.append(path);
        assert(route@ =~= seq!['/'] + path@);
        route
    }
}

} // verus!
