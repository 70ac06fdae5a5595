//! Proxy: a stand-in that receives the requests meant for a service, does
//! some work of its own, and hands on to the service what it lets through.
//!
//! Here the service is an application server and the proxy is a web server
//! in front of it that limits how often each resource may be requested.
//! The limit is a plain counter per resource: it has no time window and is
//! never reset, so once a resource has been requested as often as allowed,
//! every further request for it is refused.

use crate::text::{append_digits, digits, same_text};
use crate::transcript::Transcript;
use vstd::hash_map::StringHashMap;
use vstd::prelude::*;

verus! {

/// Something that answers a request for `url` by `method` with a status code
/// and a body.
pub trait Server: Sized {
    /// Whether the server, being in state `self`, may answer the request with
    /// `response` and be in state `after` when it has done so.
    spec fn answers(
        self,
        url: Seq<char>,
        method: Seq<char>,
        after: Self,
        response: (u16, Seq<char>),
    ) -> bool;

    /// Answers the request for `url` by `method`.
    fn handle_request(&mut self, url: &str, method: &str) -> (response: (u16, String))
        ensures
            (*old(self)).answers(url@, method@, *final(self), (response.0, response.1@)),
    ;
}

/// The application's routes: what it answers to each request.
pub open spec fn route(url: Seq<char>, method: Seq<char>) -> (u16, Seq<char>) {
    if url == "/app/status"@ && method == "GET"@ {
        (200u16, "Ok"@)
    } else if url == "/create/user"@ && method == "POST"@ {
        (200u16, "User Created"@)
    } else {
        (404u16, "Not found"@)
    }
}

/// The application server behind the proxy. It keeps no state: its answer
/// is looked up in [`route`].
pub struct Application;

impl Server for Application {
    open spec fn answers(
        self,
        url: Seq<char>,
        method: Seq<char>,
        after: Self,
        response: (u16, Seq<char>),
    ) -> bool {
        response == route(url, method)
    }

    /// Answers as [`route`] says.
    fn handle_request(&mut self, url: &str, method: &str) -> (response: (u16, String))
        ensures
            (response.0, response.1@) == route(url@, method@),
    {
        if same_text(url, "/app/status") && same_text(method, "GET") {
            return (200, "Ok".to_owned());
        }
        if same_text(url, "/create/user") && same_text(method, "POST") {
            return (200, "User Created".to_owned());
        }
        (404, "Not found".to_owned())
    }
}

/// The counter on record for `url`. A resource that was never requested
/// counts as 1: the counter runs one ahead of the requests let through.
pub open spec fn recorded(counters: Map<Seq<char>, u64>, url: Seq<char>) -> u64 {
    if counters.contains_key(url) {
        counters[url]
    } else {
        1
    }
}

/// Whether the next request for `url` is let through: its counter has not
/// gone beyond `max_allowed`.
pub open spec fn admits(counters: Map<Seq<char>, u64>, max_allowed: u32, url: Seq<char>) -> bool {
    recorded(counters, url) <= max_allowed
}

/// The counters after one request for `url`. The resource is on record
/// from then on; its counter goes up by one if the request was let through
/// and stays as it was if not.
pub open spec fn after_request(
    counters: Map<Seq<char>, u64>,
    max_allowed: u32,
    url: Seq<char>,
) -> Map<Seq<char>, u64> {
    if admits(counters, max_allowed, url) {
        counters.insert(url, (recorded(counters, url) + 1) as u64)
    } else {
        counters.insert(url, recorded(counters, url))
    }
}

/// The counters after the requests `urls`, made in that order.
pub open spec fn after_requests(
    counters: Map<Seq<char>, u64>,
    max_allowed: u32,
    urls: Seq<Seq<char>>,
) -> Map<Seq<char>, u64>
    decreases urls.len(),
{
    if urls.len() == 0 {
        counters
    } else {
        after_request(
            after_requests(counters, max_allowed, urls.drop_last()),
            max_allowed,
            urls.last(),
        )
    }
}

/// How many of the requests `urls` were for `url`.
pub open spec fn times_requested(urls: Seq<Seq<char>>, url: Seq<char>) -> nat
    decreases urls.len(),
{
    if urls.len() == 0 {
        0
    } else {
        times_requested(urls.drop_last(), url) + if urls.last() == url {
            1nat
        } else {
            0nat
        }
    }
}

/// A request for one resource leaves every other resource as it was: the
/// same counter, and the same decision on its next request.
pub proof fn lemma_resources_are_independent(
    counters: Map<Seq<char>, u64>,
    max_allowed: u32,
    url: Seq<char>,
    other: Seq<char>,
)
    requires
        other != url,
    ensures
        recorded(after_request(counters, max_allowed, url), other) == recorded(counters, other),
        admits(after_request(counters, max_allowed, url), max_allowed, other) == admits(
            counters,
            max_allowed,
            other,
        ),
{
}

/// No request makes any counter smaller.
pub proof fn lemma_counters_never_decrease(
    counters: Map<Seq<char>, u64>,
    max_allowed: u32,
    url: Seq<char>,
    any: Seq<char>,
)
    ensures
        recorded(after_request(counters, max_allowed, url), any) >= recorded(counters, any),
{
}

/// A resource that was refused once is refused ever after, whatever is
/// requested in between.
pub proof fn lemma_refused_stays_refused(
    counters: Map<Seq<char>, u64>,
    max_allowed: u32,
    urls: Seq<Seq<char>>,
    url: Seq<char>,
)
    requires
        !admits(counters, max_allowed, url),
    ensures
        !admits(after_requests(counters, max_allowed, urls), max_allowed, url),
        recorded(after_requests(counters, max_allowed, urls), url) == recorded(counters, url),
    decreases urls.len(),
{
    if urls.len() > 0 {
        lemma_refused_stays_refused(counters, max_allowed, urls.drop_last(), url);
    }
}

/// Starting with no resource on record, and after any requests `urls`, the
/// counter of `url` is one more than the number of its requests that were let
/// through, which is the number of its requests or `max_allowed`, whichever
/// is smaller. So the next request for `url` is let through exactly when
/// fewer than `max_allowed` were made for it before: the first `max_allowed`
/// requests for a resource pass, each later one is refused, and requests for
/// other resources do not count.
pub proof fn lemma_first_requests_pass(max_allowed: u32, urls: Seq<Seq<char>>, url: Seq<char>)
    ensures
        recorded(after_requests(Map::empty(), max_allowed, urls), url) == 1 + if times_requested(
            urls,
            url,
        ) < max_allowed {
            times_requested(urls, url)
        } else {
            max_allowed as nat
        },
        admits(after_requests(Map::empty(), max_allowed, urls), max_allowed, url)
            <==> times_requested(urls, url) < max_allowed,
    decreases urls.len(),
{
    if urls.len() > 0 {
        lemma_first_requests_pass(max_allowed, urls.drop_last(), url);
    }
}

/// A request that the proxy refuses does not reach the server behind it:
/// that server is left as it was, and the answer is 403, "Not Allowed".
pub proof fn lemma_refused_request_stops_at_the_proxy<S: Server>(
    before: NginxServer<S>,
    url: Seq<char>,
    method: Seq<char>,
    after: NginxServer<S>,
    response: (u16, Seq<char>),
)
    requires
        before.answers(url, method, after, response),
        !admits(before.counters(), before.max_allowed(), url),
    ensures
        after.backend() == before.backend(),
        response == (403u16, "Not Allowed"@),
{
}

/// A request that the proxy lets through is answered by the server behind
/// it, and by nobody else.
pub proof fn lemma_admitted_request_is_handed_on<S: Server>(
    before: NginxServer<S>,
    url: Seq<char>,
    method: Seq<char>,
    after: NginxServer<S>,
    response: (u16, Seq<char>),
)
    requires
        before.answers(url, method, after, response),
        admits(before.counters(), before.max_allowed(), url),
    ensures
        before.backend().answers(url, method, after.backend(), response),
{
}

/// The proxy: a web server that counts the requests for each resource and
/// hands a request on to the application only while the resource's counter
/// has not gone beyond the limit.
pub struct NginxServer<S: Server> {
    application: S,
    max_allowed_requests: u32,
    rate_limiter: StringHashMap<u64>,
}

impl NginxServer<Application> {
    /// A proxy in front of the [`Application`], which lets two requests
    /// through for each resource.
    pub fn new() -> (server: Self)
        ensures
            server.counters() == Map::<Seq<char>, u64>::empty(),
            server.max_allowed() == 2,
            server.backend() == Application,
    {
        NginxServer {
            application: Application,
            max_allowed_requests: 2,
            rate_limiter: StringHashMap::new(),
        }
    }
}

impl<S: Server> NginxServer<S> {
    /// The counter on record for each resource that was requested.
    pub closed spec fn counters(&self) -> Map<Seq<char>, u64> {
        self.rate_limiter@
    }

    /// The number of requests let through for each resource.
    pub closed spec fn max_allowed(&self) -> u32 {
        self.max_allowed_requests
    }

    /// The server behind the proxy.
    pub closed spec fn backend(&self) -> S {
        self.application
    }

    /// A proxy in front of `application`, which lets `max_allowed_requests`
    /// requests through for each resource.
    pub fn with_application(application: S, max_allowed_requests: u32) -> (server: Self)
        ensures
            server.counters() == Map::<Seq<char>, u64>::empty(),
            server.max_allowed() == max_allowed_requests,
            server.backend() == application,
    {
        NginxServer { application, max_allowed_requests, rate_limiter: StringHashMap::new() }
    }

    /// The server behind the proxy.
    pub fn application(&self) -> (application: &S)
        ensures
            *application == self.backend(),
    {
        &self.application
    }

    /// The number of requests let through for each resource.
    pub fn max_allowed_requests(&self) -> (max_allowed: u32)
        ensures
            max_allowed == self.max_allowed(),
    {
        self.max_allowed_requests
    }

    /// Counts one request for `url` and says whether it is let through.
    pub fn check_rate_limiting(&mut self, url: &str) -> (allowed: bool)
        ensures
            allowed == admits(old(self).counters(), old(self).max_allowed(), url@),
            final(self).counters() == after_request(
                old(self).counters(),
                old(self).max_allowed(),
                url@,
            ),
            final(self).max_allowed() == old(self).max_allowed(),
            final(self).backend() == old(self).backend(),
    {
        let rate: u64 = match self.rate_limiter.get(url) {
            Some(rate) => *rate,
            None => 1,
        };
        if rate > self.max_allowed_requests as u64 {
            if !self.rate_limiter.contains_key(url) {
                self.rate_limiter.insert(url.to_owned(), rate);
            }
            return false;
        }
        self.rate_limiter.insert(url.to_owned(), rate + 1);
        true
    }
}

impl<S: Server> Server for NginxServer<S> {
    /// The request is counted. If it is let through, the answer is the
    /// application's; if not, the application is left alone and the answer
    /// is 403, "Not Allowed".
    open spec fn answers(
        self,
        url: Seq<char>,
        method: Seq<char>,
        after: Self,
        response: (u16, Seq<char>),
    ) -> bool {
        &&& after.max_allowed() == self.max_allowed()
        &&& after.counters() == after_request(self.counters(), self.max_allowed(), url)
        &&& if admits(self.counters(), self.max_allowed(), url) {
            self.backend().answers(url, method, after.backend(), response)
        } else {
            after.backend() == self.backend() && response == (403u16, "Not Allowed"@)
        }
    }

    /// Counts the request for `url`, and hands it on to the application
    /// if it is let through.
    fn handle_request(&mut self, url: &str, method: &str) -> (response: (u16, String))
        ensures
            final(self).max_allowed() == old(self).max_allowed(),
            final(self).counters() == after_request(
                old(self).counters(),
                old(self).max_allowed(),
                url@,
            ),
            if admits(old(self).counters(), old(self).max_allowed(), url@) {
                old(self).backend().answers(
                    url@,
                    method@,
                    final(self).backend(),
                    (response.0, response.1@),
                )
            } else {
                &&& final(self).backend() == old(self).backend()
                &&& response.0 == 403
                &&& response.1@ == "Not Allowed"@
            },
    {
        if !self.check_rate_limiting(url) {
            return (403, "Not Allowed".to_owned());
        }
        self.application.handle_request(url, method)
    }
}

/// What is put out for a request for `url` that was answered with `code`
/// and `body`: three lines and an empty one, in one piece.
pub open spec fn report(url: Seq<char>, code: u16, body: Seq<char>) -> Seq<char> {
    "Url:"@ + url + "\nHttpCode: "@ + digits(code as nat) + "\nBody: "@ + body + "\n"@
}

/// Puts out that the request for `url` was answered with `response`.
fn put_out(url: &str, response: (u16, String), out: &mut Transcript)
    ensures
        final(out)@ == old(out)@.push(report(url@, response.0, response.1@)),
{
    let (code, body) = response;
    let mut text = "Url:".to_owned();
    text.append(url);
    text.append("\nHttpCode: ");
    append_digits(&mut text, code as u64);
    text.append("\nBody: ");
    text.append(body.as_str());
    text.append("\n");
    out.record(text);
}

/// What [`demo`] puts out: two requests for the status pass, the third is
/// refused, and a request to create a user by `GET` finds nothing.
pub open spec fn demo_reports() -> Seq<Seq<char>> {
    seq![
        report("/app/status"@, 200, "Ok"@),
        report("/app/status"@, 200, "Ok"@),
        report("/app/status"@, 403, "Not Allowed"@),
        report("/create/user"@, 404, "Not found"@),
    ]
}

/// Asks a new proxy three times for the status and once, by `GET`, to
/// create a user.
pub fn demo(out: &mut Transcript)
    ensures
        final(out)@ == old(out)@ + demo_reports(),
{
    let mut nginx_server = NginxServer::new();

    let app_status = "/app/status";
    let create_user = "/create/user";
    proof {
        reveal_strlit("/app/status");
        reveal_strlit("/create/user");
        reveal_strlit("GET");
        reveal_strlit("POST");
        assert("GET"@.len() != "POST"@.len());
    }

    let response = nginx_server.handle_request(app_status, "GET");
    put_out(app_status, response, out);

    let response = nginx_server.handle_request(app_status, "GET");
    put_out(app_status, response, out);

    let response = nginx_server.handle_request(app_status, "GET");
    put_out(app_status, response, out);

    let response = nginx_server.handle_request(create_user, "GET");
    put_out(create_user, response, out);
}

} // verus!
