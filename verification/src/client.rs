//! The upstream client: base-URL normalization, the fixed binding of each
//! editor capability to one HTTP request, and the shared rule that turns
//! an upstream answer into a success payload or a failure message.
//!
//! The library only plans requests and classifies responses; executing a
//! planned request is the transport layer's job, outside the library.

use vstd::prelude::*;
use crate::json::{escape_json, json_escape};
use crate::text::{dec_str_of, dec_string};

verus! {

/// HTTP method of an outbound request.
#[derive(Clone, Copy, Debug, PartialEq, Eq, Structural)]
pub enum HttpMethod {
    Get,
    Post,
}

/// One planned outbound HTTP request. Exactly one such plan is produced
/// per invocation; the transport executes it with the owning client's
/// fixed timeout.
pub struct HttpRequest {
    pub method: HttpMethod,
    pub url: String,
    pub query: Vec<(String, String)>,
    pub body: Option<String>,
}

/// One upstream HTTP response, reduced to the two values the bridge reads:
/// the status code and the raw body text.
pub struct HttpResponse {
    pub status: u16,
    pub body: String,
}

/// `s` with every trailing `/` removed.
pub open spec fn trim_trailing_slashes(s: Seq<char>) -> Seq<char>
    decreases s.len(),
{
    if s.len() > 0 && s[s.len() - 1] == '/' {
        trim_trailing_slashes(s.drop_last())
    } else {
        s
    }
}

/// Whether `status` counts as success: the 2xx range, nothing else.
pub open spec fn is_success(status: u16) -> bool {
    200 <= status < 300
}

/// The failure message for a non-success response: `HTTP {status}: {body}`,
/// with the raw body spliced in even when empty.
pub open spec fn failure_message(status: u16, body: Seq<char>) -> Seq<char> {
    "HTTP "@ + dec_str_of(status as nat) + ": "@ + body
}

/// The outcome of one completed HTTP exchange: a 2xx status passes the
/// body through verbatim, any other status fails with `failure_message`.
pub open spec fn spec_classify(status: u16, body: Seq<char>) -> Result<Seq<char>, Seq<char>> {
    if is_success(status) {
        Ok(body)
    } else {
        Err(failure_message(status, body))
    }
}

/// The outcome of one attempted HTTP exchange: a response is classified by
/// its status, and a transport-level error becomes a failure carrying the
/// transport's own description.
pub open spec fn spec_outcome(exchange: Result<HttpResponse, String>) -> Result<
    Seq<char>,
    Seq<char>,
> {
    match exchange {
        Ok(resp) => spec_classify(resp.status, resp.body@),
        Err(e) => Err(e@),
    }
}

/// The views of both sides of a textual result.
pub open spec fn result_views(r: Result<String, String>) -> Result<Seq<char>, Seq<char>> {
    match r {
        Ok(t) => Ok(t@),
        Err(m) => Err(m@),
    }
}

/// The JSON body of the set-property request:
/// `{"path":<path>,"property":<property>,"value":<value>}`, with `path`
/// and `property` framed as JSON string literals and `value` spliced in
/// verbatim (it is already JSON text).
pub open spec fn set_property_body(
    path: Seq<char>,
    property: Seq<char>,
    value_json: Seq<char>,
) -> Seq<char> {
    "{\"path\":\""@ + json_escape(path) + "\",\"property\":\""@ + json_escape(property)
        + "\",\"value\":"@ + value_json + "}"@
}

/// The upstream client's whole state: the normalized base URL and the
/// fixed per-request timeout, both set once at construction and never
/// changed.
pub struct GodotClient {
    pub base_url: String,
    pub timeout_secs: u64,
}

impl GodotClient {
    /// Builds a client for `base_url`, stripping trailing `/` once and
    /// fixing the per-request timeout at thirty seconds.
    pub fn new(base_url: &str) -> (c: Self)
        ensures
            c.base_url@ == trim_trailing_slashes(base_url@),
            c.timeout_secs == 30,
    {
        let len = base_url.unicode_len();
        let mut k = len;
        proof {
            assert(base_url@.subrange(0, len as int) =~= base_url@);
        }
        while k > 0 && base_url.get_char(k - 1) == '/'
            invariant
                k <= len,
                len == base_url@.len(),
                trim_trailing_slashes(base_url@) == trim_trailing_slashes(
                    base_url@.subrange(0, k as int),
                ),
            decreases k,
        {
            proof {
                let pre = base_url@.subrange(0, k as int);
                assert(pre[pre.len() - 1] == base_url@[k - 1]);
                assert(pre.drop_last() =~= base_url@.subrange(0, k - 1));
            }
            k -= 1;
        }
        proof {
            let pre = base_url@.subrange(0, k as int);
            if k > 0 {
                assert(pre[pre.len() - 1] == base_url@[k - 1]);
            }
            assert(trim_trailing_slashes(pre) == pre);
        }
        let norm = base_url.substring_char(0, k);
        GodotClient { base_url: norm.to_owned(), timeout_secs: 30 }
    }

    /// Plans an HTTP POST to `base_url + path`, with `body` as the JSON
    /// payload when present and no query parameters.
    pub fn post(&self, path: &str, body: Option<String>) -> (r: HttpRequest)
        ensures
            r.method == HttpMethod::Post,
            r.url@ == self.base_url@ + path@,
            r.query@.len() == 0,
            r.body == body,
    {
        let url = self.base_url.clone().concat(path);
        HttpRequest { method: HttpMethod::Post, url, query: Vec::new(), body }
    }

    /// Plans an HTTP GET to `base_url + path` with the given query
    /// parameters, passed along as plain strings, and no body.
    pub fn get(&self, path: &str, query: Vec<(String, String)>) -> (r: HttpRequest)
        ensures
            r.method == HttpMethod::Get,
            r.url@ == self.base_url@ + path@,
            r.query == query,
            r.body is None,
    {
        let url = self.base_url.clone().concat(path);
        HttpRequest { method: HttpMethod::Get, url, query, body: None }
    }

    /// Run the game: POST `/run`, no body.
    pub fn run_project(&self) -> (r: HttpRequest)
        ensures
            r.method == HttpMethod::Post,
            r.url@ == self.base_url@ + "/run"@,
            r.query@.len() == 0,
            r.body is None,
    {
        self.post("/run", None)
    }

    /// Stop the running game: POST `/stop`, no body.
    pub fn stop_project(&self) -> (r: HttpRequest)
        ensures
            r.method == HttpMethod::Post,
            r.url@ == self.base_url@ + "/stop"@,
            r.query@.len() == 0,
            r.body is None,
    {
        self.post("/stop", None)
    }

    /// Fetch the log tail: GET `/log?tail=N`, with `N` in decimal.
    pub fn get_output_log(&self, tail: u32) -> (r: HttpRequest)
        ensures
            r.method == HttpMethod::Get,
            r.url@ == self.base_url@ + "/log"@,
            r.query@.len() == 1,
            r.query@[0].0@ == "tail"@,
            r.query@[0].1@ == dec_str_of(tail as nat),
            r.body is None,
    {
        let mut query: Vec<(String, String)> = Vec::new();
        query.push(("tail".to_owned(), dec_string(tail as u64)));
        self.get("/log", query)
    }

    /// Fetch the recent errors: GET `/errors`, no parameters.
    pub fn get_last_errors(&self) -> (r: HttpRequest)
        ensures
            r.method == HttpMethod::Get,
            r.url@ == self.base_url@ + "/errors"@,
            r.query@.len() == 0,
            r.body is None,
    {
        self.get("/errors", Vec::new())
    }

    /// Fetch the scene tree: GET `/scene_tree`, with a `scene` parameter
    /// exactly when a scene is named.
    pub fn get_scene_tree(&self, scene: Option<&str>) -> (r: HttpRequest)
        ensures
            r.method == HttpMethod::Get,
            r.url@ == self.base_url@ + "/scene_tree"@,
            scene is None ==> r.query@.len() == 0,
            scene matches Some(s) ==> {
                &&& r.query@.len() == 1
                &&& r.query@[0].0@ == "scene"@
                &&& r.query@[0].1@ == s@
            },
            r.body is None,
    {
        let mut query: Vec<(String, String)> = Vec::new();
        match scene {
            Some(s) => {
                query.push(("scene".to_owned(), s.to_owned()));
            },
            None => {},
        }
        self.get("/scene_tree", query)
    }

    /// Fetch the selected nodes: GET `/selected`, no parameters.
    pub fn get_selected_nodes(&self) -> (r: HttpRequest)
        ensures
            r.method == HttpMethod::Get,
            r.url@ == self.base_url@ + "/selected"@,
            r.query@.len() == 0,
            r.body is None,
    {
        self.get("/selected", Vec::new())
    }

    /// Fetch a node's properties: GET `/node/properties?path=…`.
    pub fn get_node_properties(&self, node_path: &str) -> (r: HttpRequest)
        ensures
            r.method == HttpMethod::Get,
            r.url@ == self.base_url@ + "/node/properties"@,
            r.query@.len() == 1,
            r.query@[0].0@ == "path"@,
            r.query@[0].1@ == node_path@,
            r.body is None,
    {
        let mut query: Vec<(String, String)> = Vec::new();
        query.push(("path".to_owned(), node_path.to_owned()));
        self.get("/node/properties", query)
    }

    /// Set a node property: POST `/node/property` with the JSON body
    /// `{"path":…,"property":…,"value":…}`. The property value arrives as
    /// JSON text and is spliced into the body verbatim.
    pub fn set_node_property(&self, path: &str, property: &str, value_json: &str) -> (r:
        HttpRequest)
        ensures
            r.method == HttpMethod::Post,
            r.url@ == self.base_url@ + "/node/property"@,
            r.query@.len() == 0,
            r.body matches Some(b) && b@ == set_property_body(path@, property@, value_json@),
    {
        let mut body = "{\"path\":\"".to_owned();
        let escaped_path = escape_json(path);
        body.append(escaped_path.as_str());
        body.append("\",\"property\":\"");
        let escaped_property = escape_json(property);
        body.append(escaped_property.as_str());
        body.append("\",\"value\":");
        body.append(value_json);
        body.append("}");
        proof {
            assert(body@ =~= set_property_body(path@, property@, value_json@));
        }
        self.post("/node/property", Some(body))
    }

    /// List the open scenes: GET `/open_scenes`, no parameters.
    pub fn get_open_scenes(&self) -> (r: HttpRequest)
        ensures
            r.method == HttpMethod::Get,
            r.url@ == self.base_url@ + "/open_scenes"@,
            r.query@.len() == 0,
            r.body is None,
    {
        self.get("/open_scenes", Vec::new())
    }

    /// Fetch the current scene: GET `/current_scene`, no parameters.
    pub fn get_current_scene(&self) -> (r: HttpRequest)
        ensures
            r.method == HttpMethod::Get,
            r.url@ == self.base_url@ + "/current_scene"@,
            r.query@.len() == 0,
            r.body is None,
    {
        self.get("/current_scene", Vec::new())
    }
}

/// A successful upstream body is relayed unmodified: whatever request an
/// operation sent, the outcome of a 2xx exchange is exactly the response
/// body.
pub proof fn lemma_success_relays_body(resp: HttpResponse)
    requires
        is_success(resp.status),
    ensures
        spec_outcome(Ok(resp)) == Ok::<Seq<char>, Seq<char>>(resp.body@),
{
}

/// A non-success status always fails, and the failure message is built
/// from exactly the status code and the raw body, even an empty one.
pub proof fn lemma_failure_names_status_and_body(resp: HttpResponse)
    requires
        !is_success(resp.status),
    ensures
        spec_outcome(Ok(resp)) == Err::<Seq<char>, Seq<char>>(
            failure_message(resp.status, resp.body@),
        ),
{
}

/// Classifies one upstream response: a 2xx status returns the body
/// verbatim, any other status fails with `HTTP {status}: {body}`.
pub fn classify_response(status: u16, body: String) -> (r: Result<String, String>)
    ensures
        result_views(r) == spec_classify(status, body@),
{
    if 200 <= status && status < 300 {
        Ok(body)
    } else {
        let mut m = "HTTP ".to_owned();
        let digits = dec_string(status as u64);
        m.append(digits.as_str());
        m.append(": ");
        m.append(body.as_str());
        proof {
            assert(m@ =~= failure_message(status, body@));
        }
        Err(m)
    }
}

/// Completes one attempted exchange: classifies a response by its status
/// and passes a transport error's description through as the failure
/// message, with no distinction between the two kinds of failure.
pub fn complete(exchange: Result<HttpResponse, String>) -> (r: Result<String, String>)
    ensures
        result_views(r) == spec_outcome(exchange),
{
    match exchange {
        Ok(resp) => classify_response(resp.status, resp.body),
        Err(e) => Err(e),
    }
}

} // verus!
