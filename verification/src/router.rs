//! The operation router: the static table of supported tools (name,
//! description, declared parameters), the dispatch from a structured
//! invocation to the one planned HTTP request, and the wrapping of an
//! exchange's outcome into the reply envelope.

use vstd::prelude::*;
use crate::client::{
    complete, set_property_body, spec_outcome, GodotClient, HttpMethod, HttpRequest, HttpResponse,
};
use crate::text::{dec_str_of, str_eq};

verus! {

/// The supported tools, one per editor capability.
#[derive(Clone, Copy, Debug, PartialEq, Eq, Structural)]
pub enum ToolKind {
    RunProject,
    StopProject,
    GetOutputLog,
    GetLastErrors,
    GetSceneTree,
    GetSelectedNodes,
    GetNodeProperties,
    SetNodeProperty,
    GetOpenScenes,
    GetCurrentScene,
}

/// The kind of value a declared parameter expects.
#[derive(Clone, Copy, Debug, PartialEq, Eq, Structural)]
pub enum ParamKind {
    /// A non-negative integer.
    Integer,
    /// A plain string.
    Text,
    /// Any JSON value, passed through uninterpreted.
    Json,
}

/// One declared parameter of a tool.
pub struct ParamDecl {
    pub name: String,
    pub required: bool,
    pub kind: ParamKind,
}

/// One registered tool: its stable name, its one-line description, and its
/// declared parameters.
pub struct ToolDecl {
    pub name: String,
    pub description: String,
    pub params: Vec<ParamDecl>,
}

/// One structured invocation: a tool and its supplied arguments, already
/// reduced to plain values by the transport layer. A property value
/// arrives as JSON text.
pub enum ToolCall {
    RunProject,
    StopProject,
    GetOutputLog { tail: Option<u32> },
    GetLastErrors,
    GetSceneTree { scene: Option<String> },
    GetSelectedNodes,
    GetNodeProperties { node_path: String },
    SetNodeProperty { path: String, property: String, value_json: String },
    GetOpenScenes,
    GetCurrentScene,
}

/// The reply envelope: a successful exchange becomes one text content
/// item, and every failure — upstream rejection and transport error alike
/// — becomes one invalid-parameters error.
pub enum ToolReply {
    Content(String),
    InvalidParams(String),
}

/// The stable name under which each tool is registered.
pub open spec fn spec_tool_name(k: ToolKind) -> Seq<char> {
    match k {
        ToolKind::RunProject => "run_project"@,
        ToolKind::StopProject => "stop_project"@,
        ToolKind::GetOutputLog => "get_output_log"@,
        ToolKind::GetLastErrors => "get_last_errors"@,
        ToolKind::GetSceneTree => "get_scene_tree"@,
        ToolKind::GetSelectedNodes => "get_selected_nodes"@,
        ToolKind::GetNodeProperties => "get_node_properties"@,
        ToolKind::SetNodeProperty => "set_node_property"@,
        ToolKind::GetOpenScenes => "get_open_scenes"@,
        ToolKind::GetCurrentScene => "get_current_scene"@,
    }
}

/// The one-line description each tool is registered with.
pub open spec fn spec_tool_description(k: ToolKind) -> Seq<char> {
    match k {
        ToolKind::RunProject => "Run the game (editor play main scene)"@,
        ToolKind::StopProject => "Stop the running game instance"@,
        ToolKind::GetOutputLog => "Get last N log lines from editor/game output"@,
        ToolKind::GetLastErrors => "Get structured parse of recent errors (file, line, message)"@,
        ToolKind::GetSceneTree => "Get scene tree: node paths and types. scene=current or scene path"@,
        ToolKind::GetSelectedNodes => "Get currently selected node paths in the scene tree"@,
        ToolKind::GetNodeProperties => "Get key properties and metadata for a node by path"@,
        ToolKind::SetNodeProperty => "Set a node property. path=node path, property=name, value=JSON value"@,
        ToolKind::GetOpenScenes => "Get list of open scene file paths"@,
        ToolKind::GetCurrentScene => "Get current (edited) scene file path"@,
    }
}

/// The declared parameters of each tool: name, whether required, and the
/// kind of value expected.
pub open spec fn spec_tool_params(k: ToolKind) -> Seq<(Seq<char>, bool, ParamKind)> {
    match k {
        ToolKind::RunProject => seq![],
        ToolKind::StopProject => seq![],
        ToolKind::GetOutputLog => seq![("tail"@, false, ParamKind::Integer)],
        ToolKind::GetLastErrors => seq![],
        ToolKind::GetSceneTree => seq![("scene"@, false, ParamKind::Text)],
        ToolKind::GetSelectedNodes => seq![],
        ToolKind::GetNodeProperties => seq![("node_path"@, true, ParamKind::Text)],
        ToolKind::SetNodeProperty => seq![
            ("path"@, true, ParamKind::Text),
            ("property"@, true, ParamKind::Text),
            ("value"@, true, ParamKind::Json),
        ],
        ToolKind::GetOpenScenes => seq![],
        ToolKind::GetCurrentScene => seq![],
    }
}

/// The plain view of one declared parameter.
pub open spec fn param_decl_view(p: ParamDecl) -> (Seq<char>, bool, ParamKind) {
    (p.name@, p.required, p.kind)
}

/// Name lookup over the registration table, in registration order.
pub open spec fn spec_lookup(name: Seq<char>) -> Option<ToolKind> {
    if name == "run_project"@ {
        Some(ToolKind::RunProject)
    } else if name == "stop_project"@ {
        Some(ToolKind::StopProject)
    } else if name == "get_output_log"@ {
        Some(ToolKind::GetOutputLog)
    } else if name == "get_last_errors"@ {
        Some(ToolKind::GetLastErrors)
    } else if name == "get_scene_tree"@ {
        Some(ToolKind::GetSceneTree)
    } else if name == "get_selected_nodes"@ {
        Some(ToolKind::GetSelectedNodes)
    } else if name == "get_node_properties"@ {
        Some(ToolKind::GetNodeProperties)
    } else if name == "set_node_property"@ {
        Some(ToolKind::SetNodeProperty)
    } else if name == "get_open_scenes"@ {
        Some(ToolKind::GetOpenScenes)
    } else if name == "get_current_scene"@ {
        Some(ToolKind::GetCurrentScene)
    } else {
        None
    }
}

/// The log tail actually requested: the supplied count, or two hundred
/// lines when the caller leaves it out.
pub open spec fn effective_tail(tail: Option<u32>) -> u32 {
    match tail {
        Some(t) => t,
        None => 200,
    }
}

/// The HTTP method each invocation is bound to: POST for the mutation and
/// the two run controls, GET for every read.
pub open spec fn spec_call_method(call: ToolCall) -> HttpMethod {
    match call {
        ToolCall::RunProject => HttpMethod::Post,
        ToolCall::StopProject => HttpMethod::Post,
        ToolCall::SetNodeProperty { .. } => HttpMethod::Post,
        _ => HttpMethod::Get,
    }
}

/// The relative path each invocation is bound to.
pub open spec fn spec_call_path(call: ToolCall) -> Seq<char> {
    match call {
        ToolCall::RunProject => "/run"@,
        ToolCall::StopProject => "/stop"@,
        ToolCall::GetOutputLog { .. } => "/log"@,
        ToolCall::GetLastErrors => "/errors"@,
        ToolCall::GetSceneTree { .. } => "/scene_tree"@,
        ToolCall::GetSelectedNodes => "/selected"@,
        ToolCall::GetNodeProperties { .. } => "/node/properties"@,
        ToolCall::SetNodeProperty { .. } => "/node/property"@,
        ToolCall::GetOpenScenes => "/open_scenes"@,
        ToolCall::GetCurrentScene => "/current_scene"@,
    }
}

/// The query string each invocation encodes its arguments into: reads pass
/// their arguments as query parameters, everything else sends none.
pub open spec fn spec_call_query(call: ToolCall) -> Seq<(Seq<char>, Seq<char>)> {
    match call {
        ToolCall::GetOutputLog { tail } => seq![
            ("tail"@, dec_str_of(effective_tail(tail) as nat)),
        ],
        ToolCall::GetSceneTree { scene } => match scene {
            Some(s) => seq![("scene"@, s@)],
            None => seq![],
        },
        ToolCall::GetNodeProperties { node_path } => seq![("path"@, node_path@)],
        _ => seq![],
    }
}

/// The JSON body each invocation sends: only the one mutation carries one.
pub open spec fn spec_call_body(call: ToolCall) -> Option<Seq<char>> {
    match call {
        ToolCall::SetNodeProperty { path, property, value_json } => Some(
            set_property_body(path@, property@, value_json@),
        ),
        _ => None,
    }
}

/// The views of a planned query list.
pub open spec fn query_views(q: Seq<(String, String)>) -> Seq<(Seq<char>, Seq<char>)> {
    q.map_values(|p: (String, String)| (p.0@, p.1@))
}

/// The view of a planned body.
pub open spec fn body_view(b: Option<String>) -> Option<Seq<char>> {
    match b {
        Some(s) => Some(s@),
        None => None,
    }
}

/// Looks a tool up by its registered name; exactly the ten registered
/// names are found.
pub fn lookup_tool(name: &str) -> (r: Option<ToolKind>)
    ensures
        r == spec_lookup(name@),
{
    if str_eq(name, "run_project") {
        Some(ToolKind::RunProject)
    } else if str_eq(name, "stop_project") {
        Some(ToolKind::StopProject)
    } else if str_eq(name, "get_output_log") {
        Some(ToolKind::GetOutputLog)
    } else if str_eq(name, "get_last_errors") {
        Some(ToolKind::GetLastErrors)
    } else if str_eq(name, "get_scene_tree") {
        Some(ToolKind::GetSceneTree)
    } else if str_eq(name, "get_selected_nodes") {
        Some(ToolKind::GetSelectedNodes)
    } else if str_eq(name, "get_node_properties") {
        Some(ToolKind::GetNodeProperties)
    } else if str_eq(name, "set_node_property") {
        Some(ToolKind::SetNodeProperty)
    } else if str_eq(name, "get_open_scenes") {
        Some(ToolKind::GetOpenScenes)
    } else if str_eq(name, "get_current_scene") {
        Some(ToolKind::GetCurrentScene)
    } else {
        None
    }
}

/// Registration and lookup agree: looking up a registered tool's name
/// finds exactly that tool, so the ten names are also pairwise distinct.
pub proof fn lemma_lookup_finds_registered(k: ToolKind)
    ensures
        spec_lookup(spec_tool_name(k)) == Some(k),
{
    reveal_strlit("run_project");
    reveal_strlit("stop_project");
    reveal_strlit("get_output_log");
    reveal_strlit("get_last_errors");
    reveal_strlit("get_scene_tree");
    reveal_strlit("get_selected_nodes");
    reveal_strlit("get_node_properties");
    reveal_strlit("set_node_property");
    reveal_strlit("get_open_scenes");
    reveal_strlit("get_current_scene");
    assert("run_project"@.len() == 11);
    assert("stop_project"@.len() == 12);
    assert("get_output_log"@.len() == 14);
    assert("get_last_errors"@.len() == 15);
    assert("get_scene_tree"@.len() == 14);
    assert("get_selected_nodes"@.len() == 18);
    assert("get_node_properties"@.len() == 19);
    assert("set_node_property"@.len() == 17);
    assert("get_open_scenes"@.len() == 15);
    assert("get_current_scene"@.len() == 17);
    match k {
        ToolKind::GetSceneTree => {
            assert("get_scene_tree"@[4] == 's');
            assert("get_output_log"@[4] == 'o');
        },
        ToolKind::GetOpenScenes => {
            assert("get_open_scenes"@[4] == 'o');
            assert("get_last_errors"@[4] == 'l');
        },
        ToolKind::GetCurrentScene => {
            assert("get_current_scene"@[0] == 'g');
            assert("set_node_property"@[0] == 's');
        },
        _ => {},
    }
}

/// Lookup is sound: a name that finds a tool is that tool's registered
/// name.
pub proof fn lemma_lookup_sound(name: Seq<char>, k: ToolKind)
    requires
        spec_lookup(name) == Some(k),
    ensures
        name == spec_tool_name(k),
{
}

/// Builds the registration entry for one tool: its stable name, its
/// description, and its declared parameter list.
pub fn tool_descriptor(k: ToolKind) -> (d: ToolDecl)
    ensures
        d.name@ == spec_tool_name(k),
        d.description@ == spec_tool_description(k),
        d.params@.len() == spec_tool_params(k).len(),
        forall|i: int|
            0 <= i < d.params@.len() ==> param_decl_view(d.params@[i]) == spec_tool_params(k)[i],
{
    match k {
        ToolKind::RunProject => ToolDecl {
            name: "run_project".to_owned(),
            description: "Run the game (editor play main scene)".to_owned(),
            params: Vec::new(),
        },
        ToolKind::StopProject => ToolDecl {
            name: "stop_project".to_owned(),
            description: "Stop the running game instance".to_owned(),
            params: Vec::new(),
        },
        ToolKind::GetOutputLog => {
            let mut params: Vec<ParamDecl> = Vec::new();
            params.push(ParamDecl { name: "tail".to_owned(), required: false, kind: ParamKind::Integer });
            ToolDecl {
                name: "get_output_log".to_owned(),
                description: "Get last N log lines from editor/game output".to_owned(),
                params,
            }
        },
        ToolKind::GetLastErrors => ToolDecl {
            name: "get_last_errors".to_owned(),
            description: "Get structured parse of recent errors (file, line, message)".to_owned(),
            params: Vec::new(),
        },
        ToolKind::GetSceneTree => {
            let mut params: Vec<ParamDecl> = Vec::new();
            params.push(ParamDecl { name: "scene".to_owned(), required: false, kind: ParamKind::Text });
            ToolDecl {
                name: "get_scene_tree".to_owned(),
                description: "Get scene tree: node paths and types. scene=current or scene path".to_owned(),
                params,
            }
        },
        ToolKind::GetSelectedNodes => ToolDecl {
            name: "get_selected_nodes".to_owned(),
            description: "Get currently selected node paths in the scene tree".to_owned(),
            params: Vec::new(),
        },
        ToolKind::GetNodeProperties => {
            let mut params: Vec<ParamDecl> = Vec::new();
            params.push(ParamDecl { name: "node_path".to_owned(), required: true, kind: ParamKind::Text });
            ToolDecl {
                name: "get_node_properties".to_owned(),
                description: "Get key properties and metadata for a node by path".to_owned(),
                params,
            }
        },
        ToolKind::SetNodeProperty => {
            let mut params: Vec<ParamDecl> = Vec::new();
            params.push(ParamDecl { name: "path".to_owned(), required: true, kind: ParamKind::Text });
            params.push(ParamDecl { name: "property".to_owned(), required: true, kind: ParamKind::Text });
            params.push(ParamDecl { name: "value".to_owned(), required: true, kind: ParamKind::Json });
            ToolDecl {
                name: "set_node_property".to_owned(),
                description: "Set a node property. path=node path, property=name, value=JSON value".to_owned(),
                params,
            }
        },
        ToolKind::GetOpenScenes => ToolDecl {
            name: "get_open_scenes".to_owned(),
            description: "Get list of open scene file paths".to_owned(),
            params: Vec::new(),
        },
        ToolKind::GetCurrentScene => ToolDecl {
            name: "get_current_scene".to_owned(),
            description: "Get current (edited) scene file path".to_owned(),
            params: Vec::new(),
        },
    }
}

/// Dispatches one invocation to its bound client operation, producing the
/// single request plan: the registered method and path, arguments encoded
/// as query parameters for reads and as the JSON body for the mutation,
/// and the log tail defaulting to two hundred lines.
pub fn plan_invocation(client: &GodotClient, call: &ToolCall) -> (r: HttpRequest)
    ensures
        r.method == spec_call_method(*call),
        r.url@ == client.base_url@ + spec_call_path(*call),
        query_views(r.query@) == spec_call_query(*call),
        body_view(r.body) == spec_call_body(*call),
{
    let r = match call {
        ToolCall::RunProject => client.run_project(),
        ToolCall::StopProject => client.stop_project(),
        ToolCall::GetOutputLog { tail } => {
            let n: u32 = match tail {
                Some(t) => *t,
                None => 200,
            };
            client.get_output_log(n)
        },
        ToolCall::GetLastErrors => client.get_last_errors(),
        ToolCall::GetSceneTree { scene } => match scene {
            Some(s) => client.get_scene_tree(Some(s.as_str())),
            None => client.get_scene_tree(None),
        },
        ToolCall::GetSelectedNodes => client.get_selected_nodes(),
        ToolCall::GetNodeProperties { node_path } => client.get_node_properties(
            node_path.as_str(),
        ),
        ToolCall::SetNodeProperty { path, property, value_json } => client.set_node_property(
            path.as_str(),
            property.as_str(),
            value_json.as_str(),
        ),
        ToolCall::GetOpenScenes => client.get_open_scenes(),
        ToolCall::GetCurrentScene => client.get_current_scene(),
    };
    proof {
        assert(query_views(r.query@) =~= spec_call_query(*call));
    }
    r
}

/// Wraps a completed outcome into the reply envelope: success text becomes
/// one content item, and a failure message becomes an invalid-parameters
/// error.
pub fn wrap_outcome(outcome: Result<String, String>) -> (r: ToolReply)
    ensures
        outcome matches Ok(t) ==> (r matches ToolReply::Content(c) && c@ == t@),
        outcome matches Err(e) ==> (r matches ToolReply::InvalidParams(m) && m@ == e@),
{
    match outcome {
        Ok(t) => ToolReply::Content(t),
        Err(e) => ToolReply::InvalidParams(e),
    }
}

/// Turns one attempted exchange into the reply envelope, composing the
/// shared outcome rule with the envelope wrapping. Each reply is a
/// function of its own exchange alone.
pub fn conclude(exchange: Result<HttpResponse, String>) -> (r: ToolReply)
    ensures
        spec_outcome(exchange) matches Ok(t) ==> (r matches ToolReply::Content(c) && c@ == t),
        spec_outcome(exchange) matches Err(e) ==> (r matches ToolReply::InvalidParams(m) && m@
            == e),
{
    wrap_outcome(complete(exchange))
}

/// The fixed identity the bridge advertises to the transport at startup.
pub struct ServerIdentity {
    pub name: String,
    pub version: String,
    pub instructions: String,
}

/// Builds the advertised server identity.
pub fn server_identity() -> (s: ServerIdentity)
    ensures
        s.name@ == "godot-mcp"@,
        s.version@ == "0.1.0"@,
        s.instructions@ == "MCP bridge for Godot editor. Requires Godot MCP plugin running in the editor."@,
{
    ServerIdentity {
        name: "godot-mcp".to_owned(),
        version: "0.1.0".to_owned(),
        instructions: "MCP bridge for Godot editor. Requires Godot MCP plugin running in the editor.".to_owned(),
    }
}

} // verus!
