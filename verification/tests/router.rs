use godot_mcp::client::{GodotClient, HttpMethod, HttpResponse};
use godot_mcp::router::{
    conclude, lookup_tool, plan_invocation, server_identity, tool_descriptor, wrap_outcome,
    ParamKind, ToolCall, ToolKind, ToolReply,
};

#[test]
fn lookup_finds_every_registered_tool() {
    assert!(matches!(lookup_tool("run_project"), Some(ToolKind::RunProject)));
    assert!(matches!(lookup_tool("stop_project"), Some(ToolKind::StopProject)));
    assert!(matches!(lookup_tool("get_output_log"), Some(ToolKind::GetOutputLog)));
    assert!(matches!(lookup_tool("get_last_errors"), Some(ToolKind::GetLastErrors)));
    assert!(matches!(lookup_tool("get_scene_tree"), Some(ToolKind::GetSceneTree)));
    assert!(matches!(lookup_tool("get_selected_nodes"), Some(ToolKind::GetSelectedNodes)));
    assert!(matches!(lookup_tool("get_node_properties"), Some(ToolKind::GetNodeProperties)));
    assert!(matches!(lookup_tool("set_node_property"), Some(ToolKind::SetNodeProperty)));
    assert!(matches!(lookup_tool("get_open_scenes"), Some(ToolKind::GetOpenScenes)));
    assert!(matches!(lookup_tool("get_current_scene"), Some(ToolKind::GetCurrentScene)));
}

#[test]
fn lookup_rejects_unregistered_names() {
    assert!(lookup_tool("").is_none());
    assert!(lookup_tool("run").is_none());
    assert!(lookup_tool("run_project2").is_none());
    assert!(lookup_tool("Run_Project").is_none());
}

#[test]
fn descriptors_carry_names_and_descriptions() {
    let d = tool_descriptor(ToolKind::RunProject);
    assert_eq!(d.name, "run_project");
    assert_eq!(d.description, "Run the game (editor play main scene)");
    assert!(d.params.is_empty());

    let d = tool_descriptor(ToolKind::GetOutputLog);
    assert_eq!(d.name, "get_output_log");
    assert_eq!(d.description, "Get last N log lines from editor/game output");
    assert_eq!(d.params.len(), 1);
    assert_eq!(d.params[0].name, "tail");
    assert!(!d.params[0].required);
    assert!(matches!(d.params[0].kind, ParamKind::Integer));
}

#[test]
fn set_node_property_declares_three_required_parameters() {
    let d = tool_descriptor(ToolKind::SetNodeProperty);
    assert_eq!(d.name, "set_node_property");
    assert_eq!(d.params.len(), 3);
    assert_eq!(d.params[0].name, "path");
    assert!(d.params[0].required);
    assert!(matches!(d.params[0].kind, ParamKind::Text));
    assert_eq!(d.params[1].name, "property");
    assert!(d.params[1].required);
    assert!(matches!(d.params[1].kind, ParamKind::Text));
    assert_eq!(d.params[2].name, "value");
    assert!(d.params[2].required);
    assert!(matches!(d.params[2].kind, ParamKind::Json));
}

#[test]
fn scene_tree_and_log_declare_optional_parameters() {
    let d = tool_descriptor(ToolKind::GetSceneTree);
    assert_eq!(d.params.len(), 1);
    assert_eq!(d.params[0].name, "scene");
    assert!(!d.params[0].required);
    assert!(matches!(d.params[0].kind, ParamKind::Text));

    let d = tool_descriptor(ToolKind::GetNodeProperties);
    assert_eq!(d.params.len(), 1);
    assert_eq!(d.params[0].name, "node_path");
    assert!(d.params[0].required);
}

#[test]
fn every_invocation_plans_its_registered_method_and_path() {
    let client = GodotClient::new("http://localhost:4242");
    let cases: Vec<(ToolCall, HttpMethod, &str)> = vec![
        (ToolCall::RunProject, HttpMethod::Post, "http://localhost:4242/run"),
        (ToolCall::StopProject, HttpMethod::Post, "http://localhost:4242/stop"),
        (
            ToolCall::GetOutputLog { tail: Some(10) },
            HttpMethod::Get,
            "http://localhost:4242/log",
        ),
        (ToolCall::GetLastErrors, HttpMethod::Get, "http://localhost:4242/errors"),
        (
            ToolCall::GetSceneTree { scene: None },
            HttpMethod::Get,
            "http://localhost:4242/scene_tree",
        ),
        (ToolCall::GetSelectedNodes, HttpMethod::Get, "http://localhost:4242/selected"),
        (
            ToolCall::GetNodeProperties { node_path: "/Root".to_string() },
            HttpMethod::Get,
            "http://localhost:4242/node/properties",
        ),
        (
            ToolCall::SetNodeProperty {
                path: "/Root".to_string(),
                property: "visible".to_string(),
                value_json: "true".to_string(),
            },
            HttpMethod::Post,
            "http://localhost:4242/node/property",
        ),
        (ToolCall::GetOpenScenes, HttpMethod::Get, "http://localhost:4242/open_scenes"),
        (
            ToolCall::GetCurrentScene,
            HttpMethod::Get,
            "http://localhost:4242/current_scene",
        ),
    ];
    for (call, method, url) in cases {
        let plan = plan_invocation(&client, &call);
        assert_eq!(plan.method, method);
        assert_eq!(plan.url, url);
    }
}

#[test]
fn log_tail_defaults_to_two_hundred() {
    let client = GodotClient::new("http://localhost:4242");
    let plan = plan_invocation(&client, &ToolCall::GetOutputLog { tail: None });
    assert_eq!(plan.query, vec![("tail".to_string(), "200".to_string())]);
    let plan = plan_invocation(&client, &ToolCall::GetOutputLog { tail: Some(25) });
    assert_eq!(plan.query, vec![("tail".to_string(), "25".to_string())]);
}

#[test]
fn scene_parameter_is_sent_exactly_when_given() {
    let client = GodotClient::new("http://localhost:4242");
    let plan = plan_invocation(&client, &ToolCall::GetSceneTree { scene: None });
    assert!(plan.query.is_empty());
    let plan = plan_invocation(
        &client,
        &ToolCall::GetSceneTree { scene: Some("res://a.tscn".to_string()) },
    );
    assert_eq!(plan.query, vec![("scene".to_string(), "res://a.tscn".to_string())]);
}

#[test]
fn set_property_invocation_carries_the_json_body() {
    let client = GodotClient::new("http://localhost:4242");
    let plan = plan_invocation(
        &client,
        &ToolCall::SetNodeProperty {
            path: "/Root/Sprite".to_string(),
            property: "visible".to_string(),
            value_json: "false".to_string(),
        },
    );
    assert_eq!(
        plan.body.as_deref(),
        Some(r#"{"path":"/Root/Sprite","property":"visible","value":false}"#)
    );
}

#[test]
fn successful_exchange_becomes_one_content_item() {
    let reply = conclude(Ok(HttpResponse { status: 200, body: "OK".to_string() }));
    match reply {
        ToolReply::Content(text) => assert_eq!(text, "OK"),
        ToolReply::InvalidParams(_) => panic!("success must not become an error"),
    }
}

#[test]
fn failed_exchange_becomes_invalid_params() {
    let reply = conclude(Ok(HttpResponse { status: 500, body: "boom".to_string() }));
    match reply {
        ToolReply::InvalidParams(message) => assert_eq!(message, "HTTP 500: boom"),
        ToolReply::Content(_) => panic!("failure must not become content"),
    }
}

#[test]
fn transport_error_becomes_invalid_params_with_its_description() {
    let reply = conclude(Err("connection refused".to_string()));
    match reply {
        ToolReply::InvalidParams(message) => assert_eq!(message, "connection refused"),
        ToolReply::Content(_) => panic!("failure must not become content"),
    }
}

#[test]
fn wrap_outcome_keeps_both_sides_verbatim() {
    match wrap_outcome(Ok("payload".to_string())) {
        ToolReply::Content(text) => assert_eq!(text, "payload"),
        ToolReply::InvalidParams(_) => panic!("wrong envelope"),
    }
    match wrap_outcome(Err("why".to_string())) {
        ToolReply::InvalidParams(message) => assert_eq!(message, "why"),
        ToolReply::Content(_) => panic!("wrong envelope"),
    }
}

#[test]
fn concurrent_outcomes_match_their_own_exchange() {
    let client = GodotClient::new("http://localhost:4242");
    let first_plan = plan_invocation(&client, &ToolCall::RunProject);
    let second_plan = plan_invocation(&client, &ToolCall::GetOpenScenes);
    assert_eq!(first_plan.url, "http://localhost:4242/run");
    assert_eq!(second_plan.url, "http://localhost:4242/open_scenes");
    let first = conclude(Ok(HttpResponse { status: 200, body: "started".to_string() }));
    let second = conclude(Ok(HttpResponse { status: 500, body: "boom".to_string() }));
    match (first, second) {
        (ToolReply::Content(a), ToolReply::InvalidParams(b)) => {
            assert_eq!(a, "started");
            assert_eq!(b, "HTTP 500: boom");
        },
        _ => panic!("each outcome must match its own exchange"),
    }
}

#[test]
fn server_identity_is_fixed() {
    let identity = server_identity();
    assert_eq!(identity.name, "godot-mcp");
    assert_eq!(identity.version, "0.1.0");
    assert_eq!(
        identity.instructions,
        "MCP bridge for Godot editor. Requires Godot MCP plugin running in the editor."
    );
}
