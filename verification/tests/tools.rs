use bitfun_logic::tools::context::{
    empty_custom_data, ContextValue, ToolRuntimeRestrictions, ToolUseContext, ToolWorkspaceKind, WorkspaceBinding,
};
use bitfun_logic::tools::providers::{materialize_tool, materialize_tools, product_tool_for_name, ProductTool};
use std::collections::BTreeSet;
use std::path::PathBuf;

fn context(workspace: Option<WorkspaceBinding>) -> ToolUseContext {
    ToolUseContext {
        tool_call_id: Some("call-1".to_string()),
        agent_type: Some("Agentic".to_string()),
        session_id: Some("session-1".to_string()),
        dialog_turn_id: Some("turn-1".to_string()),
        workspace,
        unlocked_collapsed_tools: vec!["WebFetch".to_string()],
        custom_data: empty_custom_data(),
        runtime_tool_restrictions: ToolRuntimeRestrictions {
            allowed_tool_names: BTreeSet::from(["Read".to_string()]),
            denied_tool_names: BTreeSet::from(["Bash".to_string()]),
        },
    }
}

#[test]
fn facts_keep_identities_workspace_and_restrictions() {
    let ctx = context(Some(WorkspaceBinding {
        root_path: PathBuf::from("/repo/project"),
        is_remote: false,
        logical_workspace_path: "/repo/project".to_string(),
    }));
    let facts = ctx.to_tool_context_facts();
    assert_eq!(facts.tool_call_id.as_deref(), Some("call-1"));
    assert_eq!(facts.agent_type.as_deref(), Some("Agentic"));
    assert_eq!(facts.session_id.as_deref(), Some("session-1"));
    assert_eq!(facts.dialog_turn_id.as_deref(), Some("turn-1"));
    assert_eq!(facts.workspace_kind, Some(ToolWorkspaceKind::Local));
    assert_eq!(facts.workspace_root.as_deref(), Some("/repo/project"));
    assert_eq!(facts.runtime_tool_restrictions.allowed_tool_names, BTreeSet::from(["Read".to_string()]));
    assert_eq!(facts.runtime_tool_restrictions.denied_tool_names, BTreeSet::from(["Bash".to_string()]));
    assert!(!ctx.is_remote());
    assert_eq!(ctx.workspace_root(), Some(&PathBuf::from("/repo/project")));
}

#[test]
fn facts_of_a_remote_workspace_use_its_logical_path() {
    let ctx = context(Some(WorkspaceBinding {
        root_path: PathBuf::from("/home/wsp//projects/test/"),
        is_remote: true,
        logical_workspace_path: "/home/wsp/projects/test".to_string(),
    }));
    let facts = ctx.tool_context_facts();
    assert_eq!(facts.workspace_kind, Some(ToolWorkspaceKind::Remote));
    assert_eq!(facts.workspace_root.as_deref(), Some("/home/wsp/projects/test"));
    assert!(ctx.is_remote());
    let none = context(None).to_tool_context_facts();
    assert_eq!(none.workspace_kind, None);
    assert_eq!(none.workspace_root, None);
}

#[test]
fn image_understanding_defaults_to_true() {
    let mut ctx = context(None);
    assert!(ctx.primary_model_supports_image_understanding());
    ctx.insert_custom_data(
        "primary_model_supports_image_understanding".to_string(),
        ContextValue::Other("\"no\"".to_string()),
    );
    assert!(ctx.primary_model_supports_image_understanding());
    ctx.insert_custom_data(
        "primary_model_supports_image_understanding".to_string(),
        ContextValue::Bool(false),
    );
    assert!(!ctx.primary_model_supports_image_understanding());
}

#[test]
fn tool_names_map_to_their_implementations() {
    assert_eq!(materialize_tool("Read"), ProductTool::FileReadTool);
    assert_eq!(materialize_tool("submit_code_review"), ProductTool::CodeReviewTool);
    assert_eq!(materialize_tool("Playbook"), ProductTool::PlaybookTool);
    assert_eq!(product_tool_for_name("read"), None);
    assert_eq!(
        materialize_tools(&["LS", "Bash", "WebFetch"]),
        vec![ProductTool::LSTool, ProductTool::BashTool, ProductTool::WebFetchTool]
    );
}
