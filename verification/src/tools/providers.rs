//! The product tools that a provider plan may name, and the tool that each name
//! stands for.

use vstd::prelude::*;
use crate::text::str_eq;

verus! {

/// A built-in product tool, by the implementation that serves it.
#[derive(Debug, Clone, Copy, PartialEq, Eq, Structural)]
pub enum ProductTool {
    LSTool,
    FileReadTool,
    GlobTool,
    GrepTool,
    FileWriteTool,
    FileEditTool,
    DeleteFileTool,
    BashTool,
    TaskTool,
    SkillTool,
    AskUserQuestionTool,
    TodoWriteTool,
    CreatePlanTool,
    CodeReviewTool,
    GetToolSpecTool,
    GetFileDiffTool,
    LogTool,
    TerminalControlTool,
    SessionControlTool,
    SessionMessageTool,
    SessionHistoryTool,
    CronTool,
    WebSearchTool,
    WebFetchTool,
    ListMCPResourcesTool,
    ReadMCPResourceTool,
    ListMCPPromptsTool,
    GetMCPPromptTool,
    GenerativeUITool,
    GitTool,
    ReviewPlatformTool,
    InitMiniAppTool,
    ControlHubTool,
    ComputerUseTool,
    PlaybookTool,
}

/// The name under which a provider plan lists the tool.
pub open spec fn tool_name(tool: ProductTool) -> Seq<char> {
    match tool {
        ProductTool::LSTool => "LS"@,
        ProductTool::FileReadTool => "Read"@,
        ProductTool::GlobTool => "Glob"@,
        ProductTool::GrepTool => "Grep"@,
        ProductTool::FileWriteTool => "Write"@,
        ProductTool::FileEditTool => "Edit"@,
        ProductTool::DeleteFileTool => "Delete"@,
        ProductTool::BashTool => "Bash"@,
        ProductTool::TaskTool => "Task"@,
        ProductTool::SkillTool => "Skill"@,
        ProductTool::AskUserQuestionTool => "AskUserQuestion"@,
        ProductTool::TodoWriteTool => "TodoWrite"@,
        ProductTool::CreatePlanTool => "CreatePlan"@,
        ProductTool::CodeReviewTool => "submit_code_review"@,
        ProductTool::GetToolSpecTool => "GetToolSpec"@,
        ProductTool::GetFileDiffTool => "GetFileDiff"@,
        ProductTool::LogTool => "Log"@,
        ProductTool::TerminalControlTool => "TerminalControl"@,
        ProductTool::SessionControlTool => "SessionControl"@,
        ProductTool::SessionMessageTool => "SessionMessage"@,
        ProductTool::SessionHistoryTool => "SessionHistory"@,
        ProductTool::CronTool => "Cron"@,
        ProductTool::WebSearchTool => "WebSearch"@,
        ProductTool::WebFetchTool => "WebFetch"@,
        ProductTool::ListMCPResourcesTool => "ListMCPResources"@,
        ProductTool::ReadMCPResourceTool => "ReadMCPResource"@,
        ProductTool::ListMCPPromptsTool => "ListMCPPrompts"@,
        ProductTool::GetMCPPromptTool => "GetMCPPrompt"@,
        ProductTool::GenerativeUITool => "GenerativeUI"@,
        ProductTool::GitTool => "Git"@,
        ProductTool::ReviewPlatformTool => "ReviewPlatform"@,
        ProductTool::InitMiniAppTool => "InitMiniApp"@,
        ProductTool::ControlHubTool => "ControlHub"@,
        ProductTool::ComputerUseTool => "ComputerUse"@,
        ProductTool::PlaybookTool => "Playbook"@,
    }
}

/// `name` is the name of a product tool.
pub open spec fn is_product_tool_name(name: Seq<char>) -> bool {
    exists|t: ProductTool| tool_name(t) == name
}

/// The product tool listed under `tool_name`, if any.
pub fn product_tool_for_name(tool_name: &str) -> (r: Option<ProductTool>)
    ensures
        match r {
            Some(t) => self::tool_name(t) == tool_name@,
            None => !is_product_tool_name(tool_name@),
        },
{
    if str_eq(tool_name, "LS") {
        return Some(ProductTool::LSTool);
    }
    if str_eq(tool_name, "Read") {
        return Some(ProductTool::FileReadTool);
    }
    if str_eq(tool_name, "Glob") {
        return Some(ProductTool::GlobTool);
    }
    if str_eq(tool_name, "Grep") {
        return Some(ProductTool::GrepTool);
    }
    if str_eq(tool_name, "Write") {
        return Some(ProductTool::FileWriteTool);
    }
    if str_eq(tool_name, "Edit") {
        return Some(ProductTool::FileEditTool);
    }
    if str_eq(tool_name, "Delete") {
        return Some(ProductTool::DeleteFileTool);
    }
    if str_eq(tool_name, "Bash") {
        return Some(ProductTool::BashTool);
    }
    if str_eq(tool_name, "Task") {
        return Some(ProductTool::TaskTool);
    }
    if str_eq(tool_name, "Skill") {
        return Some(ProductTool::SkillTool);
    }
    if str_eq(tool_name, "AskUserQuestion") {
        return Some(ProductTool::AskUserQuestionTool);
    }
    if str_eq(tool_name, "TodoWrite") {
        return Some(ProductTool::TodoWriteTool);
    }
    if str_eq(tool_name, "CreatePlan") {
        return Some(ProductTool::CreatePlanTool);
    }
    if str_eq(tool_name, "submit_code_review") {
        return Some(ProductTool::CodeReviewTool);
    }
    if str_eq(tool_name, "GetToolSpec") {
        return Some(ProductTool::GetToolSpecTool);
    }
    if str_eq(tool_name, "GetFileDiff") {
        return Some(ProductTool::GetFileDiffTool);
    }
    if str_eq(tool_name, "Log") {
        return Some(ProductTool::LogTool);
    }
    if str_eq(tool_name, "TerminalControl") {
        return Some(ProductTool::TerminalControlTool);
    }
    if str_eq(tool_name, "SessionControl") {
        return Some(ProductTool::SessionControlTool);
    }
    if str_eq(tool_name, "SessionMessage") {
        return Some(ProductTool::SessionMessageTool);
    }
    if str_eq(tool_name, "SessionHistory") {
        return Some(ProductTool::SessionHistoryTool);
    }
    if str_eq(tool_name, "Cron") {
        return Some(ProductTool::CronTool);
    }
    if str_eq(tool_name, "WebSearch") {
        return Some(ProductTool::WebSearchTool);
    }
    if str_eq(tool_name, "WebFetch") {
        return Some(ProductTool::WebFetchTool);
    }
    if str_eq(tool_name, "ListMCPResources") {
        return Some(ProductTool::ListMCPResourcesTool);
    }
    if str_eq(tool_name, "ReadMCPResource") {
        return Some(ProductTool::ReadMCPResourceTool);
    }
    if str_eq(tool_name, "ListMCPPrompts") {
        return Some(ProductTool::ListMCPPromptsTool);
    }
    if str_eq(tool_name, "GetMCPPrompt") {
        return Some(ProductTool::GetMCPPromptTool);
    }
    if str_eq(tool_name, "GenerativeUI") {
        return Some(ProductTool::GenerativeUITool);
    }
    if str_eq(tool_name, "Git") {
        return Some(ProductTool::GitTool);
    }
    if str_eq(tool_name, "ReviewPlatform") {
        return Some(ProductTool::ReviewPlatformTool);
    }
    if str_eq(tool_name, "InitMiniApp") {
        return Some(ProductTool::InitMiniAppTool);
    }
    if str_eq(tool_name, "ControlHub") {
        return Some(ProductTool::ControlHubTool);
    }
    if str_eq(tool_name, "ComputerUse") {
        return Some(ProductTool::ComputerUseTool);
    }
    if str_eq(tool_name, "Playbook") {
        return Some(ProductTool::PlaybookTool);
    }
    assert forall|t: ProductTool| self::tool_name(t) != tool_name@ by {
        match t {
            ProductTool::LSTool => {},
            ProductTool::FileReadTool => {},
            ProductTool::GlobTool => {},
            ProductTool::GrepTool => {},
            ProductTool::FileWriteTool => {},
            ProductTool::FileEditTool => {},
            ProductTool::DeleteFileTool => {},
            ProductTool::BashTool => {},
            ProductTool::TaskTool => {},
            ProductTool::SkillTool => {},
            ProductTool::AskUserQuestionTool => {},
            ProductTool::TodoWriteTool => {},
            ProductTool::CreatePlanTool => {},
            ProductTool::CodeReviewTool => {},
            ProductTool::GetToolSpecTool => {},
            ProductTool::GetFileDiffTool => {},
            ProductTool::LogTool => {},
            ProductTool::TerminalControlTool => {},
            ProductTool::SessionControlTool => {},
            ProductTool::SessionMessageTool => {},
            ProductTool::SessionHistoryTool => {},
            ProductTool::CronTool => {},
            ProductTool::WebSearchTool => {},
            ProductTool::WebFetchTool => {},
            ProductTool::ListMCPResourcesTool => {},
            ProductTool::ReadMCPResourceTool => {},
            ProductTool::ListMCPPromptsTool => {},
            ProductTool::GetMCPPromptTool => {},
            ProductTool::GenerativeUITool => {},
            ProductTool::GitTool => {},
            ProductTool::ReviewPlatformTool => {},
            ProductTool::InitMiniAppTool => {},
            ProductTool::ControlHubTool => {},
            ProductTool::ComputerUseTool => {},
            ProductTool::PlaybookTool => {},
        }
    }
    None
}

/// The product tool listed under `tool_name`; the name must be one of them.
pub fn materialize_tool(tool_name: &str) -> (r: ProductTool)
    requires
        is_product_tool_name(tool_name@),
    ensures
        self::tool_name(r) == tool_name@,
{
    match product_tool_for_name(tool_name) {
        Some(t) => t,
        None => {
            assert(false);
            ProductTool::LSTool
        },
    }
}

/// The product tools listed under `tool_names`, in order; each must name one.
pub fn materialize_tools(tool_names: &[&str]) -> (r: Vec<ProductTool>)
    requires
        forall|i: int| 0 <= i < tool_names@.len() ==> is_product_tool_name(#[trigger] tool_names@[i]@),
    ensures
        r@.len() == tool_names@.len(),
        forall|i: int| 0 <= i < r@.len() ==> tool_name(#[trigger] r@[i]) == tool_names@[i]@,
{
    let mut tools: Vec<ProductTool> = Vec::new();
    let n = tool_names.len();
    let mut i: usize = 0;
    while i < n
        invariant
            n == tool_names@.len(),
            0 <= i <= n,
            tools@.len() == i,
            forall|j: int| 0 <= j < tool_names@.len() ==> is_product_tool_name(#[trigger] tool_names@[j]@),
            forall|j: int| 0 <= j < i ==> tool_name(#[trigger] tools@[j]) == tool_names@[j]@,
        decreases n - i,
    {
        let t = materialize_tool(tool_names[i]);
        tools.push(t);
        i = i + 1;
    }
    tools
}

} // verus!
