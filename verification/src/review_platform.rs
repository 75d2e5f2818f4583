//! Requests of the review platform commands, and the messages of their failures.

use vstd::prelude::*;

verus! {

/// A request for a repository's review platform snapshot.
#[derive(Debug)]
pub struct ReviewPlatformWorkspaceSnapshotRequest {
    pub repository_path: String,
    pub remote_id: Option<String>,
    pub page: Option<u32>,
    pub per_page: Option<u32>,
}

/// A request for one pull request.
#[derive(Debug)]
pub struct ReviewPlatformPullRequestDetailRequest {
    pub repository_path: String,
    pub remote_id: String,
    pub pull_request_id: String,
}

/// A request for the log of one CI item of a pull request.
#[derive(Debug)]
pub struct ReviewPlatformPullRequestCiLogRequest {
    pub repository_path: String,
    pub remote_id: String,
    pub pull_request_id: String,
    pub ci_item_id: String,
    pub ci_item_name: String,
}

/// The review platform commands.
#[derive(Debug, Clone, Copy, PartialEq, Eq, Structural)]
pub enum ReviewPlatformCommand {
    WorkspaceSnapshot,
    PullRequestDetail,
    PullRequestDetailPage,
    PullRequestCiLog,
    UpdateAuthToken,
    ClearAuthToken,
}

/// What failed, as a command's failure message says it.
pub open spec fn failure_prefix(command: ReviewPlatformCommand) -> Seq<char> {
    match command {
        ReviewPlatformCommand::WorkspaceSnapshot => "Failed to get review platform workspace snapshot: "@,
        ReviewPlatformCommand::PullRequestDetail => "Failed to get review platform pull request detail: "@,
        ReviewPlatformCommand::PullRequestDetailPage => "Failed to get review platform pull request detail page: "@,
        ReviewPlatformCommand::PullRequestCiLog => "Failed to get review platform CI log: "@,
        ReviewPlatformCommand::UpdateAuthToken => "Failed to update review platform auth token: "@,
        ReviewPlatformCommand::ClearAuthToken => "Failed to clear review platform auth token: "@,
    }
}

/// The message with which a command answers the service's error.
pub fn failure_message(command: ReviewPlatformCommand, error: &str) -> (r: String)
    ensures
        r@ == failure_prefix(command) + error@,
{
    let prefix = match command {
        ReviewPlatformCommand::WorkspaceSnapshot => "Failed to get review platform workspace snapshot: ",
        ReviewPlatformCommand::PullRequestDetail => "Failed to get review platform pull request detail: ",
        ReviewPlatformCommand::PullRequestDetailPage => "Failed to get review platform pull request detail page: ",
        ReviewPlatformCommand::PullRequestCiLog => "Failed to get review platform CI log: ",
        ReviewPlatformCommand::UpdateAuthToken => "Failed to update review platform auth token: ",
        ReviewPlatformCommand::ClearAuthToken => "Failed to clear review platform auth token: ",
    };
    String::from_str(prefix).concat(error)
}

} // verus!
