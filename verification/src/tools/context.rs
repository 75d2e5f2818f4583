//! The context of a tool call and the portable facts that can leave the process.

use vstd::prelude::*;
use vstd::hash_map::StringHashMap;
use std::collections::BTreeSet;
use std::path::PathBuf;

verus! {

/// Where a workspace lives.
#[derive(Debug, Clone, Copy, PartialEq, Eq, Structural)]
pub enum ToolWorkspaceKind {
    Local,
    Remote,
}

/// The workspace a session is bound to: its root on this machine, whether it is
/// reached over a remote connection, and the normalized path that identifies it.
#[derive(Debug)]
pub struct WorkspaceBinding {
    pub root_path: PathBuf,
    pub is_remote: bool,
    pub logical_workspace_path: String,
}

/// The tool names that a run may and may not use.
#[derive(Debug)]
pub struct ToolRuntimeRestrictions {
    pub allowed_tool_names: BTreeSet<String>,
    pub denied_tool_names: BTreeSet<String>,
}

impl ToolRuntimeRestrictions {
    /// The allowed and the denied names.
    pub open spec fn names(self) -> (Set<String>, Set<String>) {
        (self.allowed_tool_names@, self.denied_tool_names@)
    }
}

impl Clone for ToolRuntimeRestrictions {
    fn clone(&self) -> (r: Self)
        ensures
            r.names() == self.names(),
    {
        let allowed = self.allowed_tool_names.clone();
        let denied = self.denied_tool_names.clone();
        ToolRuntimeRestrictions { allowed_tool_names: allowed, denied_tool_names: denied }
    }
}

/// A value of a call's extra context data, as far as the framework reads it.
#[derive(Debug)]
pub enum ContextValue {
    Bool(bool),
    Other(String),
}

/// The context of a tool call.
pub struct ToolUseContext {
    pub tool_call_id: Option<String>,
    pub agent_type: Option<String>,
    pub session_id: Option<String>,
    pub dialog_turn_id: Option<String>,
    pub workspace: Option<WorkspaceBinding>,
    pub unlocked_collapsed_tools: Vec<String>,
    pub custom_data: StringHashMap<ContextValue>,
    pub runtime_tool_restrictions: ToolRuntimeRestrictions,
}

/// What a tool call's context says that can travel: identities, the workspace's
/// kind and root, and the restrictions; no runtime handles.
#[derive(Debug)]
pub struct ToolContextFacts {
    pub tool_call_id: Option<String>,
    pub agent_type: Option<String>,
    pub session_id: Option<String>,
    pub dialog_turn_id: Option<String>,
    pub workspace_kind: Option<ToolWorkspaceKind>,
    pub workspace_root: Option<String>,
    pub runtime_tool_restrictions: ToolRuntimeRestrictions,
}

/// The key of the flag that tells whether the primary model understands images.
pub open spec fn image_flag_key() -> Seq<char> {
    "primary_model_supports_image_understanding"@
}

/// Extra context data with no entries.
pub fn empty_custom_data() -> (r: StringHashMap<ContextValue>)
    ensures
        r@ == Map::<Seq<char>, ContextValue>::empty(),
{
    StringHashMap::new()
}

impl ToolUseContext {
    /// Sets the extra context value of `key`.
    pub fn insert_custom_data(&mut self, key: String, value: ContextValue)
        ensures
            final(self).custom_data@ == old(self).custom_data@.insert(key@, value),
            final(self).tool_call_id == old(self).tool_call_id,
            final(self).agent_type == old(self).agent_type,
            final(self).session_id == old(self).session_id,
            final(self).dialog_turn_id == old(self).dialog_turn_id,
            final(self).workspace == old(self).workspace,
            final(self).unlocked_collapsed_tools == old(self).unlocked_collapsed_tools,
            final(self).runtime_tool_restrictions == old(self).runtime_tool_restrictions,
    {
        self.custom_data.insert(key, value);
    }

    /// The workspace's root on this machine, if the call has a workspace.
    pub fn workspace_root(&self) -> (r: Option<&PathBuf>)
        ensures
            match self.workspace {
                Some(w) => r == Some(&w.root_path),
                None => r is None,
            },
    {
        match &self.workspace {
            Some(w) => Some(&w.root_path),
            None => None,
        }
    }

    /// Whether the call's workspace is remote; a call without one is local.
    pub fn is_remote(&self) -> (r: bool)
        ensures
            r == (self.workspace matches Some(w) && w.is_remote),
    {
        match &self.workspace {
            Some(w) => w.is_remote,
            None => false,
        }
    }

    /// The portable facts of the context.
    pub fn to_tool_context_facts(&self) -> (r: ToolContextFacts)
        ensures
            r.tool_call_id == self.tool_call_id,
            r.agent_type == self.agent_type,
            r.session_id == self.session_id,
            r.dialog_turn_id == self.dialog_turn_id,
            r.workspace_kind == (match self.workspace {
                Some(w) => Some(if w.is_remote { ToolWorkspaceKind::Remote } else { ToolWorkspaceKind::Local }),
                None => None,
            }),
            r.workspace_root == (match self.workspace {
                Some(w) => Some(w.logical_workspace_path),
                None => None,
            }),
            r.runtime_tool_restrictions.names() == self.runtime_tool_restrictions.names(),
    {
        let (workspace_kind, workspace_root) = match &self.workspace {
            Some(w) => (
                Some(if w.is_remote { ToolWorkspaceKind::Remote } else { ToolWorkspaceKind::Local }),
                Some(w.logical_workspace_path.clone()),
            ),
            None => (None, None),
        };
        ToolContextFacts {
            tool_call_id: self.tool_call_id.clone(),
            agent_type: self.agent_type.clone(),
            session_id: self.session_id.clone(),
            dialog_turn_id: self.dialog_turn_id.clone(),
            workspace_kind,
            workspace_root,
            runtime_tool_restrictions: self.runtime_tool_restrictions.clone(),
        }
    }

    /// The portable facts of the context (the provider interface's name for
    /// `to_tool_context_facts`).
    pub fn tool_context_facts(&self) -> (r: ToolContextFacts)
        ensures
            r.tool_call_id == self.tool_call_id,
            r.agent_type == self.agent_type,
            r.session_id == self.session_id,
            r.dialog_turn_id == self.dialog_turn_id,
            r.workspace_kind == (match self.workspace {
                Some(w) => Some(if w.is_remote { ToolWorkspaceKind::Remote } else { ToolWorkspaceKind::Local }),
                None => None,
            }),
            r.workspace_root == (match self.workspace {
                Some(w) => Some(w.logical_workspace_path),
                None => None,
            }),
            r.runtime_tool_restrictions.names() == self.runtime_tool_restrictions.names(),
    {
        self.to_tool_context_facts()
    }

    /// Whether the session's primary model accepts images: the boolean flag of the
    /// context data when there is one, and yes when it is missing or not a boolean.
    pub fn primary_model_supports_image_understanding(&self) -> (r: bool)
        ensures
            r == (match self.custom_data@.get(image_flag_key()) {
                Some(ContextValue::Bool(b)) => b,
                _ => true,
            }),
    {
        let key = "primary_model_supports_image_understanding";
        match self.custom_data.get(key) {
            Some(ContextValue::Bool(b)) => *b,
            _ => true,
        }
    }
}

} // verus!
