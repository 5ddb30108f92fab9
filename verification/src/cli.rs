//! The commands and flags of the `nestr` program as plain data, and the decisions
//! taken on a command before it runs: whether it writes (and so is refused in
//! read-only mode) and which confirmation it needs.

use vstd::prelude::*;

use crate::config::{or_default, AuthKind, CredentialStorage, NoWorkspace, OutputFormat, Profile};
use crate::oauth::DEFAULT_CLIENT_ID;
use crate::text::{push_str, to_owned_string};

verus! {
/// The arguments of `nestr search`.
#[derive(Debug)]
pub struct SearchArgs {
    pub query: String,
    pub within: Option<String>,
    pub limit: Option<u32>,
    pub page: Option<u32>,
    pub clean_text: bool,
}

#[derive(Debug)]
pub enum NestsCmd {
    /// Get one or more nests by id (comma-join multiple).
    Get { ids: String, clean_text: bool, fields_meta: bool, hints: bool },
    /// List the direct children of a nest.
    Children { id: String, search: Option<String>, limit: Option<u32>, page: Option<u32>, clean_text: bool },
    /// Create a nest.
    Create { title: String, parent: Option<String>, purpose: Option<String>, description: Option<String>, labels: Vec<String>, due: Option<String>, assignees: Vec<String> },
    /// Update fields on a nest.
    Update { id: String, title: Option<String>, purpose: Option<String>, description: Option<String>, due: Option<String>, completed: Option<bool>, parent: Option<String>, labels: Vec<String>, assignees: Vec<String> },
    /// Delete a nest (soft delete).
    Delete { id: String },
    /// Move a nest before/after another.
    Reorder { id: String, position: String, related_id: String },
    /// Reorder a set of nests in the workspace to the given order.
    BulkReorder { ids: Vec<String> },
    /// Add or remove a label on a nest.
    Label { cmd: LabelCmd },
}

#[derive(Debug)]
pub enum LabelCmd {
    /// Add a label to a nest.
    Add { id: String, label_id: String },
    /// Remove a label from a nest.
    Remove { id: String, label_id: String },
}

#[derive(Debug)]
pub enum CommentsCmd {
    /// List comments on a nest.
    List { nest_id: String, depth: Option<String> },
    /// Add a comment to a nest.
    Add { nest_id: String, body: String, labels: Vec<String> },
    /// Edit a comment's text.
    Edit { comment_id: String, body: String },
    /// Delete a comment.
    Delete { comment_id: String },
}

#[derive(Debug)]
pub enum InboxCmd {
    /// List inbox items (non-completed by default).
    List { completed_after: Option<String> },
    /// Get one inbox item.
    Get { id: String, clean_text: bool },
    /// Capture a new inbox item.
    Create { title: String, description: Option<String> },
    /// Update an inbox item.
    Update { id: String, title: Option<String>, description: Option<String>, completed: Option<bool> },
    /// Reorder inbox items to the given order.
    Reorder { ids: Vec<String> },
}

#[derive(Debug)]
pub enum PlanCmd {
    /// Show today's plan (nests labelled `now`).
    Today,
    /// Add nests to today's plan.
    Add { ids: Vec<String> },
    /// Remove nests from today's plan.
    Remove { ids: Vec<String> },
}

#[derive(Debug)]
pub enum NotificationsCmd {
    /// List notifications (unread by default).
    List { kind: Option<String>, group: Option<String>, show_read: bool, limit: Option<u32>, skip: Option<u32> },
    /// Mark all notifications as read.
    Read,
}

#[derive(Debug)]
pub enum LabelsCmd {
    /// List workspace labels.
    List { search: Option<String> },
    /// Get one workspace label by id.
    Get { label_id: String },
    /// Personal labels.
    Personal { cmd: PersonalCmd },
}

#[derive(Debug)]
pub enum PersonalCmd {
    /// List your personal labels.
    List { search: Option<String> },
    /// Create a personal label.
    Create { title: String, description: Option<String>, color: Option<String>, icon: Option<String> },
}

#[derive(Debug)]
pub enum ProjectsCmd {
    /// List the workspace's projects.
    List { limit: Option<u32>, clean_text: bool },
}

#[derive(Debug)]
pub enum ExportCmd {
    /// Dump the workspace governance tree as JSON.
    Governance,
    /// Dump the workspace work view as JSON.
    Work,
}

#[derive(Debug)]
pub enum WorkspacesCmd {
    /// List your workspaces.
    List { search: Option<String>, limit: Option<u32>, page: Option<u32> },
    /// Get a workspace by id.
    Get { id: String },
    /// Create a workspace (requires a user-scoped token).
    Create { title: String, purpose: Option<String>, governance: Option<String>, plan: Option<String>, collaborators: Option<String>, apps: Vec<String> },
    /// Show or toggle the active workspace's apps.
    Apps { cmd: Option<AppsCmd> },
    /// Pin the active workspace for this profile (handy for full-account profiles).
    Use { id: String },
}

#[derive(Debug)]
pub enum AppsCmd {
    /// Enable or disable an app (admin).
    SetState { app_id: String, state: String },
}

#[derive(Debug)]
pub enum CirclesCmd {
    /// List circles in the workspace.
    List,
    /// Get a circle by id.
    Get { id: String },
    /// Create a circle (admin).
    Create { title: String, purpose: Option<String>, description: Option<String>, parent: Option<String>, accountabilities: Vec<String>, domains: Vec<String>, labels: Vec<String> },
    /// Update a circle (replaces accountabilities/domains if given) (admin).
    Update { id: String, title: Option<String>, purpose: Option<String>, description: Option<String>, accountabilities: Vec<String>, domains: Vec<String> },
    /// List a circle's roles.
    Roles { id: String },
    /// List a circle's projects.
    Projects { id: String },
    /// List a circle's posts (comments).
    Posts { id: String, depth: Option<String> },
}

#[derive(Debug)]
pub enum RolesCmd {
    /// List all roles in the workspace.
    List,
    /// Get a role by id.
    Get { id: String },
    /// Create a role inside a circle (admin).
    Create { title: String, parent: String, purpose: Option<String>, description: Option<String>, accountabilities: Vec<String>, domains: Vec<String> },
    /// Update a role (replaces accountabilities/domains if given) (admin).
    Update { id: String, title: Option<String>, purpose: Option<String>, description: Option<String>, accountabilities: Vec<String>, domains: Vec<String> },
}

#[derive(Debug)]
pub enum UsersCmd {
    /// List users in the workspace.
    List { search: Option<String>, include_suspended: bool },
    /// Get a user by id.
    Get { id: String },
    /// Add a user to the workspace by email (admin).
    Add { email: String, full_name: Option<String>, language: Option<String> },
    /// Update a user (admin).
    Update { id: String, full_name: Option<String>, email: Option<String>, username: Option<String> },
    /// List the roles a user fills.
    Roles { id: String },
    /// Show or set a user's group membership.
    Groups { cmd: UserGroupsCmd },
}

#[derive(Debug)]
pub enum UserGroupsCmd {
    /// Show a user's groups.
    Show { id: String },
    /// Replace a user's groups (admin).
    Replace { id: String, names: Vec<String> },
}

#[derive(Debug)]
pub enum GroupsCmd {
    /// List groups in the workspace.
    List,
    /// Get a group by id or name.
    Get { id: String },
    /// Create a group (admin).
    Create { name: String },
}

#[derive(Debug)]
pub enum LinksCmd {
    /// List graph links of a nest.
    List { nest_id: String, relation: Option<String>, direction: Option<String>, limit: Option<u32>, page: Option<u32> },
    /// Link a nest to a target (bidirectional).
    Add { nest_id: String, relation: String, target_id: String },
    /// Remove a graph link.
    Remove { nest_id: String, relation: String, target_id: String },
}

#[derive(Debug)]
pub enum InsightsCmd {
    /// List workspace insights (metrics). Filters by user/circle need a Pro plan.
    List { user: Option<String>, circle: Option<String>, include_sub_circles: Option<bool>, end_date: Option<String> },
    /// Get one metric by its type id.
    Get { metric_id: String },
    /// Show a metric's history.
    History { metric_id: String, from: Option<String>, to: Option<String>, limit: Option<u32> },
}

#[derive(Debug)]
pub enum WebhooksCmd {
    /// List the workspace's webhooks.
    List,
    /// Get a webhook by id.
    Get { id: String },
    /// Create a webhook (admin).
    Create { url: String, type_: String, event: String, label: Option<String>, ancestor: Option<String> },
    /// Delete a webhook (admin).
    Delete { id: String },
}

#[derive(Debug)]
pub enum TensionsCmd {
    /// List tensions created by or assigned to you.
    Mine { context: Option<String>, page: Option<u32> },
    /// List tensions awaiting your consent vote.
    AwaitingConsent { context: Option<String>, page: Option<u32> },
    /// List tensions under a circle/role.
    List { nest_id: String, search: Option<String>, limit: Option<u32>, page: Option<u32> },
    /// Get one tension.
    Get { nest_id: String, tension_id: String },
    /// Create a tension under a circle/role.
    Create { nest_id: String, title: String, description: Option<String>, feeling: Option<String>, needs: Option<String> },
    /// Update a tension.
    Update { nest_id: String, tension_id: String, title: Option<String>, description: Option<String>, feeling: Option<String>, needs: Option<String> },
    /// Delete a tension.
    Delete { nest_id: String, tension_id: String },
    /// Show a tension's status + vote tally.
    Status { nest_id: String, tension_id: String },
    /// Submit a draft tension for consent (draft → proposed).
    Submit { nest_id: String, tension_id: String },
    /// Retract a proposed tension (proposed → draft).
    Retract { nest_id: String, tension_id: String },
    /// Record your consent vote.
    Vote { nest_id: String, tension_id: String, decision: String },
    /// Proposal parts of a tension.
    Parts { cmd: PartsCmd },
}

#[derive(Debug)]
pub enum PartsCmd {
    /// List proposal parts.
    List { nest_id: String, tension_id: String },
    /// Propose a new role/circle/policy.
    Add { nest_id: String, tension_id: String, title: String, label: String, purpose: Option<String>, description: Option<String>, parent: Option<String>, accountabilities: Vec<String>, domains: Vec<String>, users: Vec<String>, due: Option<String> },
    /// Edit a proposal part you added.
    Modify { nest_id: String, tension_id: String, part_id: String, title: Option<String>, purpose: Option<String>, description: Option<String>, label: Option<String>, parent: Option<String>, accountabilities: Vec<String>, domains: Vec<String>, users: Vec<String>, due: Option<String> },
    /// Remove a proposal part you added.
    Remove { nest_id: String, tension_id: String, part_id: String },
    /// Propose a change to an existing governance item.
    ProposeUpdate { nest_id: String, tension_id: String, id: String, title: Option<String>, purpose: Option<String>, description: Option<String>, label: Option<String>, parent: Option<String>, accountabilities: Vec<String>, domains: Vec<String>, users: Vec<String>, due: Option<String> },
    /// Propose removing an existing governance item.
    ProposeDelete { nest_id: String, tension_id: String, id: String },
    /// Show the computed diff for a proposal part.
    Changes { nest_id: String, tension_id: String, part_id: String },
    /// Accountabilities/domains of a proposal part.
    Children { cmd: ChildrenCmd },
}

#[derive(Debug)]
pub enum ChildrenCmd {
    /// List a part's children.
    List { nest_id: String, tension_id: String, part_id: String },
    /// Add an accountability/domain to a proposal part.
    Add { nest_id: String, tension_id: String, part_id: String, title: String, label: Option<String> },
    /// Rename a child.
    Update { nest_id: String, tension_id: String, part_id: String, child_id: String, title: String },
    /// Delete a child.
    Delete { nest_id: String, tension_id: String, part_id: String, child_id: String },
}

impl NestsCmd {
    /// The action named when read-only mode refuses this command; none for a command
    /// that only reads.
    pub open spec fn write_action_spec(&self) -> Option<Seq<char>> {
        match self {
            NestsCmd::Get { .. } => None,
            NestsCmd::Children { .. } => None,
            NestsCmd::Create { .. } => Some("nests create"@),
            NestsCmd::Update { .. } => Some("nests update"@),
            NestsCmd::Delete { .. } => Some("nests delete"@),
            NestsCmd::Reorder { .. } => Some("nests reorder"@),
            NestsCmd::BulkReorder { .. } => Some("bulk-reorder"@),
            NestsCmd::Label { .. } => Some("nests label"@),
        }
    }

    /// Whether this command writes, and the action it is named by.
    pub fn write_action(&self) -> (r: Option<&'static str>)
        ensures
            match r {
                Some(a) => self.write_action_spec() == Some(a@),
                None => self.write_action_spec() is None,
            },
    {
        match self {
            NestsCmd::Get { .. } => None,
            NestsCmd::Children { .. } => None,
            NestsCmd::Create { .. } => Some("nests create"),
            NestsCmd::Update { .. } => Some("nests update"),
            NestsCmd::Delete { .. } => Some("nests delete"),
            NestsCmd::Reorder { .. } => Some("nests reorder"),
            NestsCmd::BulkReorder { .. } => Some("bulk-reorder"),
            NestsCmd::Label { .. } => Some("nests label"),
        }
    }

    /// The confirmation a destructive command asks for.
    pub open spec fn confirm_prompt_spec(&self) -> Option<Seq<char>> {
        match self {
            NestsCmd::Delete { id, .. } => Some("Delete nest '"@ + id@ + "'?"@),
            _ => None,
        }
    }

    /// The question put before a destructive command runs (its `--yes` note).
    pub fn confirm_prompt(&self) -> (r: Option<String>)
        ensures
            match r {
                Some(s) => self.confirm_prompt_spec() == Some(s@),
                None => self.confirm_prompt_spec() is None,
            },
    {
        match self {
            NestsCmd::Delete { id, .. } => {
                let mut s = to_owned_string("Delete nest '");
                push_str(&mut s, id.as_str());
                push_str(&mut s, "'?");
                Some(s)
            },
            _ => None,
        }
    }
}

impl CommentsCmd {
    /// The action named when read-only mode refuses this command; none for a command
    /// that only reads.
    pub open spec fn write_action_spec(&self) -> Option<Seq<char>> {
        match self {
            CommentsCmd::List { .. } => None,
            CommentsCmd::Add { .. } => Some("comments add"@),
            CommentsCmd::Edit { .. } => Some("comments edit"@),
            CommentsCmd::Delete { .. } => Some("comments delete"@),
        }
    }

    /// Whether this command writes, and the action it is named by.
    pub fn write_action(&self) -> (r: Option<&'static str>)
        ensures
            match r {
                Some(a) => self.write_action_spec() == Some(a@),
                None => self.write_action_spec() is None,
            },
    {
        match self {
            CommentsCmd::List { .. } => None,
            CommentsCmd::Add { .. } => Some("comments add"),
            CommentsCmd::Edit { .. } => Some("comments edit"),
            CommentsCmd::Delete { .. } => Some("comments delete"),
        }
    }

    /// The confirmation a destructive command asks for.
    pub open spec fn confirm_prompt_spec(&self) -> Option<Seq<char>> {
        match self {
            CommentsCmd::Delete { comment_id, .. } => Some("Delete comment '"@ + comment_id@ + "'?"@),
            _ => None,
        }
    }

    /// The question put before a destructive command runs (its `--yes` note).
    pub fn confirm_prompt(&self) -> (r: Option<String>)
        ensures
            match r {
                Some(s) => self.confirm_prompt_spec() == Some(s@),
                None => self.confirm_prompt_spec() is None,
            },
    {
        match self {
            CommentsCmd::Delete { comment_id, .. } => {
                let mut s = to_owned_string("Delete comment '");
                push_str(&mut s, comment_id.as_str());
                push_str(&mut s, "'?");
                Some(s)
            },
            _ => None,
        }
    }
}

impl InboxCmd {
    /// The action named when read-only mode refuses this command; none for a command
    /// that only reads.
    pub open spec fn write_action_spec(&self) -> Option<Seq<char>> {
        match self {
            InboxCmd::List { .. } => None,
            InboxCmd::Get { .. } => None,
            InboxCmd::Create { .. } => Some("inbox create"@),
            InboxCmd::Update { .. } => Some("inbox update"@),
            InboxCmd::Reorder { .. } => Some("inbox reorder"@),
        }
    }

    /// Whether this command writes, and the action it is named by.
    pub fn write_action(&self) -> (r: Option<&'static str>)
        ensures
            match r {
                Some(a) => self.write_action_spec() == Some(a@),
                None => self.write_action_spec() is None,
            },
    {
        match self {
            InboxCmd::List { .. } => None,
            InboxCmd::Get { .. } => None,
            InboxCmd::Create { .. } => Some("inbox create"),
            InboxCmd::Update { .. } => Some("inbox update"),
            InboxCmd::Reorder { .. } => Some("inbox reorder"),
        }
    }
}

impl PlanCmd {
    /// The action named when read-only mode refuses this command; none for a command
    /// that only reads.
    pub open spec fn write_action_spec(&self) -> Option<Seq<char>> {
        match self {
            PlanCmd::Today => None,
            PlanCmd::Add { .. } => Some("plan add"@),
            PlanCmd::Remove { .. } => Some("plan remove"@),
        }
    }

    /// Whether this command writes, and the action it is named by.
    pub fn write_action(&self) -> (r: Option<&'static str>)
        ensures
            match r {
                Some(a) => self.write_action_spec() == Some(a@),
                None => self.write_action_spec() is None,
            },
    {
        match self {
            PlanCmd::Today => None,
            PlanCmd::Add { .. } => Some("plan add"),
            PlanCmd::Remove { .. } => Some("plan remove"),
        }
    }
}

impl NotificationsCmd {
    /// The action named when read-only mode refuses this command; none for a command
    /// that only reads.
    pub open spec fn write_action_spec(&self) -> Option<Seq<char>> {
        match self {
            NotificationsCmd::List { .. } => None,
            NotificationsCmd::Read => Some("notifications read"@),
        }
    }

    /// Whether this command writes, and the action it is named by.
    pub fn write_action(&self) -> (r: Option<&'static str>)
        ensures
            match r {
                Some(a) => self.write_action_spec() == Some(a@),
                None => self.write_action_spec() is None,
            },
    {
        match self {
            NotificationsCmd::List { .. } => None,
            NotificationsCmd::Read => Some("notifications read"),
        }
    }
}

impl LabelsCmd {
    /// The action named when read-only mode refuses this command; none for a command
    /// that only reads.
    pub open spec fn write_action_spec(&self) -> Option<Seq<char>> {
        match self {
            LabelsCmd::List { .. } => None,
            LabelsCmd::Get { .. } => None,
            LabelsCmd::Personal { cmd, .. } => cmd.write_action_spec(),
        }
    }

    /// Whether this command writes, and the action it is named by.
    pub fn write_action(&self) -> (r: Option<&'static str>)
        ensures
            match r {
                Some(a) => self.write_action_spec() == Some(a@),
                None => self.write_action_spec() is None,
            },
    {
        match self {
            LabelsCmd::List { .. } => None,
            LabelsCmd::Get { .. } => None,
            LabelsCmd::Personal { cmd, .. } => cmd.write_action(),
        }
    }
}

impl PersonalCmd {
    /// The action named when read-only mode refuses this command; none for a command
    /// that only reads.
    pub open spec fn write_action_spec(&self) -> Option<Seq<char>> {
        match self {
            PersonalCmd::List { .. } => None,
            PersonalCmd::Create { .. } => Some("labels personal create"@),
        }
    }

    /// Whether this command writes, and the action it is named by.
    pub fn write_action(&self) -> (r: Option<&'static str>)
        ensures
            match r {
                Some(a) => self.write_action_spec() == Some(a@),
                None => self.write_action_spec() is None,
            },
    {
        match self {
            PersonalCmd::List { .. } => None,
            PersonalCmd::Create { .. } => Some("labels personal create"),
        }
    }
}

impl ProjectsCmd {
    /// The action named when read-only mode refuses this command; none for a command
    /// that only reads.
    pub open spec fn write_action_spec(&self) -> Option<Seq<char>> {
        match self {
            ProjectsCmd::List { .. } => None,
        }
    }

    /// Whether this command writes, and the action it is named by.
    pub fn write_action(&self) -> (r: Option<&'static str>)
        ensures
            match r {
                Some(a) => self.write_action_spec() == Some(a@),
                None => self.write_action_spec() is None,
            },
    {
        match self {
            ProjectsCmd::List { .. } => None,
        }
    }
}

impl ExportCmd {
    /// The action named when read-only mode refuses this command; none for a command
    /// that only reads.
    pub open spec fn write_action_spec(&self) -> Option<Seq<char>> {
        match self {
            ExportCmd::Governance => None,
            ExportCmd::Work => None,
        }
    }

    /// Whether this command writes, and the action it is named by.
    pub fn write_action(&self) -> (r: Option<&'static str>)
        ensures
            match r {
                Some(a) => self.write_action_spec() == Some(a@),
                None => self.write_action_spec() is None,
            },
    {
        match self {
            ExportCmd::Governance => None,
            ExportCmd::Work => None,
        }
    }
}

impl WorkspacesCmd {
    /// The action named when read-only mode refuses this command; none for a command
    /// that only reads.
    pub open spec fn write_action_spec(&self) -> Option<Seq<char>> {
        match self {
            WorkspacesCmd::List { .. } => None,
            WorkspacesCmd::Get { .. } => None,
            WorkspacesCmd::Create { .. } => Some("workspaces create"@),
            WorkspacesCmd::Apps { cmd, .. } => match cmd {
                Some(c) => c.write_action_spec(),
                None => None,
            },
            WorkspacesCmd::Use { .. } => None,
        }
    }

    /// Whether this command writes, and the action it is named by.
    pub fn write_action(&self) -> (r: Option<&'static str>)
        ensures
            match r {
                Some(a) => self.write_action_spec() == Some(a@),
                None => self.write_action_spec() is None,
            },
    {
        match self {
            WorkspacesCmd::List { .. } => None,
            WorkspacesCmd::Get { .. } => None,
            WorkspacesCmd::Create { .. } => Some("workspaces create"),
            WorkspacesCmd::Apps { cmd, .. } => match cmd {
                Some(c) => c.write_action(),
                None => None,
            },
            WorkspacesCmd::Use { .. } => None,
        }
    }
}

impl AppsCmd {
    /// The action named when read-only mode refuses this command; none for a command
    /// that only reads.
    pub open spec fn write_action_spec(&self) -> Option<Seq<char>> {
        match self {
            AppsCmd::SetState { .. } => Some("workspaces apps set"@),
        }
    }

    /// Whether this command writes, and the action it is named by.
    pub fn write_action(&self) -> (r: Option<&'static str>)
        ensures
            match r {
                Some(a) => self.write_action_spec() == Some(a@),
                None => self.write_action_spec() is None,
            },
    {
        match self {
            AppsCmd::SetState { .. } => Some("workspaces apps set"),
        }
    }
}

impl CirclesCmd {
    /// The action named when read-only mode refuses this command; none for a command
    /// that only reads.
    pub open spec fn write_action_spec(&self) -> Option<Seq<char>> {
        match self {
            CirclesCmd::List => None,
            CirclesCmd::Get { .. } => None,
            CirclesCmd::Create { .. } => Some("circles create"@),
            CirclesCmd::Update { .. } => Some("circles update"@),
            CirclesCmd::Roles { .. } => None,
            CirclesCmd::Projects { .. } => None,
            CirclesCmd::Posts { .. } => None,
        }
    }

    /// Whether this command writes, and the action it is named by.
    pub fn write_action(&self) -> (r: Option<&'static str>)
        ensures
            match r {
                Some(a) => self.write_action_spec() == Some(a@),
                None => self.write_action_spec() is None,
            },
    {
        match self {
            CirclesCmd::List => None,
            CirclesCmd::Get { .. } => None,
            CirclesCmd::Create { .. } => Some("circles create"),
            CirclesCmd::Update { .. } => Some("circles update"),
            CirclesCmd::Roles { .. } => None,
            CirclesCmd::Projects { .. } => None,
            CirclesCmd::Posts { .. } => None,
        }
    }
}

impl RolesCmd {
    /// The action named when read-only mode refuses this command; none for a command
    /// that only reads.
    pub open spec fn write_action_spec(&self) -> Option<Seq<char>> {
        match self {
            RolesCmd::List => None,
            RolesCmd::Get { .. } => None,
            RolesCmd::Create { .. } => Some("roles create"@),
            RolesCmd::Update { .. } => Some("roles update"@),
        }
    }

    /// Whether this command writes, and the action it is named by.
    pub fn write_action(&self) -> (r: Option<&'static str>)
        ensures
            match r {
                Some(a) => self.write_action_spec() == Some(a@),
                None => self.write_action_spec() is None,
            },
    {
        match self {
            RolesCmd::List => None,
            RolesCmd::Get { .. } => None,
            RolesCmd::Create { .. } => Some("roles create"),
            RolesCmd::Update { .. } => Some("roles update"),
        }
    }
}

impl UsersCmd {
    /// The action named when read-only mode refuses this command; none for a command
    /// that only reads.
    pub open spec fn write_action_spec(&self) -> Option<Seq<char>> {
        match self {
            UsersCmd::List { .. } => None,
            UsersCmd::Get { .. } => None,
            UsersCmd::Add { .. } => Some("users add"@),
            UsersCmd::Update { .. } => Some("users update"@),
            UsersCmd::Roles { .. } => None,
            UsersCmd::Groups { cmd, .. } => cmd.write_action_spec(),
        }
    }

    /// Whether this command writes, and the action it is named by.
    pub fn write_action(&self) -> (r: Option<&'static str>)
        ensures
            match r {
                Some(a) => self.write_action_spec() == Some(a@),
                None => self.write_action_spec() is None,
            },
    {
        match self {
            UsersCmd::List { .. } => None,
            UsersCmd::Get { .. } => None,
            UsersCmd::Add { .. } => Some("users add"),
            UsersCmd::Update { .. } => Some("users update"),
            UsersCmd::Roles { .. } => None,
            UsersCmd::Groups { cmd, .. } => cmd.write_action(),
        }
    }
}

impl UserGroupsCmd {
    /// The action named when read-only mode refuses this command; none for a command
    /// that only reads.
    pub open spec fn write_action_spec(&self) -> Option<Seq<char>> {
        match self {
            UserGroupsCmd::Show { .. } => None,
            UserGroupsCmd::Replace { .. } => Some("users groups set"@),
        }
    }

    /// Whether this command writes, and the action it is named by.
    pub fn write_action(&self) -> (r: Option<&'static str>)
        ensures
            match r {
                Some(a) => self.write_action_spec() == Some(a@),
                None => self.write_action_spec() is None,
            },
    {
        match self {
            UserGroupsCmd::Show { .. } => None,
            UserGroupsCmd::Replace { .. } => Some("users groups set"),
        }
    }
}

impl GroupsCmd {
    /// The action named when read-only mode refuses this command; none for a command
    /// that only reads.
    pub open spec fn write_action_spec(&self) -> Option<Seq<char>> {
        match self {
            GroupsCmd::List => None,
            GroupsCmd::Get { .. } => None,
            GroupsCmd::Create { .. } => Some("groups create"@),
        }
    }

    /// Whether this command writes, and the action it is named by.
    pub fn write_action(&self) -> (r: Option<&'static str>)
        ensures
            match r {
                Some(a) => self.write_action_spec() == Some(a@),
                None => self.write_action_spec() is None,
            },
    {
        match self {
            GroupsCmd::List => None,
            GroupsCmd::Get { .. } => None,
            GroupsCmd::Create { .. } => Some("groups create"),
        }
    }
}

impl LinksCmd {
    /// The action named when read-only mode refuses this command; none for a command
    /// that only reads.
    pub open spec fn write_action_spec(&self) -> Option<Seq<char>> {
        match self {
            LinksCmd::List { .. } => None,
            LinksCmd::Add { .. } => Some("links add"@),
            LinksCmd::Remove { .. } => Some("links remove"@),
        }
    }

    /// Whether this command writes, and the action it is named by.
    pub fn write_action(&self) -> (r: Option<&'static str>)
        ensures
            match r {
                Some(a) => self.write_action_spec() == Some(a@),
                None => self.write_action_spec() is None,
            },
    {
        match self {
            LinksCmd::List { .. } => None,
            LinksCmd::Add { .. } => Some("links add"),
            LinksCmd::Remove { .. } => Some("links remove"),
        }
    }
}

impl InsightsCmd {
    /// The action named when read-only mode refuses this command; none for a command
    /// that only reads.
    pub open spec fn write_action_spec(&self) -> Option<Seq<char>> {
        match self {
            InsightsCmd::List { .. } => None,
            InsightsCmd::Get { .. } => None,
            InsightsCmd::History { .. } => None,
        }
    }

    /// Whether this command writes, and the action it is named by.
    pub fn write_action(&self) -> (r: Option<&'static str>)
        ensures
            match r {
                Some(a) => self.write_action_spec() == Some(a@),
                None => self.write_action_spec() is None,
            },
    {
        match self {
            InsightsCmd::List { .. } => None,
            InsightsCmd::Get { .. } => None,
            InsightsCmd::History { .. } => None,
        }
    }
}

impl WebhooksCmd {
    /// The action named when read-only mode refuses this command; none for a command
    /// that only reads.
    pub open spec fn write_action_spec(&self) -> Option<Seq<char>> {
        match self {
            WebhooksCmd::List => None,
            WebhooksCmd::Get { .. } => None,
            WebhooksCmd::Create { .. } => Some("webhooks create"@),
            WebhooksCmd::Delete { .. } => Some("webhooks delete"@),
        }
    }

    /// Whether this command writes, and the action it is named by.
    pub fn write_action(&self) -> (r: Option<&'static str>)
        ensures
            match r {
                Some(a) => self.write_action_spec() == Some(a@),
                None => self.write_action_spec() is None,
            },
    {
        match self {
            WebhooksCmd::List => None,
            WebhooksCmd::Get { .. } => None,
            WebhooksCmd::Create { .. } => Some("webhooks create"),
            WebhooksCmd::Delete { .. } => Some("webhooks delete"),
        }
    }

    /// The confirmation a destructive command asks for.
    pub open spec fn confirm_prompt_spec(&self) -> Option<Seq<char>> {
        match self {
            WebhooksCmd::Delete { id, .. } => Some("Delete webhook '"@ + id@ + "'?"@),
            _ => None,
        }
    }

    /// The question put before a destructive command runs (its `--yes` note).
    pub fn confirm_prompt(&self) -> (r: Option<String>)
        ensures
            match r {
                Some(s) => self.confirm_prompt_spec() == Some(s@),
                None => self.confirm_prompt_spec() is None,
            },
    {
        match self {
            WebhooksCmd::Delete { id, .. } => {
                let mut s = to_owned_string("Delete webhook '");
                push_str(&mut s, id.as_str());
                push_str(&mut s, "'?");
                Some(s)
            },
            _ => None,
        }
    }
}

impl TensionsCmd {
    /// The action named when read-only mode refuses this command; none for a command
    /// that only reads.
    pub open spec fn write_action_spec(&self) -> Option<Seq<char>> {
        match self {
            TensionsCmd::Mine { .. } => None,
            TensionsCmd::AwaitingConsent { .. } => None,
            TensionsCmd::List { .. } => None,
            TensionsCmd::Get { .. } => None,
            TensionsCmd::Create { .. } => Some("tensions create"@),
            TensionsCmd::Update { .. } => Some("tensions update"@),
            TensionsCmd::Delete { .. } => Some("tensions delete"@),
            TensionsCmd::Status { .. } => None,
            TensionsCmd::Submit { .. } => Some("tensions submit"@),
            TensionsCmd::Retract { .. } => Some("tensions retract"@),
            TensionsCmd::Vote { .. } => Some("tensions vote"@),
            TensionsCmd::Parts { .. } => None,
        }
    }

    /// Whether this command writes, and the action it is named by.
    pub fn write_action(&self) -> (r: Option<&'static str>)
        ensures
            match r {
                Some(a) => self.write_action_spec() == Some(a@),
                None => self.write_action_spec() is None,
            },
    {
        match self {
            TensionsCmd::Mine { .. } => None,
            TensionsCmd::AwaitingConsent { .. } => None,
            TensionsCmd::List { .. } => None,
            TensionsCmd::Get { .. } => None,
            TensionsCmd::Create { .. } => Some("tensions create"),
            TensionsCmd::Update { .. } => Some("tensions update"),
            TensionsCmd::Delete { .. } => Some("tensions delete"),
            TensionsCmd::Status { .. } => None,
            TensionsCmd::Submit { .. } => Some("tensions submit"),
            TensionsCmd::Retract { .. } => Some("tensions retract"),
            TensionsCmd::Vote { .. } => Some("tensions vote"),
            TensionsCmd::Parts { .. } => None,
        }
    }

    /// The confirmation a destructive command asks for.
    pub open spec fn confirm_prompt_spec(&self) -> Option<Seq<char>> {
        match self {
            TensionsCmd::Delete { tension_id, .. } => Some("Delete tension '"@ + tension_id@ + "'?"@),
            _ => None,
        }
    }

    /// The question put before a destructive command runs (its `--yes` note).
    pub fn confirm_prompt(&self) -> (r: Option<String>)
        ensures
            match r {
                Some(s) => self.confirm_prompt_spec() == Some(s@),
                None => self.confirm_prompt_spec() is None,
            },
    {
        match self {
            TensionsCmd::Delete { tension_id, .. } => {
                let mut s = to_owned_string("Delete tension '");
                push_str(&mut s, tension_id.as_str());
                push_str(&mut s, "'?");
                Some(s)
            },
            _ => None,
        }
    }
}

/// The global flags every command shares.
#[derive(Debug, Clone)]
pub struct GlobalArgs {
    pub profile: Option<String>,
    pub api_key: Option<String>,
    pub host: Option<String>,
    pub output: Option<OutputFormat>,
    pub yes: bool,
    pub read_only: bool,
}

/// What the client needs to refresh an expired token on a 403 and persist the result.
#[derive(Debug, Clone)]
pub struct RefreshContext {
    pub token_url: String,
    pub client_id: String,
    pub profile_name: String,
    pub storage: CredentialStorage,
    pub refresh_token: String,
}

/// Everything a command needs to talk to Nestr for one profile.
#[derive(Debug, Clone)]
pub struct ResolvedConfig {
    pub profile_name: String,
    pub bearer: String,
    pub host: String,
    pub api_base: String,
    pub workspace_id: String,
    pub output: OutputFormat,
    pub refresh: Option<RefreshContext>,
}

impl ResolvedConfig {
    /// The workspace a workspace-scoped command runs in: the profile's, when it has one.
    pub fn require_workspace(&self) -> (r: Result<&str, NoWorkspace>)
        ensures
            r is Ok <==> self.workspace_id@.len() > 0,
            r matches Ok(w) ==> w@ == self.workspace_id@,
            r matches Err(e) ==> e.profile@ == self.profile_name@,
    {
        crate::config::require_workspace(self.profile_name.as_str(), self.workspace_id.as_str())
    }
}

/// The resolved configuration of the profile `name` (after any `--host` override),
/// with its bearer and output format. OAuth profiles that hold a refresh token get a
/// refresh context, so a 403 can refresh and retry once; API-key profiles get none.
pub fn resolved_config(
    name: String,
    profile: &Profile,
    bearer: String,
    output: OutputFormat,
    refresh_token: Option<String>,
) -> (r: ResolvedConfig)
    ensures
        r.profile_name@ == name@,
        r.bearer@ == bearer@,
        r.host@ == profile.host@,
        r.api_base@ == profile.host_trimmed_spec() + "/api"@,
        r.workspace_id@ == profile.workspace_id@,
        r.output == output,
        r.refresh is Some <==> (profile.auth == AuthKind::OAuth && refresh_token is Some),
        r.refresh matches Some(c) ==> {
            &&& c.refresh_token@ == refresh_token->0@
            &&& c.profile_name@ == name@
            &&& c.storage == profile.credential_storage
            &&& c.token_url@ == or_default(profile.oauth_token_url, profile.host_trimmed_spec() + "/oauth/token"@)
            &&& c.client_id@ == or_default(profile.oauth_client_id, DEFAULT_CLIENT_ID@)
        },
{
    let refresh = match profile.auth {
        AuthKind::OAuth => match refresh_token {
            Some(rt) => Some(
                RefreshContext {
                    token_url: profile.token_url(),
                    client_id: profile.client_id(),
                    profile_name: name.clone(),
                    storage: profile.credential_storage,
                    refresh_token: rt,
                },
            ),
            None => None,
        },
        AuthKind::ApiKey => None,
    };
    ResolvedConfig {
        profile_name: name,
        bearer,
        host: profile.host.clone(),
        api_base: profile.api_base(),
        workspace_id: profile.workspace_id.clone(),
        output,
        refresh,
    }
}

} // verus!
