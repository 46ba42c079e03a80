//! The prompt state machine: when a user prompt is owed, and what it offers.
use vstd::prelude::*;
use crate::config::{StartupPrompt, UntrustedFilesPolicy};
use crate::status::TrustStatus;

verus! {

/// Where a target stands with respect to prompting.
#[derive(Clone, Copy, Debug, PartialEq, Eq, Structural)]
pub enum PromptState {
    /// No prompt was issued for this target.
    NoPromptIssued,
    /// A prompt was issued and awaits the user's decision.
    PromptPending,
    /// The user decided, or the policy decided without asking. Terminal.
    PromptAnswered,
}

/// A choice offered when a restricted workspace opens.
#[derive(Clone, Copy, Debug, PartialEq, Eq, Structural)]
pub enum WorkspacePrompt {
    /// Trust the target.
    Trust,
    /// Trust the target's parent folder.
    TrustParent,
    /// Keep the target restricted.
    DontTrust,
}

/// A choice for an untrusted file opened in a trusted workspace.
#[derive(Clone, Copy, Debug, PartialEq, Eq, Structural)]
pub enum UntrustedFilePrompt {
    /// Open it as part of the trusted workspace.
    Open,
    /// Open it restricted.
    OpenRestricted,
    /// Do not open it.
    Cancel,
}

/// One option of a workspace prompt: the action, the folder it applies to,
/// and a description for the user.
#[derive(Debug)]
pub struct WorkspaceCommand {
    pub action: WorkspacePrompt,
    pub path: String,
    pub description: String,
}

/// Whether opening a target with this status owes the user a prompt.
pub open spec fn workspace_prompt_owed(
    status: TrustStatus,
    startup: StartupPrompt,
    already_prompted: bool,
) -> bool {
    &&& status is Restricted
    &&& startup != StartupPrompt::Never
    &&& (!already_prompted || startup == StartupPrompt::Always)
}

/// Whether opening a target with this status owes the user a prompt.
pub fn prompt_owed(status: TrustStatus, startup: StartupPrompt, already_prompted: bool) -> (r: bool)
    ensures
        r == workspace_prompt_owed(status, startup, already_prompted),
{
    match status {
        TrustStatus::Trusted => false,
        TrustStatus::Restricted => match startup {
            StartupPrompt::Always => true,
            StartupPrompt::Once => !already_prompted,
            StartupPrompt::Never => false,
        },
    }
}

/// The outcome that the policy gives an untrusted file without asking, if any.
pub open spec fn untrusted_file_short_circuit(policy: UntrustedFilesPolicy) -> Option<
    UntrustedFilePrompt,
> {
    match policy {
        UntrustedFilesPolicy::Prompt => None,
        UntrustedFilesPolicy::Open => Some(UntrustedFilePrompt::Open),
        UntrustedFilesPolicy::NewWindowRestricted => Some(UntrustedFilePrompt::OpenRestricted),
    }
}

/// The outcome that the policy gives an untrusted file without asking, if any.
pub fn untrusted_file_outcome(policy: UntrustedFilesPolicy) -> (r: Option<UntrustedFilePrompt>)
    ensures
        r == untrusted_file_short_circuit(policy),
{
    match policy {
        UntrustedFilesPolicy::Prompt => None,
        UntrustedFilesPolicy::Open => Some(UntrustedFilePrompt::Open),
        UntrustedFilesPolicy::NewWindowRestricted => Some(UntrustedFilePrompt::OpenRestricted),
    }
}

/// The status that a decision on an untrusted file gives it, if it opens.
pub open spec fn file_decision_status(choice: UntrustedFilePrompt) -> Option<TrustStatus> {
    match choice {
        UntrustedFilePrompt::Open => Some(TrustStatus::Trusted),
        UntrustedFilePrompt::OpenRestricted => Some(TrustStatus::Restricted),
        UntrustedFilePrompt::Cancel => None,
    }
}

/// The options of a workspace prompt, in order.
pub open spec fn workspace_options_spec(
    r: Seq<WorkspaceCommand>,
    path: Seq<char>,
    parent: Seq<char>,
) -> bool {
    &&& r.len() == 3
    &&& r[0].action == WorkspacePrompt::Trust
    &&& r[0].path@ == path
    &&& r[0].description@ == "Trust this folder"@
    &&& r[1].action == WorkspacePrompt::TrustParent
    &&& r[1].path@ == parent
    &&& r[1].description@ == "Trust the parent folder"@
    &&& r[2].action == WorkspacePrompt::DontTrust
    &&& r[2].path@ == path
    &&& r[2].description@ == "Browse in restricted mode"@
}

/// Builds the options of a workspace prompt for `path`, whose parent folder is `parent`.
pub fn workspace_options(path: &str, parent: &str) -> (r: Vec<WorkspaceCommand>)
    ensures
        workspace_options_spec(r@, path@, parent@),
{
    let mut r: Vec<WorkspaceCommand> = Vec::new();
    r.push(
        WorkspaceCommand {
            action: WorkspacePrompt::Trust,
            path: path.to_owned(),
            description: String::from_str("Trust this folder"),
        },
    );
    r.push(
        WorkspaceCommand {
            action: WorkspacePrompt::TrustParent,
            path: parent.to_owned(),
            description: String::from_str("Trust the parent folder"),
        },
    );
    r.push(
        WorkspaceCommand {
            action: WorkspacePrompt::DontTrust,
            path: path.to_owned(),
            description: String::from_str("Browse in restricted mode"),
        },
    );
    r
}

/// The options of an untrusted-file prompt, in order.
pub fn untrusted_file_options() -> (r: Vec<UntrustedFilePrompt>)
    ensures
        r@ == seq![
            UntrustedFilePrompt::Open,
            UntrustedFilePrompt::OpenRestricted,
            UntrustedFilePrompt::Cancel,
        ],
{
    let r = vec![
        UntrustedFilePrompt::Open,
        UntrustedFilePrompt::OpenRestricted,
        UntrustedFilePrompt::Cancel,
    ];
    assert(r@ =~= seq![
        UntrustedFilePrompt::Open,
        UntrustedFilePrompt::OpenRestricted,
        UntrustedFilePrompt::Cancel,
    ]);
    r
}

} // verus!
