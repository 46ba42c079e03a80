//! A session's open targets, their trust status, the explicit override
//! command, and the prompt records that keep a prompt from repeating.
use vstd::prelude::*;
use crate::banner::{banner_visible, banner_visible_spec};
use crate::config::{string_views, ConfigModel, StartupPrompt, TrustConfiguration};
use crate::path::{
    components, is_ancestor_or_self, is_parent_of, is_well_formed, parent_dir, well_formed_path,
};
use crate::prompt::{
    file_decision_status, prompt_owed, untrusted_file_options, untrusted_file_outcome,
    untrusted_file_short_circuit, workspace_options, workspace_options_spec, workspace_prompt_owed,
    PromptState, UntrustedFilePrompt, WorkspaceCommand, WorkspacePrompt,
};
use crate::resolve::{resolve, resolve_spec, Origin};
use crate::status::TrustStatus;

verus! {

/// An open document or workspace.
#[derive(Debug)]
pub struct Target {
    /// The identity the session gave it when it opened.
    pub id: u64,
    pub origin: Origin,
    pub status: TrustStatus,
    pub prompt: PromptState,
    /// For an untrusted file opened into a trusted workspace: that workspace.
    pub workspace: Option<u64>,
    /// Whether the user dismissed the restricted-mode banner.
    pub dismissed: bool,
}

/// Why an operation on a target failed.
#[derive(Clone, Copy, Debug, PartialEq, Eq, Structural)]
pub enum TrustError {
    /// No open document or workspace has this identity.
    InvalidTarget,
    /// The target has no prompt of this kind awaiting a decision.
    NoPromptPending,
}

/// A prompt that the host is asked to show.
#[derive(Debug)]
pub enum PromptRequest {
    /// A restricted workspace or document opened.
    Workspace(Vec<WorkspaceCommand>),
    /// An untrusted file was opened into a trusted workspace.
    UntrustedFile(Vec<UntrustedFilePrompt>),
}

/// What opening a target gives the host.
#[derive(Debug)]
pub struct Opened {
    pub id: u64,
    pub status: TrustStatus,
    pub prompt: Option<PromptRequest>,
}

/// One session of the trust gate.
pub struct TrustSession {
    /// The loaded configuration; directories remembered by the user are added
    /// to its trusted directories for the rest of the session.
    pub config: TrustConfiguration,
    pub targets: Vec<Target>,
    /// Paths that were already prompted for in this session.
    pub prompted: Vec<String>,
    /// The identity the next target gets.
    pub next_id: u64,
}

/// The path of a target that has one.
pub open spec fn origin_path(origin: Origin) -> Option<Seq<char>> {
    match origin {
        Origin::File(p) => Some(p@),
        Origin::Workspace(p) => Some(p@),
        _ => None,
    }
}

/// The directory that trusting a target remembers: for a workspace its
/// folder, for a file its parent; with `parent`, the parent of the target's path.
pub open spec fn is_anchor_of(d: Seq<char>, origin: Origin, parent: bool) -> bool {
    match origin {
        Origin::Workspace(p) => if parent {
            is_parent_of(d, p@)
        } else {
            well_formed_path(p@) && d == p@
        },
        Origin::File(p) => is_parent_of(d, p@),
        _ => false,
    }
}

/// Whether a target has a directory to remember.
pub open spec fn has_anchor(origin: Origin, parent: bool) -> bool {
    match origin {
        Origin::Workspace(p) => well_formed_path(p@) && (parent ==> components(p@).len() > 0),
        Origin::File(p) => well_formed_path(p@) && components(p@).len() > 0,
        _ => false,
    }
}

/// Both are well-formed paths of files in the same directory.
pub open spec fn same_directory(p: Seq<char>, q: Seq<char>) -> bool {
    &&& well_formed_path(p)
    &&& well_formed_path(q)
    &&& components(p).len() > 0
    &&& components(q).len() > 0
    &&& components(p).drop_last() == components(q).drop_last()
}

/// Whether `p` is in a list of paths.
pub open spec fn contains_path(paths: Seq<Seq<char>>, p: Seq<char>) -> bool {
    exists|i: int| 0 <= i < paths.len() && paths[i] == p
}

/// `q` is the parent directory of `p`, or `p` itself where `p` has none.
pub open spec fn parent_or_self(q: Seq<char>, p: Seq<char>) -> bool {
    if well_formed_path(p) && components(p).len() > 0 {
        is_parent_of(q, p)
    } else {
        q == p
    }
}

/// A workspace prompt for the path `p`.
pub open spec fn is_workspace_request(r: Option<PromptRequest>, p: Seq<char>) -> bool {
    match r {
        Some(PromptRequest::Workspace(cmds)) => exists|q: Seq<char>|
            workspace_options_spec(cmds@, p, q) && parent_or_self(q, p),
        _ => false,
    }
}

/// The path of a target that has one.
fn path_of(origin: &Origin) -> (r: Option<&String>)
    ensures
        r is Some <==> origin_path(*origin) is Some,
        r matches Some(p) ==> origin_path(*origin) == Some(p@),
{
    match origin {
        Origin::File(p) => Some(p),
        Origin::Workspace(p) => Some(p),
        _ => None,
    }
}

/// The directory that trusting a target remembers, if it has one.
fn anchor_dir(origin: &Origin, parent: bool) -> (r: Option<String>)
    ensures
        r is Some <==> has_anchor(*origin, parent),
        r matches Some(d) ==> is_anchor_of(d@, *origin, parent),
{
    match origin {
        Origin::File(p) => {
            let r = parent_dir(p.as_str());
            if let Some(d) = &r {
                assert(is_anchor_of(d@, *origin, parent));
            }
            r
        },
        Origin::Workspace(p) => {
            if parent {
                let r = parent_dir(p.as_str());
                if let Some(d) = &r {
                    assert(is_anchor_of(d@, *origin, parent));
                }
                r
            } else if is_well_formed(p.as_str()) {
                let d = p.clone();
                assert(is_anchor_of(d@, *origin, parent));
                Some(d)
            } else {
                None
            }
        },
        _ => None,
    }
}

/// `new` is `old` with `d` added to the trusted directories.
pub open spec fn config_adds(old: ConfigModel, new: ConfigModel, d: Seq<char>) -> bool {
    new == ConfigModel { trusted_directories: old.trusted_directories.push(d), ..old }
}

/// In a well-formed session the target at `i` is the one its identity names.
pub proof fn lemma_index_of_position(s: TrustSession, i: int)
    requires
        s.wf(),
        0 <= i < s.targets@.len(),
    ensures
        s.is_open(s.targets@[i].id),
        s.index_of(s.targets@[i].id) == i,
{
    let id = s.targets@[i].id;
    assert(s.is_open(id));
    let j = s.index_of(id);
    if j != i {
        if j < i {
            assert(s.targets@[j].id != s.targets@[i].id);
        } else {
            assert(s.targets@[i].id != s.targets@[j].id);
        }
    }
}

/// Adding a target leaves every open target open and unchanged.
pub proof fn lemma_push_keeps_targets(old: TrustSession, new: TrustSession, t: Target)
    requires
        old.wf(),
        new.wf(),
        new.targets@ == old.targets@.push(t),
    ensures
        forall|id: u64| #[trigger] old.is_open(id) ==> new.is_open(id) && new.target(id) == old.target(id),
{
    assert forall|id: u64| #[trigger] old.is_open(id) implies new.is_open(id) && new.target(id)
        == old.target(id) by {
        let i = old.index_of(id);
        lemma_index_of_position(new, i);
    }
}

/// Replacing the target at `i` by one with the same identity leaves every
/// other open target open and unchanged.
pub proof fn lemma_update_keeps_targets(old: TrustSession, new: TrustSession, i: int, t: Target)
    requires
        old.wf(),
        new.wf(),
        0 <= i < old.targets@.len(),
        t.id == old.targets@[i].id,
        new.targets@ == old.targets@.update(i, t),
    ensures
        forall|id: u64| #[trigger] old.is_open(id) && id != t.id ==> new.is_open(id) && new.target(id) == old.target(id),
{
    assert forall|id: u64| #[trigger] old.is_open(id) && id != t.id implies new.is_open(id)
        && new.target(id) == old.target(id) by {
        let j = old.index_of(id);
        lemma_index_of_position(new, j);
    }
}

/// Removing the target at `i` closes it and leaves every other open target
/// open and unchanged.
pub proof fn lemma_remove_keeps_targets(old: TrustSession, new: TrustSession, i: int)
    requires
        old.wf(),
        new.wf(),
        0 <= i < old.targets@.len(),
        new.targets@ == old.targets@.remove(i),
    ensures
        !new.is_open(old.targets@[i].id),
        forall|id: u64| #[trigger] old.is_open(id) && id != old.targets@[i].id ==> new.is_open(id)
            && new.target(id) == old.target(id),
{
    let gone = old.targets@[i].id;
    if new.is_open(gone) {
        let k = new.index_of(gone);
        let k0 = if k < i { k } else { k + 1 };
        assert(old.targets@[k0].id == gone);
        if k0 < i {
            assert(old.targets@[k0].id != old.targets@[i].id);
        } else {
            assert(old.targets@[i].id != old.targets@[k0].id);
        }
    }
    assert forall|id: u64| #[trigger] old.is_open(id) && id != gone implies new.is_open(id)
        && new.target(id) == old.target(id) by {
        let j = old.index_of(id);
        let j1 = if j < i { j } else { j - 1 };
        assert(new.targets@[j1] == old.targets@[j]);
        lemma_index_of_position(new, j1);
    }
}

impl TrustSession {
    /// Whether opening a target with this origin now owes a workspace prompt.
    pub open spec fn open_owes_prompt(&self, origin: Origin) -> bool {
        match origin_path(origin) {
            Some(p) => workspace_prompt_owed(
                resolve_spec(origin, self.config@),
                self.config.startup_prompt,
                contains_path(self.prompted_paths(), p),
            ),
            None => false,
        }
    }

    /// What `open` does: `new` is the session after opening `origin` on
    /// `old`, and `r` what the host was given.
    pub open spec fn open_post(old: TrustSession, new: TrustSession, origin: Origin, r: Opened) -> bool {
        let owed = old.open_owes_prompt(origin);
        &&& new.wf()
        &&& r.id == old.next_id
        &&& new.next_id == old.next_id + 1
        &&& r.status == resolve_spec(origin, old.config@)
        &&& new.config@ == old.config@
        &&& new.targets@ == old.targets@.push(
            Target {
                id: r.id,
                origin,
                status: r.status,
                prompt: if owed {
                    PromptState::PromptPending
                } else {
                    PromptState::NoPromptIssued
                },
                workspace: None,
                dismissed: false,
            },
        )
        &&& new.is_open(r.id)
        &&& new.target(r.id) == new.targets@.last()
        &&& forall|id: u64| #[trigger] old.is_open(id) ==> new.is_open(id) && new.target(id) == old.target(id)
        &&& (r.prompt is Some <==> owed)
        &&& owed ==> is_workspace_request(r.prompt, origin_path(origin)->0)
        &&& owed ==> contains_path(new.prompted_paths(), origin_path(origin)->0)
        &&& owed ==> new.prompted_paths() == old.prompted_paths().push(origin_path(origin)->0)
        &&& !owed ==> new.prompted@ == old.prompted@
    }

    /// Opens a document or workspace: resolves its status and, where a
    /// restricted target owes the user a prompt, asks the host for one.
    pub fn open(&mut self, origin: Origin) -> (r: Opened)
        requires
            old(self).wf(),
            old(self).next_id < u64::MAX,
        ensures
            Self::open_post(*old(self), *final(self), origin, r),
    {
        let status = resolve(&origin, &self.config);
        let id = self.next_id;
        let mut request: Option<PromptRequest> = None;
        let mut state = PromptState::NoPromptIssued;
        if let Some(p) = path_of(&origin) {
            let already = self.was_prompted(p);
            if prompt_owed(status, self.config.startup_prompt, already) {
                let parent = match parent_dir(p.as_str()) {
                    Some(q) => q,
                    None => p.clone(),
                };
                let cmds = workspace_options(p.as_str(), parent.as_str());
                assert(workspace_options_spec(cmds@, p@, parent@) && parent_or_self(parent@, p@));
                request = Some(PromptRequest::Workspace(cmds));
                let ghost before = self.prompted_paths();
                self.prompted.push(p.clone());
                assert(self.prompted_paths() =~= before.push(p@));
                assert(self.prompted_paths()[before.len() as int] == p@);
                state = PromptState::PromptPending;
            }
        }
        self.targets.push(
            Target { id, origin, status, prompt: state, workspace: None, dismissed: false },
        );
        self.next_id = id + 1;
        proof {
            lemma_index_of_position(*self, self.targets@.len() - 1);
            lemma_push_keeps_targets(*old(self), *self, self.targets@.last());
        }
        Opened { id, status, prompt: request }
    }

    /// Identities are unique and below `next_id`.
    pub open spec fn wf(&self) -> bool {
        &&& forall|i: int| 0 <= i < self.targets@.len() ==> #[trigger] self.targets@[i].id < self.next_id
        &&& forall|i: int, j: int|
            0 <= i < j < self.targets@.len() ==> #[trigger] self.targets@[i].id != #[trigger] self.targets@[j].id
    }

    /// Whether a target with this identity is open.
    pub open spec fn is_open(&self, id: u64) -> bool {
        exists|i: int| 0 <= i < self.targets@.len() && #[trigger] self.targets@[i].id == id
    }

    /// The position of the open target with this identity.
    pub open spec fn index_of(&self, id: u64) -> int
        recommends
            self.is_open(id),
    {
        choose|i: int| 0 <= i < self.targets@.len() && #[trigger] self.targets@[i].id == id
    }

    /// The open target with this identity.
    pub open spec fn target(&self, id: u64) -> Target
        recommends
            self.is_open(id),
    {
        self.targets@[self.index_of(id)]
    }

    /// Paths already prompted for, as plain values.
    pub open spec fn prompted_paths(&self) -> Seq<Seq<char>> {
        string_views(self.prompted@)
    }

    /// Starts a session on a loaded configuration.
    pub fn new(config: TrustConfiguration) -> (r: Self)
        ensures
            r.wf(),
            r.config@ == config@,
            r.targets@.len() == 0,
            r.prompted@.len() == 0,
            r.next_id == 0,
    {
        TrustSession { config, targets: Vec::new(), prompted: Vec::new(), next_id: 0 }
    }

    /// The position of the target with this identity, if it is open.
    fn find(&self, id: u64) -> (r: Option<usize>)
        requires
            self.wf(),
        ensures
            r is Some <==> self.is_open(id),
            r matches Some(i) ==> i < self.targets@.len() && i == self.index_of(id)
                && self.targets@[i as int].id == id,
    {
        let mut i: usize = 0;
        while i < self.targets.len()
            invariant
                self.wf(),
                i <= self.targets@.len(),
                forall|k: int| 0 <= k < i ==> #[trigger] self.targets@[k].id != id,
            decreases self.targets@.len() - i,
        {
            if self.targets[i].id == id {
                assert(self.is_open(id));
                let ghost j = self.index_of(id);
                assert(j == i as int);
                return Some(i);
            }
            i = i + 1;
        }
        None
    }

    /// Whether `p` was already prompted for.
    fn was_prompted(&self, p: &String) -> (r: bool)
        ensures
            r == contains_path(self.prompted_paths(), p@),
    {
        let mut i: usize = 0;
        while i < self.prompted.len()
            invariant
                i <= self.prompted@.len(),
                forall|k: int| 0 <= k < i ==> #[trigger] self.prompted_paths()[k] != p@,
            decreases self.prompted@.len() - i,
        {
            if self.prompted[i] == *p {
                assert(self.prompted_paths()[i as int] == p@);
                return true;
            }
            i = i + 1;
        }
        false
    }

    /// What applying `status` to the target at `i` does, remembering its
    /// directory (or its parent's, with `parent`) where `remember` asks for it
    /// and the status is `Trusted`; `added` is the directory remembered.
    pub open spec fn apply_post(
        old: TrustSession,
        new: TrustSession,
        i: int,
        status: TrustStatus,
        prompt: PromptState,
        remember: bool,
        parent: bool,
        added: Option<String>,
    ) -> bool {
        let t = old.targets@[i];
        let remembers = remember && status is Trusted && has_anchor(t.origin, parent);
        &&& new.wf()
        &&& new.targets@ == old.targets@.update(i, Target { status, prompt, ..t })
        &&& new.is_open(t.id)
        &&& new.target(t.id) == Target { status, prompt, ..t }
        &&& forall|id: u64| #[trigger] old.is_open(id) && id != t.id ==> new.is_open(id) && new.target(id) == old.target(id)
        &&& new.prompted == old.prompted
        &&& new.next_id == old.next_id
        &&& remembers ==> (added matches Some(d) && is_anchor_of(d@, t.origin, parent)
            && config_adds(old.config@, new.config@, d@))
        &&& !remembers ==> added is None && new.config@ == old.config@
    }

    fn apply(
        &mut self,
        i: usize,
        status: TrustStatus,
        prompt: PromptState,
        remember: bool,
        parent: bool,
    ) -> (added: Option<String>)
        requires
            old(self).wf(),
            i < old(self).targets@.len(),
        ensures
            Self::apply_post(*old(self), *final(self), i as int, status, prompt, remember, parent, added),
    {
        self.targets[i].status = status;
        self.targets[i].prompt = prompt;
        assert(self.targets@ =~= old(self).targets@.update(
            i as int,
            Target { status, prompt, ..old(self).targets@[i as int] },
        ));
        assert(forall|k: int| 0 <= k < self.targets@.len() ==> self.targets@[k].id == old(self).targets@[k].id);
        proof {
            lemma_index_of_position(*self, i as int);
            lemma_update_keeps_targets(*old(self), *self, i as int, self.targets@[i as int]);
        }
        let mut added: Option<String> = None;
        if remember && status.is_trusted() {
            if let Some(d) = anchor_dir(&self.targets[i].origin, parent) {
                let ghost before = self.config@;
                self.config.trusted_directories.push(d.clone());
                assert(self.config@.trusted_directories =~= before.trusted_directories.push(d@));
                added = Some(d);
            }
        }
        added
    }

    /// What `set_trust` does.
    pub open spec fn set_trust_post(
        old: TrustSession,
        new: TrustSession,
        id: u64,
        status: TrustStatus,
        remember: bool,
        r: Result<Option<String>, TrustError>,
    ) -> bool {
        if old.is_open(id) {
            r matches Ok(added) && Self::apply_post(
                old,
                new,
                old.index_of(id),
                status,
                old.target(id).prompt,
                remember,
                false,
                added,
            )
        } else {
            r == Err::<Option<String>, TrustError>(TrustError::InvalidTarget) && new == old
        }
    }

    /// Sets the status of an open target, whatever it resolved to. With
    /// `remember` and `Trusted`, its directory joins the trusted directories
    /// for the rest of the session and is returned, for the host to persist.
    pub fn set_trust(&mut self, id: u64, status: TrustStatus, remember: bool) -> (r: Result<
        Option<String>,
        TrustError,
    >)
        requires
            old(self).wf(),
        ensures
            Self::set_trust_post(*old(self), *final(self), id, status, remember, r),
    {
        match self.find(id) {
            Some(i) => {
                let prompt = self.targets[i].prompt;
                Ok(self.apply(i, status, prompt, remember, false))
            },
            None => Err(TrustError::InvalidTarget),
        }
    }

    /// Whether the target awaits a decision on a workspace prompt.
    pub open spec fn workspace_prompt_pending(&self, id: u64) -> bool {
        self.target(id).prompt == PromptState::PromptPending && self.target(id).workspace is None
    }

    /// What `answer_prompt` does.
    pub open spec fn answer_prompt_post(
        old: TrustSession,
        new: TrustSession,
        id: u64,
        choice: WorkspacePrompt,
        remember: bool,
        r: Result<Option<String>, TrustError>,
    ) -> bool {
        if !old.is_open(id) {
            r == Err::<Option<String>, TrustError>(TrustError::InvalidTarget) && new == old
        } else if !old.workspace_prompt_pending(id) {
            r == Err::<Option<String>, TrustError>(TrustError::NoPromptPending) && new == old
        } else {
            r matches Ok(added) && Self::apply_post(
                old,
                new,
                old.index_of(id),
                if choice == WorkspacePrompt::DontTrust {
                    TrustStatus::Restricted
                } else {
                    TrustStatus::Trusted
                },
                PromptState::PromptAnswered,
                remember,
                choice == WorkspacePrompt::TrustParent,
                added,
            )
        }
    }

    /// Applies the user's decision on a workspace prompt. `Trust` and
    /// `TrustParent` trust the target; with `remember` they add its directory,
    /// or its parent directory, to the trusted directories and return it.
    /// `DontTrust` keeps it restricted. No further prompt comes for it.
    pub fn answer_prompt(&mut self, id: u64, choice: WorkspacePrompt, remember: bool) -> (r: Result<
        Option<String>,
        TrustError,
    >)
        requires
            old(self).wf(),
        ensures
            Self::answer_prompt_post(*old(self), *final(self), id, choice, remember, r),
    {
        match self.find(id) {
            None => Err(TrustError::InvalidTarget),
            Some(i) => {
                if self.targets[i].prompt != PromptState::PromptPending
                    || self.targets[i].workspace.is_some() {
                    return Err(TrustError::NoPromptPending);
                }
                let (status, parent) = match choice {
                    WorkspacePrompt::Trust => (TrustStatus::Trusted, false),
                    WorkspacePrompt::TrustParent => (TrustStatus::Trusted, true),
                    WorkspacePrompt::DontTrust => (TrustStatus::Restricted, false),
                };
                Ok(self.apply(i, status, PromptState::PromptAnswered, remember, parent))
            },
        }
    }

    /// Removes the target at `i`.
    fn remove_at(&mut self, i: usize)
        requires
            old(self).wf(),
            i < old(self).targets@.len(),
        ensures
            final(self).wf(),
            final(self).targets@ == old(self).targets@.remove(i as int),
            final(self).config@ == old(self).config@,
            final(self).prompted == old(self).prompted,
            final(self).next_id == old(self).next_id,
            !final(self).is_open(old(self).targets@[i as int].id),
            forall|id: u64| #[trigger] old(self).is_open(id) && id != old(self).targets@[i as int].id
                ==> final(self).is_open(id) && final(self).target(id) == old(self).target(id),
    {
        self.targets.remove(i);
        assert forall|a: int, b: int|
            0 <= a < b < self.targets@.len() implies #[trigger] self.targets@[a].id
            != #[trigger] self.targets@[b].id by {
            let a0 = if a < i { a } else { a + 1 };
            let b0 = if b < i { b } else { b + 1 };
            assert(old(self).targets@[a0].id != old(self).targets@[b0].id);
        }
        assert forall|a: int| 0 <= a < self.targets@.len() implies #[trigger] self.targets@[a].id
            < self.next_id by {
            let a0 = if a < i { a } else { a + 1 };
            assert(old(self).targets@[a0].id < self.next_id);
        }
        proof {
            lemma_remove_keeps_targets(*old(self), *self, i as int);
        }
    }

    /// Closes an open target, forgetting its status.
    pub fn close(&mut self, id: u64) -> (r: Result<(), TrustError>)
        requires
            old(self).wf(),
        ensures
            final(self).wf(),
            r is Ok <==> old(self).is_open(id),
            r is Err ==> r == Err::<(), TrustError>(TrustError::InvalidTarget) && *final(self)
                == *old(self),
            r is Ok ==> final(self).targets@ == old(self).targets@.remove(old(self).index_of(id))
                && final(self).config@ == old(self).config@ && final(self).prompted
                == old(self).prompted && final(self).next_id == old(self).next_id,
            r is Ok ==> !final(self).is_open(id),
            r is Ok ==> forall|other: u64| #[trigger] old(self).is_open(other) && other != id
                ==> final(self).is_open(other) && final(self).target(other) == old(self).target(other),
    {
        match self.find(id) {
            None => Err(TrustError::InvalidTarget),
            Some(i) => {
                self.remove_at(i);
                Ok(())
            },
        }
    }

    /// Records that the user dismissed the banner of an open target.
    pub fn dismiss_banner(&mut self, id: u64) -> (r: Result<(), TrustError>)
        requires
            old(self).wf(),
        ensures
            final(self).wf(),
            r is Ok <==> old(self).is_open(id),
            r is Err ==> r == Err::<(), TrustError>(TrustError::InvalidTarget) && *final(self)
                == *old(self),
            r is Ok ==> final(self).targets@ == old(self).targets@.update(
                old(self).index_of(id),
                Target { dismissed: true, ..old(self).target(id) },
            ) && final(self).config@ == old(self).config@ && final(self).prompted
                == old(self).prompted && final(self).next_id == old(self).next_id,
    {
        match self.find(id) {
            None => Err(TrustError::InvalidTarget),
            Some(i) => {
                self.targets[i].dismissed = true;
                Ok(())
            },
        }
    }

    /// Whether an open target shows the restricted-mode banner now.
    pub fn banner_of(&self, id: u64) -> (r: Result<bool, TrustError>)
        requires
            self.wf(),
        ensures
            r is Ok <==> self.is_open(id),
            r is Err ==> r == Err::<bool, TrustError>(TrustError::InvalidTarget),
            r matches Ok(b) ==> b == banner_visible_spec(
                self.target(id).status,
                self.config.banner,
                self.target(id).dismissed,
            ),
    {
        match self.find(id) {
            None => Err(TrustError::InvalidTarget),
            Some(i) => Ok(banner_visible(self.targets[i].status, &self.config, self.targets[i].dismissed)),
        }
    }

    /// The status and prompt state that a file opened into the open
    /// workspace `workspace` gets, with `resolved` its own resolution: a
    /// restricted file in a trusted workspace follows the untrusted-files
    /// policy; any other file keeps its resolution.
    pub open spec fn file_open_outcome(&self, workspace: u64, resolved: TrustStatus) -> (
        TrustStatus,
        PromptState,
    ) {
        if self.target(workspace).status is Trusted && resolved is Restricted {
            match untrusted_file_short_circuit(self.config.untrusted_files_policy) {
                Some(choice) => (file_decision_status(choice)->0, PromptState::PromptAnswered),
                None => (TrustStatus::Restricted, PromptState::PromptPending),
            }
        } else {
            (resolved, PromptState::NoPromptIssued)
        }
    }

    /// What `open_untrusted_file` does.
    pub open spec fn open_file_post(
        old: TrustSession,
        new: TrustSession,
        workspace: u64,
        path: String,
        r: Result<Opened, TrustError>,
    ) -> bool {
        if !old.is_open(workspace) {
            r is Err && r->Err_0 == TrustError::InvalidTarget && new == old
        } else {
            let resolved = resolve_spec(Origin::File(path), old.config@);
            let (status, prompt) = old.file_open_outcome(workspace, resolved);
            &&& r matches Ok(opened)
            &&& new.wf()
            &&& opened.id == old.next_id
            &&& opened.status == status
            &&& new.next_id == old.next_id + 1
            &&& new.config@ == old.config@
            &&& new.prompted == old.prompted
            &&& new.targets@ == old.targets@.push(
                Target {
                    id: opened.id,
                    origin: Origin::File(path),
                    status,
                    prompt,
                    workspace: Some(workspace),
                    dismissed: false,
                },
            )
            &&& new.is_open(opened.id)
            &&& new.target(opened.id) == new.targets@.last()
            &&& forall|id: u64| #[trigger] old.is_open(id) ==> new.is_open(id) && new.target(id) == old.target(id)
            &&& (opened.prompt is Some <==> prompt == PromptState::PromptPending)
            &&& prompt == PromptState::PromptPending ==> (opened.prompt matches Some(
                PromptRequest::UntrustedFile(options),
            ) && options@ == seq![
                UntrustedFilePrompt::Open,
                UntrustedFilePrompt::OpenRestricted,
                UntrustedFilePrompt::Cancel,
            ])
        }
    }

    /// Opens the file at `path` into the open workspace `workspace`. A file
    /// that resolves restricted inside a trusted workspace follows the
    /// untrusted-files policy: opened, opened restricted, or a prompt.
    pub fn open_untrusted_file(&mut self, workspace: u64, path: String) -> (r: Result<
        Opened,
        TrustError,
    >)
        requires
            old(self).wf(),
            old(self).next_id < u64::MAX,
        ensures
            Self::open_file_post(*old(self), *final(self), workspace, path, r),
    {
        let w = match self.find(workspace) {
            None => return Err(TrustError::InvalidTarget),
            Some(w) => w,
        };
        let origin = Origin::File(path);
        let resolved = resolve(&origin, &self.config);
        let mut status = resolved;
        let mut prompt = PromptState::NoPromptIssued;
        let mut request: Option<PromptRequest> = None;
        if self.targets[w].status.is_trusted() && !resolved.is_trusted() {
            match untrusted_file_outcome(self.config.untrusted_files_policy) {
                Some(UntrustedFilePrompt::Open) => {
                    status = TrustStatus::Trusted;
                    prompt = PromptState::PromptAnswered;
                },
                Some(_) => {
                    status = TrustStatus::Restricted;
                    prompt = PromptState::PromptAnswered;
                },
                None => {
                    prompt = PromptState::PromptPending;
                    request = Some(PromptRequest::UntrustedFile(untrusted_file_options()));
                },
            }
        }
        let id = self.next_id;
        self.targets.push(
            Target { id, origin, status, prompt, workspace: Some(workspace), dismissed: false },
        );
        self.next_id = id + 1;
        proof {
            lemma_index_of_position(*self, self.targets@.len() - 1);
            lemma_push_keeps_targets(*old(self), *self, self.targets@.last());
        }
        Ok(Opened { id, status, prompt: request })
    }

    /// Whether the target awaits a decision on an untrusted-file prompt.
    pub open spec fn file_prompt_pending(&self, id: u64) -> bool {
        self.target(id).prompt == PromptState::PromptPending && self.target(id).workspace is Some
    }

    /// What `answer_file_prompt` does.
    pub open spec fn answer_file_post(
        old: TrustSession,
        new: TrustSession,
        id: u64,
        choice: UntrustedFilePrompt,
        r: Result<(), TrustError>,
    ) -> bool {
        if !old.is_open(id) {
            r == Err::<(), TrustError>(TrustError::InvalidTarget) && new == old
        } else if !old.file_prompt_pending(id) {
            r == Err::<(), TrustError>(TrustError::NoPromptPending) && new == old
        } else {
            &&& r is Ok
            &&& new.wf()
            &&& new.config@ == old.config@
            &&& new.prompted == old.prompted
            &&& new.next_id == old.next_id
            &&& new.targets@ == match file_decision_status(choice) {
                Some(status) => old.targets@.update(
                    old.index_of(id),
                    Target { status, prompt: PromptState::PromptAnswered, ..old.target(id) },
                ),
                None => old.targets@.remove(old.index_of(id)),
            }
        }
    }

    /// Applies the user's decision on an untrusted-file prompt: `Open` trusts
    /// the file, `OpenRestricted` keeps it restricted, `Cancel` closes it.
    pub fn answer_file_prompt(&mut self, id: u64, choice: UntrustedFilePrompt) -> (r: Result<
        (),
        TrustError,
    >)
        requires
            old(self).wf(),
        ensures
            Self::answer_file_post(*old(self), *final(self), id, choice, r),
    {
        let i = match self.find(id) {
            None => return Err(TrustError::InvalidTarget),
            Some(i) => i,
        };
        if self.targets[i].prompt != PromptState::PromptPending || self.targets[i].workspace.is_none() {
            return Err(TrustError::NoPromptPending);
        }
        match choice {
            UntrustedFilePrompt::Open => {
                self.apply(i, TrustStatus::Trusted, PromptState::PromptAnswered, false, false);
            },
            UntrustedFilePrompt::OpenRestricted => {
                self.apply(i, TrustStatus::Restricted, PromptState::PromptAnswered, false, false);
            },
            UntrustedFilePrompt::Cancel => {
                self.remove_at(i);
            },
        }
        Ok(())
    }

    /// The status of an open target.
    pub fn status_of(&self, id: u64) -> (r: Option<TrustStatus>)
        requires
            self.wf(),
        ensures
            r is Some <==> self.is_open(id),
            r matches Some(s) ==> s == self.target(id).status,
    {
        match self.find(id) {
            Some(i) => Some(self.targets[i].status),
            None => None,
        }
    }
}

/// An override without remembering: the target reads the new status, and
/// the configuration is unchanged, so a fresh resolution of any origin, the
/// target's own included, gives what it gave before.
pub proof fn lemma_override_not_remembered(
    old: TrustSession,
    new: TrustSession,
    id: u64,
    status: TrustStatus,
    r: Result<Option<String>, TrustError>,
    origin: Origin,
)
    requires
        old.wf(),
        old.is_open(id),
        TrustSession::set_trust_post(old, new, id, status, false, r),
    ensures
        r is Ok,
        new.is_open(id),
        new.target(id).status == status,
        resolve_spec(origin, new.config@) == resolve_spec(origin, old.config@),
{
    let i = old.index_of(id);
    assert(new.targets@[i].id == id);
    assert(new.is_open(id));
}

/// Trusting a file's target with `remember`: a new document opened from the
/// same directory resolves `Trusted` and owes no prompt.
pub proof fn lemma_remember_trusts_directory(
    s0: TrustSession,
    s1: TrustSession,
    s2: TrustSession,
    id: u64,
    r: Result<Option<String>, TrustError>,
    p: String,
    q: String,
    opened: Opened,
)
    requires
        s0.wf(),
        s0.is_open(id),
        s0.target(id).origin == Origin::File(p),
        same_directory(p@, q@),
        TrustSession::set_trust_post(s0, s1, id, TrustStatus::Trusted, true, r),
        TrustSession::open_post(s1, s2, Origin::File(q), opened),
    ensures
        opened.status == TrustStatus::Trusted,
        opened.prompt is None,
{
    let added = r->Ok_0;
    let d = added->Some_0;
    let dirs = s1.config@.trusted_directories;
    assert(dirs[dirs.len() - 1] == d@);
    assert(components(q@).drop_last() =~= components(q@).take(components(q@).len() - 1));
    assert(is_ancestor_or_self(dirs[dirs.len() - 1], q@));
}

/// With `Once`, opening the same restricted path twice, where it was not
/// prompted for before, issues exactly one prompt: on the first open.
pub proof fn lemma_prompt_once(
    s0: TrustSession,
    s1: TrustSession,
    s2: TrustSession,
    first: Origin,
    second: Origin,
    r1: Opened,
    r2: Opened,
)
    requires
        s0.wf(),
        s0.config.startup_prompt == StartupPrompt::Once,
        origin_path(first) is Some,
        origin_path(second) == origin_path(first),
        !contains_path(s0.prompted_paths(), origin_path(first)->0),
        resolve_spec(first, s0.config@) == TrustStatus::Restricted,
        TrustSession::open_post(s0, s1, first, r1),
        TrustSession::open_post(s1, s2, second, r2),
    ensures
        r1.prompt is Some,
        r2.prompt is None,
{
    let p = origin_path(first)->0;
    let n = s0.prompted_paths().len() as int;
    assert(s1.prompted_paths()[n] == p);
    assert(contains_path(s1.prompted_paths(), p));
}

} // verus!
