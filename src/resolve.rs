//! The initial trust decision for a newly opened document or workspace.
use vstd::prelude::*;
use crate::config::{default_config, string_views, ConfigModel, TrustConfiguration};
use crate::path::{is_ancestor_or_self, is_ancestor_or_self_of};
use crate::status::{status_from_bool, TrustStatus};

verus! {

/// Where a document or workspace comes from.
#[derive(Debug, PartialEq, Eq)]
pub enum Origin {
    /// An unsaved, in-memory buffer with no backing file.
    Scratch,
    /// A document backed by the file at this path.
    File(String),
    /// A workspace rooted at this folder.
    Workspace(String),
    /// A window with no folder open.
    EmptyWindow,
}

impl Clone for Origin {
    fn clone(&self) -> (r: Self)
        ensures
            r == *self,
    {
        match self {
            Origin::Scratch => Origin::Scratch,
            Origin::File(p) => Origin::File(p.clone()),
            Origin::Workspace(p) => Origin::Workspace(p.clone()),
            Origin::EmptyWindow => Origin::EmptyWindow,
        }
    }
}

/// Some listed directory is `path` or one of its ancestors.
pub open spec fn trusted_by_directories(dirs: Seq<Seq<char>>, path: Seq<char>) -> bool {
    exists|i: int| 0 <= i < dirs.len() && is_ancestor_or_self(#[trigger] dirs[i], path)
}

/// The initial status of a target with this origin under this configuration.
pub open spec fn resolve_spec(origin: Origin, config: ConfigModel) -> TrustStatus {
    match origin {
        Origin::Scratch => status_from_bool(config.trust_scratch_buffers),
        Origin::EmptyWindow => status_from_bool(config.empty_window_trusted),
        Origin::File(p) => status_from_bool(trusted_by_directories(config.trusted_directories, p@)),
        Origin::Workspace(p) => status_from_bool(
            trusted_by_directories(config.trusted_directories, p@),
        ),
    }
}

/// Whether some directory of `dirs` is `path` or one of its ancestors.
pub fn directories_trust(dirs: &Vec<String>, path: &str) -> (r: bool)
    ensures
        r == trusted_by_directories(string_views(dirs@), path@),
{
    let ghost views = string_views(dirs@);
    let mut i: usize = 0;
    while i < dirs.len()
        invariant
            views == string_views(dirs@),
            i <= dirs@.len(),
            forall|k: int| 0 <= k < i ==> !is_ancestor_or_self(#[trigger] views[k], path@),
        decreases dirs@.len() - i,
    {
        if is_ancestor_or_self_of(dirs[i].as_str(), path) {
            assert(is_ancestor_or_self(views[i as int], path@));
            return true;
        }
        i = i + 1;
    }
    false
}

/// Classifies a newly opened target. Pure: the result depends on the
/// arguments alone.
pub fn resolve(origin: &Origin, config: &TrustConfiguration) -> (r: TrustStatus)
    ensures
        r == resolve_spec(*origin, config@),
{
    match origin {
        Origin::Scratch => TrustStatus::from(config.trust_scratch_buffers),
        Origin::EmptyWindow => TrustStatus::from(config.empty_window_trusted),
        Origin::File(p) => TrustStatus::from(
            directories_trust(&config.trusted_directories, p.as_str()),
        ),
        Origin::Workspace(p) => TrustStatus::from(
            directories_trust(&config.trusted_directories, p.as_str()),
        ),
    }
}

/// Resolution has no hidden state: any two results of `resolve` on the same
/// origin and configuration are equal.
pub proof fn lemma_resolve_idempotent(
    origin: Origin,
    config: ConfigModel,
    first: TrustStatus,
    second: TrustStatus,
)
    requires
        first == resolve_spec(origin, config),
        second == resolve_spec(origin, config),
    ensures
        first == second,
{
}

/// Secure by default: under the default configuration no file or folder is
/// trusted, as no directory is listed.
pub proof fn lemma_default_config_restricts_paths(origin: Origin)
    requires
        origin is File || origin is Workspace,
    ensures
        resolve_spec(origin, default_config()) == TrustStatus::Restricted,
{
}

/// A scratch buffer is trusted exactly when the configuration trusts scratch
/// buffers, which the default configuration does.
pub proof fn lemma_scratch_follows_config(config: ConfigModel)
    ensures
        resolve_spec(Origin::Scratch, config) == status_from_bool(config.trust_scratch_buffers),
        resolve_spec(Origin::Scratch, default_config()) == TrustStatus::Trusted,
{
}

} // verus!
