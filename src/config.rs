use vstd::prelude::*;

verus! {

/// How often a restricted workspace asks the user whether to trust it.
#[derive(Clone, Copy, Debug, PartialEq, Eq, Structural)]
pub enum StartupPrompt {
    /// On every open.
    Always,
    /// On the first open of a workspace in a session.
    Once,
    /// Never: the workspace simply stays restricted.
    Never,
}

/// What happens to an untrusted file opened inside a trusted workspace.
#[derive(Clone, Copy, Debug, PartialEq, Eq, Structural)]
pub enum UntrustedFilesPolicy {
    /// Ask the user.
    Prompt,
    /// Open it as part of the trusted workspace, without asking.
    Open,
    /// Open it restricted, without asking.
    NewWindowRestricted,
}

/// When the restricted-mode banner is shown.
#[derive(Clone, Copy, Debug, PartialEq, Eq, Structural)]
pub enum BannerPolicy {
    /// Whenever the target is restricted.
    Always,
    /// While the target is restricted and the user has not dismissed it.
    UntilDismissed,
    /// Never.
    Never,
}

/// The session's trust policy, read-only once loaded.
pub struct TrustConfiguration {
    /// Directories whose descendants are trusted without prompting.
    pub trusted_directories: Vec<String>,
    /// Whether scratch (unsaved, in-memory) buffers are trusted.
    pub trust_scratch_buffers: bool,
    /// Startup prompt cadence.
    pub startup_prompt: StartupPrompt,
    /// Whether a window with no folder open is trusted.
    pub empty_window_trusted: bool,
    /// Handling of untrusted files inside a trusted workspace.
    pub untrusted_files_policy: UntrustedFilesPolicy,
    /// Banner visibility policy.
    pub banner: BannerPolicy,
}

/// The configuration as plain values.
pub struct ConfigModel {
    pub trusted_directories: Seq<Seq<char>>,
    pub trust_scratch_buffers: bool,
    pub startup_prompt: StartupPrompt,
    pub empty_window_trusted: bool,
    pub untrusted_files_policy: UntrustedFilesPolicy,
    pub banner: BannerPolicy,
}

/// The views of a list of strings.
pub open spec fn string_views(v: Seq<String>) -> Seq<Seq<char>> {
    v.map_values(|s: String| s@)
}

impl View for TrustConfiguration {
    type V = ConfigModel;

    open spec fn view(&self) -> ConfigModel {
        ConfigModel {
            trusted_directories: string_views(self.trusted_directories@),
            trust_scratch_buffers: self.trust_scratch_buffers,
            startup_prompt: self.startup_prompt,
            empty_window_trusted: self.empty_window_trusted,
            untrusted_files_policy: self.untrusted_files_policy,
            banner: self.banner,
        }
    }
}

/// The configuration used when none was loaded, or loading failed.
pub open spec fn default_config() -> ConfigModel {
    ConfigModel {
        trusted_directories: Seq::empty(),
        trust_scratch_buffers: true,
        startup_prompt: StartupPrompt::Once,
        empty_window_trusted: true,
        untrusted_files_policy: UntrustedFilesPolicy::Prompt,
        banner: BannerPolicy::UntilDismissed,
    }
}

impl Default for TrustConfiguration {
    fn default() -> (r: Self)
        ensures
            r@ == default_config(),
    {
        let r = TrustConfiguration {
            trusted_directories: Vec::new(),
            trust_scratch_buffers: true,
            startup_prompt: StartupPrompt::Once,
            empty_window_trusted: true,
            untrusted_files_policy: UntrustedFilesPolicy::Prompt,
            banner: BannerPolicy::UntilDismissed,
        };
        assert(r@.trusted_directories =~= Seq::<Seq<char>>::empty());
        r
    }
}

impl Clone for TrustConfiguration {
    fn clone(&self) -> (r: Self)
        ensures
            r@ == self@,
    {
        let mut dirs: Vec<String> = Vec::new();
        let mut i: usize = 0;
        while i < self.trusted_directories.len()
            invariant
                i <= self.trusted_directories@.len(),
                dirs@.len() == i,
                forall|j: int| 0 <= j < i ==> dirs@[j]@ == self.trusted_directories@[j]@,
            decreases self.trusted_directories@.len() - i,
        {
            dirs.push(self.trusted_directories[i].clone());
            i = i + 1;
        }
        assert(string_views(dirs@) =~= string_views(self.trusted_directories@));
        TrustConfiguration {
            trusted_directories: dirs,
            trust_scratch_buffers: self.trust_scratch_buffers,
            startup_prompt: self.startup_prompt,
            empty_window_trusted: self.empty_window_trusted,
            untrusted_files_policy: self.untrusted_files_policy,
            banner: self.banner,
        }
    }
}

} // verus!
