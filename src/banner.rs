//! The restricted-mode banner, recomputed on demand.
use vstd::prelude::*;
use crate::config::{BannerPolicy, TrustConfiguration};
use crate::status::TrustStatus;

verus! {

/// Whether the banner shows for a target with this status.
pub open spec fn banner_visible_spec(status: TrustStatus, banner: BannerPolicy, dismissed: bool) -> bool {
    if status is Trusted {
        false
    } else {
        match banner {
            BannerPolicy::Always => true,
            BannerPolicy::UntilDismissed => !dismissed,
            BannerPolicy::Never => false,
        }
    }
}

/// Whether the restricted-mode banner is shown.
pub fn banner_visible(status: TrustStatus, config: &TrustConfiguration, dismissed: bool) -> (r: bool)
    ensures
        r == banner_visible_spec(status, config.banner, dismissed),
{
    match status {
        TrustStatus::Trusted => false,
        TrustStatus::Restricted => match config.banner {
            BannerPolicy::Always => true,
            BannerPolicy::UntilDismissed => !dismissed,
            BannerPolicy::Never => false,
        },
    }
}

/// A trusted target never shows the banner, whatever the policy and the
/// dismissal flag.
pub proof fn lemma_trusted_hides_banner(banner: BannerPolicy, dismissed: bool)
    ensures
        !banner_visible_spec(TrustStatus::Trusted, banner, dismissed),
{
}

} // verus!
