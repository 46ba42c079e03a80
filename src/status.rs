use vstd::prelude::*;

verus! {

/// Trust status, also known as workspace mode.
#[derive(Clone, Copy, Debug, PartialEq, Eq, Structural)]
pub enum TrustStatus {
    /// Enable all features, equivalent to `true`.
    Trusted,
    /// Safe code browsing, equivalent to `false`.
    Restricted,
}

/// The boolean that stands for a status: `true` exactly for `Trusted`.
pub open spec fn status_to_bool(s: TrustStatus) -> bool {
    s is Trusted
}

/// The status that a boolean stands for.
pub open spec fn status_from_bool(b: bool) -> TrustStatus {
    if b {
        TrustStatus::Trusted
    } else {
        TrustStatus::Restricted
    }
}

impl Default for TrustStatus {
    /// Secure by default: nothing is trusted until decided otherwise.
    fn default() -> (r: Self)
        ensures
            r == TrustStatus::Restricted,
    {
        TrustStatus::Restricted
    }
}

impl From<bool> for TrustStatus {
    fn from(is_trusted: bool) -> (r: Self)
        ensures
            r == status_from_bool(is_trusted),
    {
        if is_trusted {
            TrustStatus::Trusted
        } else {
            TrustStatus::Restricted
        }
    }
}

impl vstd::std_specs::convert::FromSpecImpl<bool> for TrustStatus {
    open spec fn obeys_from_spec() -> bool {
        true
    }

    open spec fn from_spec(v: bool) -> TrustStatus {
        status_from_bool(v)
    }
}

impl From<TrustStatus> for bool {
    fn from(status: TrustStatus) -> (r: bool)
        ensures
            r == status_to_bool(status),
    {
        match status {
            TrustStatus::Trusted => true,
            TrustStatus::Restricted => false,
        }
    }
}

impl vstd::std_specs::convert::FromSpecImpl<TrustStatus> for bool {
    open spec fn obeys_from_spec() -> bool {
        true
    }

    open spec fn from_spec(v: TrustStatus) -> bool {
        status_to_bool(v)
    }
}

impl TrustStatus {
    /// Whether this status enables all features.
    pub fn is_trusted(&self) -> (r: bool)
        ensures
            r == status_to_bool(*self),
    {
        match self {
            TrustStatus::Trusted => true,
            TrustStatus::Restricted => false,
        }
    }

    /// The status's name, as shown to the user.
    pub fn to_string(&self) -> (r: String)
        ensures
            r@ == (if *self is Trusted { "Trusted"@ } else { "Restricted"@ }),
    {
        match self {
            TrustStatus::Trusted => String::from_str("Trusted"),
            TrustStatus::Restricted => String::from_str("Restricted"),
        }
    }
}

/// Converting a status to a boolean and back gives the status again.
pub proof fn lemma_bool_round_trip(s: TrustStatus)
    ensures
        status_from_bool(status_to_bool(s)) == s,
{
}

/// Converting a boolean to a status and back gives the boolean again.
pub proof fn lemma_status_round_trip(b: bool)
    ensures
        status_to_bool(status_from_bool(b)) == b,
{
}

} // verus!
