use vstd::prelude::*;

verus! {

/// How the apply engine treats the cluster while applying a rendered document.
#[derive(PartialEq, Eq, Structural, Clone, Copy, Debug)]
pub enum DryRun {
    /// Apply for real.
    Off,
    /// Predict the outcome locally, without sending mutations.
    Client,
    /// Ask the API server to validate and predict, without persisting.
    Server,
    /// Only render the document; no apply engine is involved.
    Render,
}

/// The dry-run modes that the apply engine carries out.
pub open spec fn apply_supports(d: DryRun) -> bool {
    d != DryRun::Render
}

/// Whether a mode mutates the cluster when the apply engine runs under it.
pub open spec fn spec_mutates(d: DryRun) -> bool {
    d == DryRun::Off
}

impl DryRun {
    /// True when the apply engine writes to the cluster under this mode.
    pub fn mutates(&self) -> (r: bool)
        ensures
            r == spec_mutates(*self),
    {
        match self {
            DryRun::Off => true,
            _ => false,
        }
    }

    /// True when the apply engine carries out this mode.
    pub fn is_supported(&self) -> (r: bool)
        ensures
            r == apply_supports(*self),
    {
        match self {
            DryRun::Render => false,
            _ => true,
        }
    }
}

} // verus!
