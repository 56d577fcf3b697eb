use vstd::prelude::*;

verus! {

/// The fixed classification of the running binary.
#[derive(Clone, Copy, Debug, PartialEq, Eq, Structural)]
pub enum PlatformClass {
    Desktop,
    Mobile,
}

/// The setup hook, as a strategy chosen once from the platform class.
///
/// The desktop strategy does nothing and always succeeds; the mobile strategy
/// attaches the mobile-only plugin against the live application handle.
#[derive(Clone, Copy, Debug, PartialEq, Eq, Structural)]
pub enum SetupStrategy {
    DesktopSetup,
    MobileSetup,
}

/// The strategy that belongs to a platform class.
pub open spec fn strategy_for(p: PlatformClass) -> SetupStrategy {
    match p {
        PlatformClass::Desktop => SetupStrategy::DesktopSetup,
        PlatformClass::Mobile => SetupStrategy::MobileSetup,
    }
}

impl SetupStrategy {
    /// Selects the setup strategy for the given platform class.
    pub fn for_platform(p: PlatformClass) -> (r: SetupStrategy)
        ensures
            r == strategy_for(p),
    {
        match p {
            PlatformClass::Desktop => SetupStrategy::DesktopSetup,
            PlatformClass::Mobile => SetupStrategy::MobileSetup,
        }
    }
}

} // verus!
