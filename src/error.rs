use vstd::prelude::*;

verus! {

/// Why a bootstrap could not reach the run loop.
#[derive(Debug)]
pub enum BootstrapError {
    /// A registered plugin's initializer failed while building.
    PluginInit { identity: String, cause: String },
    /// A descriptor was registered under an identity that is already taken.
    DuplicatePlugin { identity: String },
    /// The setup hook failed, including a platform attachment it attempted.
    Setup { cause: String },
    /// The builder was already consumed by an earlier build.
    AlreadyConsumed,
}

/// The mathematical value of a [`BootstrapError`].
pub ghost enum ErrorModel {
    PluginInit { identity: Seq<char>, cause: Seq<char> },
    DuplicatePlugin { identity: Seq<char> },
    Setup { cause: Seq<char> },
    AlreadyConsumed,
}

/// The stage a fatal failure is reported against.
#[derive(Clone, Copy, Debug, PartialEq, Eq, Structural)]
pub enum FailureStage {
    /// Registration or building of the plugin set.
    Build,
    /// The setup hook that runs after building.
    Setup,
}

impl View for BootstrapError {
    type V = ErrorModel;

    open spec fn view(&self) -> ErrorModel {
        match self {
            BootstrapError::PluginInit { identity, cause } => ErrorModel::PluginInit {
                identity: identity@,
                cause: cause@,
            },
            BootstrapError::DuplicatePlugin { identity } => ErrorModel::DuplicatePlugin {
                identity: identity@,
            },
            BootstrapError::Setup { cause } => ErrorModel::Setup { cause: cause@ },
            BootstrapError::AlreadyConsumed => ErrorModel::AlreadyConsumed,
        }
    }
}

/// The stage that an error of the given model belongs to.
pub open spec fn stage_of(e: ErrorModel) -> FailureStage {
    match e {
        ErrorModel::Setup { .. } => FailureStage::Setup,
        _ => FailureStage::Build,
    }
}

/// A unit result seen through the error's model.
pub open spec fn unit_result_view(r: Result<(), BootstrapError>) -> Result<(), ErrorModel> {
    match r {
        Ok(()) => Ok(()),
        Err(e) => Err(e@),
    }
}

impl BootstrapError {
    /// The stage a diagnostic for this error names.
    pub fn stage(&self) -> (r: FailureStage)
        ensures
            r == stage_of(self@),
    {
        match self {
            BootstrapError::Setup { .. } => FailureStage::Setup,
            _ => FailureStage::Build,
        }
    }

    /// The plugin identity the error names, if it names one.
    pub fn identity(&self) -> (r: Option<&String>)
        ensures
            r matches Some(s) ==> (match self@ {
                ErrorModel::PluginInit { identity, .. } => s@ == identity,
                ErrorModel::DuplicatePlugin { identity } => s@ == identity,
                _ => false,
            }),
            r is None <==> (self@ is Setup || self@ is AlreadyConsumed),
    {
        match self {
            BootstrapError::PluginInit { identity, .. } => Some(identity),
            BootstrapError::DuplicatePlugin { identity } => Some(identity),
            _ => None,
        }
    }

    /// The underlying cause reported by the failing collaborator, if any.
    pub fn cause(&self) -> (r: Option<&String>)
        ensures
            r matches Some(s) ==> (match self@ {
                ErrorModel::PluginInit { cause, .. } => s@ == cause,
                ErrorModel::Setup { cause } => s@ == cause,
                _ => false,
            }),
            r is None <==> (self@ is DuplicatePlugin || self@ is AlreadyConsumed),
    {
        match self {
            BootstrapError::PluginInit { cause, .. } => Some(cause),
            BootstrapError::Setup { cause } => Some(cause),
            _ => None,
        }
    }
}

} // verus!
