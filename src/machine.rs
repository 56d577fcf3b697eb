use vstd::prelude::*;

use crate::error::{BootstrapError, ErrorModel};
use crate::platform::SetupStrategy;
use crate::registry::{identities_of, PluginDescriptor};

verus! {

/// Where a bootstrap stands once its builder was built.
#[derive(Clone, Copy, Debug, PartialEq, Eq, Structural)]
pub enum Phase {
    /// Plugin initializers are being run in registration order.
    Building,
    /// All plugins are live; the mobile setup's attachment is outstanding.
    SettingUp,
    /// Build and setup succeeded: control goes to the run loop.
    Running,
    /// Build or setup failed: the failure is fatal.
    Failed,
}

/// What the driver of a bootstrap must do next.
#[derive(Clone, Copy, Debug, PartialEq, Eq, Structural)]
pub enum Step {
    /// Run the initializer of the plugin at this registration index and hand
    /// its outcome back.
    InitPlugin(usize),
    /// Attach the mobile-only plugin against the live handle and hand the
    /// outcome back.
    AttachMobilePlugin,
    /// Enter the blocking run loop.
    StartRunLoop,
    /// Terminate with the recorded failure.
    ReportFailure,
}

/// A built application on its way to the run loop.
///
/// The bootstrap makes every decision; its driver performs the outside work
/// each [`Step`] names and reports the outcome with [`Bootstrap::on_outcome`].
/// Plugins initialized before a failure are not torn down here: the failure is
/// fatal, and the process ends without entering the run loop.
#[derive(Debug)]
pub struct Bootstrap {
    plugins: Vec<PluginDescriptor>,
    setup: Option<SetupStrategy>,
    done: usize,
    phase: Phase,
    failure: Option<BootstrapError>,
}

/// The mathematical value of a [`Bootstrap`].
pub ghost struct BootstrapModel {
    /// Plugin identities in registration order.
    pub identities: Seq<Seq<char>>,
    /// The installed setup hook.
    pub setup: Option<SetupStrategy>,
    /// How many initializers have succeeded.
    pub done: nat,
    pub phase: Phase,
    pub failure: Option<ErrorModel>,
}

/// The phase reached once every plugin initializer has succeeded: only the
/// mobile setup has an attachment left to make.
pub open spec fn after_plugins(setup: Option<SetupStrategy>) -> Phase {
    match setup {
        Some(SetupStrategy::MobileSetup) => Phase::SettingUp,
        _ => Phase::Running,
    }
}

/// A bootstrap just built from these registrations.
pub open spec fn started(identities: Seq<Seq<char>>, setup: Option<SetupStrategy>) -> BootstrapModel {
    BootstrapModel {
        identities,
        setup,
        done: 0,
        phase: if identities.len() == 0 { after_plugins(setup) } else { Phase::Building },
        failure: None,
    }
}

/// The consistency of a bootstrap's state.
pub open spec fn bootstrap_wf(s: BootstrapModel) -> bool {
    &&& s.done <= s.identities.len()
    &&& s.identities.len() <= usize::MAX
    &&& s.phase == Phase::Building ==> s.done < s.identities.len()
    &&& (s.phase == Phase::SettingUp || s.phase == Phase::Running) ==> s.done
        == s.identities.len()
    &&& (s.phase == Phase::Failed) == (s.failure is Some)
}

/// The step a state calls for.
pub open spec fn step_of(s: BootstrapModel) -> Step {
    match s.phase {
        Phase::Building => Step::InitPlugin(s.done as usize),
        Phase::SettingUp => Step::AttachMobilePlugin,
        Phase::Running => Step::StartRunLoop,
        Phase::Failed => Step::ReportFailure,
    }
}

/// The state after the outcome of the last step was handed back.
///
/// A failed initializer stops the build: no later initializer is asked for.
/// Running and Failed are terminal.
pub open spec fn next_state(s: BootstrapModel, outcome: Result<(), Seq<char>>) -> BootstrapModel {
    match s.phase {
        Phase::Building => match outcome {
            Ok(_) => if s.done + 1 < s.identities.len() {
                BootstrapModel { done: s.done + 1, ..s }
            } else {
                BootstrapModel { done: s.done + 1, phase: after_plugins(s.setup), ..s }
            },
            Err(cause) => BootstrapModel {
                phase: Phase::Failed,
                failure: Some(ErrorModel::PluginInit { identity: s.identities[s.done as int], cause }),
                ..s
            },
        },
        Phase::SettingUp => match outcome {
            Ok(_) => BootstrapModel { phase: Phase::Running, ..s },
            Err(cause) => BootstrapModel {
                phase: Phase::Failed,
                failure: Some(ErrorModel::Setup { cause }),
                ..s
            },
        },
        _ => s,
    }
}

/// The state reached once the outcomes were handed back in turn.
pub open spec fn run_outcomes(s: BootstrapModel, outcomes: Seq<Result<(), Seq<char>>>) -> BootstrapModel
    decreases outcomes.len(),
{
    if outcomes.len() == 0 {
        s
    } else {
        run_outcomes(next_state(s, outcomes[0]), outcomes.drop_first())
    }
}

/// The steps asked of the driver while the outcomes are handed back in turn:
/// the step of the first state, then one step after each outcome.
pub open spec fn trace(s: BootstrapModel, outcomes: Seq<Result<(), Seq<char>>>) -> Seq<Step>
    decreases outcomes.len(),
{
    if outcomes.len() == 0 {
        seq![step_of(s)]
    } else {
        seq![step_of(s)] + trace(next_state(s, outcomes[0]), outcomes.drop_first())
    }
}

/// `n` successful outcomes.
pub open spec fn successes(n: nat) -> Seq<Result<(), Seq<char>>> {
    Seq::new(n, |i: int| Ok(()))
}

/// An outcome handed back by the driver, seen through string views.
pub open spec fn outcome_view(r: Result<(), String>) -> Result<(), Seq<char>> {
    match r {
        Ok(()) => Ok(()),
        Err(c) => Err(c@),
    }
}

impl View for Bootstrap {
    type V = BootstrapModel;

    closed spec fn view(&self) -> BootstrapModel {
        BootstrapModel {
            identities: identities_of(self.plugins@),
            setup: self.setup,
            done: self.done as nat,
            phase: self.phase,
            failure: match self.failure {
                Some(e) => Some(e@),
                None => None,
            },
        }
    }
}

impl Bootstrap {
    /// Starts a bootstrap over the given registrations.
    pub(crate) fn start(plugins: Vec<PluginDescriptor>, setup: Option<SetupStrategy>) -> (r: Bootstrap)
        ensures
            r@ == started(identities_of(plugins@), setup),
            bootstrap_wf(r@),
    {
        let phase = if plugins.len() == 0 {
            Self::phase_after_plugins(setup)
        } else {
            Phase::Building
        };
        Bootstrap { plugins, setup, done: 0, phase, failure: None }
    }

    fn phase_after_plugins(setup: Option<SetupStrategy>) -> (r: Phase)
        ensures
            r == after_plugins(setup),
    {
        match setup {
            Some(SetupStrategy::MobileSetup) => Phase::SettingUp,
            _ => Phase::Running,
        }
    }

    /// The step the current state calls for.
    pub fn step(&self) -> (r: Step)
        requires
            bootstrap_wf(self@),
        ensures
            r == step_of(self@),
    {
        match self.phase {
            Phase::Building => Step::InitPlugin(self.done),
            Phase::SettingUp => Step::AttachMobilePlugin,
            Phase::Running => Step::StartRunLoop,
            Phase::Failed => Step::ReportFailure,
        }
    }

    /// Takes the outcome of the step last returned by [`Bootstrap::step`].
    pub fn on_outcome(&mut self, outcome: Result<(), String>)
        requires
            bootstrap_wf(old(self)@),
        ensures
            final(self)@ == next_state(old(self)@, outcome_view(outcome)),
            bootstrap_wf(final(self)@),
    {
        match self.phase {
            Phase::Building => match outcome {
                Ok(()) => {
                    self.done = self.done + 1;
                    if self.done == self.plugins.len() {
                        self.phase = Self::phase_after_plugins(self.setup);
                    }
                },
                Err(cause) => {
                    let identity = self.plugins[self.done].identity.clone();
                    self.failure = Some(BootstrapError::PluginInit { identity, cause });
                    self.phase = Phase::Failed;
                },
            },
            Phase::SettingUp => match outcome {
                Ok(()) => {
                    self.phase = Phase::Running;
                },
                Err(cause) => {
                    self.failure = Some(BootstrapError::Setup { cause });
                    self.phase = Phase::Failed;
                },
            },
            _ => {},
        }
    }

    /// The current phase.
    pub fn phase(&self) -> (r: Phase)
        ensures
            r == self@.phase,
    {
        self.phase
    }

    /// The recorded failure, present exactly when the phase is Failed.
    pub fn failure(&self) -> (r: Option<&BootstrapError>)
        ensures
            match r {
                Some(e) => self@.failure == Some(e@),
                None => self@.failure is None,
            },
    {
        match &self.failure {
            Some(e) => Some(e),
            None => None,
        }
    }

    /// How many plugins were registered.
    pub fn plugin_count(&self) -> (r: usize)
        ensures
            r == self@.identities.len(),
    {
        self.plugins.len()
    }

    /// The identity of the plugin at registration index `index`.
    pub fn identity(&self, index: usize) -> (r: &String)
        requires
            index < self@.identities.len(),
        ensures
            r@ == self@.identities[index as int],
    {
        &self.plugins[index].identity
    }
}

} // verus!
