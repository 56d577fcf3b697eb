use vstd::prelude::*;

use crate::error::{unit_result_view, BootstrapError, ErrorModel};
use crate::machine::{bootstrap_wf, started, Bootstrap, BootstrapModel};
use crate::platform::SetupStrategy;

verus! {

/// A capability plugin as the registry knows it: its identity.
///
/// The initializer that goes with the identity belongs to the driver of the
/// bootstrap, which runs it when the bootstrap asks for it.
#[derive(Debug)]
pub struct PluginDescriptor {
    pub identity: String,
}

/// The pre-launch configuration: plugins in registration order and the setup
/// hook, if one was installed.
#[derive(Debug)]
pub struct Builder {
    plugins: Vec<PluginDescriptor>,
    setup: Option<SetupStrategy>,
    consumed: bool,
}

/// The mathematical value of a [`Builder`].
pub ghost struct BuilderModel {
    pub identities: Seq<Seq<char>>,
    pub setup: Option<SetupStrategy>,
    pub consumed: bool,
}

/// The identities of a sequence of descriptors, in order.
pub open spec fn identities_of(ps: Seq<PluginDescriptor>) -> Seq<Seq<char>> {
    ps.map_values(|p: PluginDescriptor| p.identity@)
}

/// A builder as it is created: nothing registered, no setup hook.
pub open spec fn fresh_builder() -> BuilderModel {
    BuilderModel { identities: seq![], setup: None, consumed: false }
}

/// Every registration rule holds: no identity is registered twice.
pub open spec fn builder_wf(m: BuilderModel) -> bool {
    m.identities.no_duplicates()
}

/// Registration of `id`: refused on a consumed builder, refused for an identity
/// already present, appended otherwise.
pub open spec fn register_spec(m: BuilderModel, id: Seq<char>) -> (BuilderModel, Result<(), ErrorModel>) {
    if m.consumed {
        (m, Err(ErrorModel::AlreadyConsumed))
    } else if m.identities.contains(id) {
        (m, Err(ErrorModel::DuplicatePlugin { identity: id }))
    } else {
        (BuilderModel { identities: m.identities.push(id), ..m }, Ok(()))
    }
}

/// Installing a setup hook: refused on a consumed builder, replaces any
/// earlier hook otherwise.
pub open spec fn install_setup_spec(m: BuilderModel, s: SetupStrategy) -> (BuilderModel, Result<(), ErrorModel>) {
    if m.consumed {
        (m, Err(ErrorModel::AlreadyConsumed))
    } else {
        (BuilderModel { setup: Some(s), ..m }, Ok(()))
    }
}

/// Building: refused on a consumed builder; otherwise the registrations and
/// the setup hook move into a started bootstrap and the builder is spent.
pub open spec fn build_spec(m: BuilderModel) -> (BuilderModel, Result<BootstrapModel, ErrorModel>) {
    if m.consumed {
        (m, Err(ErrorModel::AlreadyConsumed))
    } else {
        (
            BuilderModel { identities: seq![], setup: None, consumed: true },
            Ok(started(m.identities, m.setup)),
        )
    }
}

/// A build result seen through the models.
pub open spec fn build_result_view(r: Result<Bootstrap, BootstrapError>) -> Result<BootstrapModel, ErrorModel> {
    match r {
        Ok(b) => Ok(b@),
        Err(e) => Err(e@),
    }
}

impl View for Builder {
    type V = BuilderModel;

    closed spec fn view(&self) -> BuilderModel {
        BuilderModel {
            identities: identities_of(self.plugins@),
            setup: self.setup,
            consumed: self.consumed,
        }
    }
}

impl Default for Builder {
    /// The same as [`Builder::new`].
    fn default() -> (r: Builder)
        ensures
            r@ == fresh_builder(),
    {
        Builder::new()
    }
}

impl Builder {
    /// A builder with default configuration: no plugins and no setup hook.
    pub fn new() -> (r: Builder)
        ensures
            r@ == fresh_builder(),
            builder_wf(r@),
    {
        let r = Builder { plugins: Vec::new(), setup: None, consumed: false };
        assert(r@.identities =~= seq![]);
        r
    }

    /// Whether a plugin of this identity is already registered.
    pub fn is_registered(&self, identity: &String) -> (r: bool)
        ensures
            r == self@.identities.contains(identity@),
    {
        let mut i: usize = 0;
        while i < self.plugins.len()
            invariant
                0 <= i <= self.plugins@.len(),
                forall|j: int| 0 <= j < i ==> self.plugins@[j].identity@ != identity@,
            decreases self.plugins@.len() - i,
        {
            if self.plugins[i].identity == *identity {
                assert(self@.identities[i as int] == identity@);
                return true;
            }
            i = i + 1;
        }
        assert(!self@.identities.contains(identity@)) by {
            if self@.identities.contains(identity@) {
                let k = choose|k: int| 0 <= k < self@.identities.len() && self@.identities[k] == identity@;
                assert(self.plugins@[k].identity@ == identity@);
            }
        }
        false
    }

    /// Appends a plugin descriptor to the registration order.
    ///
    /// Fails with `DuplicatePlugin` when its identity is already registered and
    /// with `AlreadyConsumed` after the builder was built; the builder is left
    /// as it was on failure. No initializer runs here.
    pub fn register(&mut self, descriptor: PluginDescriptor) -> (r: Result<(), BootstrapError>)
        ensures
            (final(self)@, unit_result_view(r)) == register_spec(old(self)@, descriptor.identity@),
            builder_wf(old(self)@) ==> builder_wf(final(self)@),
    {
        if self.consumed {
            return Err(BootstrapError::AlreadyConsumed);
        }
        if self.is_registered(&descriptor.identity) {
            return Err(BootstrapError::DuplicatePlugin { identity: descriptor.identity });
        }
        let ghost id = descriptor.identity@;
        self.plugins.push(descriptor);
        assert(final(self)@.identities =~= old(self)@.identities.push(id));
        Ok(())
    }

    /// Installs the setup hook that runs after all plugins are initialized.
    ///
    /// A later installation replaces an earlier one; after the builder was built
    /// it fails with `AlreadyConsumed` and changes nothing.
    pub fn setup(&mut self, strategy: SetupStrategy) -> (r: Result<(), BootstrapError>)
        ensures
            (final(self)@, unit_result_view(r)) == install_setup_spec(old(self)@, strategy),
            builder_wf(old(self)@) ==> builder_wf(final(self)@),
    {
        if self.consumed {
            return Err(BootstrapError::AlreadyConsumed);
        }
        self.setup = Some(strategy);
        Ok(())
    }

    /// Consumes the builder and starts the bootstrap of its plugins.
    ///
    /// No initializer has run when this returns: the bootstrap asks for them
    /// one at a time, in registration order. A second call fails with
    /// `AlreadyConsumed` and starts nothing.
    pub fn build(&mut self) -> (r: Result<Bootstrap, BootstrapError>)
        ensures
            (final(self)@, build_result_view(r)) == build_spec(old(self)@),
            r matches Ok(b) ==> bootstrap_wf(b@),
            builder_wf(old(self)@) ==> builder_wf(final(self)@),
    {
        if self.consumed {
            return Err(BootstrapError::AlreadyConsumed);
        }
        let mut plugins: Vec<PluginDescriptor> = Vec::new();
        std::mem::swap(&mut self.plugins, &mut plugins);
        let setup = self.setup;
        self.setup = None;
        self.consumed = true;
        assert(final(self)@.identities =~= seq![]);
        Ok(Bootstrap::start(plugins, setup))
    }
}

} // verus!
