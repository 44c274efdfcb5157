//! The process-wide plugin registry: per-class bundles appended at
//! initialization, read once by the host's load pass, then closed for good.
use vstd::prelude::*;
use crate::text::str_eq;

verus! {

/// Which part of a class a bundle registers.
#[derive(Clone, Copy, Debug, PartialEq, Eq, Structural)]
pub enum PluginComponent {
    /// The class itself.
    ClassDef,
    /// The exported functions, signals and constants of an inherent impl block.
    UserMethodBinds,
    /// The lifecycle hooks and virtual methods of a trait impl block.
    UserVirtuals,
}

/// One registration bundle, fully built before it is appended.
pub struct ClassPlugin {
    pub class_name: String,
    pub component: PluginComponent,
}

pub open spec fn plugin_view(p: ClassPlugin) -> (Seq<char>, PluginComponent) {
    (p.class_name@, p.component)
}

/// Where the registry stands in the load protocol.
#[derive(Clone, Copy, Debug, PartialEq, Eq, Structural)]
pub enum RegistryState {
    /// Initializers may append bundles.
    Registering,
    /// The host's load pass has read the bundles.
    Active,
    /// The host has unloaded the extension.
    Unloaded,
}

/// Why a registry operation is refused.
#[derive(Clone, Copy, Debug, PartialEq, Eq, Structural)]
pub enum RegistryError {
    /// A bundle for this class and component is already there.
    DuplicateClass,
    /// The operation does not fit the registry's state.
    WrongState,
}

/// The plugin registry.
pub struct PluginRegistry {
    plugins: Vec<ClassPlugin>,
    state: RegistryState,
}

/// Whether `ps` holds a bundle for `name` and `component`.
pub open spec fn registered(ps: Seq<(Seq<char>, PluginComponent)>, name: Seq<char>, component: PluginComponent) -> bool {
    exists|i: int| 0 <= i < ps.len() && #[trigger] ps[i] == (name, component)
}

impl PluginRegistry {
    /// The bundles, in the order they were appended.
    pub closed spec fn contents(&self) -> Seq<(Seq<char>, PluginComponent)> {
        self.plugins@.map_values(|p: ClassPlugin| plugin_view(p))
    }

    pub closed spec fn spec_state(&self) -> RegistryState {
        self.state
    }

    /// No two bundles register the same component of one class.
    pub closed spec fn wf(&self) -> bool {
        forall|i: int, j: int|
            0 <= i < j < self.contents().len() ==> #[trigger] self.contents()[i] != #[trigger] self.contents()[j]
    }

    /// An empty registry that accepts bundles.
    pub fn new() -> (r: PluginRegistry)
        ensures
            r.wf(),
            r.contents() == Seq::<(Seq<char>, PluginComponent)>::empty(),
            r.spec_state() == RegistryState::Registering,
    {
        let r = PluginRegistry { plugins: Vec::new(), state: RegistryState::Registering };
        assert(r.contents() =~= Seq::<(Seq<char>, PluginComponent)>::empty());
        r
    }

    /// The registry's state.
    pub fn state(&self) -> (r: RegistryState)
        ensures
            r == self.spec_state(),
    {
        self.state
    }

    /// Appends a bundle. Refused after the load pass, and for a second bundle of
    /// the same component of one class; a refused call changes nothing.
    pub fn register(&mut self, plugin: ClassPlugin) -> (r: Result<(), RegistryError>)
        requires
            old(self).wf(),
        ensures
            final(self).wf(),
            final(self).spec_state() == old(self).spec_state(),
            old(self).spec_state() != RegistryState::Registering ==> r == Err::<(), RegistryError>(
                RegistryError::WrongState,
            ),
            old(self).spec_state() == RegistryState::Registering ==> {
                if registered(old(self).contents(), plugin.class_name@, plugin.component) {
                    r == Err::<(), RegistryError>(RegistryError::DuplicateClass)
                } else {
                    r is Ok
                }
            },
            r is Ok ==> final(self).contents() == old(self).contents().push(plugin_view(plugin)),
            r is Err ==> final(self).contents() == old(self).contents(),
    {
        if self.state != RegistryState::Registering {
            return Err(RegistryError::WrongState);
        }
        let ghost ps = self.contents();
        let mut i: usize = 0;
        while i < self.plugins.len()
            invariant
                ps == self.contents(),
                self.wf(),
                self.spec_state() == RegistryState::Registering,
                i <= self.plugins@.len(),
                forall|j: int| 0 <= j < i ==> #[trigger] ps[j] != plugin_view(plugin),
            decreases self.plugins.len() - i,
        {
            let p = &self.plugins[i];
            assert(ps[i as int] == plugin_view(*p));
            if p.component == plugin.component && str_eq(p.class_name.as_str(), plugin.class_name.as_str()) {
                return Err(RegistryError::DuplicateClass);
            }
            i = i + 1;
        }
        self.plugins.push(plugin);
        assert(self.contents() == ps.push(plugin_view(plugin)));
        assert forall|a: int, b: int| 0 <= a < b < self.contents().len() implies #[trigger] self.contents()[a]
            != #[trigger] self.contents()[b] by {
            if b < ps.len() {
                assert(self.contents()[a] == ps[a] && self.contents()[b] == ps[b]);
            } else {
                assert(self.contents()[a] == ps[a]);
            }
        }
        Ok(())
    }

    /// The host's load pass: reads the bundles once, in order, and activates the
    /// registry. Refused unless bundles are still being registered.
    pub fn load(&mut self) -> (r: Result<Vec<(String, PluginComponent)>, RegistryError>)
        requires
            old(self).wf(),
        ensures
            final(self).wf(),
            final(self).contents() == old(self).contents(),
            old(self).spec_state() == RegistryState::Registering ==> {
                &&& r is Ok
                &&& final(self).spec_state() == RegistryState::Active
                &&& r->Ok_0@.map_values(|e: (String, PluginComponent)| (e.0@, e.1)) == old(self).contents()
            },
            old(self).spec_state() != RegistryState::Registering ==> {
                &&& r == Err::<Vec<(String, PluginComponent)>, RegistryError>(RegistryError::WrongState)
                &&& final(self).spec_state() == old(self).spec_state()
            },
    {
        if self.state != RegistryState::Registering {
            return Err(RegistryError::WrongState);
        }
        let mut out: Vec<(String, PluginComponent)> = Vec::new();
        let mut i: usize = 0;
        while i < self.plugins.len()
            invariant
                i <= self.plugins@.len(),
                out@.map_values(|e: (String, PluginComponent)| (e.0@, e.1)) == self.contents().subrange(0, i as int),
            decreases self.plugins.len() - i,
        {
            let ghost before = out@;
            let p = &self.plugins[i];
            out.push((p.class_name.clone(), p.component));
            assert(self.contents().subrange(0, i + 1) == self.contents().subrange(0, i as int).push(plugin_view(*p)));
            assert(out@.map_values(|e: (String, PluginComponent)| (e.0@, e.1)) == before.map_values(
                |e: (String, PluginComponent)| (e.0@, e.1),
            ).push(plugin_view(*p)));
            i = i + 1;
        }
        assert(self.contents().subrange(0, i as int) == self.contents());
        let ghost ps = self.contents();
        self.state = RegistryState::Active;
        assert(self.contents() == ps);
        Ok(out)
    }

    /// The host unloads the extension. Refused unless the registry is active.
    pub fn unload(&mut self) -> (r: Result<(), RegistryError>)
        requires
            old(self).wf(),
        ensures
            final(self).wf(),
            final(self).contents() == old(self).contents(),
            old(self).spec_state() == RegistryState::Active ==> r is Ok && final(self).spec_state()
                == RegistryState::Unloaded,
            old(self).spec_state() != RegistryState::Active ==> r == Err::<(), RegistryError>(
                RegistryError::WrongState,
            ) && final(self).spec_state() == old(self).spec_state(),
    {
        if self.state != RegistryState::Active {
            return Err(RegistryError::WrongState);
        }
        let ghost ps = self.contents();
        self.state = RegistryState::Unloaded;
        assert(self.contents() == ps);
        Ok(())
    }
}

} // verus!
