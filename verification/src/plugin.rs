//! The plugin entry point: how an application registers configured
//! work.
//!
//! An `App` is the minimal host surface this layer needs: it collects
//! configured set nodes and system nodes for the downstream schedule
//! and remembers the names of registered plugins for duplicate
//! detection.  A `Plugin` packages registration logic; a unique
//! plugin (the default) is rejected when a plugin of the same name
//! was already registered.

use vstd::prelude::*;

use crate::error::ScheduleError;
use crate::graph::SystemGraph;

verus! {

/// The host that configured work is registered into.
#[derive(Debug)]
pub struct App {
    /// System nodes handed to the downstream schedule, in
    /// registration order.
    pub systems: Vec<SystemGraph>,
    /// Set configuration nodes handed to the downstream schedule, in
    /// registration order.
    pub set_configs: Vec<SystemGraph>,
    /// Names of the plugins registered so far, in registration order.
    pub plugin_names: Vec<String>,
}

impl App {
    /// An empty host: nothing registered.
    pub fn new() -> (app: App)
        ensures
            app.systems@ == Seq::<SystemGraph>::empty(),
            app.set_configs@ == Seq::<SystemGraph>::empty(),
            app.plugin_names@ == Seq::<String>::empty(),
    {
        App { systems: Vec::new(), set_configs: Vec::new(), plugin_names: Vec::new() }
    }

    /// Register a configured system node (a single unit, a collection
    /// or an anonymous set of units).
    pub fn add_system(&mut self, system: SystemGraph)
        ensures
            final(self).systems@ == old(self).systems@.push(system),
            final(self).set_configs == old(self).set_configs,
            final(self).plugin_names == old(self).plugin_names,
    {
        self.systems.push(system);
    }

    /// Register a configured set node.
    pub fn configure_set(&mut self, config: SystemGraph)
        ensures
            final(self).set_configs@ == old(self).set_configs@.push(config),
            final(self).systems == old(self).systems,
            final(self).plugin_names == old(self).plugin_names,
    {
        self.set_configs.push(config);
    }

    /// Whether a plugin of this name was registered.
    pub open spec fn spec_has_plugin(self, name: Seq<char>) -> bool {
        exists|i: int| 0 <= i < self.plugin_names@.len() && (#[trigger] self.plugin_names@[i])@
            == name
    }

    /// True exactly when a plugin of this name was registered.
    pub fn has_plugin(&self, name: &String) -> (r: bool)
        ensures
            r == self.spec_has_plugin(name@),
    {
        let mut i: usize = 0;
        while i < self.plugin_names.len()
            invariant
                i <= self.plugin_names@.len(),
                forall|j: int| 0 <= j < i ==> (#[trigger] self.plugin_names@[j])@ != name@,
            decreases self.plugin_names@.len() - i,
        {
            if self.plugin_names[i] == *name {
                return true;
            }
            i = i + 1;
        }
        false
    }

    /// The duplicate check of plugin registration: a unique plugin
    /// whose name was already registered is rejected and the host is
    /// left unchanged; otherwise the name is recorded.
    pub fn register_plugin_name(&mut self, name: String, unique: bool) -> (r: Result<(), ScheduleError>)
        ensures
            match r {
                Ok(_) => {
                    &&& !(unique && old(self).spec_has_plugin(name@))
                    &&& final(self).plugin_names@ == old(self).plugin_names@.push(name)
                    &&& final(self).systems == old(self).systems
                    &&& final(self).set_configs == old(self).set_configs
                },
                Err(e) => {
                    &&& unique
                    &&& old(self).spec_has_plugin(name@)
                    &&& *final(self) == *old(self)
                    &&& (e matches ScheduleError::DuplicatePlugin { name: n } && n@ == name@)
                },
            },
    {
        if unique && self.has_plugin(&name) {
            Err(ScheduleError::DuplicatePlugin { name })
        } else {
            self.plugin_names.push(name);
            Ok(())
        }
    }

    /// Register a plugin: reject a duplicate of a unique plugin,
    /// otherwise record its name and run its `build`.
    pub fn add_plugin<P: Plugin>(&mut self, plugin: &P) -> (r: Result<(), ScheduleError>)
        ensures
            match r {
                Ok(_) => {
                    &&& !(plugin.spec_is_unique() && old(self).spec_has_plugin(
                        plugin.spec_name(),
                    ))
                    &&& exists|mid: App|
                        {
                            &&& #[trigger] plugin.build_ensures(mid, *final(self))
                            &&& mid.systems == old(self).systems
                            &&& mid.set_configs == old(self).set_configs
                            &&& mid.plugin_names@.len() == old(self).plugin_names@.len() + 1
                            &&& mid.plugin_names@.subrange(
                                0,
                                old(self).plugin_names@.len() as int,
                            ) == old(self).plugin_names@
                            &&& mid.plugin_names@.last()@ == plugin.spec_name()
                        }
                },
                Err(e) => {
                    &&& plugin.spec_is_unique()
                    &&& old(self).spec_has_plugin(plugin.spec_name())
                    &&& *final(self) == *old(self)
                    &&& (e matches ScheduleError::DuplicatePlugin { name: n } && n@
                        == plugin.spec_name())
                },
            },
    {
        let name = plugin.name();
        let unique = plugin.is_unique();
        match self.register_plugin_name(name, unique) {
            Ok(_) => {
                let ghost mid = *self;
                plugin.build(self);
                proof {
                    assert(mid.plugin_names@.subrange(0, old(self).plugin_names@.len() as int)
                        =~= old(self).plugin_names@);
                }
                Ok(())
            },
            Err(e) => Err(e),
        }
    }
}

/// A collection of application logic and configuration.  Registering
/// a plugin runs its `build`; by default a plugin can be registered
/// only once, under its `name`.
pub trait Plugin: Sized {
    /// The plugin's name, used for duplicate detection.
    spec fn spec_name(&self) -> Seq<char>;

    /// Whether a second registration of this name is rejected.
    spec fn spec_is_unique(&self) -> bool;

    /// What this plugin's `build` guarantees about the host.
    spec fn build_ensures(&self, pre: App, post: App) -> bool;

    /// Registers this plugin's work units and configuration.
    fn build(&self, app: &mut App)
        ensures
            self.build_ensures(*old(app), *final(app)),
    ;

    /// Runs after all plugins are built, before the application
    /// starts; the default does nothing.
    fn setup(&self, app: &mut App) {
    }

    /// The plugin's name.
    fn name(&self) -> (n: String)
        ensures
            n@ == self.spec_name(),
    ;

    /// Whether the host rejects a second registration of this name.
    fn is_unique(&self) -> (u: bool)
        ensures
            u == self.spec_is_unique(),
    ;
}

} // verus!
