//! Plugin subsystem manager: a fixed catalog of installable plugins and an
//! append-only list of loaded plugin names.

use vstd::prelude::*;

verus! {

/// Immutable descriptor of an installable plugin; `name` is unique within
/// the catalog.
#[derive(Debug, Clone, PartialEq, Eq)]
pub struct PluginInfo {
    pub name: String,
    pub version: String,
    pub description: String,
}

/// Mathematical model of a `PluginInfo`: the same fields as character
/// sequences.
#[verifier::ext_equal]
pub struct PluginInfoView {
    pub name: Seq<char>,
    pub version: Seq<char>,
    pub description: Seq<char>,
}

impl View for PluginInfo {
    type V = PluginInfoView;

    open spec fn view(&self) -> PluginInfoView {
        PluginInfoView {
            name: self.name@,
            version: self.version@,
            description: self.description@,
        }
    }
}

/// The models of a sequence of plugin descriptors.
pub open spec fn views_of_plugins(s: Seq<PluginInfo>) -> Seq<PluginInfoView> {
    s.map_values(|p: PluginInfo| p@)
}

/// The models of a sequence of plugin names.
pub open spec fn views_of_names(s: Seq<String>) -> Seq<Seq<char>> {
    s.map_values(|n: String| n@)
}

/// The catalog this backend reports: a fixed placeholder set of installable
/// plugins, independent of what is loaded.
pub open spec fn spec_plugin_catalog() -> Seq<PluginInfoView> {
    seq![
        PluginInfoView {
            name: "ImageProcessor"@,
            version: "1.0.0"@,
            description: "Processes images with various filters."@,
        },
        PluginInfoView {
            name: "AudioEnhancer"@,
            version: "0.9.0"@,
            description: "Enhances audio quality."@,
        },
    ]
}

/// What loading one plugin does to the loaded-name list: the name is
/// appended at the end, unconditionally. No catalog check, no duplicate
/// check, nothing removed.
pub open spec fn spec_load(pre: Seq<Seq<char>>, name: Seq<char>) -> Seq<Seq<char>> {
    pre.push(name)
}

/// Owns the loaded-plugin list. Queries take `&self`; loading takes
/// `&mut self` and is the only mutation.
pub struct PluginManager {
    loaded_plugins: Vec<String>,
}

impl View for PluginManager {
    type V = Seq<Seq<char>>;

    /// The model of a plugin manager is its loaded-name list, in load
    /// order, duplicates kept.
    closed spec fn view(&self) -> Seq<Seq<char>> {
        views_of_names(self.loaded_plugins@)
    }
}

impl PluginManager {
    /// Constructs a manager with nothing loaded. The placeholder catalog
    /// backend cannot fail.
    pub fn new() -> (s: PluginManager)
        ensures
            s@ == Seq::<Seq<char>>::empty(),
    {
        let s = PluginManager { loaded_plugins: Vec::new() };
        proof {
            assert(s@ =~= Seq::<Seq<char>>::empty());
        }
        s
    }

    /// Returns the catalog of installable plugins. Read-only: independent
    /// of the loaded list and identical on every call.
    pub fn get_available_plugins(&self) -> (r: Vec<PluginInfo>)
        ensures
            views_of_plugins(r@) == spec_plugin_catalog(),
    {
        let mut catalog: Vec<PluginInfo> = Vec::new();
        catalog.push(PluginInfo {
            name: "ImageProcessor".to_owned(),
            version: "1.0.0".to_owned(),
            description: "Processes images with various filters.".to_owned(),
        });
        catalog.push(PluginInfo {
            name: "AudioEnhancer".to_owned(),
            version: "0.9.0".to_owned(),
            description: "Enhances audio quality.".to_owned(),
        });
        proof {
            assert(views_of_plugins(catalog@) =~~= spec_plugin_catalog());
        }
        catalog
    }

    /// Appends `plugin_name` to the loaded list, unconditionally: no check
    /// against the catalog and no duplicate check.
    pub fn load_plugin(&mut self, plugin_name: &str)
        ensures
            final(self)@ == spec_load(old(self)@, plugin_name@),
    {
        self.loaded_plugins.push(plugin_name.to_owned());
        proof {
            assert(final(self)@ =~= spec_load(old(self)@, plugin_name@));
        }
    }

    /// The loaded plugin names, in load order.
    pub fn loaded_plugins(&self) -> (r: &Vec<String>)
        ensures
            views_of_names(r@) == self@,
    {
        &self.loaded_plugins
    }
}

/// The loaded list after a run of loads, applied first to last.
pub open spec fn spec_load_all(pre: Seq<Seq<char>>, names: Seq<Seq<char>>) -> Seq<Seq<char>>
    decreases names.len(),
{
    if names.len() == 0 {
        pre
    } else {
        spec_load_all(spec_load(pre, names[0]), names.drop_first())
    }
}

/// Loading is append-only: after K loads with names n1..nK, in whatever
/// order the writer lock granted them, the loaded list is exactly the old
/// list followed by those K names in that order. Its length grows by
/// exactly K; no entry is dropped, none is invented, duplicates are kept.
pub proof fn lemma_load_append_only(pre: Seq<Seq<char>>, names: Seq<Seq<char>>)
    ensures
        spec_load_all(pre, names) == pre + names,
        spec_load_all(pre, names).len() == pre.len() + names.len(),
    decreases names.len(),
{
    if names.len() == 0 {
        assert(spec_load_all(pre, names) =~= pre + names);
    } else {
        lemma_load_append_only(spec_load(pre, names[0]), names.drop_first());
        assert(spec_load(pre, names[0]) + names.drop_first() =~= pre + names);
    }
}

/// One step of a serialized history on the plugin manager: a load taking
/// the writer lock, or a catalog query taking a reader lock.
pub enum PluginEvent {
    Load { name: Seq<char> },
    Query,
}

/// The names loaded by a history, in the order the events ran.
pub open spec fn spec_loads_of(events: Seq<PluginEvent>) -> Seq<Seq<char>>
    decreases events.len(),
{
    if events.len() == 0 {
        Seq::empty()
    } else {
        match events[0] {
            PluginEvent::Load { name } => seq![name] + spec_loads_of(events.drop_first()),
            PluginEvent::Query => spec_loads_of(events.drop_first()),
        }
    }
}

/// The loaded list after a history runs: each load appends its name, each
/// query leaves the list as it was.
pub open spec fn spec_apply_events(pre: Seq<Seq<char>>, events: Seq<PluginEvent>) -> Seq<Seq<char>>
    decreases events.len(),
{
    if events.len() == 0 {
        pre
    } else {
        match events[0] {
            PluginEvent::Load { name } => spec_apply_events(
                spec_load(pre, name),
                events.drop_first(),
            ),
            PluginEvent::Query => spec_apply_events(pre, events.drop_first()),
        }
    }
}

/// Concurrent loads and queries never corrupt the loaded list. The manager
/// lock serializes them into some history; whatever interleaving that
/// history is, the final list is the old list followed by exactly the
/// loaded names in lock-acquisition order — its length is the old length
/// plus the number of loads — and the queries contribute nothing.
pub proof fn lemma_interleaving_keeps_loads(pre: Seq<Seq<char>>, events: Seq<PluginEvent>)
    ensures
        spec_apply_events(pre, events) == pre + spec_loads_of(events),
        spec_apply_events(pre, events).len() == pre.len() + spec_loads_of(events).len(),
    decreases events.len(),
{
    if events.len() == 0 {
        assert(spec_apply_events(pre, events) =~= pre + spec_loads_of(events));
    } else {
        match events[0] {
            PluginEvent::Load { name } => {
                lemma_interleaving_keeps_loads(spec_load(pre, name), events.drop_first());
                assert(spec_load(pre, name) + spec_loads_of(events.drop_first()) =~= pre
                    + spec_loads_of(events));
            },
            PluginEvent::Query => {
                lemma_interleaving_keeps_loads(pre, events.drop_first());
            },
        }
    }
}

} // verus!
