//! Plugins: what describes one, and the registry that knows them by name and
//! by the commands they take.

use vstd::prelude::*;
use vstd::string::*;
use crate::text::{join, join3, text_eq};

verus! {

/// What describes a plugin.
#[derive(Debug, PartialEq)]
pub struct PluginMetadata {
    pub id: String,
    pub name: String,
    pub version: String,
    pub description: String,
    pub author: String,
    pub dependencies: Vec<String>,
}

/// Where a plugin writes its log.
pub trait LoggerTrait {
    fn info(&self, message: &str);

    fn warn(&self, message: &str);

    fn error(&self, message: &str);

    fn debug(&self, message: &str);
}

/// The position of the first of the first `upto` names that equals `name`.
pub open spec fn find_name(names: Seq<Seq<char>>, name: Seq<char>, upto: int) -> Option<int>
    decreases upto,
{
    if upto <= 0 {
        None
    } else {
        match find_name(names, name, upto - 1) {
            Some(at) => Some(at),
            None => if names[upto - 1] == name {
                Some(upto - 1)
            } else {
                None
            },
        }
    }
}

/// The position of the last of the first `upto` names that equals `name`.
pub open spec fn find_last_name(names: Seq<Seq<char>>, name: Seq<char>, upto: int) -> Option<int>
    decreases upto,
{
    if upto <= 0 {
        None
    } else if names[upto - 1] == name {
        Some(upto - 1)
    } else {
        find_last_name(names, name, upto - 1)
    }
}

proof fn lemma_name_found_stays(names: Seq<Seq<char>>, name: Seq<char>, from: int, upto: int)
    requires
        from <= upto,
        find_name(names, name, from) is Some,
    ensures
        find_name(names, name, upto) == find_name(names, name, from),
    decreases upto - from,
{
    if from < upto {
        lemma_name_found_stays(names, name, from, upto - 1);
    }
}

/// A command, and the plugin that takes it, by its place in the registry.
pub struct CommandEntry {
    command: String,
    plugin: usize,
}

/// The registry of plugins. A plugin is known by its identifier; a command
/// goes to the plugin that registered it last.
pub struct PluginRegistry<P> {
    ids: Vec<String>,
    plugins: Vec<P>,
    commands: Vec<CommandEntry>,
}

pub struct PluginRegistryView<P> {
    /// The identifiers of the plugins, in the order of registration.
    pub ids: Seq<Seq<char>>,
    pub plugins: Seq<P>,
    /// The commands, in the order of registration.
    pub commands: Seq<Seq<char>>,
    /// The place of the plugin that registered each command.
    pub owners: Seq<int>,
}

impl<P> PluginRegistryView<P> {
    /// The plugin that takes `command`.
    pub open spec fn owner_of(self, command: Seq<char>) -> Option<int> {
        match find_last_name(self.commands, command, self.commands.len() as int) {
            Some(at) => Some(self.owners[at]),
            None => None,
        }
    }

    /// The registry with one more plugin and its commands.
    pub open spec fn registered(self, id: Seq<char>, plugin: P, commands: Seq<Seq<char>>) -> PluginRegistryView<P> {
        PluginRegistryView {
            ids: self.ids.push(id),
            plugins: self.plugins.push(plugin),
            commands: self.commands + commands,
            owners: self.owners + Seq::new(commands.len(), |i: int| self.ids.len() as int),
        }
    }
}

/// The text of each name of a sequence.
pub open spec fn name_views(names: Seq<String>) -> Seq<Seq<char>> {
    names.map_values(|n: String| n@)
}

impl<P> View for PluginRegistry<P> {
    type V = PluginRegistryView<P>;

    closed spec fn view(&self) -> PluginRegistryView<P> {
        PluginRegistryView {
            ids: name_views(self.ids@),
            plugins: self.plugins@,
            commands: self.commands@.map_values(|e: CommandEntry| e.command@),
            owners: self.commands@.map_values(|e: CommandEntry| e.plugin as int),
        }
    }
}

impl<P> PluginRegistry<P> {
    /// The validity of a registry: every identifier has its plugin, and every
    /// command belongs to a plugin that is there.
    pub closed spec fn wf(&self) -> bool {
        &&& self.ids@.len() == self.plugins@.len()
        &&& forall|i: int| 0 <= i < self.commands@.len() ==> (#[trigger] self.commands@[i]).plugin < self.plugins@.len()
    }

    /// A registry without plugins.
    pub fn new() -> (registry: Self)
        ensures
            registry.wf(),
            registry@.ids.len() == 0,
            registry@.commands.len() == 0,
    {
        PluginRegistry { ids: Vec::new(), plugins: Vec::new(), commands: Vec::new() }
    }

    fn position(&self, id: &str) -> (at: Option<usize>)
        ensures
            match at {
                Some(at) => find_name(self@.ids, id@, self@.ids.len() as int) == Some(at as int) && at
                    < self.ids@.len(),
                None => find_name(self@.ids, id@, self@.ids.len() as int).is_none(),
            },
    {
        let mut i: usize = 0;
        while i < self.ids.len()
            invariant
                i <= self.ids@.len(),
                find_name(self@.ids, id@, i as int).is_none(),
            decreases self.ids@.len() - i,
        {
            if text_eq(self.ids[i].as_str(), id) {
                assert(find_name(self@.ids, id@, i + 1) == Some(i as int));
                proof {
                    lemma_name_found_stays(self@.ids, id@, i + 1, self.ids@.len() as int);
                }
                return Some(i);
            }
            i = i + 1;
        }
        None
    }

    /// Registers a plugin under its identifier, with the commands it takes. A
    /// second plugin of the same identifier is refused.
    pub fn register(&mut self, id: String, plugin: P, commands: Vec<String>) -> (r: Result<(), String>)
        requires
            old(self).wf(),
        ensures
            final(self).wf(),
            match r {
                Ok(_) => find_name(old(self)@.ids, id@, old(self)@.ids.len() as int) is None && final(self)@
                    == old(self)@.registered(id@, plugin, name_views(commands@)),
                Err(message) => find_name(old(self)@.ids, id@, old(self)@.ids.len() as int) is Some
                    && *final(self) == *old(self) && message@ == "Plugin "@ + id@ + " already registered"@,
            },
    {
        if self.position(id.as_str()).is_some() {
            return Err(join3("Plugin ", id.as_str(), " already registered"));
        }
        let place = self.plugins.len();
        let mut i: usize = 0;
        while i < commands.len()
            invariant
                i <= commands@.len(),
                place == self.plugins@.len(),
                self.ids == old(self).ids,
                self.plugins == old(self).plugins,
                old(self).wf(),
                forall|k: int| 0 <= k < self.commands@.len() ==> (#[trigger] self.commands@[k]).plugin <= place,
                self@.commands == old(self)@.commands + name_views(commands@).take(i as int),
                self@.owners == old(self)@.owners + Seq::new(i as nat, |k: int| place as int),
            decreases commands@.len() - i,
        {
            let ghost names = self@.commands;
            let ghost owners = self@.owners;
            let entry = CommandEntry { command: commands[i].clone(), plugin: place };
            self.commands.push(entry);
            assert(self@.commands =~= names.push(entry.command@));
            assert(self@.owners =~= owners.push(place as int));
            assert(name_views(commands@)[i as int] == commands@[i as int]@);
            assert(self@.commands =~= old(self)@.commands + name_views(commands@).take(i + 1));
            assert(self@.owners =~= old(self)@.owners + Seq::new((i + 1) as nat, |k: int| place as int));
            i = i + 1;
        }
        assert(name_views(commands@).take(i as int) =~= name_views(commands@));
        self.ids.push(id);
        self.plugins.push(plugin);
        assert(self@.ids =~= old(self)@.ids.push(id@));
        assert(self@.owners =~= old(self)@.registered(id@, plugin, name_views(commands@)).owners);
        Ok(())
    }

    /// Initializes all plugins: there is nothing to do, and nothing fails.
    pub fn initialize_all(&mut self) -> (r: Result<(), String>)
        ensures
            r is Ok,
            *final(self) == *old(self),
    {
        Ok(())
    }

    /// The plugin registered under `id`.
    pub fn get_plugin(&self, id: &str) -> (plugin: Option<&P>)
        requires
            self.wf(),
        ensures
            match plugin {
                Some(found) => find_name(self@.ids, id@, self@.ids.len() as int) matches Some(at) && *found
                    == self@.plugins[at],
                None => find_name(self@.ids, id@, self@.ids.len() as int).is_none(),
            },
    {
        match self.position(id) {
            Some(at) => Some(&self.plugins[at]),
            None => None,
        }
    }

    /// The plugin that takes `command`, or an error that names the command
    /// where no plugin takes it.
    pub fn handle_command(&self, command: &str) -> (r: Result<&P, String>)
        requires
            self.wf(),
        ensures
            match r {
                Ok(plugin) => self@.owner_of(command@) matches Some(at) && 0 <= at < self@.plugins.len()
                    && *plugin == self@.plugins[at],
                Err(message) => self@.owner_of(command@) is None && message@ == "Unknown command: "@
                    + command@,
            },
    {
        let mut i: usize = self.commands.len();
        while i > 0
            invariant
                i <= self.commands@.len(),
                self.wf(),
                find_last_name(self@.commands, command@, self@.commands.len() as int) == find_last_name(
                    self@.commands,
                    command@,
                    i as int,
                ),
            decreases i,
        {
            if text_eq(self.commands[i - 1].command.as_str(), command) {
                let place = self.commands[i - 1].plugin;
                assert(self@.owners[i - 1] == place);
                return Ok(&self.plugins[place]);
            }
            i = i - 1;
        }
        Err(join("Unknown command: ", command))
    }
}

} // verus!
