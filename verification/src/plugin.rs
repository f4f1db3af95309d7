//! The registry of loaded plugin modules.
//!
//! A module is opened once however many components it backs. The registry
//! keeps one entry for each module that is resident and counts the
//! components that hold it. Components ask for a module by a name, such as
//! the name of its file; the module itself reports the identifier under
//! which it is found. The registry tells the host when a module has to be
//! opened and when it may be closed; the host does the opening and closing.

use vstd::prelude::*;
use vstd::string::StringExecFns;
use std::collections::HashMap;
use crate::component::{ComponentId, ComponentIds};
use crate::event::{EventAction, EventResult};
use crate::plugin_abi;
use crate::plugin_abi::LoadConfigResult;
use crate::styles::StyleOptions;

verus! {

/// An entry point that a plugin module exports.
#[derive(Clone, Copy, Debug, PartialEq, Eq, Structural)]
pub enum EntryPoint {
    /// Gives the identifier of the plugin.
    Id,
    /// Measures a component.
    Width,
    /// Paints a component.
    Draw,
    /// Takes the configuration of a component, before it is started.
    LoadConfig,
    /// Runs a component for as long as it lives.
    Start,
    /// Asks a component to shut down.
    Stop,
    /// Reacts to an input event.
    HandleEvent,
}

impl EntryPoint {
    /// Whether a module cannot do without the entry point.
    pub open spec fn spec_is_required(self) -> bool {
        self == EntryPoint::Id || self == EntryPoint::Width || self == EntryPoint::Draw || self
            == EntryPoint::Start
    }

    /// Whether a module cannot do without the entry point. The others are
    /// optional: calling one that is absent does nothing.
    pub fn is_required(self) -> (r: bool)
        ensures
            r == self.spec_is_required(),
    {
        match self {
            EntryPoint::Id | EntryPoint::Width | EntryPoint::Draw | EntryPoint::Start => true,
            _ => false,
        }
    }
}

/// Which entry points were found in a module.
#[derive(Clone, Copy, Debug, PartialEq, Eq, Structural)]
pub struct EntryPoints {
    pub id: bool,
    pub width: bool,
    pub draw: bool,
    pub load_config: bool,
    pub start: bool,
    pub stop: bool,
    pub handle_event: bool,
}

impl EntryPoints {
    /// Whether `entry` was found.
    pub open spec fn spec_has(&self, entry: EntryPoint) -> bool {
        match entry {
            EntryPoint::Id => self.id,
            EntryPoint::Width => self.width,
            EntryPoint::Draw => self.draw,
            EntryPoint::LoadConfig => self.load_config,
            EntryPoint::Start => self.start,
            EntryPoint::Stop => self.stop,
            EntryPoint::HandleEvent => self.handle_event,
        }
    }

    /// Every required entry point was found.
    pub open spec fn complete(&self) -> bool {
        self.id && self.width && self.draw && self.start
    }

    /// The first required entry point that was not found, in the order id,
    /// width, draw, start.
    pub open spec fn spec_first_missing(&self) -> Option<EntryPoint> {
        if !self.id {
            Some(EntryPoint::Id)
        } else if !self.width {
            Some(EntryPoint::Width)
        } else if !self.draw {
            Some(EntryPoint::Draw)
        } else if !self.start {
            Some(EntryPoint::Start)
        } else {
            None
        }
    }

    /// Whether `entry` was found.
    pub fn has(&self, entry: EntryPoint) -> (r: bool)
        ensures
            r == self.spec_has(entry),
    {
        match entry {
            EntryPoint::Id => self.id,
            EntryPoint::Width => self.width,
            EntryPoint::Draw => self.draw,
            EntryPoint::LoadConfig => self.load_config,
            EntryPoint::Start => self.start,
            EntryPoint::Stop => self.stop,
            EntryPoint::HandleEvent => self.handle_event,
        }
    }

    /// The first required entry point that was not found, if any.
    pub fn first_missing(&self) -> (r: Option<EntryPoint>)
        ensures
            r == self.spec_first_missing(),
            r is None <==> self.complete(),
            r matches Some(entry) ==> entry.spec_is_required() && !self.spec_has(entry),
    {
        if !self.id {
            Some(EntryPoint::Id)
        } else if !self.width {
            Some(EntryPoint::Width)
        } else if !self.draw {
            Some(EntryPoint::Draw)
        } else if !self.start {
            Some(EntryPoint::Start)
        } else {
            None
        }
    }
}

/// What to do about a call of an entry point.
#[derive(Clone, Copy, Debug, PartialEq, Eq, Structural)]
pub enum CallPlan {
    /// The entry point is there: make the call.
    Invoke,
    /// The entry point is optional and absent: the call does nothing.
    Skip,
    /// The entry point is required and absent: the call fails.
    Missing,
}


/// Why something about a plugin failed.
#[derive(Clone, Debug)]
pub enum PluginError {
    /// The module lacks a required entry point.
    MissingEntryPoint(EntryPoint),
    /// The configuration of a component could not be written out.
    UnwritableConfig,
    /// The plugin rejected the configuration of a component, with this
    /// message.
    ConfigRejected(String),
}

/// A plugin module that is resident.
#[derive(Clone, Debug)]
pub struct Plugin {
    /// The name under which the module was asked for, such as the name of
    /// its file. Requests for the module and holds on it go by this name.
    pub name: String,
    /// The identifier that the plugin reports of itself. The module is found
    /// under it.
    pub id: String,
    /// The entry points found in the module.
    pub entry_points: EntryPoints,
    /// The number of components that hold the module.
    pub references: usize,
}

impl Plugin {
    /// What to do about a call of `entry`.
    pub open spec fn spec_plan(&self, entry: EntryPoint) -> CallPlan {
        if self.entry_points.spec_has(entry) {
            CallPlan::Invoke
        } else if entry.spec_is_required() {
            CallPlan::Missing
        } else {
            CallPlan::Skip
        }
    }

    /// What to do about a call of `entry`.
    pub fn plan(&self, entry: EntryPoint) -> (r: CallPlan)
        ensures
            r == self.spec_plan(entry),
    {
        if self.entry_points.has(entry) {
            CallPlan::Invoke
        } else if entry.is_required() {
            CallPlan::Missing
        } else {
            CallPlan::Skip
        }
    }
}

/// The name of the file that holds the module that is asked for as
/// `plugin`: that name, a dot and the extension that the platform gives to
/// dynamic libraries.
pub fn module_file_name(plugin: &str, extension: &str) -> (name: String)
    ensures
        name@ == plugin@ + "."@ + extension@,
{
    let mut name: String = plugin.to_owned();
    name.append(".");
    name.append(extension);
    name
}

/// What the host has to do to satisfy a request for a module.
#[derive(Clone, Copy, Debug, PartialEq, Eq, Structural)]
pub enum LoadStep {
    /// The module is resident; the requester now holds it too.
    Shared,
    /// The module is not resident: open it and report it with
    /// [`PluginManager::opened`].
    Open,
    /// The module is resident but cannot be held by one more component.
    Exhausted,
}

/// What the host has to do after a component gave up a module.
#[derive(Clone, Copy, Debug, PartialEq, Eq, Structural)]
pub enum UnloadStep {
    /// No module is resident under the name.
    NotLoaded,
    /// Other components still hold the module: it stays resident.
    Retained,
    /// The last holder is gone and the entry with it: close the module.
    Close,
}

/// A module that was asked for as `name` is resident.
pub open spec fn resident(plugins: Seq<Plugin>, name: Seq<char>) -> bool {
    exists|i: int| 0 <= i < plugins.len() && (#[trigger] plugins[i]).name@ == name
}

/// Entry `at` is the latest one that was asked for as `name`.
pub open spec fn is_latest_named(plugins: Seq<Plugin>, name: Seq<char>, at: int) -> bool {
    &&& 0 <= at < plugins.len()
    &&& plugins[at].name@ == name
    &&& forall|j: int| at < j < plugins.len() ==> (#[trigger] plugins[j]).name@ != name
}

/// The place of the module that was asked for as `name`: of the latest one,
/// should there be several.
pub open spec fn place_of(plugins: Seq<Plugin>, name: Seq<char>) -> int {
    choose|at: int| is_latest_named(plugins, name, at)
}

/// A module that reports the identifier `id` is resident.
pub open spec fn reported(plugins: Seq<Plugin>, id: Seq<char>) -> bool {
    exists|i: int| 0 <= i < plugins.len() && (#[trigger] plugins[i]).id@ == id
}

/// Entry `at` is the latest one that reports the identifier `id`.
pub open spec fn is_latest_reporting(plugins: Seq<Plugin>, id: Seq<char>, at: int) -> bool {
    &&& 0 <= at < plugins.len()
    &&& plugins[at].id@ == id
    &&& forall|j: int| at < j < plugins.len() ==> (#[trigger] plugins[j]).id@ != id
}

/// The place of the module that reports the identifier `id`: of the one
/// taken in latest, should several report it.
pub open spec fn place_reporting(plugins: Seq<Plugin>, id: Seq<char>) -> int {
    choose|at: int| is_latest_reporting(plugins, id, at)
}

/// The number of components that hold the module that was asked for as
/// `name`: none where it is not resident.
pub open spec fn references(plugins: Seq<Plugin>, name: Seq<char>) -> nat {
    if resident(plugins, name) {
        plugins[place_of(plugins, name)].references as nat
    } else {
        0
    }
}

/// The registry is in order: every module is held by some component and has
/// every required entry point.
pub open spec fn well_formed(plugins: Seq<Plugin>) -> bool {
    forall|i: int|
        0 <= i < plugins.len() ==> (#[trigger] plugins[i]).references >= 1
            && plugins[i].entry_points.complete()
}

/// The registry after a request for the module `name`, and what the host
/// has to do.
pub open spec fn after_load(plugins: Seq<Plugin>, name: Seq<char>) -> (Seq<Plugin>, LoadStep) {
    if !resident(plugins, name) {
        (plugins, LoadStep::Open)
    } else {
        let at = place_of(plugins, name);
        if plugins[at].references == usize::MAX {
            (plugins, LoadStep::Exhausted)
        } else {
            (
                plugins.update(
                    at,
                    Plugin { references: (plugins[at].references + 1) as usize, ..plugins[at] },
                ),
                LoadStep::Shared,
            )
        }
    }
}

/// The registry after the host reported that it opened the module that was
/// asked for as `name`, found `entry_points` in it and was told by it that
/// its identifier is `id`. A module with every required entry point is
/// taken in, with one holder; `None` stands for one that lacks a required
/// entry point, which the host has to close again.
pub open spec fn after_opened(
    plugins: Seq<Plugin>,
    name: String,
    id: String,
    entry_points: EntryPoints,
) -> Option<Seq<Plugin>> {
    if entry_points.complete() {
        Some(plugins.push(Plugin { name, id, entry_points, references: 1 }))
    } else {
        None
    }
}

/// The registry after a component gave up the module `name`, and what the
/// host has to do.
pub open spec fn after_unload(plugins: Seq<Plugin>, name: Seq<char>) -> (Seq<Plugin>, UnloadStep) {
    if !resident(plugins, name) {
        (plugins, UnloadStep::NotLoaded)
    } else {
        let at = place_of(plugins, name);
        if plugins[at].references > 1 {
            (
                plugins.update(
                    at,
                    Plugin { references: (plugins[at].references - 1) as usize, ..plugins[at] },
                ),
                UnloadStep::Retained,
            )
        } else {
            (plugins.remove(at), UnloadStep::Close)
        }
    }
}

/// Of the entries that were asked for as `name` only one is the latest.
proof fn lemma_latest_named(plugins: Seq<Plugin>, name: Seq<char>, at: int)
    requires
        is_latest_named(plugins, name, at),
    ensures
        resident(plugins, name),
        place_of(plugins, name) == at,
{
    let k = place_of(plugins, name);
    assert(is_latest_named(plugins, name, k));
    if k < at {
        assert(plugins[at].name@ != name);
    } else if at < k {
        assert(plugins[k].name@ != name);
    }
}

/// Of the entries that report the identifier `id` only one is the latest.
proof fn lemma_latest_reporting(plugins: Seq<Plugin>, id: Seq<char>, at: int)
    requires
        is_latest_reporting(plugins, id, at),
    ensures
        reported(plugins, id),
        place_reporting(plugins, id) == at,
{
    let k = place_reporting(plugins, id);
    assert(is_latest_reporting(plugins, id, k));
    if k < at {
        assert(plugins[at].id@ != id);
    } else if at < k {
        assert(plugins[k].id@ != id);
    }
}

/// The registry of the plugin modules that are resident.
pub struct PluginManager {
    plugins: Vec<Plugin>,
}

impl View for PluginManager {
    type V = Seq<Plugin>;

    closed spec fn view(&self) -> Seq<Plugin> {
        self.plugins@
    }
}

impl PluginManager {
    pub fn new() -> (r: Self)
        ensures
            r@.len() == 0,
            well_formed(r@),
    {
        Self { plugins: Vec::new() }
    }

    /// Where the module that was asked for as `name` stands.
    fn find_named(&self, name: &str) -> (r: Option<usize>)
        ensures
            r is Some <==> resident(self@, name@),
            r matches Some(at) ==> at == place_of(self@, name@) && is_latest_named(
                self@,
                name@,
                at as int,
            ),
    {
        let wanted: String = name.to_owned();
        let n: usize = self.plugins.len();
        let mut i: usize = n;
        while i > 0
            invariant
                i <= n,
                n == self@.len(),
                wanted@ == name@,
                forall|j: int| i <= j < n ==> (#[trigger] self@[j]).name@ != name@,
            decreases i,
        {
            i -= 1;
            if self.plugins[i].name == wanted {
                proof {
                    lemma_latest_named(self@, name@, i as int);
                }
                return Some(i);
            }
        }
        None
    }

    /// Where the module that reports the identifier `id` stands.
    fn find_reporting(&self, id: &str) -> (r: Option<usize>)
        ensures
            r is Some <==> reported(self@, id@),
            r matches Some(at) ==> at == place_reporting(self@, id@) && is_latest_reporting(
                self@,
                id@,
                at as int,
            ),
    {
        let wanted: String = id.to_owned();
        let n: usize = self.plugins.len();
        let mut i: usize = n;
        while i > 0
            invariant
                i <= n,
                n == self@.len(),
                wanted@ == id@,
                forall|j: int| i <= j < n ==> (#[trigger] self@[j]).id@ != id@,
            decreases i,
        {
            i -= 1;
            if self.plugins[i].id == wanted {
                proof {
                    lemma_latest_reporting(self@, id@, i as int);
                }
                return Some(i);
            }
        }
        None
    }

    /// The module that reports the identifier `plugin_id`, if one is
    /// resident; of several, the one that was taken in latest.
    pub fn get(&self, plugin_id: &str) -> (r: Option<&Plugin>)
        ensures
            r is Some <==> reported(self@, plugin_id@),
            r matches Some(plugin) ==> *plugin == self@[place_reporting(self@, plugin_id@)]
                && plugin.id@ == plugin_id@,
    {
        match self.find_reporting(plugin_id) {
            Some(at) => Some(&self.plugins[at]),
            None => None,
        }
    }

    /// The number of components that hold the module that was asked for as
    /// `name`.
    pub fn reference_count(&self, name: &str) -> (r: usize)
        ensures
            r == references(self@, name@),
    {
        match self.find_named(name) {
            Some(at) => self.plugins[at].references,
            None => 0,
        }
    }

    /// Asks for the module `name` on behalf of a component.
    ///
    /// A resident module is shared: its count of holders goes up by one and
    /// nothing is opened. For a module that is not resident the registry does
    /// not change; the host has to open it and report it with
    /// [`PluginManager::opened`].
    pub fn load(&mut self, name: &str) -> (step: LoadStep)
        ensures
            (final(self)@, step) == after_load(old(self)@, name@),
            well_formed(old(self)@) ==> well_formed(final(self)@),
    {
        match self.find_named(name) {
            None => LoadStep::Open,
            Some(at) => {
                let held: usize = self.plugins[at].references;
                if held == usize::MAX {
                    LoadStep::Exhausted
                } else {
                    self.plugins[at].references = held + 1;
                    assert(final(self)@ =~= old(self)@.update(
                        at as int,
                        Plugin { references: (held + 1) as usize, ..old(self)@[at as int] },
                    ));
                    LoadStep::Shared
                }
            },
        }
    }

    /// Takes in a module that the host has just opened, held by the one
    /// component that asked for it as `name`.
    ///
    /// A module with every required entry point is taken in, whatever name
    /// it was asked for under: from then on it is found under `reported_id`,
    /// the identifier that it reports of itself, and further requests for
    /// `name` share it. A module that lacks a required entry point is not
    /// taken in: the registry does not change and the host has to close the
    /// module again.
    pub fn opened(&mut self, name: String, reported_id: String, entry_points: EntryPoints) -> (r:
        Result<(), PluginError>)
        ensures
            r is Ok <==> entry_points.complete(),
            r is Ok ==> Some(final(self)@) == after_opened(
                old(self)@,
                name,
                reported_id,
                entry_points,
            ),
            r is Err ==> final(self)@ == old(self)@ && r == Err::<(), PluginError>(
                PluginError::MissingEntryPoint(entry_points.spec_first_missing()->0),
            ),
            well_formed(old(self)@) ==> well_formed(final(self)@),
    {
        match entry_points.first_missing() {
            Some(entry) => Err(PluginError::MissingEntryPoint(entry)),
            None => {
                self.plugins.push(Plugin { name, id: reported_id, entry_points, references: 1 });
                Ok(())
            },
        }
    }

    /// Gives up the module `name` on behalf of a component.
    ///
    /// While other components hold the module it stays resident with one
    /// holder less. With the last holder the entry goes, and the host has to
    /// close the module.
    pub fn unload(&mut self, name: &str) -> (step: UnloadStep)
        ensures
            (final(self)@, step) == after_unload(old(self)@, name@),
            well_formed(old(self)@) ==> well_formed(final(self)@),
    {
        match self.find_named(name) {
            None => UnloadStep::NotLoaded,
            Some(at) => {
                let held: usize = self.plugins[at].references;
                if held > 1 {
                    self.plugins[at].references = held - 1;
                    assert(final(self)@ =~= old(self)@.update(
                        at as int,
                        Plugin { references: (held - 1) as usize, ..old(self)@[at as int] },
                    ));
                    UnloadStep::Retained
                } else {
                    self.plugins.remove(at);
                    UnloadStep::Close
                }
            },
        }
    }
}

/// The answer of a plugin component to an event, in the host's terms: what
/// the module answered where its handler was to be called and an answer
/// came, and the answer of a component that does not react in every other
/// case.
pub open spec fn event_answer_of(plan: CallPlan, answer: Option<plugin_abi::EventResult>) -> EventResult {
    match (plan, answer) {
        (CallPlan::Invoke, Some(given)) => EventResult {
            action: plugin_abi::host_action(given.action),
            result: given.result,
        },
        _ => EventResult { action: EventAction::Ignored, result: 0 },
    }
}

/// The answer of a plugin component to an event, given what was to be done
/// about the call of the module's handler and what the module answered, if
/// it was asked and did answer.
pub fn event_answer(plan: CallPlan, answer: Option<plugin_abi::EventResult>) -> (r: EventResult)
    ensures
        r == event_answer_of(plan, answer),
{
    match (plan, answer) {
        (CallPlan::Invoke, Some(given)) => EventResult::from(given),
        _ => EventResult::ignored(),
    }
}

/// A value of a JSON document, as `serde_json` holds it.
#[verifier::external_type_specification]
#[verifier::external_body]
pub struct ExJsonValue(serde_json::Value);

/// The error of `serde_json`.
#[verifier::external_type_specification]
#[verifier::external_body]
pub struct ExJsonError(serde_json::Error);

/// Writes `config` out as a JSON object with `serde_json::to_string`.
///
/// The order of the members follows the map's own, which differs from run
/// to run, so nothing is claimed of the text.
#[verifier::external_body]
fn to_json(config: &HashMap<String, serde_json::Value>) -> Result<String, serde_json::Error> {
    serde_json::to_string(config)
}

/// A component that a plugin module backs.
#[derive(Clone, Debug)]
pub struct PluginComponent {
    /// The name under which the module that backs the component is asked
    /// for.
    pub plugin: String,
    /// The id by which the module tells this component from its others.
    pub component_id: ComponentId,
    pub styles: StyleOptions,
}

impl PluginComponent {
    /// A component backed by `plugin`, under the next free id of `ids`.
    /// `None`, with nothing issued, once the ids are used up.
    pub fn new(plugin: String, styles: StyleOptions, ids: &mut ComponentIds) -> (r: Option<Self>)
        ensures
            old(ids).upcoming() < u32::MAX ==> r is Some && r->0.plugin == plugin
                && r->0.styles == styles && r->0.component_id == old(ids).upcoming()
                && final(ids).upcoming() == old(ids).upcoming() + 1,
            old(ids).upcoming() == u32::MAX ==> r is None
                && final(ids).upcoming() == old(ids).upcoming(),
    {
        match ids.issue() {
            Some(component_id) => Some(Self { plugin, component_id, styles }),
            None => None,
        }
    }

    /// Prepares the call that hands the component's configuration to the
    /// module.
    ///
    /// Returns the configuration as the text to pass, or `None` where the
    /// module has no entry point that would take it, in which case nothing is
    /// to be called.
    pub fn load_config(&self, module: &Plugin, config: &HashMap<String, serde_json::Value>) -> (r:
        Result<Option<String>, PluginError>)
        ensures
            module.spec_plan(EntryPoint::LoadConfig) != CallPlan::Invoke ==> r == Ok::<
                Option<String>,
                PluginError,
            >(None),
            module.spec_plan(EntryPoint::LoadConfig) == CallPlan::Invoke ==> (r matches Ok(Some(_)))
                || r == Err::<Option<String>, PluginError>(PluginError::UnwritableConfig),
    {
        match module.plan(EntryPoint::LoadConfig) {
            CallPlan::Invoke => match to_json(config) {
                Ok(text) => Ok(Some(text)),
                Err(_) => Err(PluginError::UnwritableConfig),
            },
            _ => Ok(None),
        }
    }

    /// What the module's answer to the configuration means for the
    /// component: it may start, or it fails with the module's message.
    pub fn accept_config(answer: LoadConfigResult) -> (r: Result<(), PluginError>)
        ensures
            answer.ok ==> r is Ok,
            !answer.ok ==> r == Err::<(), PluginError>(
                PluginError::ConfigRejected(answer.error_msg),
            ),
    {
        if answer.ok {
            Ok(())
        } else {
            Err(PluginError::ConfigRejected(answer.error_msg))
        }
    }
}

/// A module with every required entry point that the host opened is taken
/// in and found under the identifier it reports, whatever name it was asked
/// for under; requests for that name then find it resident, with one holder.
pub proof fn law_complete_module_is_found(
    plugins: Seq<Plugin>,
    name: String,
    id: String,
    entry_points: EntryPoints,
)
    requires
        entry_points.complete(),
    ensures
        ({
            let taken = after_opened(plugins, name, id, entry_points);
            &&& taken is Some
            &&& reported(taken->0, id@)
            &&& taken->0[place_reporting(taken->0, id@)] == (Plugin {
                name,
                id,
                entry_points,
                references: 1,
            })
            &&& resident(taken->0, name@)
            &&& references(taken->0, name@) == 1
            &&& after_load(taken->0, name@).1 == LoadStep::Shared
        }),
{
    let taken = after_opened(plugins, name, id, entry_points)->0;
    let at = plugins.len() as int;
    lemma_latest_reporting(taken, id@, at);
    lemma_latest_named(taken, name@, at);
}

/// A module that two components ask for is opened once and closed once.
///
/// Starting from a registry in which the module is not resident: the first
/// request has the host open the module, and the module is taken in with
/// one holder. The second request shares it, with two holders and nothing
/// opened. When one component gives the module up it stays resident; when
/// the other does too, the host has to close it, and the registry is what
/// it was before.
pub proof fn law_module_opened_once(
    plugins: Seq<Plugin>,
    name: String,
    id: String,
    entry_points: EntryPoints,
)
    requires
        !resident(plugins, name@),
        entry_points.complete(),
    ensures
        ({
            let first = after_load(plugins, name@);
            let taken = after_opened(first.0, name, id, entry_points);
            let second = after_load(taken->0, name@);
            let one_gone = after_unload(second.0, name@);
            let both_gone = after_unload(one_gone.0, name@);
            &&& first == (plugins, LoadStep::Open)
            &&& taken is Some
            &&& references(taken->0, name@) == 1
            &&& second.1 == LoadStep::Shared
            &&& references(second.0, name@) == 2
            &&& one_gone.1 == UnloadStep::Retained
            &&& resident(one_gone.0, name@)
            &&& references(one_gone.0, name@) == 1
            &&& both_gone.1 == UnloadStep::Close
            &&& !resident(both_gone.0, name@)
            &&& both_gone.0 == plugins
        }),
{
    let n = plugins.len() as int;
    let taken = after_opened(plugins, name, id, entry_points)->0;
    lemma_latest_named(taken, name@, n);
    let second = after_load(taken, name@).0;
    assert(second[n].name@ == name@);
    lemma_latest_named(second, name@, n);
    let one_gone = after_unload(second, name@).0;
    assert(one_gone[n].name@ == name@);
    lemma_latest_named(one_gone, name@, n);
    let both_gone = after_unload(one_gone, name@).0;
    assert(both_gone =~= plugins);
}

} // verus!
