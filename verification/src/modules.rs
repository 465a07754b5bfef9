//! The server's built-in modules: their descriptors, the enable / disable
//! state machine behind the module toggle, and the LAN / remote policy that
//! reads it.
use vstd::prelude::*;
use vstd::string::StringExecFns;

use crate::deps::{random_uuid, uuid_string, uuid_text};
use crate::text::{copy_opt_string, first_index, opt_text, starts_with, str_eq};

verus! {

/// A module as the API describes it.
#[derive(Debug)]
pub struct ModuleDescriptor {
    pub name: String,
    pub enabled: bool,
    pub description: String,
    pub desired_state: String,
    pub actual_state: String,
    pub health: String,
    pub generation: u64,
    pub last_error: Option<String>,
}

/// The value of a module descriptor.
pub ghost struct ModuleDescriptorView {
    pub name: Seq<char>,
    pub enabled: bool,
    pub description: Seq<char>,
    pub desired_state: Seq<char>,
    pub actual_state: Seq<char>,
    pub health: Seq<char>,
    pub generation: u64,
    pub last_error: Option<Seq<char>>,
}

impl View for ModuleDescriptor {
    type V = ModuleDescriptorView;

    open spec fn view(&self) -> ModuleDescriptorView {
        ModuleDescriptorView {
            name: self.name@,
            enabled: self.enabled,
            description: self.description@,
            desired_state: self.desired_state@,
            actual_state: self.actual_state@,
            health: self.health@,
            generation: self.generation,
            last_error: opt_text(self.last_error),
        }
    }
}

/// The names of the built-in modules, in the order the API lists them.
pub open spec fn builtin_module_names() -> Seq<Seq<char>> {
    seq![
        "scan"@,
        "sync"@,
        "stream"@,
        "playback"@,
        "backup"@,
        "webhook"@,
        "homeassistant"@,
    ]
}

/// The descriptions of the built-in modules, in the same order.
pub open spec fn builtin_module_descriptions() -> Seq<Seq<char>> {
    seq![
        "Music library scanning and filesystem watcher"@,
        "Peer synchronization and background sync workers"@,
        "Audio streaming and transcode pipeline"@,
        "Server playback engine and tracking"@,
        "Automatic backup scheduler and retention"@,
        "Webhook dispatch notifications"@,
        "Home Assistant MQTT discovery and entity synchronization"@,
    ]
}

/// The descriptor of the `i`-th built-in module before any toggle.
pub open spec fn fresh_descriptor(i: int) -> ModuleDescriptorView {
    ModuleDescriptorView {
        name: builtin_module_names()[i],
        enabled: true,
        description: builtin_module_descriptions()[i],
        desired_state: "enabled"@,
        actual_state: "active"@,
        health: "healthy"@,
        generation: 1,
        last_error: None,
    }
}

fn fresh(name: &str, description: &str) -> (d: ModuleDescriptor)
    ensures
        d@ == (ModuleDescriptorView {
            name: name@,
            enabled: true,
            description: description@,
            desired_state: "enabled"@,
            actual_state: "active"@,
            health: "healthy"@,
            generation: 1,
            last_error: None,
        }),
{
    ModuleDescriptor {
        name: String::from_str(name),
        enabled: true,
        description: String::from_str(description),
        desired_state: String::from_str("enabled"),
        actual_state: String::from_str("active"),
        health: String::from_str("healthy"),
        generation: 1,
        last_error: None,
    }
}

/// The built-in modules, each enabled, active and healthy at generation 1.
pub fn builtin_modules() -> (v: Vec<ModuleDescriptor>)
    ensures
        v@.len() == 7,
        forall|i: int| 0 <= i < 7 ==> (#[trigger] v@[i])@ == fresh_descriptor(i),
{
    let mut v: Vec<ModuleDescriptor> = Vec::new();
    v.push(fresh("scan", "Music library scanning and filesystem watcher"));
    v.push(fresh("sync", "Peer synchronization and background sync workers"));
    v.push(fresh("stream", "Audio streaming and transcode pipeline"));
    v.push(fresh("playback", "Server playback engine and tracking"));
    v.push(fresh("backup", "Automatic backup scheduler and retention"));
    v.push(fresh("webhook", "Webhook dispatch notifications"));
    v.push(fresh("homeassistant", "Home Assistant MQTT discovery and entity synchronization"));
    v
}

/// What the server tracks of a module that has been toggled at least once.
#[derive(Debug)]
pub struct ModuleRuntimeInfo {
    pub generation: u64,
    pub actual_state: String,
    pub health: String,
    pub last_error: Option<String>,
}

/// The value of a module's runtime record.
pub ghost struct RuntimeInfoView {
    pub generation: u64,
    pub actual_state: Seq<char>,
    pub health: Seq<char>,
    pub last_error: Option<Seq<char>>,
}

impl View for ModuleRuntimeInfo {
    type V = RuntimeInfoView;

    open spec fn view(&self) -> RuntimeInfoView {
        RuntimeInfoView {
            generation: self.generation,
            actual_state: self.actual_state@,
            health: self.health@,
            last_error: opt_text(self.last_error),
        }
    }
}

/// The optional runtime record of a module, by value.
pub open spec fn opt_runtime(o: Option<ModuleRuntimeInfo>) -> Option<RuntimeInfoView> {
    match o {
        Some(i) => Some(i@),
        None => None,
    }
}

/// One built-in module's state: whether it is disabled and its runtime record.
#[derive(Debug)]
pub struct ModuleSlot {
    pub name: String,
    pub disabled: bool,
    pub runtime: Option<ModuleRuntimeInfo>,
}

/// The value of a module slot.
pub ghost struct ModuleSlotView {
    pub name: Seq<char>,
    pub disabled: bool,
    pub runtime: Option<RuntimeInfoView>,
}

impl View for ModuleSlot {
    type V = ModuleSlotView;

    open spec fn view(&self) -> ModuleSlotView {
        ModuleSlotView { name: self.name@, disabled: self.disabled, runtime: opt_runtime(self.runtime) }
    }
}

/// The set of disabled modules together with their runtime records, one slot
/// per built-in module in the order of `builtin_module_names`.
#[derive(Debug)]
pub struct ModuleRegistry {
    slots: Vec<ModuleSlot>,
}

impl View for ModuleRegistry {
    type V = Seq<ModuleSlotView>;

    closed spec fn view(&self) -> Seq<ModuleSlotView> {
        self.slots@.map_values(|s: ModuleSlot| s@)
    }
}

/// The index of the built-in module called `name`.
pub open spec fn module_index(name: Seq<char>) -> Option<int> {
    crate::text::first_index(builtin_module_names(), name)
}

/// The runtime record that a module toggled on gets: its generation goes up
/// by one; Home Assistant without an MQTT host stays idle.
pub open spec fn enabled_info(
    old: Option<RuntimeInfoView>,
    name: Seq<char>,
    mqtt_host_set: bool,
) -> RuntimeInfoView {
    let generation = match old {
        Some(i) => i.generation as int,
        None => 0,
    } + 1;
    if name == "homeassistant"@ && !mqtt_host_set {
        RuntimeInfoView {
            generation: generation as u64,
            actual_state: "idle"@,
            health: "disabled"@,
            last_error: Some("MICHI_MQTT_HOST not set"@),
        }
    } else {
        RuntimeInfoView {
            generation: generation as u64,
            actual_state: "active"@,
            health: "healthy"@,
            last_error: None,
        }
    }
}

/// The runtime record that a module toggled off gets.
pub open spec fn disabled_info(old: Option<RuntimeInfoView>) -> RuntimeInfoView {
    RuntimeInfoView {
        generation: match old {
            Some(i) => i.generation,
            None => 1,
        },
        actual_state: "disabled"@,
        health: "disabled"@,
        last_error: None,
    }
}

/// The slot after a toggle to `enabled`; toggling to the current state
/// changes nothing.
pub open spec fn toggled_slot(s: ModuleSlotView, enabled: bool, mqtt_host_set: bool) -> ModuleSlotView {
    if enabled {
        if !s.disabled {
            s
        } else {
            ModuleSlotView {
                disabled: false,
                runtime: Some(enabled_info(s.runtime, s.name, mqtt_host_set)),
                ..s
            }
        }
    } else {
        if s.disabled {
            s
        } else {
            ModuleSlotView { disabled: true, runtime: Some(disabled_info(s.runtime)), ..s }
        }
    }
}

/// A background worker that enabling a module starts.
#[derive(Debug, Clone, Copy, PartialEq, Eq, Structural)]
pub enum ModuleWorker {
    HomeAssistant,
    SyncPeers,
}

/// What the caller carries out after a toggle.
#[derive(Debug, Clone, Copy, PartialEq, Eq, Structural)]
pub enum ToggleEffect {
    /// The module was already in the requested state.
    Unchanged,
    /// The module was switched on: give it a fresh cancellation token and
    /// start its worker, if it has one.
    Enabled { worker: Option<ModuleWorker> },
    /// The module was switched off: cancel its token; for the playback
    /// module also stop the engine, clear its queue and the output selection.
    Disabled { stop_playback: bool },
}

/// The effect of a toggle on a slot.
pub open spec fn toggle_effect(s: ModuleSlotView, enabled: bool, mqtt_host_set: bool) -> ToggleEffect {
    if enabled == !s.disabled {
        ToggleEffect::Unchanged
    } else if enabled {
        ToggleEffect::Enabled {
            worker: if s.name == "homeassistant"@ && mqtt_host_set {
                Some(ModuleWorker::HomeAssistant)
            } else if s.name == "sync"@ {
                Some(ModuleWorker::SyncPeers)
            } else {
                None
            },
        }
    } else {
        ToggleEffect::Disabled { stop_playback: s.name == "playback"@ }
    }
}

/// A refused toggle: the name is no built-in module (`400 UNKNOWN_MODULE`).
#[derive(Debug)]
pub enum ModuleError {
    UnknownModule(String),
}

impl ModuleError {
    /// The error's message.
    pub fn message(&self) -> (s: String)
        ensures
            s@ == (match self {
                ModuleError::UnknownModule(n) => "unknown module: "@ + n@,
            }),
    {
        match self {
            ModuleError::UnknownModule(n) => {
                let mut s = String::from_str("unknown module: ");
                s.append(n.as_str());
                s
            },
        }
    }
}

/// A request to turn a module on or off.
#[derive(Debug)]
pub struct ToggleModuleBody {
    pub name: String,
    pub enabled: bool,
}

/// A request to turn the module named in the path on or off; a name in the
/// body is ignored.
#[derive(Debug)]
pub struct ToggleModulePathBody {
    pub name: Option<String>,
    pub enabled: bool,
}

impl ToggleModulePathBody {
    /// The toggle for the module named in the path.
    pub fn for_module(self, name: String) -> (r: ToggleModuleBody)
        ensures
            r.name == name,
            r.enabled == self.enabled,
    {
        ToggleModuleBody { name, enabled: self.enabled }
    }
}

/// A module's state as a toggle reports it.
#[derive(Debug)]
pub struct ModuleReport {
    pub module: String,
    pub enabled: bool,
    pub desired_state: String,
    pub actual_state: String,
    pub health: String,
    pub generation: u64,
    pub last_error: Option<String>,
}

/// The state, health, generation and error that are reported for a module
/// with runtime record `r` whose requested state is `enabled`.
pub open spec fn reported_runtime(r: Option<RuntimeInfoView>, enabled: bool) -> RuntimeInfoView {
    match r {
        Some(i) => i,
        None => if enabled {
            RuntimeInfoView { generation: 1, actual_state: "active"@, health: "healthy"@, last_error: None }
        } else {
            RuntimeInfoView {
                generation: 1,
                actual_state: "disabled"@,
                health: "disabled"@,
                last_error: None,
            }
        },
    }
}

/// The name of a module's desired state.
pub open spec fn desired_name(enabled: bool) -> Seq<char> {
    if enabled {
        "enabled"@
    } else {
        "disabled"@
    }
}

/// The descriptor listed for a slot with description `description`.
pub open spec fn listed_descriptor(s: ModuleSlotView, description: Seq<char>) -> ModuleDescriptorView {
    let r = reported_runtime(s.runtime, !s.disabled);
    ModuleDescriptorView {
        name: s.name,
        enabled: !s.disabled,
        description,
        desired_state: desired_name(!s.disabled),
        actual_state: r.actual_state,
        health: r.health,
        generation: r.generation,
        last_error: r.last_error,
    }
}

fn copy_runtime(r: &ModuleRuntimeInfo) -> (c: ModuleRuntimeInfo)
    ensures
        c@ == r@,
{
    ModuleRuntimeInfo {
        generation: r.generation,
        actual_state: r.actual_state.clone(),
        health: r.health.clone(),
        last_error: copy_opt_string(&r.last_error),
    }
}

fn reported(r: &Option<ModuleRuntimeInfo>, enabled: bool) -> (c: ModuleRuntimeInfo)
    ensures
        c@ == reported_runtime(opt_runtime(*r), enabled),
{
    match r {
        Some(i) => copy_runtime(i),
        None => if enabled {
            ModuleRuntimeInfo {
                generation: 1,
                actual_state: String::from_str("active"),
                health: String::from_str("healthy"),
                last_error: None,
            }
        } else {
            ModuleRuntimeInfo {
                generation: 1,
                actual_state: String::from_str("disabled"),
                health: String::from_str("disabled"),
                last_error: None,
            }
        },
    }
}

fn desired_string(enabled: bool) -> (s: String)
    ensures
        s@ == desired_name(enabled),
{
    if enabled {
        String::from_str("enabled")
    } else {
        String::from_str("disabled")
    }
}

impl ModuleRegistry {
    /// Well-formed: one slot per built-in module, in order, and every
    /// disabled module has a runtime record (it was switched off by a
    /// toggle, which records one).
    pub open spec fn wf(&self) -> bool {
        &&& self@.len() == builtin_module_names().len()
        &&& forall|i: int| 0 <= i < self@.len() ==> (#[trigger] self@[i]).name == builtin_module_names()[i]
        &&& forall|i: int| 0 <= i < self@.len() && (#[trigger] self@[i]).disabled ==> self@[i].runtime is Some
    }

    /// Every module enabled, none toggled yet.
    pub fn new() -> (r: Self)
        ensures
            r.wf(),
            forall|i: int| 0 <= i < r@.len() ==> !(#[trigger] r@[i]).disabled && r@[i].runtime is None,
    {
        let names = builtin_modules();
        let mut slots: Vec<ModuleSlot> = Vec::new();
        let mut i: usize = 0;
        while i < names.len()
            invariant
                names@.len() == 7,
                forall|k: int| 0 <= k < 7 ==> (#[trigger] names@[k])@ == fresh_descriptor(k),
                i <= 7,
                slots@.len() == i,
                forall|k: int|
                    0 <= k < i ==> (#[trigger] slots@[k])@ == (ModuleSlotView {
                        name: builtin_module_names()[k],
                        disabled: false,
                        runtime: None,
                    }),
            decreases 7 - i,
        {
            slots.push(ModuleSlot { name: names[i].name.clone(), disabled: false, runtime: None });
            i = i + 1;
        }
        let r = ModuleRegistry { slots };
        proof {
            assert forall|k: int| 0 <= k < r@.len() implies (#[trigger] r@[k]).name
                == builtin_module_names()[k] && !r@[k].disabled && r@[k].runtime is None by {
                assert(r@[k] == r.slots@[k]@);
            }
        }
        r
    }

    /// The slot of module `name`, if it is a built-in module.
    pub open spec fn slot_of(&self, name: Seq<char>) -> Option<ModuleSlotView> {
        match module_index(name) {
            Some(i) => Some(self@[i]),
            None => None,
        }
    }

    fn find(&self, name: &str) -> (r: Option<usize>)
        requires
            self.wf(),
        ensures
            match r {
                Some(i) => module_index(name@) == Some(i as int) && i < self@.len(),
                None => module_index(name@) is None,
            },
    {
        let mut i: usize = 0;
        while i < self.slots.len()
            invariant
                self.wf(),
                i <= self.slots@.len(),
                forall|j: int| 0 <= j < i ==> builtin_module_names()[j] != name@,
            decreases self.slots.len() - i,
        {
            proof {
                assert(self@[i as int] == self.slots@[i as int]@);
            }
            if str_eq(self.slots[i].name.as_str(), name) {
                proof {
                    crate::text::lemma_first_index(builtin_module_names(), name@, i as int);
                }
                return Some(i);
            }
            i = i + 1;
        }
        proof {
            crate::text::lemma_first_index_none(builtin_module_names(), name@);
        }
        None
    }

    /// Whether module `name` is disabled; unknown names are not.
    pub fn is_disabled(&self, name: &str) -> (r: bool)
        requires
            self.wf(),
        ensures
            r == (self.slot_of(name@) matches Some(s) && s.disabled),
    {
        match self.find(name) {
            Some(i) => {
                proof {
                    assert(self@[i as int] == self.slots@[i as int]@);
                }
                self.slots[i].disabled
            },
            None => false,
        }
    }

    /// Whether a toggle of `name` to `enabled` keeps the generation counter
    /// within `u64`.
    pub open spec fn toggle_in_range(&self, name: Seq<char>, enabled: bool) -> bool {
        enabled ==> match self.slot_of(name) {
            Some(s) => s.runtime matches Some(i) ==> i.generation < u64::MAX,
            None => true,
        }
    }

    /// Toggles module `name` on or off.  Unknown names are refused and leave
    /// the registry as it was; a toggle to the current state changes nothing.
    pub fn toggle(&mut self, name: &str, enabled: bool, mqtt_host_set: bool) -> (r: Result<
        ToggleEffect,
        ModuleError,
    >)
        requires
            old(self).wf(),
            old(self).toggle_in_range(name@, enabled),
        ensures
            final(self).wf(),
            match module_index(name@) {
                None => r matches Err(ModuleError::UnknownModule(n)) && n@ == name@ && final(self)@
                    == old(self)@,
                Some(i) => r == Ok::<ToggleEffect, ModuleError>(
                    toggle_effect(old(self)@[i], enabled, mqtt_host_set),
                ) && final(self)@ == old(self)@.update(
                    i,
                    toggled_slot(old(self)@[i], enabled, mqtt_host_set),
                ),
            },
    {
        let i = match self.find(name) {
            Some(i) => i,
            None => {
                return Err(ModuleError::UnknownModule(String::from_str(name)));
            },
        };
        proof {
            assert(old(self)@[i as int] == self.slots@[i as int]@);
            crate::text::lemma_first_index_bound(builtin_module_names(), name@);
        }
        let is_disabled = self.slots[i].disabled;
        if enabled == !is_disabled {
            return Ok(ToggleEffect::Unchanged);
        }
        let ghost before = self.slots@[i as int]@;
        let is_ha = str_eq(name, "homeassistant");
        let is_sync = str_eq(name, "sync");
        let is_playback = str_eq(name, "playback");
        let new_info = if enabled {
            let generation: u64 = match &self.slots[i].runtime {
                Some(info) => info.generation + 1,
                None => 1,
            };
            if is_ha && !mqtt_host_set {
                ModuleRuntimeInfo {
                    generation,
                    actual_state: String::from_str("idle"),
                    health: String::from_str("disabled"),
                    last_error: Some(String::from_str("MICHI_MQTT_HOST not set")),
                }
            } else {
                ModuleRuntimeInfo {
                    generation,
                    actual_state: String::from_str("active"),
                    health: String::from_str("healthy"),
                    last_error: None,
                }
            }
        } else {
            let generation: u64 = match &self.slots[i].runtime {
                Some(info) => info.generation,
                None => 1,
            };
            ModuleRuntimeInfo {
                generation,
                actual_state: String::from_str("disabled"),
                health: String::from_str("disabled"),
                last_error: None,
            }
        };
        let slot = ModuleSlot {
            name: self.slots[i].name.clone(),
            disabled: !enabled,
            runtime: Some(new_info),
        };
        self.slots.set(i, slot);
        proof {
            assert(self@ =~= old(self)@.update(i as int, toggled_slot(before, enabled, mqtt_host_set)));
        }
        if enabled {
            let worker = if is_ha && mqtt_host_set {
                Some(ModuleWorker::HomeAssistant)
            } else if is_sync {
                Some(ModuleWorker::SyncPeers)
            } else {
                None
            };
            Ok(ToggleEffect::Enabled { worker })
        } else {
            Ok(ToggleEffect::Disabled { stop_playback: is_playback })
        }
    }

    /// Marks the playback module degraded with `error`, when stopping the
    /// engine failed while it was switched off.  Only a module with a runtime
    /// record is marked.
    pub fn record_playback_stop_failure(&mut self, error: String)
        requires
            old(self).wf(),
        ensures
            final(self).wf(),
            match module_index("playback"@) {
                Some(i) => final(self)@ == (match old(self)@[i].runtime {
                    Some(info) => old(self)@.update(
                        i,
                        ModuleSlotView {
                            runtime: Some(
                                RuntimeInfoView {
                                    actual_state: "degraded"@,
                                    health: "degraded"@,
                                    last_error: Some(error@),
                                    ..info
                                },
                            ),
                            ..old(self)@[i]
                        },
                    ),
                    None => old(self)@,
                }),
                None => final(self)@ == old(self)@,
            },
    {
        let i = match self.find("playback") {
            Some(i) => i,
            None => {
                return ;
            },
        };
        proof {
            assert(old(self)@[i as int] == self.slots@[i as int]@);
        }
        let generation: u64 = match &self.slots[i].runtime {
            Some(info) => info.generation,
            None => {
                return ;
            },
        };
        let slot = ModuleSlot {
            name: self.slots[i].name.clone(),
            disabled: self.slots[i].disabled,
            runtime: Some(
                ModuleRuntimeInfo {
                    generation,
                    actual_state: String::from_str("degraded"),
                    health: String::from_str("degraded"),
                    last_error: Some(error),
                },
            ),
        };
        self.slots.set(i, slot);
        proof {
            assert(self@ =~= old(self)@.update(
                i as int,
                ModuleSlotView {
                    runtime: Some(
                        RuntimeInfoView {
                            actual_state: "degraded"@,
                            health: "degraded"@,
                            last_error: Some(error@),
                            ..old(self)@[i as int].runtime->0
                        },
                    ),
                    ..old(self)@[i as int]
                },
            ));
        }
    }

    /// What a toggle of `name` to `enabled` answers: the runtime record where
    /// there is one, else the defaults of the requested state.
    pub fn report(&self, name: &str, enabled: bool) -> (r: ModuleReport)
        requires
            self.wf(),
        ensures
            r.module@ == name@,
            r.enabled == enabled,
            r.desired_state@ == desired_name(enabled),
            ({
                let info = reported_runtime(
                    match self.slot_of(name@) {
                        Some(s) => s.runtime,
                        None => None,
                    },
                    enabled,
                );
                &&& r.actual_state@ == info.actual_state
                &&& r.health@ == info.health
                &&& r.generation == info.generation
                &&& opt_text(r.last_error) == info.last_error
            }),
    {
        let info = match self.find(name) {
            Some(i) => {
                proof {
                    assert(self@[i as int] == self.slots@[i as int]@);
                }
                reported(&self.slots[i].runtime, enabled)
            },
            None => reported(&None, enabled),
        };
        ModuleReport {
            module: String::from_str(name),
            enabled,
            desired_state: desired_string(enabled),
            actual_state: info.actual_state,
            health: info.health,
            generation: info.generation,
            last_error: info.last_error,
        }
    }

    /// The descriptors of all built-in modules with their current state.
    pub fn list(&self) -> (v: Vec<ModuleDescriptor>)
        requires
            self.wf(),
        ensures
            v@.len() == self@.len(),
            forall|i: int|
                0 <= i < v@.len() ==> (#[trigger] v@[i])@ == listed_descriptor(
                    self@[i],
                    builtin_module_descriptions()[i],
                ),
    {
        let mut v = builtin_modules();
        let mut out: Vec<ModuleDescriptor> = Vec::new();
        let mut i: usize = 0;
        while i < self.slots.len()
            invariant
                self.wf(),
                v@.len() == 7,
                forall|k: int| 0 <= k < 7 ==> (#[trigger] v@[k])@ == fresh_descriptor(k),
                i <= self.slots@.len(),
                out@.len() == i,
                forall|k: int|
                    0 <= k < i ==> (#[trigger] out@[k])@ == listed_descriptor(
                        self@[k],
                        builtin_module_descriptions()[k],
                    ),
            decreases self.slots.len() - i,
        {
            proof {
                assert(self@[i as int] == self.slots@[i as int]@);
                assert(v@[i as int]@ == fresh_descriptor(i as int));
            }
            let slot = &self.slots[i];
            let enabled = !slot.disabled;
            let info = reported(&slot.runtime, enabled);
            out.push(
                ModuleDescriptor {
                    name: slot.name.clone(),
                    enabled,
                    description: v[i].description.clone(),
                    desired_state: desired_string(enabled),
                    actual_state: info.actual_state,
                    health: info.health,
                    generation: info.generation,
                    last_error: info.last_error,
                },
            );
            i = i + 1;
        }
        out
    }
}

/// Toggling a module to the state it was just toggled to changes nothing and
/// has no effect to carry out.
pub proof fn law_toggle_idempotent(s: ModuleSlotView, enabled: bool, mqtt_host_set: bool)
    ensures
        toggled_slot(toggled_slot(s, enabled, mqtt_host_set), enabled, mqtt_host_set)
            == toggled_slot(s, enabled, mqtt_host_set),
        toggle_effect(toggled_slot(s, enabled, mqtt_host_set), enabled, mqtt_host_set)
            == ToggleEffect::Unchanged,
{
}

/// After a toggle the module is disabled exactly when it was toggled off,
/// and a module that changed state has a runtime record.
pub proof fn law_toggle_sets_desired_state(s: ModuleSlotView, enabled: bool, mqtt_host_set: bool)
    ensures
        toggled_slot(s, enabled, mqtt_host_set).disabled == !enabled,
        toggled_slot(s, enabled, mqtt_host_set).name == s.name,
        s.disabled == enabled ==> toggled_slot(s, enabled, mqtt_host_set).runtime is Some,
{
}

/// In a well-formed registry, switching a disabled module back on raises
/// its reported generation by exactly one; any other toggle leaves it as it
/// was.
pub proof fn law_enable_raises_generation(r: ModuleRegistry, i: int, enabled: bool, mqtt_host_set: bool)
    requires
        r.wf(),
        0 <= i < r@.len(),
        r@[i].runtime matches Some(x) ==> x.generation < u64::MAX,
    ensures
        ({
            let s = r@[i];
            let before = reported_runtime(s.runtime, !s.disabled).generation as int;
            let after = reported_runtime(
                toggled_slot(s, enabled, mqtt_host_set).runtime,
                enabled,
            ).generation as int;
            &&& (enabled && s.disabled) ==> after == before + 1
            &&& !(enabled && s.disabled) ==> after == before
        }),
{
    assert(r@[i].disabled ==> r@[i].runtime is Some);
    law_generation_counts_enables(r@[i], enabled, mqtt_host_set);
}

/// The generation counter goes up by one on each switch from off to on and
/// stays the same otherwise.
pub proof fn law_generation_counts_enables(s: ModuleSlotView, enabled: bool, mqtt_host_set: bool)
    requires
        s.runtime matches Some(i) ==> i.generation < u64::MAX,
    ensures
        ({
            let before = reported_runtime(s.runtime, !s.disabled).generation as int;
            let after = reported_runtime(
                toggled_slot(s, enabled, mqtt_host_set).runtime,
                enabled,
            ).generation as int;
            &&& (enabled && s.disabled && s.runtime is Some) ==> after == before + 1
            &&& !(enabled && s.disabled) ==> after == before
        }),
{
}

/// The address prefixes that count as the local network.
pub open spec fn lan_prefixes() -> Seq<Seq<char>> {
    seq![
        "10."@,
        "192.168."@,
        "172.16."@,
        "172.17."@,
        "172.18."@,
        "172.19."@,
        "172.20."@,
        "172.21."@,
        "172.22."@,
        "172.23."@,
        "172.24."@,
        "172.25."@,
        "172.26."@,
        "172.27."@,
        "172.28."@,
        "172.29."@,
        "172.30."@,
        "172.31."@,
        "127."@,
        "::1"@,
        "fd"@,
    ]
}

/// Whether an address text begins with one of the local-network prefixes.
pub open spec fn spec_is_lan_ip(ip: Seq<char>) -> bool {
    exists|k: int| 0 <= k < lan_prefixes().len() && (#[trigger] lan_prefixes()[k]).is_prefix_of(ip)
}

/// Whether a client address belongs to the local network.
pub fn is_lan_ip(ip: &str) -> (r: bool)
    ensures
        r == spec_is_lan_ip(ip@),
{
    let prefixes: [&str; 21] = [
        "10.",
        "192.168.",
        "172.16.",
        "172.17.",
        "172.18.",
        "172.19.",
        "172.20.",
        "172.21.",
        "172.22.",
        "172.23.",
        "172.24.",
        "172.25.",
        "172.26.",
        "172.27.",
        "172.28.",
        "172.29.",
        "172.30.",
        "172.31.",
        "127.",
        "::1",
        "fd",
    ];
    let ghost ps = prefixes@.map_values(|p: &str| p@);
    assert(ps =~= lan_prefixes());
    let mut i: usize = 0;
    while i < 21
        invariant
            ps == prefixes@.map_values(|p: &str| p@),
            ps == lan_prefixes(),
            i <= 21,
            forall|k: int| 0 <= k < i ==> !(#[trigger] lan_prefixes()[k]).is_prefix_of(ip@),
        decreases 21 - i,
    {
        if starts_with(ip, prefixes[i]) {
            proof {
                assert(lan_prefixes()[i as int] == prefixes@[i as int]@);
            }
            return true;
        }
        proof {
            assert(lan_prefixes()[i as int] == prefixes@[i as int]@);
        }
        i = i + 1;
    }
    false
}

/// A policy request.
#[derive(Debug)]
pub struct PolicyQuery {
    pub client_ip: Option<String>,
    pub client_capabilities: Option<Vec<String>>,
}

/// The streaming and sync policy for a client.
#[derive(Debug)]
pub struct PolicyResult {
    pub profile: String,
    pub max_bitrate: Option<u32>,
    pub allow_sync: bool,
    pub allow_stream: bool,
}

/// The bitrate cap for remote clients: the configured one, or 128 kbit/s
/// where none is configured.
pub open spec fn remote_bitrate(max_remote_bitrate: u32) -> u32 {
    if max_remote_bitrate > 0 {
        max_remote_bitrate
    } else {
        128_000
    }
}

/// The policy of a client that is treated as remote.
pub fn remote_policy(
    max_remote_bitrate: u32,
    remote_sync: bool,
    sync_enabled: bool,
    stream_enabled: bool,
) -> (p: PolicyResult)
    ensures
        p.profile@ == "remote"@,
        p.max_bitrate == Some(remote_bitrate(max_remote_bitrate)),
        p.allow_sync == (sync_enabled && remote_sync),
        p.allow_stream == stream_enabled,
{
    PolicyResult {
        profile: String::from_str("remote"),
        max_bitrate: Some(if max_remote_bitrate > 0 { max_remote_bitrate } else { 128_000 }),
        allow_sync: sync_enabled && remote_sync,
        allow_stream: stream_enabled,
    }
}

/// The policy of the client at `client_ip`: local clients stream without a
/// bitrate cap and may always sync while the sync module runs.
pub fn lan_policy(
    client_ip: &str,
    max_remote_bitrate: u32,
    remote_sync: bool,
    sync_enabled: bool,
    stream_enabled: bool,
) -> (p: PolicyResult)
    ensures
        p.profile@ == (if spec_is_lan_ip(client_ip@) { "lan"@ } else { "remote"@ }),
        p.max_bitrate == (if spec_is_lan_ip(client_ip@) {
            None
        } else {
            Some(remote_bitrate(max_remote_bitrate))
        }),
        p.allow_sync == (sync_enabled && (spec_is_lan_ip(client_ip@) || remote_sync)),
        p.allow_stream == stream_enabled,
{
    let lan = is_lan_ip(client_ip);
    PolicyResult {
        profile: if lan {
            String::from_str("lan")
        } else {
            String::from_str("remote")
        },
        max_bitrate: if lan {
            None
        } else if max_remote_bitrate > 0 {
            Some(max_remote_bitrate)
        } else {
            Some(128_000)
        },
        allow_sync: sync_enabled && (lan || remote_sync),
        allow_stream: stream_enabled,
    }
}

/// A direct stream handoff offer.
#[derive(Debug)]
pub struct HandoffOffer {
    pub target_peer: Option<String>,
    pub track_id: String,
    pub session_id: Option<String>,
}

/// Whether an `If-None-Match` value matches the resource's current tag: the
/// same tag or `*`; a resource without a tag matches nothing.
pub fn etag_matches(current: Option<&str>, if_none_match: &str) -> (r: bool)
    ensures
        r == (match current {
            Some(c) => if_none_match@ == c@ || if_none_match@ == "*"@,
            None => false,
        }),
{
    match current {
        Some(c) => str_eq(if_none_match, c) || str_eq(if_none_match, "*"),
        None => false,
    }
}


// ── Resource tags ─────────────────────────────────────────────────

/// The current entity tag of each resource that has one.
#[derive(Debug)]
pub struct EtagStore {
    entries: Vec<(String, String)>,
}

/// The resource names of a list of entries.
pub open spec fn tag_keys(entries: Seq<(String, String)>) -> Seq<Seq<char>> {
    entries.map_values(|e: (String, String)| e.0@)
}

/// The tag stored for `resource` in a list of entries.
pub open spec fn tag_in(entries: Seq<(String, String)>, resource: Seq<char>) -> Option<Seq<char>> {
    match first_index(tag_keys(entries), resource) {
        Some(k) => Some(entries[k].1@),
        None => None,
    }
}

proof fn lemma_first_index_push(items: Seq<Seq<char>>, x: Seq<char>, s: Seq<char>)
    ensures
        first_index(items.push(x), s) == (if first_index(items, s) is Some {
            first_index(items, s)
        } else if x == s {
            Some(items.len() as int)
        } else {
            None
        }),
    decreases items.len(),
{
    if items.len() > 0 {
        let d = items.drop_first();
        assert(items.push(x).drop_first() =~= d.push(x));
        assert(items.push(x)[0] == items[0]);
        lemma_first_index_push(d, x, s);
        assert(d.len() + 1 == items.len());
        if items[0] == s {
            assert(first_index(items.push(x), s) == Some(0int));
            assert(first_index(items, s) == Some(0int));
        } else {
            assert(first_index(items.push(x), s) == (match first_index(d.push(x), s) {
                Some(k) => Some(k + 1),
                None => None,
            }));
            assert(first_index(items, s) == (match first_index(d, s) {
                Some(k) => Some(k + 1),
                None => None,
            }));
        }
    } else {
        assert(items.push(x).drop_first() =~= Seq::<Seq<char>>::empty());
        assert(items.push(x)[0] == x);
        assert(first_index(Seq::<Seq<char>>::empty(), s) is None);
        assert(first_index(items, s) is None);
        if x == s {
            assert(first_index(items.push(x), s) == Some(0int));
        } else {
            assert(first_index(items.push(x), s) is None);
        }
    }
}

proof fn lemma_first_index_found(items: Seq<Seq<char>>, s: Seq<char>)
    ensures
        first_index(items, s) matches Some(k) ==> 0 <= k < items.len() && items[k] == s,
    decreases items.len(),
{
    if items.len() > 0 {
        lemma_first_index_found(items.drop_first(), s);
    }
}

impl EtagStore {
    /// The tag of each resource, by resource name.
    pub closed spec fn tag_of(&self, resource: Seq<char>) -> Option<Seq<char>> {
        tag_in(self.entries@, resource)
    }

    /// A store in which no resource has a tag.
    pub fn new() -> (s: Self)
        ensures
            forall|r: Seq<char>| s.tag_of(r) is None,
    {
        EtagStore { entries: Vec::new() }
    }

    fn position(&self, resource: &str) -> (r: Option<usize>)
        ensures
            match r {
                Some(k) => first_index(tag_keys(self.entries@), resource@) == Some(k as int) && k
                    < self.entries@.len(),
                None => first_index(tag_keys(self.entries@), resource@) is None,
            },
    {
        let ghost keys = tag_keys(self.entries@);
        proof {
            lemma_first_index_found(keys, resource@);
        }
        let mut i: usize = 0;
        while i < self.entries.len()
            invariant
                keys == tag_keys(self.entries@),
                i <= self.entries@.len(),
                forall|j: int| 0 <= j < i ==> keys[j] != resource@,
            decreases self.entries.len() - i,
        {
            if str_eq(self.entries[i].0.as_str(), resource) {
                proof {
                    assert(keys[i as int] == resource@);
                    crate::text::lemma_first_index(keys, resource@, i as int);
                }
                return Some(i);
            }
            i = i + 1;
        }
        proof {
            crate::text::lemma_first_index_none(keys, resource@);
        }
        None
    }

    /// The current tag of a resource.
    pub fn get(&self, resource: &str) -> (r: Option<String>)
        ensures
            match r {
                Some(t) => self.tag_of(resource@) == Some(t@),
                None => self.tag_of(resource@) is None,
            },
    {
        proof {
            lemma_first_index_found(tag_keys(self.entries@), resource@);
        }
        match self.position(resource) {
            Some(k) => {
                let t = self.entries[k].1.clone();
                Some(t)
            },
            None => None,
        }
    }

    /// Gives a resource a fresh tag, a quoted random UUID, and returns it;
    /// the tags of other resources stay.
    pub fn set(&mut self, resource: &str) -> (tag: String)
        ensures
            exists|id: u128| tag@ == "\""@ + uuid_text(id) + "\""@,
            final(self).tag_of(resource@) == Some(tag@),
            forall|other: Seq<char>| other != resource@ ==> final(self).tag_of(other) == old(self).tag_of(other),
    {
        let id = random_uuid();
        let mut tag = String::from_str("\"");
        let text = uuid_string(id);
        tag.append(text.as_str());
        tag.append("\"");
        let ghost old_entries = self.entries@;
        proof {
            lemma_first_index_found(tag_keys(old_entries), resource@);
        }
        match self.position(resource) {
            Some(k) => {
                let entry = (self.entries[k].0.clone(), tag.clone());
                self.entries.set(k, entry);
                proof {
                    assert(tag_keys(self.entries@) =~= tag_keys(old_entries));
                    assert forall|other: Seq<char>| other != resource@ implies tag_in(self.entries@, other)
                        == tag_in(old_entries, other) by {
                        lemma_first_index_found(tag_keys(old_entries), other);
                    }
                }
            },
            None => {
                self.entries.push((String::from_str(resource), tag.clone()));
                proof {
                    assert(tag_keys(self.entries@) =~= tag_keys(old_entries).push(resource@));
                    lemma_first_index_push(tag_keys(old_entries), resource@, resource@);
                    assert forall|other: Seq<char>| other != resource@ implies tag_in(self.entries@, other)
                        == tag_in(old_entries, other) by {
                        lemma_first_index_push(tag_keys(old_entries), resource@, other);
                        lemma_first_index_found(tag_keys(old_entries), other);
                    }
                }
            },
        }
        tag
    }

    /// Whether an `If-None-Match` value matches the resource's current tag
    /// (the same tag, or `*`); a resource without a tag matches nothing.
    pub fn check(&self, resource: &str, if_none_match: &str) -> (r: bool)
        ensures
            r == (match self.tag_of(resource@) {
                Some(c) => if_none_match@ == c || if_none_match@ == "*"@,
                None => false,
            }),
    {
        match self.get(resource) {
            Some(c) => etag_matches(Some(c.as_str()), if_none_match),
            None => false,
        }
    }
}

/// A tag just given to a resource matches a request that sends it back.
pub proof fn law_fresh_tag_matches(store: EtagStore, resource: Seq<char>, tag: Seq<char>)
    requires
        store.tag_of(resource) == Some(tag),
    ensures
        (match store.tag_of(resource) {
            Some(c) => tag == c || tag == "*"@,
            None => false,
        }),
{
}

} // verus!
