use std::collections::HashMap;

use winbar::component::ComponentIds;
use winbar::event;
use winbar::plugin::{
    event_answer, module_file_name, CallPlan, EntryPoint, EntryPoints, LoadStep, Plugin,
    PluginComponent, PluginError, PluginManager, UnloadStep,
};
use winbar::plugin_abi::{self, LoadConfigResult};
use winbar::styles::StyleOptions;

fn all_required() -> EntryPoints {
    EntryPoints {
        id: true,
        width: true,
        draw: true,
        load_config: false,
        start: true,
        stop: false,
        handle_event: false,
    }
}

fn everything() -> EntryPoints {
    EntryPoints {
        id: true,
        width: true,
        draw: true,
        load_config: true,
        start: true,
        stop: true,
        handle_event: true,
    }
}

#[test]
fn test_load() {
    let mut manager = PluginManager::new();
    let path = "C:\\Users\\Encast\\development\\winbar\\target\\debug\\winbar_plugin_test.dll";
    assert_eq!(manager.load(path), LoadStep::Open);
    manager.opened(path.to_string(), "test".to_string(), everything()).unwrap();

    let plugin = manager.get("test").unwrap();
    assert_eq!(plugin.id, "test");
    assert_eq!(plugin.name, path);
    assert_eq!(plugin.references, 1);
    assert_eq!(plugin.plan(EntryPoint::Width), CallPlan::Invoke);
    println!("{:?}", plugin.plan(EntryPoint::Width));
}

#[test]
fn a_module_is_found_under_the_identifier_it_reports() {
    let mut manager = PluginManager::new();
    assert_eq!(manager.load("winbar_plugin_test"), LoadStep::Open);
    assert!(manager.opened("winbar_plugin_test".to_string(), "test".to_string(), all_required()).is_ok());

    let plugin = manager.get("test").unwrap();
    assert_eq!((plugin.name.as_str(), plugin.id.as_str()), ("winbar_plugin_test", "test"));
    assert!(manager.get("winbar_plugin_test").is_none());

    // a second request for the same name shares the module: nothing is opened
    assert_eq!(manager.load("winbar_plugin_test"), LoadStep::Shared);
    assert_eq!(manager.reference_count("winbar_plugin_test"), 2);
    assert_eq!(manager.get("test").unwrap().references, 2);
    // requests go by the name, not by the identifier
    assert_eq!(manager.load("test"), LoadStep::Open);
    assert_eq!(manager.reference_count("test"), 0);

    assert_eq!(manager.unload("winbar_plugin_test"), UnloadStep::Retained);
    assert_eq!(manager.unload("winbar_plugin_test"), UnloadStep::Close);
    assert!(manager.get("test").is_none());
}

#[test]
fn of_two_modules_with_one_identifier_the_later_is_found() {
    let mut manager = PluginManager::new();
    manager.opened("first".to_string(), "same".to_string(), all_required()).unwrap();
    manager.opened("second".to_string(), "same".to_string(), everything()).unwrap();
    assert_eq!(manager.get("same").unwrap().name, "second");
    assert_eq!(manager.unload("second"), UnloadStep::Close);
    assert_eq!(manager.get("same").unwrap().name, "first");
}

#[test]
fn a_module_for_two_components_is_opened_and_closed_once() {
    let mut manager = PluginManager::new();
    let mut ids = ComponentIds::new();
    let mut opened = 0;
    let mut closed = 0;

    let mut components = Vec::new();
    for _ in 0..2 {
        match manager.load("clock") {
            LoadStep::Open => {
                opened += 1;
                manager.opened("clock".to_string(), "clock".to_string(), all_required()).unwrap();
            }
            LoadStep::Shared => {}
            LoadStep::Exhausted => unreachable!(),
        }
        components
            .push(PluginComponent::new("clock".to_string(), StyleOptions::default(), &mut ids).unwrap());
    }
    assert_eq!(opened, 1);
    assert_ne!(components[0].component_id, components[1].component_id);
    assert_eq!(manager.reference_count("clock"), 2);

    let first = components.remove(0);
    if manager.unload(&first.plugin) == UnloadStep::Close {
        closed += 1;
    }
    assert_eq!(closed, 0);
    assert!(manager.get("clock").is_some());
    assert_eq!(manager.reference_count("clock"), 1);

    let second = components.remove(0);
    assert_eq!(manager.unload(&second.plugin), UnloadStep::Close);
    assert!(manager.get("clock").is_none());
    assert_eq!(manager.reference_count("clock"), 0);
    assert_eq!(manager.unload("clock"), UnloadStep::NotLoaded);
}

#[test]
fn modules_are_kept_apart_by_identifier() {
    let mut manager = PluginManager::new();
    assert_eq!(manager.load("a"), LoadStep::Open);
    manager.opened("a".to_string(), "a".to_string(), all_required()).unwrap();
    assert_eq!(manager.load("b"), LoadStep::Open);
    manager.opened("b".to_string(), "b".to_string(), everything()).unwrap();
    assert_eq!(manager.load("a"), LoadStep::Shared);
    assert_eq!(manager.reference_count("a"), 2);
    assert_eq!(manager.reference_count("b"), 1);
    assert_eq!(manager.unload("b"), UnloadStep::Close);
    assert_eq!(manager.reference_count("a"), 2);
    assert_eq!(manager.unload("a"), UnloadStep::Retained);
    assert_eq!(manager.unload("a"), UnloadStep::Close);
}

#[test]
fn a_module_without_a_required_entry_point_is_not_taken_in() {
    let mut manager = PluginManager::new();
    for (entry_points, missing) in [
        (EntryPoints { id: false, ..everything() }, EntryPoint::Id),
        (EntryPoints { width: false, ..everything() }, EntryPoint::Width),
        (EntryPoints { draw: false, ..everything() }, EntryPoint::Draw),
        (EntryPoints { start: false, ..everything() }, EntryPoint::Start),
        (EntryPoints { width: false, start: false, ..everything() }, EntryPoint::Width),
    ] {
        assert_eq!(entry_points.first_missing(), Some(missing));
        match manager.opened("broken".to_string(), "broken".to_string(), entry_points) {
            Err(PluginError::MissingEntryPoint(entry)) => assert_eq!(entry, missing),
            other => panic!("unexpected {:?}", other),
        }
        assert!(manager.get("broken").is_none());
        assert_eq!(manager.load("broken"), LoadStep::Open);
    }
}

#[test]
fn optional_entry_points_may_be_absent() {
    let plugin = Plugin {
        name: "p".to_string(),
        id: "p".to_string(),
        entry_points: all_required(),
        references: 1,
    };
    assert_eq!(all_required().first_missing(), None);
    assert_eq!(plugin.plan(EntryPoint::Width), CallPlan::Invoke);
    assert_eq!(plugin.plan(EntryPoint::Start), CallPlan::Invoke);
    assert_eq!(plugin.plan(EntryPoint::LoadConfig), CallPlan::Skip);
    assert_eq!(plugin.plan(EntryPoint::Stop), CallPlan::Skip);
    assert_eq!(plugin.plan(EntryPoint::HandleEvent), CallPlan::Skip);
    let broken = Plugin {
        name: "q".to_string(),
        id: "q".to_string(),
        entry_points: EntryPoints { draw: false, ..everything() },
        references: 1,
    };
    assert_eq!(broken.plan(EntryPoint::Draw), CallPlan::Missing);
    assert_eq!(broken.plan(EntryPoint::Stop), CallPlan::Invoke);
    for entry in [EntryPoint::Id, EntryPoint::Width, EntryPoint::Draw, EntryPoint::Start] {
        assert!(entry.is_required());
    }
    for entry in [EntryPoint::LoadConfig, EntryPoint::Stop, EntryPoint::HandleEvent] {
        assert!(!entry.is_required());
    }
}

#[test]
fn component_ids_rise() {
    let mut ids = ComponentIds::new();
    assert_eq!(ids.issue(), Some(0));
    assert_eq!(ids.issue(), Some(1));
    assert_eq!(ids.issue(), Some(2));
    let component = PluginComponent::new("p".to_string(), StyleOptions::default(), &mut ids).unwrap();
    assert_eq!(component.component_id, 3);
    assert_eq!(component.plugin, "p");
    assert_eq!(ids.issue(), Some(4));
}

#[test]
fn component_ids_run_out() {
    let mut ids = ComponentIds::starting_at(u32::MAX - 1);
    assert_eq!(ids.issue(), Some(u32::MAX - 1));
    assert_eq!(ids.issue(), None);
    assert_eq!(ids.issue(), None);
    assert!(PluginComponent::new("p".to_string(), StyleOptions::default(), &mut ids).is_none());
}

#[test]
fn configuration_is_written_out_for_modules_that_take_it() {
    let mut ids = ComponentIds::new();
    let component = PluginComponent::new("p".to_string(), StyleOptions::default(), &mut ids).unwrap();
    let mut config = HashMap::new();
    config.insert("interval".to_string(), serde_json::Value::from(5));

    let taking = Plugin {
        name: "p".to_string(),
        id: "p".to_string(),
        entry_points: everything(),
        references: 1,
    };
    let text = component.load_config(&taking, &config).unwrap().unwrap();
    assert_eq!(text, "{\"interval\":5}");
    assert_eq!(component.load_config(&taking, &HashMap::new()).unwrap().unwrap(), "{}");

    let deaf = Plugin {
        name: "p".to_string(),
        id: "p".to_string(),
        entry_points: all_required(),
        references: 1,
    };
    assert_eq!(component.load_config(&deaf, &config).unwrap(), None);
}

#[test]
fn a_rejected_configuration_fails_with_the_plugin_message() {
    assert!(PluginComponent::accept_config(LoadConfigResult {
        ok: true,
        error_msg: String::new()
    })
    .is_ok());
    match PluginComponent::accept_config(LoadConfigResult {
        ok: false,
        error_msg: "no interval".to_string(),
    }) {
        Err(PluginError::ConfigRejected(message)) => assert_eq!(message, "no interval"),
        other => panic!("unexpected {:?}", other),
    }
}

#[test]
fn module_files_are_named_after_the_plugin() {
    assert_eq!(module_file_name("clock", "dll"), "clock.dll");
    assert_eq!(module_file_name("", "so"), ".so");
}

#[test]
fn a_plugin_component_answers_what_its_module_answers() {
    let handled = plugin_abi::EventResult { action: plugin_abi::EventAction::Handled, result: 4 };
    let intercept = plugin_abi::EventResult { action: plugin_abi::EventAction::Intercept, result: -1 };
    assert_eq!(
        event_answer(CallPlan::Invoke, Some(handled)),
        event::EventResult { action: event::EventAction::Handled, result: 4 }
    );
    assert_eq!(
        event_answer(CallPlan::Invoke, Some(intercept)),
        event::EventResult { action: event::EventAction::Intercept, result: -1 }
    );
    assert_eq!(event_answer(CallPlan::Invoke, None), event::EventResult::ignored());
    assert_eq!(event_answer(CallPlan::Skip, None), event::EventResult::ignored());
    assert_eq!(event_answer(CallPlan::Skip, Some(handled)), event::EventResult::ignored());
    assert_eq!(event_answer(CallPlan::Missing, Some(intercept)), event::EventResult::ignored());
}
