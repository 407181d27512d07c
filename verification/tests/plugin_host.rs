use schedule_dsl::error::ScheduleError;
use schedule_dsl::graph::{DependencyKind, SystemGraphType};
use schedule_dsl::input::{
    ButtonState, InputPlugin, InputSystem, GAMEPAD_CONNECTION_FN, GAMEPAD_EVENT_FN,
    INPUT_SYSTEM_LABEL, PRE_UPDATE_LABEL,
};
use schedule_dsl::plugin::{App, Plugin};
use schedule_dsl::set::SetLabel;

#[test]
fn button_state_is_pressed() {
    assert!(ButtonState::Pressed.is_pressed());
    assert!(!ButtonState::Released.is_pressed());
    assert_eq!(ButtonState::Pressed, ButtonState::Pressed);
    assert_ne!(ButtonState::Pressed, ButtonState::Released);
}

#[test]
fn input_plugin_identity() {
    assert_eq!(InputPlugin.name(), "InputPlugin");
    assert!(InputPlugin.is_unique());
    assert_eq!(InputSystem.label(), SetLabel::named(INPUT_SYSTEM_LABEL, false));
}

#[test]
fn input_plugin_registers_configured_work() {
    let mut app = App::new();
    app.add_plugin(&InputPlugin).unwrap();

    assert_eq!(app.plugin_names.len(), 1);
    assert_eq!(app.plugin_names[0], "InputPlugin");

    assert_eq!(app.set_configs.len(), 1);
    let stage = &app.set_configs[0];
    match &stage.graph_type {
        SystemGraphType::LabeledSet { set, conditions } => {
            assert_eq!(*set, SetLabel::named(INPUT_SYSTEM_LABEL, false));
            assert!(conditions.is_empty());
        }
        _ => panic!("expected the input set node"),
    }
    assert_eq!(
        stage.graph_info.base_set,
        Some(SetLabel::named(PRE_UPDATE_LABEL, true))
    );

    assert_eq!(app.systems.len(), 4);
    for graph in &app.systems[..2] {
        match &graph.graph_type {
            SystemGraphType::System { .. } => {}
            _ => panic!("expected single system nodes first"),
        }
        assert_eq!(graph.graph_info.sets.len(), 1);
    }
    match &app.systems[3].graph_type {
        SystemGraphType::System { system, .. } => {
            assert_eq!(system.name, "touch_screen_input_system");
        }
        _ => panic!("expected the touch system last"),
    }
}

#[test]
fn input_plugin_orders_gamepad_systems() {
    let mut app = App::new();
    app.add_plugin(&InputPlugin).unwrap();

    let group = &app.systems[2];
    assert_eq!(group.graph_info.sets.len(), 1);
    match &group.graph_type {
        SystemGraphType::Collection { members, chained } => {
            assert!(!*chained);
            assert_eq!(members.len(), 4);
            let connections = &members[1];
            let deps = &connections.graph_info.dependencies;
            assert_eq!(deps.len(), 1);
            assert_eq!(deps[0].kind, DependencyKind::After);
            match &deps[0].graph.graph_type {
                SystemGraphType::LabeledSet { set, .. } => {
                    assert_eq!(*set, SetLabel::SystemType { function: GAMEPAD_EVENT_FN });
                }
                _ => panic!("expected a system-type set dependency"),
            }
            let buttons = &members[2];
            let deps = &buttons.graph_info.dependencies;
            assert_eq!(deps.len(), 2);
            match &deps[1].graph.graph_type {
                SystemGraphType::LabeledSet { set, .. } => {
                    assert_eq!(
                        *set,
                        SetLabel::SystemType { function: GAMEPAD_CONNECTION_FN }
                    );
                }
                _ => panic!("expected a system-type set dependency"),
            }
        }
        _ => panic!("expected the gamepad group collection"),
    }
}

#[test]
fn duplicate_unique_plugins_are_rejected() {
    let mut app = App::new();
    app.add_plugin(&InputPlugin).unwrap();
    let err = app.add_plugin(&InputPlugin).unwrap_err();
    match &err {
        ScheduleError::DuplicatePlugin { name } => assert_eq!(name, "InputPlugin"),
        _ => panic!("expected a duplicate-plugin rejection"),
    }
    assert_eq!(
        err.message(),
        format!("Plugin `{}` was already registered and is unique.", "InputPlugin")
    );
    assert_eq!(app.plugin_names.len(), 1);
    assert_eq!(app.systems.len(), 4);
}

#[test]
fn register_plugin_name_allows_non_unique_duplicates() {
    let mut app = App::new();
    app.register_plugin_name("diagnostics".to_string(), false).unwrap();
    app.register_plugin_name("diagnostics".to_string(), false).unwrap();
    assert_eq!(app.plugin_names.len(), 2);
    let err = app
        .register_plugin_name("diagnostics".to_string(), true)
        .unwrap_err();
    assert!(matches!(err, ScheduleError::DuplicatePlugin { .. }));
}
