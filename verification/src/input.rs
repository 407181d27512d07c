//! An input-collection plugin: the illustrative client of the DSL.
//!
//! It registers the work units that gather keyboard, mouse, gamepad
//! and touch input, groups them under one named set, places that set
//! in the host's pre-update base stage, and orders the gamepad units
//! among themselves.  Its `build` contract states exactly which
//! configured nodes the host receives.

use vstd::prelude::*;
use vstd::string::StringExecFns;

use crate::graph::{
    lifted_collection, lifted_set, lifted_system, lemma_nodes_view, lemma_nodes_view_push,
    node_view, nodes_view, DependencyKind, GraphTypeView, SystemGraph, SystemGraphView,
};
use crate::plugin::{App, Plugin};
use crate::set::SetLabel;
use crate::system::{SystemDesc, SystemView};

verus! {

/// The current "press" state of an element.
#[derive(Debug, Copy, Clone, Eq, PartialEq, Hash, Structural)]
pub enum ButtonState {
    Pressed,
    Released,
}

impl ButtonState {
    /// True exactly when the element is pressed.
    pub fn is_pressed(&self) -> (r: bool)
        ensures
            r == (*self is Pressed),
    {
        matches!(self, ButtonState::Pressed)
    }
}

/// Identity token of the named set all input collection runs under.
pub const INPUT_SYSTEM_LABEL: u64 = 1;

/// Identity token of the host's pre-update base stage.
pub const PRE_UPDATE_LABEL: u64 = 2;

pub const KEYBOARD_INPUT_FN: u64 = 11;

pub const MOUSE_BUTTON_INPUT_FN: u64 = 12;

pub const GAMEPAD_EVENT_FN: u64 = 13;

pub const GAMEPAD_CONNECTION_FN: u64 = 14;

pub const GAMEPAD_BUTTON_EVENT_FN: u64 = 15;

pub const GAMEPAD_AXIS_EVENT_FN: u64 = 16;

pub const TOUCH_SCREEN_INPUT_FN: u64 = 17;

/// The named, non-base set under which all input collection runs.
#[derive(Debug, Clone, Copy, PartialEq, Eq, Hash, Structural)]
pub struct InputSystem;

pub open spec fn input_system_label() -> SetLabel {
    SetLabel::Named { label: INPUT_SYSTEM_LABEL, base: false }
}

impl InputSystem {
    /// This set's type-erased identity.
    pub fn label(&self) -> (l: SetLabel)
        ensures
            l == input_system_label(),
    {
        SetLabel::named(INPUT_SYSTEM_LABEL, false)
    }
}

pub open spec fn pre_update_label() -> SetLabel {
    SetLabel::Named { label: PRE_UPDATE_LABEL, base: true }
}

/// The host's pre-update stage: the base set input collection is
/// placed in, so that input is gathered before the main update runs.
pub fn pre_update_set() -> (l: SetLabel)
    ensures
        l == pre_update_label(),
{
    SetLabel::named(PRE_UPDATE_LABEL, true)
}

pub open spec fn keyboard_input_view() -> SystemView {
    SystemView { function: KEYBOARD_INPUT_FN, name: "keyboard_input_system"@, send: true }
}

/// The work unit that gathers keyboard input.
pub fn keyboard_input_system() -> (s: SystemDesc)
    ensures
        s@ == keyboard_input_view(),
{
    SystemDesc::new(KEYBOARD_INPUT_FN, String::from_str("keyboard_input_system"), true)
}

pub open spec fn mouse_button_input_view() -> SystemView {
    SystemView { function: MOUSE_BUTTON_INPUT_FN, name: "mouse_button_input_system"@, send: true }
}

/// The work unit that gathers mouse-button input.
pub fn mouse_button_input_system() -> (s: SystemDesc)
    ensures
        s@ == mouse_button_input_view(),
{
    SystemDesc::new(MOUSE_BUTTON_INPUT_FN, String::from_str("mouse_button_input_system"), true)
}

pub open spec fn gamepad_event_view() -> SystemView {
    SystemView { function: GAMEPAD_EVENT_FN, name: "gamepad_event_system"@, send: true }
}

/// The work unit that turns raw gamepad events into typed ones.
pub fn gamepad_event_system() -> (s: SystemDesc)
    ensures
        s@ == gamepad_event_view(),
{
    SystemDesc::new(GAMEPAD_EVENT_FN, String::from_str("gamepad_event_system"), true)
}

pub open spec fn gamepad_connection_view() -> SystemView {
    SystemView { function: GAMEPAD_CONNECTION_FN, name: "gamepad_connection_system"@, send: true }
}

/// The work unit that tracks gamepad connections.
pub fn gamepad_connection_system() -> (s: SystemDesc)
    ensures
        s@ == gamepad_connection_view(),
{
    SystemDesc::new(GAMEPAD_CONNECTION_FN, String::from_str("gamepad_connection_system"), true)
}

pub open spec fn gamepad_button_event_view() -> SystemView {
    SystemView {
        function: GAMEPAD_BUTTON_EVENT_FN,
        name: "gamepad_button_event_system"@,
        send: true,
    }
}

/// The work unit that applies gamepad button events.
pub fn gamepad_button_event_system() -> (s: SystemDesc)
    ensures
        s@ == gamepad_button_event_view(),
{
    SystemDesc::new(
        GAMEPAD_BUTTON_EVENT_FN,
        String::from_str("gamepad_button_event_system"),
        true,
    )
}

pub open spec fn gamepad_axis_event_view() -> SystemView {
    SystemView { function: GAMEPAD_AXIS_EVENT_FN, name: "gamepad_axis_event_system"@, send: true }
}

/// The work unit that applies gamepad axis events.
pub fn gamepad_axis_event_system() -> (s: SystemDesc)
    ensures
        s@ == gamepad_axis_event_view(),
{
    SystemDesc::new(GAMEPAD_AXIS_EVENT_FN, String::from_str("gamepad_axis_event_system"), true)
}

pub open spec fn touch_screen_input_view() -> SystemView {
    SystemView { function: TOUCH_SCREEN_INPUT_FN, name: "touch_screen_input_system"@, send: true }
}

/// The work unit that gathers touch input.
pub fn touch_screen_input_system() -> (s: SystemDesc)
    ensures
        s@ == touch_screen_input_view(),
{
    SystemDesc::new(TOUCH_SCREEN_INPUT_FN, String::from_str("touch_screen_input_system"), true)
}

/// The configured set node the plugin registers: the input set,
/// placed in the pre-update base stage.
pub open spec fn input_set_config_view() -> SystemGraphView {
    lifted_set(input_system_label()).with_base_set(pre_update_label())
}

/// A single work unit, added to the input set.
pub open spec fn in_input_set(s: SystemView) -> SystemGraphView {
    lifted_system(s).with_parent_set(lifted_set(input_system_label()))
}

/// The set node a dependency on a work unit lifts to: the system-type
/// identity of the unit's function.
pub open spec fn type_set_node(function: u64) -> SystemGraphView {
    lifted_set(SetLabel::SystemType { function })
}

/// The gamepad group: four units in one collection, the connection
/// and event-application units ordered after the units that feed
/// them, the whole group added to the input set.
pub open spec fn gamepad_group_view() -> SystemGraphView {
    lifted_collection(
        seq![
            lifted_system(gamepad_event_view()),
            lifted_system(gamepad_connection_view()).with_dependency(
                DependencyKind::After,
                type_set_node(GAMEPAD_EVENT_FN),
            ),
            lifted_system(gamepad_button_event_view()).with_dependency(
                DependencyKind::After,
                type_set_node(GAMEPAD_EVENT_FN),
            ).with_dependency(DependencyKind::After, type_set_node(GAMEPAD_CONNECTION_FN)),
            lifted_system(gamepad_axis_event_view()).with_dependency(
                DependencyKind::After,
                type_set_node(GAMEPAD_EVENT_FN),
            ).with_dependency(DependencyKind::After, type_set_node(GAMEPAD_CONNECTION_FN)),
        ],
    ).with_parent_set(lifted_set(input_system_label()))
}

/// Everything the plugin adds to the host's system list, in order.
pub open spec fn input_plugin_systems_view() -> Seq<SystemGraphView> {
    seq![
        in_input_set(keyboard_input_view()),
        in_input_set(mouse_button_input_view()),
        gamepad_group_view(),
        in_input_set(touch_screen_input_view()),
    ]
}

/// Adds keyboard, mouse, gamepad and touch input collection to a
/// host.
#[derive(Debug, Default)]
pub struct InputPlugin;

impl Plugin for InputPlugin {
    open spec fn spec_name(&self) -> Seq<char> {
        "InputPlugin"@
    }

    open spec fn spec_is_unique(&self) -> bool {
        true
    }

    open spec fn build_ensures(&self, pre: App, post: App) -> bool {
        &&& post.plugin_names == pre.plugin_names
        &&& nodes_view(post.set_configs@) == nodes_view(pre.set_configs@).push(
            input_set_config_view(),
        )
        &&& nodes_view(post.systems@) == nodes_view(pre.systems@) + input_plugin_systems_view()
    }

    fn build(&self, app: &mut App) {
        let ghost pre_sets = app.set_configs@;
        let ghost pre_sys = app.systems@;

        let stage = SystemGraph::from_set(InputSystem.label()).in_base_set(pre_update_set());
        let ghost stage_g = stage;
        app.configure_set(stage);

        let keyboard = SystemGraph::from_system(keyboard_input_system()).in_set(
            SystemGraph::from_set(InputSystem.label()),
        );
        let ghost keyboard_g = keyboard;
        app.add_system(keyboard);

        let mouse = SystemGraph::from_system(mouse_button_input_system()).in_set(
            SystemGraph::from_set(InputSystem.label()),
        );
        let ghost mouse_g = mouse;
        app.add_system(mouse);

        let events = SystemGraph::from_system(gamepad_event_system());
        let connections = SystemGraph::from_system(gamepad_connection_system()).after(
            SystemGraph::from_set(gamepad_event_system().type_set().label()),
        );
        let buttons = SystemGraph::from_system(gamepad_button_event_system()).after(
            SystemGraph::from_set(gamepad_event_system().type_set().label()),
        ).after(SystemGraph::from_set(gamepad_connection_system().type_set().label()));
        let axes = SystemGraph::from_system(gamepad_axis_event_system()).after(
            SystemGraph::from_set(gamepad_event_system().type_set().label()),
        ).after(SystemGraph::from_set(gamepad_connection_system().type_set().label()));
        let ghost events_g = events;
        let ghost connections_g = connections;
        let ghost buttons_g = buttons;
        let ghost axes_g = axes;
        let mut gamepad_members: Vec<SystemGraph> = Vec::new();
        gamepad_members.push(events);
        gamepad_members.push(connections);
        gamepad_members.push(buttons);
        gamepad_members.push(axes);
        let ghost gm = gamepad_members@;
        let gamepad_group = SystemGraph::collection(gamepad_members);
        proof {
            lemma_nodes_view(gm);
            assert(gm == seq![events_g, connections_g, buttons_g, axes_g]);
            assert(nodes_view(gm) =~= seq![
                lifted_system(gamepad_event_view()),
                lifted_system(gamepad_connection_view()).with_dependency(
                    DependencyKind::After,
                    type_set_node(GAMEPAD_EVENT_FN),
                ),
                lifted_system(gamepad_button_event_view()).with_dependency(
                    DependencyKind::After,
                    type_set_node(GAMEPAD_EVENT_FN),
                ).with_dependency(DependencyKind::After, type_set_node(GAMEPAD_CONNECTION_FN)),
                lifted_system(gamepad_axis_event_view()).with_dependency(
                    DependencyKind::After,
                    type_set_node(GAMEPAD_EVENT_FN),
                ).with_dependency(DependencyKind::After, type_set_node(GAMEPAD_CONNECTION_FN)),
            ]) by {
                assert(nodes_view(gm)[0] == node_view(gm[0]));
                assert(nodes_view(gm)[1] == node_view(gm[1]));
                assert(nodes_view(gm)[2] == node_view(gm[2]));
                assert(nodes_view(gm)[3] == node_view(gm[3]));
            }
            assert(!gamepad_group@.contains_base_set()) by {
                if gamepad_group@.contains_base_set() {
                    let i = choose|i: int|
                        0 <= i < nodes_view(gm).len() && (
                        #[trigger] nodes_view(gm)[i]).contains_base_set();
                    assert(nodes_view(gm)[i] == node_view(gm[i]));
                    assert(false);
                }
            }
        }
        let gamepad = gamepad_group.in_set(SystemGraph::from_set(InputSystem.label()));
        let ghost gamepad_g = gamepad;
        app.add_system(gamepad);

        let touch = SystemGraph::from_system(touch_screen_input_system()).in_set(
            SystemGraph::from_set(InputSystem.label()),
        );
        let ghost touch_g = touch;
        app.add_system(touch);

        proof {
            lemma_nodes_view_push(pre_sets, stage_g);
            assert(nodes_view(app.set_configs@) == nodes_view(pre_sets).push(
                input_set_config_view(),
            ));
            lemma_nodes_view_push(pre_sys, keyboard_g);
            lemma_nodes_view_push(pre_sys.push(keyboard_g), mouse_g);
            lemma_nodes_view_push(pre_sys.push(keyboard_g).push(mouse_g), gamepad_g);
            lemma_nodes_view_push(
                pre_sys.push(keyboard_g).push(mouse_g).push(gamepad_g),
                touch_g,
            );
            assert(gamepad_g@ =~~= gamepad_group_view());
            assert(nodes_view(app.systems@) =~= nodes_view(pre_sys)
                + input_plugin_systems_view());
        }
    }

    fn name(&self) -> (n: String) {
        String::from_str("InputPlugin")
    }

    fn is_unique(&self) -> (u: bool) {
        true
    }
}

} // verus!
