use uievents_code::KeyboardEventCode;
use wasm_keyboard_macros::dispatch::{
    Binding, Invocation, KeyHandler, KeyboardHandler, PrimitiveKeyHandler,
};
use wasm_keyboard_macros::edge_trigger::{PressState, SimplifiedKeyHandler};
use wasm_keyboard_macros::error::ErrorKind;
use wasm_keyboard_macros::events::{
    configured_event_count, configured_events, EventKind, KEYDOWN_ID, KEYPRESS_ID, KEYUP_ID,
};

fn counts(invoked: &[EventKind]) -> (usize, usize, usize) {
    let of = |kind: EventKind| invoked.iter().filter(|found| **found == kind).count();
    (of(EventKind::Asserted), of(EventKind::Released), of(EventKind::Sustained))
}

#[test]
fn keydown_runs_once_for_each_press() {
    let mut handler = SimplifiedKeyHandler::new(false);
    let events = vec![
        EventKind::Asserted,
        EventKind::Asserted,
        EventKind::Released,
        EventKind::Asserted,
    ];
    let invoked = handler.handle_all(&events);
    let (down_count, up_count, _) = counts(&invoked);
    assert_eq!(down_count, 2);
    assert_eq!(up_count, 1);
    assert_eq!(invoked, vec![EventKind::Asserted, EventKind::Released, EventKind::Asserted]);
    assert_eq!(handler.state, PressState::Pressed);
}

#[test]
fn keypress_clears_the_flag() {
    let mut handler = SimplifiedKeyHandler::new(true);
    let events = vec![EventKind::Asserted, EventKind::Sustained, EventKind::Asserted];
    let invoked = handler.handle_all(&events);
    let (down_count, up_count, press_count) = counts(&invoked);
    assert_eq!(down_count, 2);
    assert_eq!(up_count, 0);
    assert_eq!(press_count, 1);
}

#[test]
fn keypress_that_is_not_enabled_changes_nothing() {
    let mut handler = SimplifiedKeyHandler::new(false);
    assert_eq!(handler.handle(EventKind::Asserted), Some(EventKind::Asserted));
    assert_eq!(handler.handle(EventKind::Sustained), None);
    assert!(handler.is_pressed());
    assert_eq!(handler.handle(EventKind::Asserted), None);
}

#[test]
fn single_steps_follow_the_transition_table() {
    let mut handler = SimplifiedKeyHandler::new(true);
    assert!(!handler.is_pressed());
    assert_eq!(handler.handle(EventKind::Released), Some(EventKind::Released));
    assert!(!handler.is_pressed());
    assert_eq!(handler.handle(EventKind::Asserted), Some(EventKind::Asserted));
    assert!(handler.is_pressed());
    assert_eq!(handler.handle(EventKind::Asserted), None);
    assert!(handler.is_pressed());
    assert_eq!(handler.handle(EventKind::Sustained), Some(EventKind::Sustained));
    assert!(!handler.is_pressed());
    assert_eq!(handler.handle(EventKind::Asserted), Some(EventKind::Asserted));
    assert_eq!(handler.handle(EventKind::Released), Some(EventKind::Released));
    assert_eq!(handler.state, PressState::Released);
}

fn simplified(codes: &[u8], keypress: bool) -> KeyboardHandler<SimplifiedKeyHandler> {
    let bindings = codes
        .iter()
        .map(|code| Binding { code: *code, handler: SimplifiedKeyHandler::new(keypress) })
        .collect();
    KeyboardHandler::new(bindings).ok().unwrap()
}

fn states(table: &KeyboardHandler<SimplifiedKeyHandler>) -> Vec<(u8, SimplifiedKeyHandler)> {
    table.bindings.iter().map(|binding| (binding.code, binding.handler)).collect()
}

#[test]
fn events_are_routed_to_the_slot_of_their_code() {
    let a = KeyboardEventCode::KeyA as u8;
    let b = KeyboardEventCode::KeyB as u8;
    let c = KeyboardEventCode::KeyC as u8;
    let mut table = simplified(&[a, b], false);
    let invoked = table.dispatch(EventKind::Asserted, a);
    assert_eq!(invoked, Some(Invocation { slot: 0, event: EventKind::Asserted }));
    assert!(table.bindings[0].handler.is_pressed());
    assert!(!table.bindings[1].handler.is_pressed());
    let invoked = table.dispatch(EventKind::Asserted, b);
    assert_eq!(invoked, Some(Invocation { slot: 1, event: EventKind::Asserted }));
    assert_eq!(table.dispatch(EventKind::Asserted, c), None);
    assert_eq!(table.dispatch(EventKind::Asserted, a), None);
    let invoked = table.dispatch(EventKind::Released, a);
    assert_eq!(invoked, Some(Invocation { slot: 0, event: EventKind::Released }));
    assert!(table.bindings[1].handler.is_pressed());
    assert_eq!(table.bindings.len(), 2);
    assert_eq!((table.bindings[0].code, table.bindings[1].code), (a, b));
}

#[test]
fn unbound_code_changes_no_handler() {
    let a = KeyboardEventCode::KeyA as u8;
    let b = KeyboardEventCode::KeyB as u8;
    let mut table = simplified(&[a, b], true);
    table.dispatch(EventKind::Asserted, b);
    let before = states(&table);
    for kind in [EventKind::Asserted, EventKind::Released, EventKind::Sustained] {
        assert_eq!(table.dispatch(kind, KeyboardEventCode::Escape as u8), None);
        assert_eq!(states(&table), before);
    }
}

#[test]
fn primitive_handler_runs_every_closure() {
    let a = KeyboardEventCode::KeyA as u8;
    let bindings = vec![Binding { code: a, handler: PrimitiveKeyHandler { keypress: false } }];
    let mut table = KeyboardHandler::new(bindings).ok().unwrap();
    let down = Some(Invocation { slot: 0, event: EventKind::Asserted });
    assert_eq!(table.dispatch(EventKind::Asserted, a), down);
    assert_eq!(table.dispatch(EventKind::Asserted, a), down);
    assert_eq!(table.dispatch(EventKind::Released, a), Some(Invocation { slot: 0, event: EventKind::Released }));
    assert_eq!(table.dispatch(EventKind::Sustained, a), None);
    let mut handler = PrimitiveKeyHandler { keypress: true };
    assert!(handler.handle_keydown());
    assert!(handler.handle_keyup());
    assert!(handler.handle_keypress());
}

#[test]
fn handler_methods_follow_the_flag() {
    let mut handler = SimplifiedKeyHandler::new(true);
    assert!(handler.handle_keydown());
    assert!(!handler.handle_keydown());
    assert!(handler.handle_keypress());
    assert!(handler.handle_keydown());
    assert!(handler.handle_keyup());
    assert!(!handler.is_pressed());
    let mut handler = SimplifiedKeyHandler::new(false);
    assert!(handler.handle_keydown());
    assert!(!handler.handle_keypress());
    assert!(handler.is_pressed());
}

#[test]
fn table_without_bindings_is_refused() {
    let error = match KeyboardHandler::<SimplifiedKeyHandler>::new(Vec::new()) {
        Ok(_) => panic!("a table without bindings was built"),
        Err(error) => error,
    };
    assert_eq!(error.kind, ErrorKind::Validation);
    assert_eq!(error.message, "No key handlers were provided.");
}

#[test]
fn route_finds_bound_codes_only() {
    let table = simplified(&[7, 9, 200], false);
    assert_eq!(table.route(7), Some(0));
    assert_eq!(table.route(9), Some(1));
    assert_eq!(table.route(200), Some(2));
    assert_eq!(table.route(8), None);
}

#[test]
fn event_kinds_follow_the_configuration() {
    assert_eq!(configured_event_count(false), 2);
    assert_eq!(configured_event_count(true), 3);
    assert_eq!(configured_events(false), vec![EventKind::Asserted, EventKind::Released]);
    assert_eq!(
        configured_events(true),
        vec![EventKind::Asserted, EventKind::Released, EventKind::Sustained]
    );
    assert_eq!((KEYDOWN_ID, KEYUP_ID, KEYPRESS_ID), (0, 1, 2));
    assert_eq!(EventKind::Asserted.name(), "keydown");
    assert_eq!(EventKind::Released.name(), "keyup");
    assert_eq!(EventKind::Sustained.name(), "keypress");
    assert_eq!(EventKind::Released.handle_method_name(), "handle_keyup");
    assert_eq!(EventKind::Sustained.dispatch_method_name(), "inner_handle_keypress");
}
