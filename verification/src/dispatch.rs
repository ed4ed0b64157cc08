//! What a dispatch table does when it runs: it routes an event to the slot
//! whose binding names the code of the event, and does nothing for a code that
//! no binding names.

use crate::error::{ErrorKind, MacroError};
use crate::events::EventKind;
use vstd::prelude::*;
use vstd::string::*;

verus! {

/// What the handler in a slot has to be able to do: take the events of each
/// kind. Each method says whether a closure of the user has to run.
pub trait KeyHandler: Sized {
    /// The handler after it took an event.
    spec fn after(&self, event: EventKind) -> Self;

    /// Whether the handler runs a closure when it takes an event.
    spec fn runs(&self, event: EventKind) -> bool;

    /// Takes a `keydown` event.
    fn handle_keydown(&mut self) -> (ran: bool)
        ensures
            *final(self) == old(self).after(EventKind::Asserted),
            ran == old(self).runs(EventKind::Asserted),
    ;

    /// Takes a `keyup` event.
    fn handle_keyup(&mut self) -> (ran: bool)
        ensures
            *final(self) == old(self).after(EventKind::Released),
            ran == old(self).runs(EventKind::Released),
    ;

    /// Takes a `keypress` event. A handler for which that event is not
    /// enabled changes nothing and runs nothing.
    fn handle_keypress(&mut self) -> (ran: bool)
        ensures
            *final(self) == old(self).after(EventKind::Sustained),
            ran == old(self).runs(EventKind::Sustained),
    ;
}

/// A primitive key handler: it keeps nothing and runs the closure of every
/// event that it takes, so that a key that is held runs the `keydown` closure
/// again and again.
#[derive(Clone, Copy, Debug, PartialEq, Eq, Structural)]
pub struct PrimitiveKeyHandler {
    /// Whether the `keypress` event is enabled.
    pub keypress: bool,
}

impl KeyHandler for PrimitiveKeyHandler {
    open spec fn after(&self, event: EventKind) -> PrimitiveKeyHandler {
        *self
    }

    open spec fn runs(&self, event: EventKind) -> bool {
        event != EventKind::Sustained || self.keypress
    }

    fn handle_keydown(&mut self) -> (ran: bool) {
        true
    }

    fn handle_keyup(&mut self) -> (ran: bool) {
        true
    }

    fn handle_keypress(&mut self) -> (ran: bool) {
        self.keypress
    }
}

/// One binding of a table: the code of a key, and the handler in its slot.
pub struct Binding<H: KeyHandler> {
    pub code: u8,
    pub handler: H,
}

/// The closure that has to run after an event was routed: the slot, and the
/// event kind.
#[derive(Clone, Copy, Debug, PartialEq, Eq, Structural)]
pub struct Invocation {
    pub slot: usize,
    pub event: EventKind,
}

/// Whether a binding names `code`.
pub open spec fn is_bound<H: KeyHandler>(bindings: Seq<Binding<H>>, code: u8) -> bool {
    exists|i: int| 0 <= i < bindings.len() && #[trigger] bindings[i].code == code
}

/// What it means that the slot at `slot` took an event: its handler went on by
/// one step, every other binding stayed as it was, and a closure of the slot
/// has to run if and only if the handler says so.
pub open spec fn routed<H: KeyHandler>(
    before: Seq<Binding<H>>,
    after: Seq<Binding<H>>,
    slot: int,
    event: EventKind,
    invoke: Option<Invocation>,
) -> bool {
    &&& 0 <= slot < before.len()
    &&& after == before.update(
        slot,
        Binding { code: before[slot].code, handler: before[slot].handler.after(event) },
    )
    &&& invoke == (if before[slot].handler.runs(event) {
        Some(Invocation { slot: slot as usize, event })
    } else {
        None
    })
}

/// A dispatch table: the bindings, each with the handler in its slot.
pub struct KeyboardHandler<H: KeyHandler> {
    pub bindings: Vec<Binding<H>>,
}

impl<H: KeyHandler> KeyboardHandler<H> {
    /// Builds the table of the given bindings. A table without bindings is refused.
    pub fn new(bindings: Vec<Binding<H>>) -> (outcome: Result<KeyboardHandler<H>, MacroError>)
        ensures
            match outcome {
                Ok(table) => bindings@.len() > 0 && table.bindings@ == bindings@,
                Err(error) => bindings@.len() == 0 && error@ == crate::decl_keyboard_handler::no_key_handlers(),
            },
    {
        if bindings.len() == 0 {
            Err(
                MacroError {
                    kind: ErrorKind::Validation,
                    message: String::from_str("No key handlers were provided."),
                    position: None,
                },
            )
        } else {
            Ok(KeyboardHandler { bindings })
        }
    }

    /// The slot that takes the events of `code`, if a binding names the code.
    /// Where several bindings name one code, which of their slots is taken is
    /// left open.
    pub fn route(&self, code: u8) -> (slot: Option<usize>)
        ensures
            match slot {
                Some(index) => index < self.bindings@.len() && self.bindings@[index as int].code == code,
                None => !is_bound(self.bindings@, code),
            },
    {
        let mut i: usize = 0;
        while i < self.bindings.len()
            invariant
                i <= self.bindings.len(),
                forall|j: int| 0 <= j < i ==> self.bindings@[j].code != code,
            decreases self.bindings.len() - i,
        {
            if self.bindings[i].code == code {
                return Some(i);
            }
            i += 1;
        }
        None
    }

    /// Routes one event. An event whose code no binding names changes nothing
    /// and runs nothing. Otherwise one slot whose binding names the code takes
    /// the event, all other bindings stay as they are, and the result says
    /// which closure has to run, if any.
    pub fn dispatch(&mut self, event: EventKind, code: u8) -> (invoke: Option<Invocation>)
        ensures
            !is_bound(old(self).bindings@, code) ==> invoke is None && final(self).bindings@ == old(self).bindings@,
            is_bound(old(self).bindings@, code) ==> exists|slot: int|
                0 <= slot < old(self).bindings@.len() && old(self).bindings@[slot].code == code && #[trigger] routed(
                    old(self).bindings@,
                    final(self).bindings@,
                    slot,
                    event,
                    invoke,
                ),
    {
        match self.route(code) {
            None => None,
            Some(slot) => {
                let mut binding = self.bindings.remove(slot);
                let ran = match event {
                    EventKind::Asserted => binding.handler.handle_keydown(),
                    EventKind::Released => binding.handler.handle_keyup(),
                    EventKind::Sustained => binding.handler.handle_keypress(),
                };
                self.bindings.insert(slot, binding);
                let invoke = if ran {
                    Some(Invocation { slot, event })
                } else {
                    None
                };
                assert(self.bindings@ =~= old(self).bindings@.update(
                    slot as int,
                    Binding {
                        code: old(self).bindings@[slot as int].code,
                        handler: old(self).bindings@[slot as int].handler.after(event),
                    },
                ));
                assert(routed(old(self).bindings@, self.bindings@, slot as int, event, invoke));
                assert(old(self).bindings@[slot as int].code == code);
                invoke
            },
        }
    }
}

} // verus!
