//! What a simplified key handler does when it runs: it remembers whether the
//! key is held, and lets the `keydown` closure run only when the key goes from
//! released to held.

use crate::dispatch::KeyHandler;
use crate::events::EventKind;
use vstd::prelude::*;

verus! {

/// Whether the key is held.
#[derive(Clone, Copy, Debug, PartialEq, Eq, Structural)]
pub enum PressState {
    Released,
    Pressed,
}

/// Whether a handler under a configuration has a closure for an event kind:
/// `keypress` has one only where the configuration enables it.
pub open spec fn handles(keypress: bool, event: EventKind) -> bool {
    event != EventKind::Sustained || keypress
}

/// The state after an event:
/// `keydown` leaves the key held, `keyup` and `keypress` leave it released.
/// That `keypress` releases the key makes the next `keydown` run its closure
/// although no `keyup` came in between. This may well be an oversight of the
/// design; it is kept as it is, and who changes it changes what the handlers do.
pub open spec fn next_state(state: PressState, event: EventKind) -> PressState {
    match event {
        EventKind::Asserted => PressState::Pressed,
        EventKind::Released => PressState::Released,
        EventKind::Sustained => PressState::Released,
    }
}

/// Whether the closure of the event kind runs: that of `keydown` runs only if
/// the key was released, the others always.
pub open spec fn fires(state: PressState, event: EventKind) -> bool {
    event != EventKind::Asserted || state == PressState::Released
}

/// The closures that run, in order, when `events` come to a handler in `state`.
pub open spec fn fired(keypress: bool, state: PressState, events: Seq<EventKind>) -> Seq<EventKind>
    decreases events.len(),
{
    if events.len() == 0 {
        Seq::empty()
    } else if !handles(keypress, events[0]) {
        fired(keypress, state, events.skip(1))
    } else if fires(state, events[0]) {
        seq![events[0]] + fired(keypress, next_state(state, events[0]), events.skip(1))
    } else {
        fired(keypress, next_state(state, events[0]), events.skip(1))
    }
}

/// The state of a handler in `state` after `events`.
pub open spec fn state_after(keypress: bool, state: PressState, events: Seq<EventKind>) -> PressState
    decreases events.len(),
{
    if events.len() == 0 {
        state
    } else if !handles(keypress, events[0]) {
        state_after(keypress, state, events.skip(1))
    } else {
        state_after(keypress, next_state(state, events[0]), events.skip(1))
    }
}

/// The flag of a simplified key handler, and its configuration.
#[derive(Clone, Copy, Debug, PartialEq, Eq, Structural)]
pub struct SimplifiedKeyHandler {
    /// Whether the `keypress` event is enabled.
    pub keypress: bool,
    /// Whether the key is held.
    pub state: PressState,
}

impl SimplifiedKeyHandler {
    /// A handler whose key is released.
    pub open spec fn new_spec(keypress: bool) -> SimplifiedKeyHandler {
        SimplifiedKeyHandler { keypress, state: PressState::Released }
    }

    /// A handler whose key is released.
    pub fn new(keypress: bool) -> (handler: SimplifiedKeyHandler)
        ensures
            handler == Self::new_spec(keypress),
    {
        SimplifiedKeyHandler { keypress, state: PressState::Released }
    }

    /// Whether the key is held.
    pub fn is_pressed(&self) -> (held: bool)
        ensures
            held == (self.state == PressState::Pressed),
    {
        self.state == PressState::Pressed
    }

    /// Takes one event and says which closure has to run, if any. An event
    /// kind that the configuration does not enable changes nothing.
    pub fn handle(&mut self, event: EventKind) -> (invoke: Option<EventKind>)
        ensures
            *final(self) == old(self).step(event),
            invoke == (if handles(old(self).keypress, event) && fires(old(self).state, event) {
                Some(event)
            } else {
                None
            }),
    {
        match event {
            EventKind::Asserted => {
                if self.state == PressState::Released {
                    self.state = PressState::Pressed;
                    Some(event)
                } else {
                    None
                }
            },
            EventKind::Released => {
                self.state = PressState::Released;
                Some(event)
            },
            EventKind::Sustained => {
                if self.keypress {
                    self.state = PressState::Released;
                    Some(event)
                } else {
                    None
                }
            },
        }
    }

    /// The handler after an event that it takes or, where the event kind is
    /// not enabled, lets pass.
    pub open spec fn step(&self, event: EventKind) -> SimplifiedKeyHandler {
        if handles(self.keypress, event) {
            SimplifiedKeyHandler { keypress: self.keypress, state: next_state(self.state, event) }
        } else {
            *self
        }
    }

    /// Takes events one after the other and gives the closures that have to
    /// run, in order.
    pub fn handle_all(&mut self, events: &Vec<EventKind>) -> (invoked: Vec<EventKind>)
        ensures
            final(self).keypress == old(self).keypress,
            final(self).state == state_after(old(self).keypress, old(self).state, events@),
            invoked@ == fired(old(self).keypress, old(self).state, events@),
    {
        let mut invoked: Vec<EventKind> = Vec::new();
        let mut i: usize = 0;
        assert(events@.skip(0) =~= events@);
        while i < events.len()
            invariant
                i <= events.len(),
                self.keypress == old(self).keypress,
                fired(old(self).keypress, old(self).state, events@) == invoked@ + fired(
                    self.keypress,
                    self.state,
                    events@.skip(i as int),
                ),
                state_after(old(self).keypress, old(self).state, events@) == state_after(
                    self.keypress,
                    self.state,
                    events@.skip(i as int),
                ),
            decreases events.len() - i,
        {
            let ghost rest = events@.skip(i as int);
            let ghost before = invoked@;
            let ghost state = self.state;
            assert(rest[0] == events@[i as int]);
            assert(rest.skip(1) =~= events@.skip(i + 1));
            match self.handle(events[i]) {
                Some(event) => {
                    invoked.push(event);
                    assert(invoked@ + fired(self.keypress, self.state, rest.skip(1)) =~= before + fired(
                        self.keypress,
                        state,
                        rest,
                    ));
                },
                None => {},
            }
            i += 1;
        }
        assert(events@.skip(i as int) =~= Seq::<EventKind>::empty());
        assert(invoked@ + Seq::<EventKind>::empty() =~= invoked@);
        invoked
    }
}

impl KeyHandler for SimplifiedKeyHandler {
    open spec fn after(&self, event: EventKind) -> SimplifiedKeyHandler {
        self.step(event)
    }

    open spec fn runs(&self, event: EventKind) -> bool {
        handles(self.keypress, event) && fires(self.state, event)
    }

    fn handle_keydown(&mut self) -> (ran: bool) {
        self.handle(EventKind::Asserted).is_some()
    }

    fn handle_keyup(&mut self) -> (ran: bool) {
        self.handle(EventKind::Released).is_some()
    }

    fn handle_keypress(&mut self) -> (ran: bool) {
        self.handle(EventKind::Sustained).is_some()
    }
}

} // verus!
