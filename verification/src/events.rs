//! The kinds of key event, their keywords and the names derived from them.

use crate::tokens::{is_plain_text, is_word, lemma_word_concat};
use vstd::prelude::*;
use vstd::string::*;

verus! {

/// A kind of key event.
#[derive(Clone, Copy, Debug, PartialEq, Eq, Structural)]
pub enum EventKind {
    /// The key became active: `keydown`.
    Asserted,
    /// The key became inactive: `keyup`.
    Released,
    /// The key stays active and repeats: `keypress`. It exists only where the
    /// configuration enables it.
    Sustained,
}

/// The place of the `keydown` body among the event bodies.
pub const KEYDOWN_ID: usize = 0;

/// The place of the `keyup` body among the event bodies.
pub const KEYUP_ID: usize = 1;

/// The place of the `keypress` body among the event bodies.
pub const KEYPRESS_ID: usize = 2;

/// The number of event kinds under a configuration.
pub open spec fn event_count(keypress: bool) -> nat {
    if keypress {
        3
    } else {
        2
    }
}

/// The event kinds under a configuration, in their fixed order.
pub open spec fn events(keypress: bool) -> Seq<EventKind> {
    if keypress {
        seq![EventKind::Asserted, EventKind::Released, EventKind::Sustained]
    } else {
        seq![EventKind::Asserted, EventKind::Released]
    }
}

impl EventKind {
    /// The keyword of the event kind, which is also the name of the event.
    pub open spec fn keyword(self) -> Seq<char> {
        match self {
            EventKind::Asserted => "keydown"@,
            EventKind::Released => "keyup"@,
            EventKind::Sustained => "keypress"@,
        }
    }

    /// The place of the event kind in the fixed order.
    pub open spec fn index(self) -> nat {
        match self {
            EventKind::Asserted => 0,
            EventKind::Released => 1,
            EventKind::Sustained => 2,
        }
    }

    /// The name of the method by which a key handler takes the event.
    pub open spec fn handle_method(self) -> Seq<char> {
        "handle_"@ + self.keyword()
    }

    /// The name of the method by which a keyboard handler routes the event.
    pub open spec fn dispatch_method(self) -> Seq<char> {
        "inner_handle_"@ + self.keyword()
    }

    /// The keyword of an event kind is a word.
    pub proof fn lemma_keyword_is_word(self)
        ensures
            is_word(self.keyword()),
            is_plain_text(self.keyword()),
            is_word(self.handle_method()),
            is_word(self.dispatch_method()),
    {
        reveal_strlit("keydown");
        reveal_strlit("keyup");
        reveal_strlit("keypress");
        reveal_strlit("handle_");
        reveal_strlit("inner_handle_");
        lemma_word_concat("handle_"@, self.keyword());
        lemma_word_concat("inner_handle_"@, self.keyword());
    }

    /// The keyword of the event kind.
    pub fn name(self) -> (word: &'static str)
        ensures
            word@ == self.keyword(),
            is_word(word@),
            is_plain_text(word@),
    {
        proof {
            self.lemma_keyword_is_word();
        }
        match self {
            EventKind::Asserted => "keydown",
            EventKind::Released => "keyup",
            EventKind::Sustained => "keypress",
        }
    }

    /// The name of the method by which a key handler takes the event.
    pub fn handle_method_name(self) -> (name: String)
        ensures
            name@ == self.handle_method(),
            is_word(name@),
    {
        proof {
            self.lemma_keyword_is_word();
        }
        String::from_str("handle_").concat(self.name())
    }

    /// The name of the method by which a keyboard handler routes the event.
    pub fn dispatch_method_name(self) -> (name: String)
        ensures
            name@ == self.dispatch_method(),
            is_word(name@),
    {
        proof {
            self.lemma_keyword_is_word();
        }
        String::from_str("inner_handle_").concat(self.name())
    }
}

/// The number of event kinds under a configuration.
pub fn configured_event_count(keypress: bool) -> (count: usize)
    ensures
        count == event_count(keypress),
{
    if keypress {
        3
    } else {
        2
    }
}

/// The event kinds under a configuration, in their fixed order.
pub fn configured_events(keypress: bool) -> (kinds: Vec<EventKind>)
    ensures
        kinds@ == events(keypress),
{
    let mut kinds: Vec<EventKind> = Vec::new();
    kinds.push(EventKind::Asserted);
    kinds.push(EventKind::Released);
    if keypress {
        kinds.push(EventKind::Sustained);
    }
    assert(kinds@ =~= events(keypress));
    kinds
}

} // verus!
