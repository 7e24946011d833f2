use vstd::prelude::*;
use crate::config::KeyConfig;
use crate::event::key::Key;
use crate::jira::tickets::CreateTicket;
use super::{EventState, InputMode, KeyMap, bound, step_down, step_up, moved_down, moved_up, can_move_down};

verus! {

/// Which part of the new ticket form has the focus.
#[derive(Debug, Clone, Copy, PartialEq, Eq, Structural)]
pub enum FocusCreateTicket {
    Description,
    Summary,
    TicketType,
}

/// What a key does in the list of ticket types.
#[derive(Debug, Clone, Copy, PartialEq, Eq, Structural)]
pub enum TicketTypeAction {
    Next(usize),
    Previous(usize),
    Last,
    First,
    NextFocus,
}

/// What a key does in the form outside typing.
#[derive(Debug, Clone, Copy, PartialEq, Eq, Structural)]
pub enum Action {
    Edit,
    PushCreateTicketContent,
    NextFocus,
    PreviousFocus,
}

/// The form for a new ticket: its type, summary and description.
#[derive(Debug)]
pub struct CreateTicketWidget {
    pub focus: FocusCreateTicket,
    pub input_mode: InputMode,
    pub ticket_type_state: Option<usize>,
    pub ticket_type_key_mapping: KeyMap<TicketTypeAction>,
    pub contents: CreateTicket,
    pub push_content: bool,
    pub key_mappings: KeyMap<Action>,
}

/// The part of the form after `f`: type, summary, description, and round again.
pub open spec fn focus_after(f: FocusCreateTicket) -> FocusCreateTicket {
    match f {
        FocusCreateTicket::TicketType => FocusCreateTicket::Summary,
        FocusCreateTicket::Summary => FocusCreateTicket::Description,
        FocusCreateTicket::Description => FocusCreateTicket::TicketType,
    }
}

/// The part of the form before `f`.
pub open spec fn focus_before(f: FocusCreateTicket) -> FocusCreateTicket {
    match f {
        FocusCreateTicket::TicketType => FocusCreateTicket::Description,
        FocusCreateTicket::Summary => FocusCreateTicket::TicketType,
        FocusCreateTicket::Description => FocusCreateTicket::Summary,
    }
}

/// The form's bindings outside typing.
pub open spec fn form_bindings(k: KeyConfig) -> Map<Key, Action> {
    Map::empty()
        .insert(k.push, Action::PushCreateTicketContent)
        .insert(k.next, Action::NextFocus)
        .insert(k.previous, Action::PreviousFocus)
        .insert(k.edit, Action::Edit)
}

/// The bindings of the list of ticket types.
pub open spec fn ticket_type_bindings(k: KeyConfig) -> Map<Key, TicketTypeAction> {
    Map::empty()
        .insert(k.scroll_down, TicketTypeAction::Next(1))
        .insert(k.scroll_up, TicketTypeAction::Previous(1))
        .insert(k.scroll_to_top, TicketTypeAction::First)
        .insert(k.scroll_to_bottom, TicketTypeAction::Last)
        .insert(k.next, TicketTypeAction::NextFocus)
}

/// The summary and description after typing `c` with the focus on `f`: the character goes
/// to the focused text, and nowhere when the ticket type has the focus.
pub open spec fn typed(summary: Seq<char>, description: Seq<char>, f: FocusCreateTicket, c: char) -> (Seq<char>, Seq<char>) {
    match f {
        FocusCreateTicket::Summary => (summary.push(c), description),
        FocusCreateTicket::Description => (summary, description.push(c)),
        FocusCreateTicket::TicketType => (summary, description),
    }
}

/// A text without its last character; an empty text stays empty.
pub open spec fn without_last(s: Seq<char>) -> Seq<char> {
    if s.len() == 0 { s } else { s.drop_last() }
}

/// The summary and description after a backspace with the focus on `f`.
pub open spec fn erased(summary: Seq<char>, description: Seq<char>, f: FocusCreateTicket) -> (Seq<char>, Seq<char>) {
    match f {
        FocusCreateTicket::Summary => (without_last(summary), description),
        FocusCreateTicket::Description => (summary, without_last(description)),
        FocusCreateTicket::TicketType => (summary, description),
    }
}

/// A move of the ticket type selection that keeps no selection as no selection.
pub open spec fn type_selected(old_state: Option<usize>, new_state: Option<usize>) -> Option<usize> {
    if new_state is Some { new_state } else { old_state }
}

/// The ticket type selection after a list action, with `len` ticket types.
pub open spec fn ticket_type_moved(state: Option<usize>, a: TicketTypeAction, len: int) -> Option<usize> {
    match a {
        TicketTypeAction::Next(n) => if len == 0 { state } else { type_selected(state, moved_down(state, n as int, len)) },
        TicketTypeAction::Previous(n) => type_selected(state, moved_up(state, n as int)),
        TicketTypeAction::Last => if len == 0 { state } else { Some((len - 1) as usize) },
        TicketTypeAction::First => if len == 0 { state } else { Some(0usize) },
        TicketTypeAction::NextFocus => state,
    }
}

impl CreateTicketWidget {
    pub open spec fn summary(&self) -> Seq<char> {
        self.contents.summary@
    }

    pub open spec fn description(&self) -> Seq<char> {
        self.contents.description@
    }

    pub open spec fn type_count(&self) -> int {
        self.contents.ticket_types@.len() as int
    }

    /// Everything that the form's key handling never changes.
    pub open spec fn same_setup(&self, other: &Self) -> bool {
        &&& self.key_mappings == other.key_mappings
        &&& self.ticket_type_key_mapping == other.ticket_type_key_mapping
        &&& self.contents.ticket_types == other.contents.ticket_types
        &&& self.contents.project_id == other.contents.project_id
    }

    pub fn new(key_config: KeyConfig) -> (w: Self)
        ensures
            w.focus == FocusCreateTicket::TicketType,
            w.input_mode == InputMode::Normal,
            w.ticket_type_state == Some(0usize),
            !w.push_content,
            w.summary() == Seq::<char>::empty(),
            w.description() == Seq::<char>::empty(),
            w.type_count() == 0,
            w.key_mappings@ == form_bindings(key_config),
            w.ticket_type_key_mapping@ == ticket_type_bindings(key_config),
    {
        let mut key_mappings = KeyMap::new();
        key_mappings.insert(key_config.push, Action::PushCreateTicketContent);
        key_mappings.insert(key_config.next, Action::NextFocus);
        key_mappings.insert(key_config.previous, Action::PreviousFocus);
        key_mappings.insert(key_config.edit, Action::Edit);
        let mut ticket_type_key_mapping = KeyMap::new();
        ticket_type_key_mapping.insert(key_config.scroll_down, TicketTypeAction::Next(1));
        ticket_type_key_mapping.insert(key_config.scroll_up, TicketTypeAction::Previous(1));
        ticket_type_key_mapping.insert(key_config.scroll_to_top, TicketTypeAction::First);
        ticket_type_key_mapping.insert(key_config.scroll_to_bottom, TicketTypeAction::Last);
        ticket_type_key_mapping.insert(key_config.next, TicketTypeAction::NextFocus);
        Self {
            contents: CreateTicket::new(),
            focus: FocusCreateTicket::TicketType,
            input_mode: InputMode::Normal,
            push_content: false,
            key_mappings,
            ticket_type_state: Some(0),
            ticket_type_key_mapping,
        }
    }

    /// Removes the last character of the focused text.
    pub fn input_pop(&mut self)
        ensures
            (final(self).summary(), final(self).description())
                == erased(old(self).summary(), old(self).description(), old(self).focus),
            final(self).focus == old(self).focus,
            final(self).input_mode == old(self).input_mode,
            final(self).ticket_type_state == old(self).ticket_type_state,
            final(self).push_content == old(self).push_content,
            final(self).same_setup(old(self)),
    {
        match self.focus {
            FocusCreateTicket::Description => {
                self.contents.description.pop();
            },
            FocusCreateTicket::Summary => {
                self.contents.summary.pop();
            },
            _ => {},
        };
    }

    /// Appends a character to the focused text.
    pub fn input(&mut self, c: char)
        ensures
            (final(self).summary(), final(self).description())
                == typed(old(self).summary(), old(self).description(), old(self).focus, c),
            final(self).focus == old(self).focus,
            final(self).input_mode == old(self).input_mode,
            final(self).ticket_type_state == old(self).ticket_type_state,
            final(self).push_content == old(self).push_content,
            final(self).same_setup(old(self)),
    {
        match self.focus {
            FocusCreateTicket::Description => self.contents.description.push(c),
            FocusCreateTicket::Summary => self.contents.summary.push(c),
            _ => (),
        };
    }

    pub fn next_focus(&mut self)
        ensures
            final(self).focus == focus_after(old(self).focus),
            final(self).contents == old(self).contents,
            final(self).input_mode == old(self).input_mode,
            final(self).ticket_type_state == old(self).ticket_type_state,
            final(self).push_content == old(self).push_content,
            final(self).same_setup(old(self)),
    {
        match self.focus {
            FocusCreateTicket::TicketType => self.focus = FocusCreateTicket::Summary,
            FocusCreateTicket::Summary => self.focus = FocusCreateTicket::Description,
            FocusCreateTicket::Description => self.focus = FocusCreateTicket::TicketType,
        };
    }

    pub fn previous_focus(&mut self)
        ensures
            final(self).focus == focus_before(old(self).focus),
            final(self).contents == old(self).contents,
            final(self).input_mode == old(self).input_mode,
            final(self).ticket_type_state == old(self).ticket_type_state,
            final(self).push_content == old(self).push_content,
            final(self).same_setup(old(self)),
    {
        match self.focus {
            FocusCreateTicket::TicketType => self.focus = FocusCreateTicket::Description,
            FocusCreateTicket::Summary => self.focus = FocusCreateTicket::TicketType,
            FocusCreateTicket::Description => self.focus = FocusCreateTicket::Summary,
        };
    }

    pub fn next_ticket_type(&mut self, line: usize)
        requires
            old(self).type_count() > 0 ==> can_move_down(old(self).ticket_type_state, line as int, old(self).type_count()),
        ensures
            final(self).ticket_type_state
                == ticket_type_moved(old(self).ticket_type_state, TicketTypeAction::Next(line), old(self).type_count()),
            final(self).contents == old(self).contents,
            final(self).focus == old(self).focus,
            final(self).input_mode == old(self).input_mode,
            final(self).push_content == old(self).push_content,
            final(self).same_setup(old(self)),
    {
        if self.contents.ticket_types.len() == 0 {
            return;
        }
        let i = step_down(self.ticket_type_state, line, self.contents.ticket_types.len());
        self.select_type(i);
    }

    pub fn previous_ticket_type(&mut self, line: usize)
        ensures
            final(self).ticket_type_state
                == ticket_type_moved(old(self).ticket_type_state, TicketTypeAction::Previous(line), old(self).type_count()),
            final(self).contents == old(self).contents,
            final(self).focus == old(self).focus,
            final(self).input_mode == old(self).input_mode,
            final(self).push_content == old(self).push_content,
            final(self).same_setup(old(self)),
    {
        let i = step_up(self.ticket_type_state, line);
        self.select_type(i);
    }

    pub fn go_to_top_ticket_type(&mut self)
        ensures
            final(self).ticket_type_state
                == ticket_type_moved(old(self).ticket_type_state, TicketTypeAction::First, old(self).type_count()),
            final(self).contents == old(self).contents,
            final(self).focus == old(self).focus,
            final(self).input_mode == old(self).input_mode,
            final(self).push_content == old(self).push_content,
            final(self).same_setup(old(self)),
    {
        if self.contents.ticket_types.len() == 0 {
            return;
        }
        self.select_type(Some(0));
    }

    pub fn go_to_bottom_ticket_type(&mut self)
        ensures
            final(self).ticket_type_state
                == ticket_type_moved(old(self).ticket_type_state, TicketTypeAction::Last, old(self).type_count()),
            final(self).contents == old(self).contents,
            final(self).focus == old(self).focus,
            final(self).input_mode == old(self).input_mode,
            final(self).push_content == old(self).push_content,
            final(self).same_setup(old(self)),
    {
        if self.contents.ticket_types.len() == 0 {
            return;
        }
        self.select_type(Some(self.contents.ticket_types.len() - 1))
    }

    /// Selects a ticket type; no index leaves the selection as it was.
    pub fn select_type(&mut self, index: Option<usize>)
        ensures
            final(self).ticket_type_state == type_selected(old(self).ticket_type_state, index),
            final(self).contents == old(self).contents,
            final(self).focus == old(self).focus,
            final(self).input_mode == old(self).input_mode,
            final(self).push_content == old(self).push_content,
            final(self).same_setup(old(self)),
    {
        if index.is_some() {
            self.ticket_type_state = index
        }
    }

    fn ticket_type_key_event(&mut self, key: Key) -> (e: EventState)
        requires
            bound(old(self).ticket_type_key_mapping@, key) matches Some(TicketTypeAction::Next(n))
                ==> (old(self).type_count() > 0 ==> can_move_down(old(self).ticket_type_state, n as int, old(self).type_count())),
        ensures
            match bound(old(self).ticket_type_key_mapping@, key) {
                Some(a) => e == EventState::Consumed
                    && final(self).ticket_type_state == ticket_type_moved(old(self).ticket_type_state, a, old(self).type_count())
                    && final(self).focus == (if a == TicketTypeAction::NextFocus { focus_after(old(self).focus) } else { old(self).focus }),
                None => e == EventState::NotConsumed
                    && final(self).ticket_type_state == old(self).ticket_type_state
                    && final(self).focus == old(self).focus,
            },
            final(self).contents == old(self).contents,
            final(self).input_mode == old(self).input_mode,
            final(self).push_content == old(self).push_content,
            final(self).same_setup(old(self)),
    {
        match self.ticket_type_key_mapping.get(&key) {
            Some(ticket_type_action) => {
                match ticket_type_action {
                    TicketTypeAction::Next(line) => self.next_ticket_type(line),
                    TicketTypeAction::Previous(line) => self.previous_ticket_type(line),
                    TicketTypeAction::Last => self.go_to_bottom_ticket_type(),
                    TicketTypeAction::First => self.go_to_top_ticket_type(),
                    TicketTypeAction::NextFocus => self.next_focus(),
                }
                EventState::Consumed
            },
            None => EventState::NotConsumed,
        }
    }

    fn normal_mode_key_event(&mut self, key: Key) -> (e: EventState)
        requires
            bound(old(self).key_mappings@, key) is None && old(self).focus == FocusCreateTicket::TicketType ==>
                (bound(old(self).ticket_type_key_mapping@, key) matches Some(TicketTypeAction::Next(n))
                ==> (old(self).type_count() > 0 ==> can_move_down(old(self).ticket_type_state, n as int, old(self).type_count()))),
        ensures
            normal_mode_step(*old(self), key, e, *final(self)),
    {
        match self.key_mappings.get(&key) {
            Some(action) => {
                match action {
                    Action::Edit => {
                        self.input_mode = InputMode::Editing;
                    },
                    Action::PushCreateTicketContent => {
                        self.push_content = true;
                    },
                    Action::NextFocus => self.next_focus(),
                    Action::PreviousFocus => self.previous_focus(),
                }
                return EventState::Consumed;
            },
            None => {},
        }
        if self.focus == FocusCreateTicket::TicketType {
            return self.ticket_type_key_event(key);
        }
        EventState::NotConsumed
    }

    /// Handles a key while typing: tab and back-tab move the focus, characters and
    /// backspace edit the focused text, and escape stops typing.
    pub fn edit_mode_key_event(&mut self, key: Key) -> (e: EventState)
        ensures
            edit_mode_step(*old(self), key, e, *final(self)),
    {
        match key {
            Key::Tab => {
                self.next_focus();
                EventState::Consumed
            },
            Key::BackTab => {
                self.previous_focus();
                EventState::Consumed
            },
            Key::Char(c) => {
                self.input(c);
                EventState::Consumed
            },
            Key::Backspace => {
                self.input_pop();
                EventState::Consumed
            },
            Key::Esc => {
                self.input_mode = InputMode::Normal;
                EventState::Consumed
            },
            _ => EventState::NotConsumed,
        }
    }

    pub fn event(&mut self, key: Key) -> (e: EventState)
        requires
            old(self).input_mode == InputMode::Normal && bound(old(self).key_mappings@, key) is None
                && old(self).focus == FocusCreateTicket::TicketType ==>
                (bound(old(self).ticket_type_key_mapping@, key) matches Some(TicketTypeAction::Next(n))
                ==> (old(self).type_count() > 0 ==> can_move_down(old(self).ticket_type_state, n as int, old(self).type_count()))),
        ensures
            old(self).input_mode == InputMode::Normal ==> normal_mode_step(*old(self), key, e, *final(self)),
            old(self).input_mode == InputMode::Editing ==> edit_mode_step(*old(self), key, e, *final(self)),
    {
        match self.input_mode {
            InputMode::Normal => self.normal_mode_key_event(key),
            InputMode::Editing => self.edit_mode_key_event(key),
        }
    }
}

/// What a key does to the form outside typing: a form binding edits, asks for the ticket
/// to be sent, or moves the focus; otherwise, with the focus on the ticket types, a list
/// binding moves their selection.
pub open spec fn normal_mode_step(w: CreateTicketWidget, key: Key, e: EventState, r: CreateTicketWidget) -> bool {
    &&& r.same_setup(&w)
    &&& r.contents == w.contents
    &&& match bound(w.key_mappings@, key) {
        Some(a) => {
            &&& e == EventState::Consumed
            &&& r.ticket_type_state == w.ticket_type_state
            &&& r.input_mode == (if a == Action::Edit { InputMode::Editing } else { w.input_mode })
            &&& r.push_content == (a == Action::PushCreateTicketContent || w.push_content)
            &&& r.focus == (if a == Action::NextFocus {
                focus_after(w.focus)
            } else if a == Action::PreviousFocus {
                focus_before(w.focus)
            } else {
                w.focus
            })
        },
        None => {
            &&& r.input_mode == w.input_mode
            &&& r.push_content == w.push_content
            &&& if w.focus == FocusCreateTicket::TicketType {
                match bound(w.ticket_type_key_mapping@, key) {
                    Some(a) => e == EventState::Consumed
                        && r.ticket_type_state == ticket_type_moved(w.ticket_type_state, a, w.type_count())
                        && r.focus == (if a == TicketTypeAction::NextFocus { focus_after(w.focus) } else { w.focus }),
                    None => e == EventState::NotConsumed
                        && r.ticket_type_state == w.ticket_type_state
                        && r.focus == w.focus,
                }
            } else {
                e == EventState::NotConsumed && r.ticket_type_state == w.ticket_type_state && r.focus == w.focus
            }
        },
    }
}

/// What a key does to the form while typing.
pub open spec fn edit_mode_step(w: CreateTicketWidget, key: Key, e: EventState, r: CreateTicketWidget) -> bool {
    &&& r.same_setup(&w)
    &&& r.ticket_type_state == w.ticket_type_state
    &&& r.push_content == w.push_content
    &&& match key {
        Key::Tab => e == EventState::Consumed && r.focus == focus_after(w.focus)
            && r.contents == w.contents && r.input_mode == w.input_mode,
        Key::BackTab => e == EventState::Consumed && r.focus == focus_before(w.focus)
            && r.contents == w.contents && r.input_mode == w.input_mode,
        Key::Char(c) => e == EventState::Consumed && r.focus == w.focus && r.input_mode == w.input_mode
            && (r.summary(), r.description()) == typed(w.summary(), w.description(), w.focus, c),
        Key::Backspace => e == EventState::Consumed && r.focus == w.focus && r.input_mode == w.input_mode
            && (r.summary(), r.description()) == erased(w.summary(), w.description(), w.focus),
        Key::Esc => e == EventState::Consumed && r.focus == w.focus && r.contents == w.contents
            && r.input_mode == InputMode::Normal,
        _ => e == EventState::NotConsumed && r.focus == w.focus && r.contents == w.contents
            && r.input_mode == w.input_mode,
    }
}

/// Moving the focus forward and then back, or back and then forward, returns to the same
/// part of the form; three moves forward go all the way round.
pub proof fn law_focus_cycle(f: FocusCreateTicket)
    ensures
        focus_before(focus_after(f)) == f,
        focus_after(focus_before(f)) == f,
        focus_after(focus_after(focus_after(f))) == f,
{
}

} // verus!
