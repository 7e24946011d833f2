use vstd::prelude::*;
use crate::config::KeyConfig;
use crate::event::key::Key;
use crate::text::{join, joined, views};
use super::{EventState, InputMode, KeyMap, bound};

verus! {

/// What a key does while the comment editor is not being typed into.
#[derive(Debug, Clone, Copy, PartialEq, Eq, Structural)]
pub enum NormalModeAction {
    EditMode,
    Push,
}

/// What a key does while the comment editor is being typed into.
#[derive(Debug, Clone, Copy, PartialEq, Eq, Structural)]
pub enum EditModeAction {
    Backspace,
    Enter,
    Esc,
}

/// The comment editor: the line being typed, the lines recorded so far, and whether the
/// user asked for them to be sent.
#[derive(Debug)]
pub struct CommentAdd {
    /// Current value of the input box.
    pub input: String,
    pub input_mode: InputMode,
    /// The lines recorded so far.
    pub messages: Vec<String>,
    pub push_comment: bool,
    pub normal_key_mappings: KeyMap<NormalModeAction>,
    pub edit_key_mappings: KeyMap<EditModeAction>,
}

/// The bindings outside typing.
pub open spec fn normal_bindings(k: KeyConfig) -> Map<Key, NormalModeAction> {
    Map::empty().insert(k.edit, NormalModeAction::EditMode).insert(k.push, NormalModeAction::Push)
}

/// The bindings while typing.
pub open spec fn edit_bindings(k: KeyConfig) -> Map<Key, EditModeAction> {
    Map::empty()
        .insert(k.backspace, EditModeAction::Backspace)
        .insert(k.enter, EditModeAction::Enter)
        .insert(k.esc, EditModeAction::Esc)
}

/// The comment made of the recorded lines.
pub open spec fn comment_of(messages: Seq<String>) -> Seq<char> {
    joined(views(messages), " \n "@)
}

impl CommentAdd {
    /// Everything but the input line, the mode, the recorded lines and the push request.
    pub open spec fn same_bindings(&self, other: &Self) -> bool {
        &&& self.normal_key_mappings == other.normal_key_mappings
        &&& self.edit_key_mappings == other.edit_key_mappings
    }

    pub fn new(key_config: KeyConfig) -> (c: Self)
        ensures
            c.input@ == Seq::<char>::empty(),
            c.input_mode == InputMode::Normal,
            c.messages@ == Seq::<String>::empty(),
            !c.push_comment,
            c.normal_key_mappings@ == normal_bindings(key_config),
            c.edit_key_mappings@ == edit_bindings(key_config),
    {
        let mut normal_key_mappings = KeyMap::new();
        normal_key_mappings.insert(key_config.edit, NormalModeAction::EditMode);
        normal_key_mappings.insert(key_config.push, NormalModeAction::Push);
        let mut edit_key_mappings = KeyMap::new();
        edit_key_mappings.insert(key_config.backspace, EditModeAction::Backspace);
        edit_key_mappings.insert(key_config.enter, EditModeAction::Enter);
        edit_key_mappings.insert(key_config.esc, EditModeAction::Esc);
        Self {
            input: String::new(),
            input_mode: InputMode::Normal,
            messages: Vec::new(),
            push_comment: false,
            edit_key_mappings,
            normal_key_mappings,
        }
    }

    pub fn edit_mode(&mut self)
        ensures
            final(self).input_mode == InputMode::Editing,
            final(self).input == old(self).input,
            final(self).messages == old(self).messages,
            final(self).push_comment == old(self).push_comment,
            final(self).same_bindings(old(self)),
    {
        self.input_mode = InputMode::Editing
    }

    pub fn normal_mode(&mut self)
        ensures
            final(self).input_mode == InputMode::Normal,
            final(self).input == old(self).input,
            final(self).messages == old(self).messages,
            final(self).push_comment == old(self).push_comment,
            final(self).same_bindings(old(self)),
    {
        self.input_mode = InputMode::Normal
    }

    fn normal_mode_key_event(&mut self, key: Key) -> (e: EventState)
        ensures
            match bound(old(self).normal_key_mappings@, key) {
                Some(NormalModeAction::EditMode) => e == EventState::Consumed
                    && final(self).input_mode == InputMode::Editing
                    && final(self).push_comment == old(self).push_comment,
                Some(NormalModeAction::Push) => e == EventState::Consumed
                    && final(self).input_mode == old(self).input_mode
                    && final(self).push_comment,
                None => e == EventState::NotConsumed
                    && final(self).input_mode == old(self).input_mode
                    && final(self).push_comment == old(self).push_comment,
            },
            final(self).input == old(self).input,
            final(self).messages == old(self).messages,
            final(self).same_bindings(old(self)),
    {
        match self.normal_key_mappings.get(&key) {
            Some(action) => {
                match action {
                    NormalModeAction::EditMode => self.edit_mode(),
                    NormalModeAction::Push => self.push_comment = true,
                }
                EventState::Consumed
            },
            None => EventState::NotConsumed,
        }
    }

    fn edit_mode_key_event(&mut self, key: Key) -> (e: EventState)
        ensures
            match bound(old(self).edit_key_mappings@, key) {
                Some(EditModeAction::Backspace) => e == EventState::Consumed
                    && final(self).input@ == (if old(self).input@.len() == 0 {
                        old(self).input@
                    } else {
                        old(self).input@.drop_last()
                    })
                    && final(self).messages@ == old(self).messages@
                    && final(self).input_mode == old(self).input_mode,
                Some(EditModeAction::Enter) => e == EventState::Consumed
                    && final(self).input@ == Seq::<char>::empty()
                    && final(self).messages@.len() == old(self).messages@.len() + 1
                    && final(self).messages@.drop_last() == old(self).messages@
                    && final(self).messages@.last()@ == old(self).input@
                    && final(self).input_mode == old(self).input_mode,
                Some(EditModeAction::Esc) => e == EventState::Consumed
                    && final(self).input@ == old(self).input@
                    && final(self).messages@ == old(self).messages@
                    && final(self).input_mode == InputMode::Normal,
                None => match key {
                    Key::Char(c) => e == EventState::Consumed
                        && final(self).input@ == old(self).input@.push(c)
                        && final(self).messages@ == old(self).messages@
                        && final(self).input_mode == old(self).input_mode,
                    _ => e == EventState::NotConsumed
                        && final(self).input@ == old(self).input@
                        && final(self).messages@ == old(self).messages@
                        && final(self).input_mode == old(self).input_mode,
                },
            },
            final(self).push_comment == old(self).push_comment,
            final(self).same_bindings(old(self)),
    {
        match self.edit_key_mappings.get(&key) {
            Some(action) => {
                match action {
                    EditModeAction::Backspace => {
                        self.input.pop();
                    },
                    EditModeAction::Enter => {
                        self.messages.push(self.input.clone());
                        self.input.clear();
                    },
                    EditModeAction::Esc => {
                        self.normal_mode();
                    },
                }
                EventState::Consumed
            },
            None => match key {
                Key::Char(c) => {
                    self.input.push(c);
                    EventState::Consumed
                },
                _ => EventState::NotConsumed,
            },
        }
    }

    /// What a key does to the widget: `e` says whether it took the key, and `after` is
    /// the widget afterwards.
    pub open spec fn key_step(&self, key: Key, e: EventState, after: Self) -> bool {
        &&& self.input_mode == InputMode::Normal ==> match bound(self.normal_key_mappings@, key) {
            Some(NormalModeAction::EditMode) => e == EventState::Consumed
                && after.input_mode == InputMode::Editing
                && after.push_comment == self.push_comment,
            Some(NormalModeAction::Push) => e == EventState::Consumed
                && after.input_mode == self.input_mode
                && after.push_comment,
            None => e == EventState::NotConsumed
                && after.input_mode == self.input_mode
                && after.push_comment == self.push_comment,
        } && after.input == self.input && after.messages == self.messages
        &&& self.input_mode == InputMode::Editing ==> match bound(self.edit_key_mappings@, key) {
            Some(EditModeAction::Backspace) => e == EventState::Consumed
                && after.input@ == (if self.input@.len() == 0 {
                    self.input@
                } else {
                    self.input@.drop_last()
                })
                && after.messages@ == self.messages@
                && after.input_mode == self.input_mode,
            Some(EditModeAction::Enter) => e == EventState::Consumed
                && after.input@ == Seq::<char>::empty()
                && after.messages@.len() == self.messages@.len() + 1
                && after.messages@.drop_last() == self.messages@
                && after.messages@.last()@ == self.input@
                && after.input_mode == self.input_mode,
            Some(EditModeAction::Esc) => e == EventState::Consumed
                && after.input@ == self.input@
                && after.messages@ == self.messages@
                && after.input_mode == InputMode::Normal,
            None => match key {
                Key::Char(c) => e == EventState::Consumed
                    && after.input@ == self.input@.push(c)
                    && after.messages@ == self.messages@
                    && after.input_mode == self.input_mode,
                _ => e == EventState::NotConsumed
                    && after.input@ == self.input@
                    && after.messages@ == self.messages@
                    && after.input_mode == self.input_mode,
            },
        } && after.push_comment == self.push_comment
        &&& after.same_bindings(self)
    }

    /// Handles a key: outside typing, the edit key starts typing and the push key asks for
    /// the recorded lines to be sent; while typing, characters go into the input line,
    /// backspace removes the last one, enter records the line, and escape stops typing.
    pub fn event(&mut self, key: Key) -> (e: EventState)
        ensures
            old(self).key_step(key, e, *final(self)),
    {
        match self.input_mode {
            InputMode::Normal => self.normal_mode_key_event(key),
            InputMode::Editing => self.edit_mode_key_event(key),
        }
    }

    /// The comment to send: the recorded lines joined by line breaks, once the user asked
    /// for them to be sent and there is at least one.
    pub fn pending_comment(&self) -> (comment: Option<String>)
        ensures
            (self.messages@.len() > 0 && self.push_comment) ==> (comment matches Some(c)
                && c@ == comment_of(self.messages@)),
            !(self.messages@.len() > 0 && self.push_comment) ==> comment is None,
    {
        if self.messages.len() > 0 && self.push_comment {
            Some(join(&self.messages, " \n "))
        } else {
            None
        }
    }

    /// Forgets the recorded lines once they were sent.
    pub fn comment_sent(&mut self)
        ensures
            final(self).messages@ == Seq::<String>::empty(),
            !final(self).push_comment,
            final(self).input == old(self).input,
            final(self).input_mode == old(self).input_mode,
            final(self).same_bindings(old(self)),
    {
        self.messages.clear();
        self.push_comment = false;
    }
}

} // verus!
