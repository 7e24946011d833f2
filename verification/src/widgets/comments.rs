use vstd::prelude::*;
use crate::config::KeyConfig;
use crate::event::key::Key;
use crate::jira::tickets::{CommentBody, Comments};
use crate::markup::{parse_html, markdown_of_html};
use crate::text::decimal;
use super::commands::{CommandInfo, CommandText, keyed_command, counted_command, keys_in_brackets, CMD_GROUP_GENERAL};
use super::{
    Component, EventState, KeyMap, bound, step_down, step_up, moved_down, moved_up, can_move_down,
    can_move_down_by, scroll_down_by, scroll_up_by, scrolled_down, scrolled_up,
};

verus! {

/// What a key does in the list of comments.
#[derive(Debug, Clone, Copy, PartialEq, Eq, Structural)]
pub enum Action {
    PageDown(u16),
    PageUp(u16),
    NextComment(usize),
    PreviousComment(usize),
    LastComment,
    FirstComment,
}

/// The help text of a comment list action bound to `key`.
pub open spec fn comment_action_text(action: Action, key: Key) -> Seq<char> {
    match action {
        Action::PageDown(line) => keys_in_brackets("Scroll down "@ + decimal(line as nat) + " "@, seq![key]),
        Action::PageUp(line) => keys_in_brackets("Scroll up "@ + decimal(line as nat) + " "@, seq![key]),
        Action::NextComment(line) => keys_in_brackets("Next "@ + decimal(line as nat) + " "@, seq![key]),
        Action::PreviousComment(line) => keys_in_brackets("Previous "@ + decimal(line as nat) + " "@, seq![key]),
        Action::LastComment => keys_in_brackets("Go to last "@, seq![key]),
        Action::FirstComment => keys_in_brackets("Go to first "@, seq![key]),
    }
}

impl Action {
    pub fn to_command_text(self, key: Key) -> (c: CommandText)
        ensures
            c.name@ == comment_action_text(self, key),
            c.group == CMD_GROUP_GENERAL,
            !c.hide_help,
    {
        match self {
            Self::PageDown(line) => counted_command("Scroll down ", line as u64, key),
            Self::PageUp(line) => counted_command("Scroll up ", line as u64, key),
            Self::NextComment(line) => counted_command("Next ", line as u64, key),
            Self::PreviousComment(line) => counted_command("Previous ", line as u64, key),
            Self::LastComment => keyed_command("Go to last ", key),
            Self::FirstComment => keyed_command("Go to first ", key),
        }
    }
}

/// The comments of the selected ticket, one of them selected and shown in full.
#[derive(Debug)]
pub struct CommentsList {
    pub comments_parsed: Option<String>,
    pub scroll: u16,
    pub state: Option<usize>,
    pub comments: Option<Comments>,
    pub key_mappings: KeyMap<Action>,
}

/// The default bindings of the comment list.
pub open spec fn comment_bindings(k: KeyConfig) -> Map<Key, Action> {
    Map::empty()
        .insert(k.page_down, Action::PageDown(10))
        .insert(k.page_up, Action::PageUp(10))
        .insert(k.scroll_down, Action::NextComment(1))
        .insert(k.scroll_up, Action::PreviousComment(1))
        .insert(k.scroll_down_multiple_lines, Action::NextComment(10))
        .insert(k.scroll_up_multiple_lines, Action::PreviousComment(10))
        .insert(k.scroll_to_bottom, Action::LastComment)
        .insert(k.scroll_to_top, Action::FirstComment)
}

/// How many comments there are.
pub open spec fn comment_count(comments: Option<Comments>) -> int {
    match comments {
        Some(c) => c.comments@.len() as int,
        None => 0,
    }
}

impl CommentsList {
    /// How many comments there are.
    pub open spec fn count(&self) -> int {
        comment_count(self.comments)
    }

    /// The selected comment.
    pub open spec fn selected_comment(&self) -> Option<CommentBody> {
        match (self.comments, self.state) {
            (Some(c), Some(i)) => if i < c.comments@.len() { Some(c.comments@[i as int]) } else { None },
            _ => None,
        }
    }

    pub fn new(key_config: KeyConfig) -> (w: Self)
        ensures
            w.state == Some(0usize),
            w.scroll == 0,
            w.comments_parsed is None,
            w.comments is None,
            w.key_mappings@ == comment_bindings(key_config),
    {
        let mut key_mappings = KeyMap::new();
        key_mappings.insert(key_config.page_down, Action::PageDown(10));
        key_mappings.insert(key_config.page_up, Action::PageUp(10));
        key_mappings.insert(key_config.scroll_down, Action::NextComment(1));
        key_mappings.insert(key_config.scroll_up, Action::PreviousComment(1));
        key_mappings.insert(key_config.scroll_down_multiple_lines, Action::NextComment(10));
        key_mappings.insert(key_config.scroll_up_multiple_lines, Action::PreviousComment(10));
        key_mappings.insert(key_config.scroll_to_bottom, Action::LastComment);
        key_mappings.insert(key_config.scroll_to_top, Action::FirstComment);
        Self { comments: None, comments_parsed: None, key_mappings, scroll: 0, state: Some(0) }
    }

    pub fn selected_index(&self) -> (i: Option<usize>)
        ensures
            i == self.state,
    {
        self.state
    }

    pub fn scroll(&self) -> (s: u16)
        ensures
            s == self.scroll,
    {
        self.scroll
    }

    /// Tells whether the widget can handle `key` as it stands.
    pub fn accepts(&self, key: Key) -> (b: bool)
        ensures
            b == self.event_allowed(key),
    {
        match self.key_mappings.get(&key) {
            Some(Action::NextComment(n)) => {
                let count = match &self.comments {
                    Some(c) => c.comments.len(),
                    None => 0,
                };
                count == 0 || can_move_down_by(self.state, n, count)
            },
            _ => true,
        }
    }

    /// Selects a later comment, stopping at the last one; with no comments nothing moves.
    pub fn next(&mut self, line: usize)
        requires
            old(self).count() > 0 ==> can_move_down(old(self).state, line as int, old(self).count()),
        ensures
            final(self).state == if old(self).count() == 0 {
                old(self).state
            } else {
                moved_down(old(self).state, line as int, old(self).count())
            },
            final(self).comments_parsed is None,
            final(self).comments == old(self).comments,
            final(self).key_mappings == old(self).key_mappings,
            final(self).scroll == old(self).scroll,
    {
        self.comments_parsed = None;
        let len = match &self.comments {
            None => return,
            Some(c) => c.comments.len(),
        };
        if len == 0 {
            return;
        }
        self.state = step_down(self.state, line, len);
    }

    /// Selects an earlier comment, stopping at the first one.
    pub fn previous(&mut self, line: usize)
        ensures
            final(self).state == moved_up(old(self).state, line as int),
            final(self).comments_parsed is None,
            final(self).comments == old(self).comments,
            final(self).key_mappings == old(self).key_mappings,
            final(self).scroll == old(self).scroll,
    {
        self.comments_parsed = None;
        self.state = step_up(self.state, line);
    }

    pub fn go_to_top(&mut self)
        ensures
            final(self).state == if old(self).count() == 0 { old(self).state } else { Some(0usize) },
            final(self).comments_parsed is None,
            final(self).comments == old(self).comments,
            final(self).key_mappings == old(self).key_mappings,
            final(self).scroll == old(self).scroll,
    {
        self.comments_parsed = None;
        let len = match &self.comments {
            None => return,
            Some(c) => c.comments.len(),
        };
        if len == 0 {
            return;
        }
        self.state = Some(0);
    }

    pub fn go_to_bottom(&mut self)
        ensures
            final(self).state == if old(self).count() == 0 {
                old(self).state
            } else {
                Some((old(self).count() - 1) as usize)
            },
            final(self).comments_parsed is None,
            final(self).comments == old(self).comments,
            final(self).key_mappings == old(self).key_mappings,
            final(self).scroll == old(self).scroll,
    {
        self.comments_parsed = None;
        let len = match &self.comments {
            None => return,
            Some(c) => c.comments.len(),
        };
        if len == 0 {
            return;
        }
        self.state = Some(len - 1);
    }

    pub fn selected(&self) -> (s: Option<&CommentBody>)
        ensures
            match self.selected_comment() {
                Some(c) => s == Some(&c),
                None => s is None,
            },
    {
        let comments = match &self.comments {
            None => return None,
            Some(c) => c,
        };
        match self.state {
            Some(i) => if i < comments.comments.len() { Some(&comments.comments[i]) } else { None },
            None => None,
        }
    }

    pub fn comment_contents_down(&mut self, lines: u16)
        ensures
            final(self).scroll == scrolled_down(old(self).scroll, lines),
            final(self).state == old(self).state,
            final(self).comments_parsed == old(self).comments_parsed,
            final(self).comments == old(self).comments,
            final(self).key_mappings == old(self).key_mappings,
    {
        self.scroll = scroll_down_by(self.scroll, lines);
    }

    pub fn comment_contents_up(&mut self, lines: u16)
        ensures
            final(self).scroll == scrolled_up(old(self).scroll, lines),
            final(self).state == old(self).state,
            final(self).comments_parsed == old(self).comments_parsed,
            final(self).comments == old(self).comments,
            final(self).key_mappings == old(self).key_mappings,
    {
        self.scroll = scroll_up_by(self.scroll, lines);
    }

    /// Shows another list of comments; the selection stays where it was.
    pub fn update(&mut self, comments: Comments)
        ensures
            final(self).comments == Some(comments),
            final(self).count() == comments.comments@.len(),
            final(self).state == old(self).state,
            final(self).comments_parsed == old(self).comments_parsed,
            final(self).key_mappings == old(self).key_mappings,
            final(self).scroll == old(self).scroll,
    {
        self.comments = Some(comments);
    }

    /// The text of the selected comment in Markdown. It is worked out from the comment's
    /// HTML once, and kept until the selection moves.
    pub fn selected_text(&mut self) -> (text: Option<String>)
        ensures
            match old(self).selected_comment() {
                None => text is None && final(self).comments_parsed == old(self).comments_parsed,
                Some(c) => match old(self).comments_parsed {
                    Some(p) => text == Some(p) && final(self).comments_parsed == old(self).comments_parsed,
                    None => text matches Some(t) && t@ == markdown_of_html(c.rendered_body@)
                        && final(self).comments_parsed == Some(t),
                },
            },
            final(self).state == old(self).state,
            final(self).comments == old(self).comments,
            final(self).key_mappings == old(self).key_mappings,
            final(self).scroll == old(self).scroll,
    {
        let text = match self.selected() {
            None => return None,
            Some(comment) => match &self.comments_parsed {
                Some(c) => c.clone(),
                None => parse_html(comment.rendered_body.as_str()),
            },
        };
        self.comments_parsed = Some(text.clone());
        Some(text)
    }

}

impl CommentsList {
    /// What a key does to the widget: `e` says whether it took the key, and `after` is
    /// the widget afterwards.
    pub open spec fn key_step(&self, key: Key, e: EventState, after: Self) -> bool {
        &&& bound(self.key_mappings@, key) is None ==> e == EventState::NotConsumed
            && after.state == self.state
            && after.scroll == self.scroll
            && after.comments_parsed == self.comments_parsed
        &&& bound(self.key_mappings@, key) is Some ==> e == EventState::Consumed
        &&& bound(self.key_mappings@, key) matches Some(Action::PageDown(n)) ==>
            after.scroll == scrolled_down(self.scroll, n)
            && after.state == self.state && after.comments_parsed == self.comments_parsed
        &&& bound(self.key_mappings@, key) matches Some(Action::PageUp(n)) ==>
            after.scroll == scrolled_up(self.scroll, n)
            && after.state == self.state && after.comments_parsed == self.comments_parsed
        &&& bound(self.key_mappings@, key) matches Some(Action::NextComment(n)) ==>
            after.state == (if self.count() == 0 {
                self.state
            } else {
                moved_down(self.state, n as int, self.count())
            }) && after.scroll == self.scroll && after.comments_parsed is None
        &&& bound(self.key_mappings@, key) matches Some(Action::PreviousComment(n)) ==>
            after.state == moved_up(self.state, n as int)
            && after.scroll == self.scroll && after.comments_parsed is None
        &&& bound(self.key_mappings@, key) == Some(Action::LastComment) ==>
            after.state == (if self.count() == 0 {
                self.state
            } else {
                Some((self.count() - 1) as usize)
            }) && after.scroll == self.scroll && after.comments_parsed is None
        &&& bound(self.key_mappings@, key) == Some(Action::FirstComment) ==>
            after.state == (if self.count() == 0 {
                self.state
            } else {
                Some(0usize)
            }) && after.scroll == self.scroll && after.comments_parsed is None
        &&& after.comments == self.comments
        &&& after.key_mappings == self.key_mappings
    }
}

impl Component for CommentsList {
    open spec fn event_allowed(&self, key: Key) -> bool {
        bound(self.key_mappings@, key) matches Some(Action::NextComment(n))
            ==> (self.count() > 0 ==> can_move_down(self.state, n as int, self.count()))
    }

    fn commands(&self, _out: &mut Vec<CommandInfo>)
        ensures
            final(_out)@ == old(_out)@,
    {
    }

    fn event(&mut self, key: Key) -> (e: EventState)
        ensures
            old(self).key_step(key, e, *final(self)),
    {
        match self.key_mappings.get(&key) {
            Some(action) => {
                match action {
                    Action::PageDown(line) => self.comment_contents_down(line),
                    Action::PageUp(line) => self.comment_contents_up(line),
                    Action::NextComment(line) => self.next(line),
                    Action::PreviousComment(line) => self.previous(line),
                    Action::LastComment => self.go_to_bottom(),
                    Action::FirstComment => self.go_to_top(),
                }
                EventState::Consumed
            },
            None => EventState::NotConsumed,
        }
    }
}

} // verus!
