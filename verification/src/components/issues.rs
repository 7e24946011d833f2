use vstd::prelude::*;
use crate::config::KeyConfig;
use crate::event::key::Key;
use crate::jira::issue::TicketData;
use crate::widgets::{
    EventState, ListMove, list_key_move, list_key_move_of, step_down, step_up, moved, can_move_down,
};

verus! {

/// An earlier list of the tickets of a ticket search, with nothing selected at first.
#[derive(Debug)]
pub struct IssuesComponent {
    issues: Vec<TicketData>,
    state: Option<usize>,
    key_config: KeyConfig,
}

impl IssuesComponent {
    pub closed spec fn items(&self) -> Seq<TicketData> {
        self.issues@
    }

    pub closed spec fn selection(&self) -> Option<usize> {
        self.state
    }

    pub closed spec fn keys(&self) -> KeyConfig {
        self.key_config
    }

    pub fn new(key_config: KeyConfig) -> (c: Self)
        ensures
            c.items().len() == 0,
            c.selection() is None,
            c.keys() == key_config,
    {
        Self { state: None, issues: Vec::new(), key_config }
    }

    /// Selects a later ticket, stopping at the last one.
    pub fn next_issues(&mut self, line: usize)
        requires
            can_move_down(old(self).selection(), line as int, old(self).items().len() as int),
        ensures
            final(self).selection() == moved(old(self).selection(), ListMove::Down(line), old(self).items().len() as int),
            final(self).items() == old(self).items(),
            final(self).keys() == old(self).keys(),
    {
        self.state = step_down(self.state, line, self.issues.len());
    }

    /// Selects an earlier ticket, stopping at the first one.
    pub fn previous_issues(&mut self, line: usize)
        ensures
            final(self).selection() == moved(old(self).selection(), ListMove::Up(line), old(self).items().len() as int),
            final(self).items() == old(self).items(),
            final(self).keys() == old(self).keys(),
    {
        self.state = step_up(self.state, line);
    }

    pub fn go_to_top(&mut self)
        ensures
            final(self).selection() == moved(old(self).selection(), ListMove::Top, old(self).items().len() as int),
            final(self).items() == old(self).items(),
            final(self).keys() == old(self).keys(),
    {
        if self.issues.len() == 0 {
            return;
        }
        self.state = Some(0);
    }

    pub fn go_to_bottom(&mut self)
        ensures
            final(self).selection() == moved(old(self).selection(), ListMove::Bottom, old(self).items().len() as int),
            final(self).items() == old(self).items(),
            final(self).keys() == old(self).keys(),
    {
        if self.issues.len() == 0 {
            return;
        }
        self.state = Some(self.issues.len() - 1);
    }

    pub fn selected_issues(&self) -> (t: Option<&TicketData>)
        ensures
            match self.selection() {
                Some(i) if i < self.items().len() => t == Some(&self.items()[i as int]),
                _ => t is None,
            },
    {
        match self.state {
            Some(i) => if i < self.issues.len() { Some(&self.issues[i]) } else { None },
            None => None,
        }
    }

    /// Handles the movement keys.
    pub fn event(&mut self, key: Key) -> (e: EventState)
        requires
            list_key_move(old(self).keys(), key) matches Some(ListMove::Down(n))
                ==> can_move_down(old(self).selection(), n as int, old(self).items().len() as int),
        ensures
            match list_key_move(old(self).keys(), key) {
                Some(m) => e == EventState::Consumed
                    && final(self).selection() == moved(old(self).selection(), m, old(self).items().len() as int),
                None => e == EventState::NotConsumed && final(self).selection() == old(self).selection(),
            },
            final(self).items() == old(self).items(),
            final(self).keys() == old(self).keys(),
    {
        match list_key_move_of(&self.key_config, key) {
            Some(ListMove::Down(n)) => self.next_issues(n),
            Some(ListMove::Up(n)) => self.previous_issues(n),
            Some(ListMove::Bottom) => self.go_to_bottom(),
            Some(ListMove::Top) => self.go_to_top(),
            None => return EventState::NotConsumed,
        }
        EventState::Consumed
    }
}

} // verus!
