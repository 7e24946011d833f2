use vstd::prelude::*;
use crate::config::KeyConfig;
use crate::event::key::Key;
use super::{
    EventState, ListMove, list_key_move, list_key_move_of, step_down, step_up, moved_down, moved_up,
    moved_to_top, moved_to_bottom, can_move_down, can_move_down_by,
};

verus! {

/// The list of the selected ticket's labels.
#[derive(Debug)]
pub struct LabelsWidget {
    key_config: KeyConfig,
    labels: Vec<String>,
    state: Option<usize>,
}

/// Whether a key can be handled: moving down an empty list of labels is undefined.
pub open spec fn labels_key_allowed(keys: KeyConfig, key: Key, selected: Option<usize>, len: int) -> bool {
    list_key_move(keys, key) matches Some(ListMove::Down(n)) ==> can_move_down(selected, n as int, len)
}

/// The selection after a move; moving down does not check for an empty list.
pub open spec fn labels_moved(selected: Option<usize>, m: ListMove, len: int) -> Option<usize> {
    match m {
        ListMove::Down(n) => moved_down(selected, n as int, len),
        ListMove::Up(n) => moved_up(selected, n as int),
        ListMove::Bottom => moved_to_bottom(selected, len),
        ListMove::Top => moved_to_top(selected, len),
    }
}

impl LabelsWidget {
    pub closed spec fn keys(&self) -> KeyConfig {
        self.key_config
    }

    pub closed spec fn items(&self) -> Seq<String> {
        self.labels@
    }

    /// The selected row, if any.
    pub closed spec fn selection(&self) -> Option<usize> {
        self.state
    }

    pub fn new(key_config: KeyConfig) -> (w: Self)
        ensures
            w.keys() == key_config,
            w.items().len() == 0,
            w.selection() == Some(0usize),
    {
        Self { key_config, labels: Vec::new(), state: Some(0) }
    }

    /// The selected row, as the drawing needs it.
    pub fn selected_index(&self) -> (i: Option<usize>)
        ensures
            i == self.selection(),
    {
        self.state
    }

    /// Tells whether the widget can handle `key` as it stands.
    pub fn accepts(&self, key: Key) -> (b: bool)
        ensures
            b == labels_key_allowed(self.keys(), key, self.selection(), self.items().len() as int),
    {
        match list_key_move_of(&self.key_config, key) {
            Some(ListMove::Down(n)) => can_move_down_by(self.state, n, self.labels.len()),
            _ => true,
        }
    }

    pub fn next(&mut self, line: usize)
        requires
            can_move_down(old(self).selection(), line as int, old(self).items().len() as int),
        ensures
            final(self).selection() == moved_down(old(self).selection(), line as int, old(self).items().len() as int),
            final(self).items() == old(self).items(),
            final(self).keys() == old(self).keys(),
    {
        self.state = step_down(self.state, line, self.labels.len());
    }

    pub fn previous(&mut self, line: usize)
        ensures
            final(self).selection() == moved_up(old(self).selection(), line as int),
            final(self).items() == old(self).items(),
            final(self).keys() == old(self).keys(),
    {
        self.state = step_up(self.state, line);
    }

    pub fn go_to_top(&mut self)
        ensures
            final(self).selection() == moved_to_top(old(self).selection(), old(self).items().len() as int),
            final(self).items() == old(self).items(),
            final(self).keys() == old(self).keys(),
    {
        if self.labels.len() == 0 {
            return;
        }
        self.state = Some(0);
    }

    pub fn go_to_bottom(&mut self)
        ensures
            final(self).selection() == moved_to_bottom(old(self).selection(), old(self).items().len() as int),
            final(self).items() == old(self).items(),
            final(self).keys() == old(self).keys(),
    {
        if self.labels.len() == 0 {
            return;
        }
        self.state = Some(self.labels.len() - 1);
    }

    pub fn selected(&self) -> (s: Option<&String>)
        ensures
            match self.selection() {
                Some(i) if i < self.items().len() => s == Some(&self.items()[i as int]),
                _ => s is None,
            },
    {
        match self.state {
            Some(i) => if i < self.labels.len() { Some(&self.labels[i]) } else { None },
            None => None,
        }
    }

    /// Shows another ticket's labels; the selection stays where it was.
    pub fn update(&mut self, labels: &Vec<String>)
        ensures
            final(self).items() == labels@,
            final(self).selection() == old(self).selection(),
            final(self).keys() == old(self).keys(),
    {
        self.labels = labels.clone();
        proof {
            assert(self.labels@ =~= labels@);
        }
    }

    /// What a key does to the widget: `e` says whether it took the key, and `after` is
    /// the widget afterwards.
    pub open spec fn key_step(&self, key: Key, e: EventState, after: Self) -> bool {
        &&& match list_key_move(self.keys(), key) {
            Some(m) => e == EventState::Consumed
                && after.selection() == labels_moved(self.selection(), m, self.items().len() as int),
            None => e == EventState::NotConsumed && after.selection() == self.selection(),
        }
        &&& after.items() == self.items()
        &&& after.keys() == self.keys()
    }

    pub fn event(&mut self, key: Key) -> (e: EventState)
        requires
            labels_key_allowed(old(self).keys(), key, old(self).selection(), old(self).items().len() as int),
        ensures
            old(self).key_step(key, e, *final(self)),
    {
        match list_key_move_of(&self.key_config, key) {
            Some(ListMove::Down(n)) => self.next(n),
            Some(ListMove::Up(n)) => self.previous(n),
            Some(ListMove::Bottom) => self.go_to_bottom(),
            Some(ListMove::Top) => self.go_to_top(),
            None => return EventState::NotConsumed,
        }
        EventState::Consumed
    }
}

} // verus!
