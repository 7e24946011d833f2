use vstd::prelude::*;
use crate::config::KeyConfig;
use crate::event::key::Key;
use crate::jira::tickets::Components;
use super::{
    EventState, ListMove, list_key_move, list_key_move_of, step_down, step_up, moved_down, moved_up,
    moved_to_top, moved_to_bottom, moved, can_move_down, can_make_move, can_move_down_by,
};

verus! {

/// The list of the selected ticket's components.
#[derive(Debug)]
pub struct ComponentsWidget {
    key_config: KeyConfig,
    components: Vec<String>,
    state: Option<usize>,
}

impl ComponentsWidget {
    pub closed spec fn keys(&self) -> KeyConfig {
        self.key_config
    }

    pub closed spec fn items(&self) -> Seq<String> {
        self.components@
    }

    pub closed spec fn selection(&self) -> Option<usize> {
        self.state
    }

    pub fn new(key_config: KeyConfig) -> (w: Self)
        ensures
            w.keys() == key_config,
            w.items().len() == 0,
            w.selection() == Some(0usize),
    {
        Self { key_config, components: Vec::new(), state: Some(0) }
    }

    pub fn selected_index(&self) -> (i: Option<usize>)
        ensures
            i == self.selection(),
    {
        self.state
    }

    /// Tells whether the widget can handle `key` as it stands.
    pub fn accepts(&self, key: Key) -> (b: bool)
        ensures
            b == (list_key_move(self.keys(), key) matches Some(m)
                ==> can_make_move(self.selection(), m, self.items().len() as int)),
    {
        match list_key_move_of(&self.key_config, key) {
            Some(ListMove::Down(n)) => self.components.len() == 0 || can_move_down_by(self.state, n, self.components.len()),
            _ => true,
        }
    }

    /// Moves the selection down; an empty list keeps it.
    pub fn next(&mut self, line: usize)
        requires
            old(self).items().len() > 0 ==> can_move_down(old(self).selection(), line as int, old(self).items().len() as int),
        ensures
            final(self).selection() == moved(old(self).selection(), ListMove::Down(line), old(self).items().len() as int),
            final(self).items() == old(self).items(),
            final(self).keys() == old(self).keys(),
    {
        if self.components.len() == 0 {
            return;
        }
        self.state = step_down(self.state, line, self.components.len());
    }

    pub fn previous(&mut self, line: usize)
        ensures
            final(self).selection() == moved_up(old(self).selection(), line as int),
            final(self).items() == old(self).items(),
            final(self).keys() == old(self).keys(),
    {
        self.state = step_up(self.state, line);
    }

    pub fn go_to_top(&mut self)
        ensures
            final(self).selection() == moved_to_top(old(self).selection(), old(self).items().len() as int),
            final(self).items() == old(self).items(),
            final(self).keys() == old(self).keys(),
    {
        if self.components.len() == 0 {
            return;
        }
        self.state = Some(0);
    }

    pub fn go_to_bottom(&mut self)
        ensures
            final(self).selection() == moved_to_bottom(old(self).selection(), old(self).items().len() as int),
            final(self).items() == old(self).items(),
            final(self).keys() == old(self).keys(),
    {
        if self.components.len() == 0 {
            return;
        }
        self.state = Some(self.components.len() - 1);
    }

    pub fn selected(&self) -> (s: Option<&String>)
        ensures
            match self.selection() {
                Some(i) if i < self.items().len() => s == Some(&self.items()[i as int]),
                _ => s is None,
            },
    {
        match self.state {
            Some(i) => if i < self.components.len() { Some(&self.components[i]) } else { None },
            None => None,
        }
    }

    /// Shows the components of another ticket, by name; the selection stays where it was.
    pub fn update(&mut self, components: &Vec<Components>)
        ensures
            final(self).items().len() == components@.len(),
            forall|j: int| 0 <= j < components@.len() ==> #[trigger] final(self).items()[j]@ == components@[j].name@,
            final(self).selection() == old(self).selection(),
            final(self).keys() == old(self).keys(),
    {
        let mut names: Vec<String> = Vec::new();
        let mut i: usize = 0;
        while i < components.len()
            invariant
                0 <= i <= components@.len(),
                names@.len() == i,
                forall|j: int| 0 <= j < i ==> #[trigger] names@[j]@ == components@[j].name@,
            decreases components@.len() - i,
        {
            names.push(components[i].name.clone());
            i = i + 1;
        }
        self.components = names;
    }

    /// What a key does to the widget: `e` says whether it took the key, and `after` is
    /// the widget afterwards.
    pub open spec fn key_step(&self, key: Key, e: EventState, after: Self) -> bool {
        &&& match list_key_move(self.keys(), key) {
            Some(m) => e == EventState::Consumed
                && after.selection() == moved(self.selection(), m, self.items().len() as int),
            None => e == EventState::NotConsumed && after.selection() == self.selection(),
        }
        &&& after.items() == self.items()
        &&& after.keys() == self.keys()
    }

    pub fn event(&mut self, key: Key) -> (e: EventState)
        requires
            list_key_move(old(self).keys(), key) matches Some(m)
                ==> can_make_move(old(self).selection(), m, old(self).items().len() as int),
        ensures
            old(self).key_step(key, e, *final(self)),
    {
        match list_key_move_of(&self.key_config, key) {
            Some(ListMove::Down(n)) => self.next(n),
            Some(ListMove::Up(n)) => self.previous(n),
            Some(ListMove::Bottom) => self.go_to_bottom(),
            Some(ListMove::Top) => self.go_to_top(),
            None => return EventState::NotConsumed,
        }
        EventState::Consumed
    }
}

} // verus!
