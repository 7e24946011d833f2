use vstd::prelude::*;
use crate::event::key::Key;
use crate::jira::tickets::TicketData;
use super::{EventState, InputMode, step_up, moved_up, can_move_down_by};
use super::search::{keys_at, search_keys, words_match};
use super::search_projects::{search_moved_down, search_key_move, search_moved, search_move_allowed};

verus! {

/// The ticket search: the keys of the tickets on screen, and those that match the typed
/// text. It works as the project search does.
pub struct SearchTicketsWidget {
    pub tickets: Vec<String>,
    pub search_tickets: Vec<String>,
    pub state: Option<usize>,
    pub input: String,
    pub input_mode: InputMode,
}

impl SearchTicketsWidget {
    pub open spec fn len(&self) -> int {
        self.search_tickets@.len() as int
    }

    pub open spec fn selected_key(&self) -> Option<String> {
        match self.state {
            Some(i) => if i < self.search_tickets@.len() { Some(self.search_tickets@[i as int]) } else { None },
            None => None,
        }
    }

    /// A search with no ticket keys, not being typed into, with no result.
    pub fn new() -> (w: Self)
        ensures
            w.tickets@.len() == 0,
            w.search_tickets@.len() == 0,
            w.state is None,
            w.input@ == Seq::<char>::empty(),
            w.input_mode == InputMode::Normal,
    {
        Self {
            input: String::new(),
            input_mode: InputMode::Normal,
            tickets: Vec::new(),
            search_tickets: Vec::new(),
            state: None,
        }
    }

    /// Searches the keys of these tickets from now on; the rest stays.
    pub fn update(&mut self, tickets: &Vec<TicketData>)
        ensures
            final(self).tickets@.len() == tickets@.len(),
            forall|i: int| 0 <= i < tickets@.len() ==> #[trigger] final(self).tickets@[i] == tickets@[i].key,
            *final(self) == (SearchTicketsWidget { tickets: final(self).tickets, ..*old(self) }),
    {
        let mut keys: Vec<String> = Vec::new();
        let mut i: usize = 0;
        while i < tickets.len()
            invariant
                0 <= i <= tickets@.len(),
                keys@.len() == i,
                forall|j: int| 0 <= j < i ==> #[trigger] keys@[j] == tickets@[j].key,
            decreases tickets@.len() - i,
        {
            keys.push(tickets[i].key.clone());
            i = i + 1;
        }
        self.tickets = keys;
    }

    pub fn normal_mode(&mut self)
        ensures
            final(self).input_mode == InputMode::Normal,
            final(self).input == old(self).input,
            final(self).state == old(self).state,
            final(self).tickets == old(self).tickets,
            final(self).search_tickets == old(self).search_tickets,
    {
        self.input_mode = InputMode::Normal
    }

    /// The ticket keys at the positions `ids`, in that order.
    pub fn keys_at(&self, ids: &Vec<usize>) -> (found: Vec<String>)
        requires
            forall|j: int| 0 <= j < ids@.len() ==> #[trigger] ids@[j] < self.tickets@.len(),
        ensures
            found@ == ids@.map_values(|i: usize| self.tickets@[i as int]),
    {
        keys_at(&self.tickets, ids)
    }

    /// While the user types, searches the ticket keys for the typed text and shows exactly
    /// the keys that match it, in the order the search engine ranks them; the positions of
    /// those keys come back. Outside typing nothing changes.
    pub fn refresh_search(&mut self) -> (ids: Option<Vec<usize>>)
        ensures
            old(self).input_mode == InputMode::Normal ==> ids is None && *final(self) == *old(self),
            old(self).input_mode == InputMode::Editing ==> (ids matches Some(v) && {
                &&& v@.no_duplicates()
                &&& forall|j: int| 0 <= j < v@.len() ==> #[trigger] v@[j] < old(self).tickets@.len()
                &&& forall|i: usize| i < old(self).tickets@.len()
                    ==> (#[trigger] v@.contains(i) <==> words_match(old(self).tickets@[i as int]@, old(self).input@))
                &&& final(self).search_tickets@ == v@.map_values(|i: usize| old(self).tickets@[i as int])
                &&& *final(self) == (SearchTicketsWidget { search_tickets: final(self).search_tickets, ..*old(self) })
            }),
    {
        if self.input_mode == InputMode::Normal {
            return None;
        }
        let ids = search_keys(&self.tickets, self.input.as_str());
        self.search_tickets = self.keys_at(&ids);
        Some(ids)
    }

    /// Tells whether the widget can handle `key` as it stands.
    pub fn accepts(&self, key: Key) -> (b: bool)
        ensures
            b == (self.input_mode == InputMode::Editing ==> search_move_allowed(self.state, key, self.len())),
    {
        if self.input_mode == InputMode::Normal {
            return true;
        }
        let down = match key {
            Key::Down | Key::Tab => Some(1usize),
            Key::Ctrl('d') => Some(10usize),
            _ => None,
        };
        match down {
            Some(n) => can_move_down_by(self.state, n, self.search_tickets.len()),
            None => true,
        }
    }

    pub fn next(&mut self, line: usize)
        requires
            old(self).state matches Some(i) ==> old(self).len() > 0 && i + line <= usize::MAX,
        ensures
            final(self).state == search_moved_down(old(self).state, line as int, old(self).len()),
            final(self).tickets == old(self).tickets,
            final(self).search_tickets == old(self).search_tickets,
            final(self).input == old(self).input,
            final(self).input_mode == old(self).input_mode,
    {
        self.state = match self.state {
            Some(i) => if i + line >= self.search_tickets.len() {
                Some(self.search_tickets.len() - 1)
            } else {
                Some(i + line)
            },
            None => Some(0),
        };
    }

    pub fn previous(&mut self, line: usize)
        ensures
            final(self).state == moved_up(old(self).state, line as int),
            final(self).tickets == old(self).tickets,
            final(self).search_tickets == old(self).search_tickets,
            final(self).input == old(self).input,
            final(self).input_mode == old(self).input_mode,
    {
        self.state = step_up(self.state, line);
    }

    pub fn selected(&self) -> (s: Option<&String>)
        ensures
            match self.selected_key() {
                Some(k) => s == Some(&k),
                None => s is None,
            },
    {
        match self.state {
            Some(i) => if i < self.search_tickets.len() { Some(&self.search_tickets[i]) } else { None },
            None => None,
        }
    }

    fn movement(&mut self, key: Key) -> (e: EventState)
        requires
            search_move_allowed(old(self).state, key, old(self).len()),
        ensures
            e == (if search_key_move(key) is Some { EventState::Consumed } else { EventState::NotConsumed }),
            final(self).state == search_moved(old(self).state, key, old(self).len()),
            final(self).tickets == old(self).tickets,
            final(self).search_tickets == old(self).search_tickets,
            final(self).input == old(self).input,
            final(self).input_mode == old(self).input_mode,
    {
        match key {
            Key::Down | Key::Tab => {
                self.next(1);
                EventState::Consumed
            },
            Key::Up | Key::BackTab => {
                self.previous(1);
                EventState::Consumed
            },
            Key::Ctrl('d') => {
                self.next(10);
                EventState::Consumed
            },
            Key::Ctrl('u') => {
                self.previous(10);
                EventState::Consumed
            },
            _ => EventState::NotConsumed,
        }
    }

    /// Outside typing, any key first drops the selection; `e` starts typing, and the
    /// movement keys move in the results.
    fn normal_mode_key_event(&mut self, key: Key) -> (e: EventState)
        ensures
            key == Key::Char('e') ==> e == EventState::Consumed && final(self).input_mode == InputMode::Editing
                && final(self).state is None,
            key != Key::Char('e') ==> final(self).input_mode == old(self).input_mode
                && e == (if search_key_move(key) is Some { EventState::Consumed } else { EventState::NotConsumed })
                && final(self).state == search_moved(None, key, old(self).len()),
            final(self).input == old(self).input,
            final(self).tickets == old(self).tickets,
            final(self).search_tickets == old(self).search_tickets,
    {
        self.state = None;
        match key {
            Key::Char('e') => {
                self.input_mode = InputMode::Editing;
                EventState::Consumed
            },
            _ => self.movement(key),
        }
    }

    /// While typing, characters and backspace edit the text, escape stops typing, and the
    /// movement keys move in the results.
    fn edit_mode_key_event(&mut self, key: Key) -> (e: EventState)
        requires
            search_move_allowed(old(self).state, key, old(self).len()),
        ensures
            match key {
                Key::Char(c) => e == EventState::Consumed && final(self).input@ == old(self).input@.push(c)
                    && final(self).state == old(self).state && final(self).input_mode == old(self).input_mode,
                Key::Backspace => e == EventState::Consumed
                    && final(self).input@ == (if old(self).input@.len() == 0 { old(self).input@ } else { old(self).input@.drop_last() })
                    && final(self).state == old(self).state && final(self).input_mode == old(self).input_mode,
                Key::Esc => e == EventState::Consumed && final(self).input == old(self).input
                    && final(self).state == old(self).state && final(self).input_mode == InputMode::Normal,
                _ => final(self).input == old(self).input && final(self).input_mode == old(self).input_mode
                    && e == (if search_key_move(key) is Some { EventState::Consumed } else { EventState::NotConsumed })
                    && final(self).state == search_moved(old(self).state, key, old(self).len()),
            },
            final(self).tickets == old(self).tickets,
            final(self).search_tickets == old(self).search_tickets,
    {
        match key {
            Key::Char(c) => {
                self.input.push(c);
                EventState::Consumed
            },
            Key::Backspace => {
                self.input.pop();
                EventState::Consumed
            },
            Key::Esc => {
                self.normal_mode();
                EventState::Consumed
            },
            _ => self.movement(key),
        }
    }

    /// What a key does to the widget: `e` says whether it took the key, and `after` is
    /// the widget afterwards.
    pub open spec fn key_step(&self, key: Key, e: EventState, after: Self) -> bool {
        &&& self.input_mode == InputMode::Normal ==> {
            &&& key == Key::Char('e') ==> e == EventState::Consumed && after.input_mode == InputMode::Editing
                && after.state is None
            &&& key != Key::Char('e') ==> after.input_mode == self.input_mode
                && e == (if search_key_move(key) is Some { EventState::Consumed } else { EventState::NotConsumed })
                && after.state == search_moved(None, key, self.len())
            &&& after.input == self.input
        }
        &&& self.input_mode == InputMode::Editing ==> match key {
            Key::Char(c) => e == EventState::Consumed && after.input@ == self.input@.push(c)
                && after.state == self.state && after.input_mode == self.input_mode,
            Key::Backspace => e == EventState::Consumed
                && after.input@ == (if self.input@.len() == 0 { self.input@ } else { self.input@.drop_last() })
                && after.state == self.state && after.input_mode == self.input_mode,
            Key::Esc => e == EventState::Consumed && after.input == self.input
                && after.state == self.state && after.input_mode == InputMode::Normal,
            _ => after.input == self.input && after.input_mode == self.input_mode
                && e == (if search_key_move(key) is Some { EventState::Consumed } else { EventState::NotConsumed })
                && after.state == search_moved(self.state, key, self.len()),
        }
        &&& after.tickets == self.tickets
        &&& after.search_tickets == self.search_tickets
    }

    pub fn event(&mut self, key: Key) -> (e: EventState)
        requires
            old(self).input_mode == InputMode::Editing ==> search_move_allowed(old(self).state, key, old(self).len()),
        ensures
            old(self).key_step(key, e, *final(self)),
    {
        match self.input_mode {
            InputMode::Normal => self.normal_mode_key_event(key),
            InputMode::Editing => self.edit_mode_key_event(key),
        }
    }
}

} // verus!
