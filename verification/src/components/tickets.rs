use vstd::prelude::*;
use crate::config::KeyConfig;
use crate::event::key::Key;
use crate::jira::tickets::TicketData;
use crate::widgets::{EventState, ListMove, list_key_move, list_key_move_of};

verus! {

/// A row moved to, kept at or above the last of `len` rows.
pub open spec fn capped(row: int, len: int) -> usize {
    if row < len - 1 { row as usize } else { (len - 1) as usize }
}

/// A selection moved `delta` rows, kept at or above the last of `len` rows.
pub open spec fn shifted(selected: Option<usize>, delta: int, len: int) -> Option<usize> {
    match selected {
        Some(i) => Some(capped(i + delta, len)),
        None => None,
    }
}

/// Whether a selection can move `delta` rows in a list of `len` rows: the list must not be
/// empty and the row must stay within `0..=usize::MAX` before it is capped.
pub open spec fn can_shift(selected: Option<usize>, delta: int, len: int) -> bool {
    selected matches Some(i) ==> len > 0 && 0 <= i + delta <= usize::MAX
}

/// An earlier ticket list that also keeps the selection in the selected ticket's labels
/// and components.
#[derive(Debug)]
pub struct TicketWidget {
    components_state: Option<usize>,
    key_config: KeyConfig,
    labels_state: Option<usize>,
    tickets_state: Option<usize>,
    tickets: Vec<TicketData>,
}

impl TicketWidget {
    pub closed spec fn items(&self) -> Seq<TicketData> {
        self.tickets@
    }

    pub closed spec fn ticket_selection(&self) -> Option<usize> {
        self.tickets_state
    }

    pub closed spec fn label_selection(&self) -> Option<usize> {
        self.labels_state
    }

    pub closed spec fn component_selection(&self) -> Option<usize> {
        self.components_state
    }

    pub closed spec fn keys(&self) -> KeyConfig {
        self.key_config
    }

    /// The selected ticket.
    pub open spec fn chosen_ticket(&self) -> Option<TicketData> {
        match self.ticket_selection() {
            Some(i) => if i < self.items().len() { Some(self.items()[i as int]) } else { None },
            None => None,
        }
    }

    /// How many labels the selected ticket has; none without a ticket.
    pub open spec fn label_count(&self) -> int {
        match self.chosen_ticket() {
            Some(t) => t.fields.labels@.len() as int,
            None => 0,
        }
    }

    /// Everything but the label selection is unchanged.
    pub open spec fn same_but_labels(&self, other: &Self) -> bool {
        &&& self.items() == other.items()
        &&& self.ticket_selection() == other.ticket_selection()
        &&& self.component_selection() == other.component_selection()
        &&& self.keys() == other.keys()
    }

    /// Everything but the ticket selection is unchanged.
    pub open spec fn same_but_tickets(&self, other: &Self) -> bool {
        &&& self.items() == other.items()
        &&& self.label_selection() == other.label_selection()
        &&& self.component_selection() == other.component_selection()
        &&& self.keys() == other.keys()
    }

    /// No tickets, with the first row of each list selected.
    pub fn new(key_config: KeyConfig) -> (w: Self)
        ensures
            w.items().len() == 0,
            w.ticket_selection() == Some(0usize),
            w.label_selection() == Some(0usize),
            w.component_selection() == Some(0usize),
            w.keys() == key_config,
    {
        Self {
            components_state: Some(0),
            key_config,
            labels_state: Some(0),
            tickets: Vec::new(),
            tickets_state: Some(0),
        }
    }

    /// Shows the tickets that were loaded.
    pub fn update(&mut self, tickets: Vec<TicketData>)
        ensures
            final(self).items() == tickets@,
            final(self).ticket_selection() == old(self).ticket_selection(),
            final(self).label_selection() == old(self).label_selection(),
            final(self).component_selection() == old(self).component_selection(),
            final(self).keys() == old(self).keys(),
    {
        self.tickets = tickets;
    }

    pub fn selected_ticket(&self) -> (t: Option<&TicketData>)
        ensures
            match self.chosen_ticket() {
                Some(s) => t == Some(&s),
                None => t is None,
            },
    {
        match self.tickets_state {
            Some(i) => if i < self.tickets.len() { Some(&self.tickets[i]) } else { None },
            None => None,
        }
    }

    fn label_len(&self) -> (n: usize)
        ensures
            n == self.label_count(),
    {
        match self.selected_ticket() {
            Some(t) => t.fields.labels.len(),
            None => 0,
        }
    }

    /// Moves the ticket selection `line` rows down, stopping at the last ticket.
    pub fn next_ticket(&mut self, line: usize)
        requires
            can_shift(old(self).ticket_selection(), line as int, old(self).items().len() as int),
        ensures
            final(self).ticket_selection() == shifted(old(self).ticket_selection(), line as int, old(self).items().len() as int),
            final(self).same_but_tickets(old(self)),
    {
        let len = self.tickets.len();
        self.tickets_state = match self.tickets_state {
            Some(i) => Some(if i + line < len - 1 { i + line } else { len - 1 }),
            None => None,
        };
    }

    /// Moves the ticket selection `line` rows up; the selection must not pass the first row.
    pub fn previous_ticket(&mut self, line: usize)
        requires
            can_shift(old(self).ticket_selection(), -line, old(self).items().len() as int),
        ensures
            final(self).ticket_selection() == shifted(old(self).ticket_selection(), -line, old(self).items().len() as int),
            final(self).same_but_tickets(old(self)),
    {
        let len = self.tickets.len();
        self.tickets_state = match self.tickets_state {
            Some(i) => Some(if i - line < len - 1 { i - line } else { len - 1 }),
            None => None,
        };
    }

    /// Moves the label selection `line` rows down, stopping at the selected ticket's last label.
    pub fn next_label(&mut self, line: usize)
        requires
            can_shift(old(self).label_selection(), line as int, old(self).label_count()),
        ensures
            final(self).label_selection() == shifted(old(self).label_selection(), line as int, old(self).label_count()),
            final(self).same_but_labels(old(self)),
    {
        let len = self.label_len();
        self.labels_state = match self.labels_state {
            Some(i) => Some(if i + line < len - 1 { i + line } else { len - 1 }),
            None => None,
        };
    }

    /// Moves the label selection `line` rows up; the selection must not pass the first row.
    pub fn previous_label(&mut self, line: usize)
        requires
            can_shift(old(self).label_selection(), -line, old(self).label_count()),
        ensures
            final(self).label_selection() == shifted(old(self).label_selection(), -line, old(self).label_count()),
            final(self).same_but_labels(old(self)),
    {
        let len = self.label_len();
        self.labels_state = match self.labels_state {
            Some(i) => Some(if i - line < len - 1 { i - line } else { len - 1 }),
            None => None,
        };
    }

    /// Selects the selected ticket's first label, when it has any.
    pub fn label_go_to_top(&mut self)
        requires
            old(self).chosen_ticket() is Some,
        ensures
            final(self).label_selection() == (if old(self).label_count() == 0 {
                old(self).label_selection()
            } else {
                Some(0usize)
            }),
            final(self).same_but_labels(old(self)),
    {
        if self.label_len() == 0 {
            return;
        }
        self.labels_state = Some(0);
    }

    /// Selects the selected ticket's last label, when it has any.
    pub fn label_go_to_bottom(&mut self)
        requires
            old(self).chosen_ticket() is Some,
        ensures
            final(self).label_selection() == (if old(self).label_count() == 0 {
                old(self).label_selection()
            } else {
                Some((old(self).label_count() - 1) as usize)
            }),
            final(self).same_but_labels(old(self)),
    {
        let len = self.label_len();
        if len == 0 {
            return;
        }
        self.labels_state = Some(len - 1);
    }

    pub fn ticket_go_to_top(&mut self)
        ensures
            final(self).ticket_selection() == (if old(self).items().len() == 0 {
                old(self).ticket_selection()
            } else {
                Some(0usize)
            }),
            final(self).same_but_tickets(old(self)),
    {
        if self.tickets.len() == 0 {
            return;
        }
        self.tickets_state = Some(0);
    }

    pub fn ticket_go_to_bottom(&mut self)
        ensures
            final(self).ticket_selection() == (if old(self).items().len() == 0 {
                old(self).ticket_selection()
            } else {
                Some((old(self).items().len() - 1) as usize)
            }),
            final(self).same_but_tickets(old(self)),
    {
        if self.tickets.len() == 0 {
            return;
        }
        self.tickets_state = Some(self.tickets.len() - 1);
    }

    /// Whether the label list can take `key`.
    pub open spec fn label_key_allowed(&self, key: Key) -> bool {
        match list_key_move(self.keys(), key) {
            Some(ListMove::Down(n)) => can_shift(self.label_selection(), n as int, self.label_count()),
            Some(ListMove::Up(n)) => can_shift(self.label_selection(), -n, self.label_count()),
            Some(_) => self.chosen_ticket() is Some,
            None => true,
        }
    }

    /// Handles a key in the selected ticket's labels.
    pub fn label_event(&mut self, key: Key) -> (e: EventState)
        requires
            old(self).label_key_allowed(key),
        ensures
            match list_key_move(old(self).keys(), key) {
                Some(ListMove::Down(n)) => final(self).label_selection()
                    == shifted(old(self).label_selection(), n as int, old(self).label_count()),
                Some(ListMove::Up(n)) => final(self).label_selection()
                    == shifted(old(self).label_selection(), -n, old(self).label_count()),
                Some(ListMove::Bottom) => final(self).label_selection() == (if old(self).label_count() == 0 {
                    old(self).label_selection()
                } else {
                    Some((old(self).label_count() - 1) as usize)
                }),
                Some(ListMove::Top) => final(self).label_selection() == (if old(self).label_count() == 0 {
                    old(self).label_selection()
                } else {
                    Some(0usize)
                }),
                None => final(self).label_selection() == old(self).label_selection(),
            },
            e == (if list_key_move(old(self).keys(), key) is Some { EventState::Consumed } else { EventState::NotConsumed }),
            final(self).same_but_labels(old(self)),
    {
        match list_key_move_of(&self.key_config, key) {
            Some(ListMove::Down(n)) => self.next_label(n),
            Some(ListMove::Up(n)) => self.previous_label(n),
            Some(ListMove::Bottom) => self.label_go_to_bottom(),
            Some(ListMove::Top) => self.label_go_to_top(),
            None => return EventState::NotConsumed,
        }
        EventState::Consumed
    }

    /// Whether the ticket list can take `key`.
    pub open spec fn ticket_key_allowed(&self, key: Key) -> bool {
        match list_key_move(self.keys(), key) {
            Some(ListMove::Down(n)) => can_shift(self.ticket_selection(), n as int, self.items().len() as int),
            Some(ListMove::Up(n)) => can_shift(self.ticket_selection(), -n, self.items().len() as int),
            _ => true,
        }
    }

    /// Handles a key in the ticket list.
    pub fn event(&mut self, key: Key) -> (e: EventState)
        requires
            old(self).ticket_key_allowed(key),
        ensures
            match list_key_move(old(self).keys(), key) {
                Some(ListMove::Down(n)) => final(self).ticket_selection()
                    == shifted(old(self).ticket_selection(), n as int, old(self).items().len() as int),
                Some(ListMove::Up(n)) => final(self).ticket_selection()
                    == shifted(old(self).ticket_selection(), -n, old(self).items().len() as int),
                Some(ListMove::Bottom) => final(self).ticket_selection() == (if old(self).items().len() == 0 {
                    old(self).ticket_selection()
                } else {
                    Some((old(self).items().len() - 1) as usize)
                }),
                Some(ListMove::Top) => final(self).ticket_selection() == (if old(self).items().len() == 0 {
                    old(self).ticket_selection()
                } else {
                    Some(0usize)
                }),
                None => final(self).ticket_selection() == old(self).ticket_selection(),
            },
            e == (if list_key_move(old(self).keys(), key) is Some { EventState::Consumed } else { EventState::NotConsumed }),
            final(self).same_but_tickets(old(self)),
    {
        match list_key_move_of(&self.key_config, key) {
            Some(ListMove::Down(n)) => self.next_ticket(n),
            Some(ListMove::Up(n)) => self.previous_ticket(n),
            Some(ListMove::Bottom) => self.ticket_go_to_bottom(),
            Some(ListMove::Top) => self.ticket_go_to_top(),
            None => return EventState::NotConsumed,
        }
        EventState::Consumed
    }
}

} // verus!
