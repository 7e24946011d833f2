use vstd::prelude::*;
use crate::config::KeyConfig;
use crate::event::key::Key;
use crate::jira::tickets::TicketData;
use crate::markup::{parse_html, markdown_of_html};
use crate::text::{concat3, decimal};
use super::commands::{CommandInfo, CommandText, keyed_command, counted_command, keys_in_brackets, CMD_GROUP_GENERAL};
use super::parent::browse_url;
use super::projects::chosen;
use super::{
    Component, EventState, KeyMap, bound, step_down, step_up, moved_down, moved_up, can_move_down,
    can_move_down_by, scroll_down_by, scroll_up_by, scrolled_down, scrolled_up,
};

verus! {

/// What a key does in the list of tickets.
#[derive(Debug, Clone, Copy, PartialEq, Eq, Structural)]
pub enum Action {
    OpenBrowser,
    Next(usize),
    Previous(usize),
    Last,
    First,
    ScrollDownDescription(u16),
    ScrollUpDescription(u16),
}

/// The help text of a ticket list action bound to `key`.
pub open spec fn ticket_action_text(action: Action, key: Key) -> Seq<char> {
    match action {
        Action::OpenBrowser => keys_in_brackets("Open Ticket in browser "@, seq![key]),
        Action::Next(line) => keys_in_brackets("Next "@ + decimal(line as nat) + " "@, seq![key]),
        Action::Previous(line) => keys_in_brackets("Previous "@ + decimal(line as nat) + " "@, seq![key]),
        Action::Last => keys_in_brackets("Last "@, seq![key]),
        Action::First => keys_in_brackets("First "@, seq![key]),
        Action::ScrollDownDescription(line) =>
            keys_in_brackets("Scroll down description "@ + decimal(line as nat) + " "@, seq![key]),
        Action::ScrollUpDescription(line) =>
            keys_in_brackets("Scroll up description "@ + decimal(line as nat) + " "@, seq![key]),
    }
}

impl Action {
    pub fn to_command_text(self, key: Key) -> (c: CommandText)
        ensures
            c.name@ == ticket_action_text(self, key),
            c.group == CMD_GROUP_GENERAL,
            !c.hide_help,
    {
        match self {
            Self::OpenBrowser => keyed_command("Open Ticket in browser ", key),
            Self::Next(line) => counted_command("Next ", line as u64, key),
            Self::Previous(line) => counted_command("Previous ", line as u64, key),
            Self::Last => keyed_command("Last ", key),
            Self::First => keyed_command("First ", key),
            Self::ScrollDownDescription(line) => counted_command("Scroll down description ", line as u64, key),
            Self::ScrollUpDescription(line) => counted_command("Scroll up description ", line as u64, key),
        }
    }
}

/// The tickets of a project, one of them selected with its summary and description shown.
#[derive(Debug)]
pub struct TicketWidget {
    pub jira_domain: String,
    pub state: Option<usize>,
    pub scroll: u16,
    /// The selected ticket's description in Markdown, once it has been worked out.
    pub ticket_description: Option<String>,
    pub tickets: Vec<TicketData>,
    pub key_mappings: KeyMap<Action>,
    /// The address to open in the browser, once a key asked for it.
    pub open_url: Option<String>,
}

/// The ticket list's bindings.
pub open spec fn ticket_bindings(k: KeyConfig) -> Map<Key, Action> {
    Map::empty()
        .insert(k.open_browser, Action::OpenBrowser)
        .insert(k.scroll_down, Action::Next(1))
        .insert(k.scroll_up, Action::Previous(1))
        .insert(k.scroll_down_multiple_lines, Action::Next(10))
        .insert(k.scroll_up_multiple_lines, Action::Previous(10))
        .insert(k.scroll_to_bottom, Action::Last)
        .insert(k.scroll_to_top, Action::First)
        .insert(k.page_down, Action::ScrollDownDescription(1))
        .insert(k.page_up, Action::ScrollUpDescription(1))
}

/// The tickets left once the first ticket with the given key is taken out, the last
/// ticket moving into its place.
pub open spec fn removed_first(tickets: Seq<TicketData>, key: Seq<char>) -> Seq<TicketData> {
    match ticket_position(tickets, key) {
        Some(i) => tickets.update(i as int, tickets.last()).drop_last(),
        None => tickets,
    }
}

/// The index of the first ticket with the given key, if any.
pub open spec fn ticket_position(tickets: Seq<TicketData>, key: Seq<char>) -> Option<usize> {
    if exists|i: int| 0 <= i < tickets.len() && #[trigger] tickets[i].key@ == key {
        let i = choose|i: int| 0 <= i < tickets.len() && #[trigger] tickets[i].key@ == key
            && forall|j: int| 0 <= j < i ==> #[trigger] tickets[j].key@ != key;
        Some(i as usize)
    } else {
        None
    }
}

/// The name shown for an optional person, or the given default.
pub open spec fn name_or(name: Option<Seq<char>>, default: Seq<char>) -> Seq<char> {
    match name {
        Some(n) => n,
        None => default,
    }
}

/// The cells of a ticket's row: key, priority, type, status, assignee, creator, reporter.
pub open spec fn ticket_cells(t: TicketData) -> Seq<Seq<char>> {
    seq![
        t.key@,
        name_or(match t.fields.priority { Some(p) => Some(p.name@), None => None }, Seq::empty()),
        t.fields.issuetype.name@,
        t.fields.status.name@,
        name_or(match t.fields.assignee { Some(a) => Some(a.display_name@), None => None }, "Unassigned"@),
        name_or(match t.fields.creator { Some(a) => Some(a.display_name@), None => None }, Seq::empty()),
        name_or(match t.fields.reporter { Some(a) => Some(a.display_name@), None => None }, Seq::empty()),
    ]
}

/// The cells of a ticket's row in the ticket table.
pub fn ticket_row(ticket: &TicketData) -> (cells: Vec<String>)
    ensures
        cells@.map_values(|c: String| c@) == ticket_cells(*ticket),
{
    let assignee = match &ticket.fields.assignee {
        Some(i) => i.display_name.clone(),
        None => String::from_str("Unassigned"),
    };
    let creator = match &ticket.fields.creator {
        Some(i) => i.display_name.clone(),
        None => String::new(),
    };
    let reporter = match &ticket.fields.reporter {
        Some(i) => i.display_name.clone(),
        None => String::new(),
    };
    let priority = match &ticket.fields.priority {
        Some(i) => i.name.clone(),
        None => String::new(),
    };
    let mut cells = Vec::new();
    cells.push(ticket.key.clone());
    cells.push(priority);
    cells.push(ticket.fields.issuetype.name.clone());
    cells.push(ticket.fields.status.name.clone());
    cells.push(assignee);
    cells.push(creator);
    cells.push(reporter);
    proof {
        assert(cells@.map_values(|c: String| c@) =~= ticket_cells(*ticket));
    }
    cells
}

/// The selection after an action in a list of `len` tickets.
pub open spec fn ticket_moved(selected: Option<usize>, a: Action, len: int) -> Option<usize> {
    match a {
        Action::Next(n) => if len == 0 { selected } else { chosen(selected, moved_down(selected, n as int, len)) },
        Action::Previous(n) => chosen(selected, moved_up(selected, n as int)),
        Action::Last => if len == 0 { selected } else { Some((len - 1) as usize) },
        Action::First => if len == 0 { selected } else { Some(0usize) },
        _ => selected,
    }
}

impl TicketWidget {
    pub open spec fn len(&self) -> int {
        self.tickets@.len() as int
    }

    /// The selected ticket.
    pub open spec fn selected_ticket(&self) -> Option<TicketData> {
        match self.state {
            Some(i) => if i < self.tickets@.len() { Some(self.tickets@[i as int]) } else { None },
            None => None,
        }
    }

    pub fn new(key_config: KeyConfig, jira_domain: String) -> (w: Self)
        ensures
            w.jira_domain == jira_domain,
            w.state == Some(0usize),
            w.scroll == 0,
            w.ticket_description is None,
            w.tickets@.len() == 0,
            w.open_url is None,
            w.key_mappings@ == ticket_bindings(key_config),
    {
        let mut key_mappings = KeyMap::new();
        key_mappings.insert(key_config.open_browser, Action::OpenBrowser);
        key_mappings.insert(key_config.scroll_down, Action::Next(1));
        key_mappings.insert(key_config.scroll_up, Action::Previous(1));
        key_mappings.insert(key_config.scroll_down_multiple_lines, Action::Next(10));
        key_mappings.insert(key_config.scroll_up_multiple_lines, Action::Previous(10));
        key_mappings.insert(key_config.scroll_to_bottom, Action::Last);
        key_mappings.insert(key_config.scroll_to_top, Action::First);
        key_mappings.insert(key_config.page_down, Action::ScrollDownDescription(1));
        key_mappings.insert(key_config.page_up, Action::ScrollUpDescription(1));
        Self {
            jira_domain,
            key_mappings,
            scroll: 0,
            state: Some(0),
            ticket_description: None,
            tickets: Vec::new(),
            open_url: None,
        }
    }

    /// Tells whether the widget can handle `key` as it stands.
    pub fn accepts(&self, key: Key) -> (b: bool)
        ensures
            b == self.event_allowed(key),
    {
        match self.key_mappings.get(&key) {
            Some(Action::Next(n)) => self.tickets.len() == 0 || can_move_down_by(self.state, n, self.tickets.len()),
            _ => true,
        }
    }

    /// Selects a later ticket, stopping at the last one; with no tickets nothing changes.
    pub fn next(&mut self, line: usize)
        requires
            old(self).len() > 0 ==> can_move_down(old(self).state, line as int, old(self).len()),
        ensures
            final(self).state == ticket_moved(old(self).state, Action::Next(line), old(self).len()),
            final(self).ticket_description == (if old(self).len() == 0 { old(self).ticket_description } else { None }),
            final(self).tickets == old(self).tickets,
            final(self).scroll == old(self).scroll,
            final(self).open_url == old(self).open_url,
            final(self).key_mappings == old(self).key_mappings,
            final(self).jira_domain == old(self).jira_domain,
    {
        if self.tickets.len() == 0 {
            return;
        }
        self.ticket_description = None;
        let i = step_down(self.state, line, self.tickets.len());
        self.select(i);
    }

    /// Selects an earlier ticket, stopping at the first one.
    pub fn previous(&mut self, line: usize)
        ensures
            final(self).state == ticket_moved(old(self).state, Action::Previous(line), old(self).len()),
            final(self).ticket_description is None,
            final(self).tickets == old(self).tickets,
            final(self).scroll == old(self).scroll,
            final(self).open_url == old(self).open_url,
            final(self).key_mappings == old(self).key_mappings,
            final(self).jira_domain == old(self).jira_domain,
    {
        self.ticket_description = None;
        let i = step_up(self.state, line);
        self.select(i);
    }

    pub fn go_to_top(&mut self)
        ensures
            final(self).state == ticket_moved(old(self).state, Action::First, old(self).len()),
            final(self).ticket_description is None,
            final(self).tickets == old(self).tickets,
            final(self).scroll == old(self).scroll,
            final(self).open_url == old(self).open_url,
            final(self).key_mappings == old(self).key_mappings,
            final(self).jira_domain == old(self).jira_domain,
    {
        self.ticket_description = None;
        if self.tickets.len() == 0 {
            return;
        }
        self.select(Some(0));
    }

    pub fn go_to_bottom(&mut self)
        ensures
            final(self).state == ticket_moved(old(self).state, Action::Last, old(self).len()),
            final(self).ticket_description is None,
            final(self).tickets == old(self).tickets,
            final(self).scroll == old(self).scroll,
            final(self).open_url == old(self).open_url,
            final(self).key_mappings == old(self).key_mappings,
            final(self).jira_domain == old(self).jira_domain,
    {
        self.ticket_description = None;
        if self.tickets.len() == 0 {
            return;
        }
        self.select(Some(self.tickets.len() - 1))
    }

    /// Asks for the selected ticket's page to be opened in the browser, when one is selected.
    pub fn open_browser(&mut self)
        ensures
            match old(self).selected_ticket() {
                Some(t) => final(self).open_url matches Some(u) && u@ == browse_url(old(self).jira_domain@, t.key@),
                None => final(self).open_url == old(self).open_url,
            },
            final(self).state == old(self).state,
            final(self).ticket_description == old(self).ticket_description,
            final(self).tickets == old(self).tickets,
            final(self).scroll == old(self).scroll,
            final(self).key_mappings == old(self).key_mappings,
            final(self).jira_domain == old(self).jira_domain,
    {
        let url = match self.selected() {
            Some(ticket) => concat3(self.jira_domain.as_str(), "/browse/", ticket.key.as_str()),
            None => return,
        };
        self.open_url = Some(url);
    }

    /// Removes the first ticket with the given key, moving the last ticket into its place.
    pub fn remove_ticket(&mut self, ticket_key: &str)
        ensures
            final(self).tickets@ == removed_first(old(self).tickets@, ticket_key@),
            final(self).state == old(self).state,
            final(self).ticket_description == old(self).ticket_description,
            final(self).scroll == old(self).scroll,
            final(self).open_url == old(self).open_url,
            final(self).key_mappings == old(self).key_mappings,
            final(self).jira_domain == old(self).jira_domain,
    {
        match self.position(ticket_key) {
            Some(ti) => {
                self.tickets.swap_remove(ti);
            },
            None => {},
        }
    }

    /// The index of the first ticket with the given key.
    fn position(&self, ticket_key: &str) -> (p: Option<usize>)
        ensures
            p == ticket_position(self.tickets@, ticket_key@),
            p matches Some(i) ==> i < self.tickets@.len() && self.tickets@[i as int].key@ == ticket_key@,
    {
        let key = String::from_str(ticket_key);
        let mut i: usize = 0;
        while i < self.tickets.len()
            invariant
                0 <= i <= self.tickets@.len(),
                key@ == ticket_key@,
                forall|j: int| 0 <= j < i ==> #[trigger] self.tickets@[j].key@ != ticket_key@,
            decreases self.tickets@.len() - i,
        {
            if self.tickets[i].key == key {
                proof {
                    assert(self.tickets@[i as int].key@ == ticket_key@);
                    let w = choose|w: int| 0 <= w < self.tickets@.len() && #[trigger] self.tickets@[w].key@ == ticket_key@
                        && forall|j: int| 0 <= j < w ==> #[trigger] self.tickets@[j].key@ != ticket_key@;
                    assert(0 <= w < self.tickets@.len() && self.tickets@[w].key@ == ticket_key@);
                    assert(w == i);
                }
                return Some(i);
            }
            i = i + 1;
        }
        None
    }

    pub fn selected(&self) -> (t: Option<&TicketData>)
        ensures
            match self.selected_ticket() {
                Some(s) => t == Some(&s),
                None => t is None,
            },
    {
        match self.state {
            Some(i) => if i < self.tickets.len() { Some(&self.tickets[i]) } else { None },
            None => None,
        }
    }

    /// Selects a ticket by index; no index keeps the selection.
    pub fn select(&mut self, index: Option<usize>)
        ensures
            final(self).state == chosen(old(self).state, index),
            final(self).ticket_description == old(self).ticket_description,
            final(self).tickets == old(self).tickets,
            final(self).scroll == old(self).scroll,
            final(self).open_url == old(self).open_url,
            final(self).key_mappings == old(self).key_mappings,
            final(self).jira_domain == old(self).jira_domain,
    {
        if index.is_some() {
            self.state = index
        }
    }

    /// Selects the first ticket with the given key; when no ticket has it, the selection stays.
    pub fn select_ticket(&mut self, ticket_key: &str)
        ensures
            final(self).state == chosen(old(self).state, ticket_position(old(self).tickets@, ticket_key@)),
            final(self).ticket_description == old(self).ticket_description,
            final(self).tickets == old(self).tickets,
            final(self).scroll == old(self).scroll,
            final(self).open_url == old(self).open_url,
            final(self).key_mappings == old(self).key_mappings,
            final(self).jira_domain == old(self).jira_domain,
    {
        let index = self.position(ticket_key);
        self.select(index);
    }

    /// Scrolls the description down, when a ticket is selected.
    pub fn scroll_down_description(&mut self, lines: u16)
        ensures
            final(self).scroll == (if old(self).selected_ticket() is Some {
                scrolled_down(old(self).scroll, lines)
            } else {
                old(self).scroll
            }),
            final(self).state == old(self).state,
            final(self).ticket_description == old(self).ticket_description,
            final(self).tickets == old(self).tickets,
            final(self).open_url == old(self).open_url,
            final(self).key_mappings == old(self).key_mappings,
            final(self).jira_domain == old(self).jira_domain,
    {
        if self.selected().is_some() {
            self.scroll = scroll_down_by(self.scroll, lines);
        }
    }

    pub fn scroll_up_description(&mut self, lines: u16)
        ensures
            final(self).scroll == scrolled_up(old(self).scroll, lines),
            final(self).state == old(self).state,
            final(self).ticket_description == old(self).ticket_description,
            final(self).tickets == old(self).tickets,
            final(self).open_url == old(self).open_url,
            final(self).key_mappings == old(self).key_mappings,
            final(self).jira_domain == old(self).jira_domain,
    {
        self.scroll = scroll_up_by(self.scroll, lines);
    }

    /// Adds tickets at the end of the list, after emptying it if `clear` says so.
    pub fn update(&mut self, tickets: Vec<TicketData>, clear: bool)
        ensures
            final(self).tickets@ == if clear { tickets@ } else { old(self).tickets@ + tickets@ },
            final(self).state == old(self).state,
            final(self).ticket_description == old(self).ticket_description,
            final(self).scroll == old(self).scroll,
            final(self).open_url == old(self).open_url,
            final(self).key_mappings == old(self).key_mappings,
            final(self).jira_domain == old(self).jira_domain,
    {
        let ghost added = tickets@;
        let mut tickets = tickets;
        if clear {
            self.tickets.clear();
        }
        self.tickets.append(&mut tickets);
        proof {
            if clear {
                assert(self.tickets@ =~= added);
            }
        }
    }

    /// The summary line and the description, in Markdown, of the selected ticket; both
    /// are empty texts when no ticket is selected. The description is worked out once and
    /// kept until the selection moves.
    pub fn description_texts(&mut self) -> (texts: (String, String))
        ensures
            texts.0@ == match old(self).selected_ticket() {
                Some(t) => t.key@ + " - "@ + t.fields.summary@,
                None => Seq::<char>::empty(),
            },
            match old(self).ticket_description {
                Some(d) => texts.1 == d,
                None => texts.1@ == markdown_of_html(match old(self).selected_ticket() {
                    Some(t) => t.rendered_fields.description@,
                    None => Seq::<char>::empty(),
                }),
            },
            final(self).ticket_description == Some(texts.1),
            final(self).state == old(self).state,
            final(self).tickets == old(self).tickets,
            final(self).scroll == old(self).scroll,
            final(self).open_url == old(self).open_url,
            final(self).key_mappings == old(self).key_mappings,
            final(self).jira_domain == old(self).jira_domain,
    {
        let (summary, description) = match self.selected() {
            Some(ticket) => (
                concat3(ticket.key.as_str(), " - ", ticket.fields.summary.as_str()),
                ticket.rendered_fields.description.clone(),
            ),
            None => (String::new(), String::new()),
        };
        let text = match &self.ticket_description {
            Some(d) => d.clone(),
            None => parse_html(description.as_str()),
        };
        self.ticket_description = Some(text.clone());
        (summary, text)
    }
}

impl TicketWidget {
    /// What a key does to the widget: `e` says whether it took the key, and `after` is
    /// the widget afterwards.
    pub open spec fn key_step(&self, key: Key, e: EventState, after: Self) -> bool {
        &&& match bound(self.key_mappings@, key) {
            None => e == EventState::NotConsumed && after.state == self.state
                && after.scroll == self.scroll && after.open_url == self.open_url
                && after.ticket_description == self.ticket_description,
            Some(Action::OpenBrowser) => e == EventState::Consumed && after.state == self.state
                && after.scroll == self.scroll && after.ticket_description == self.ticket_description
                && match self.selected_ticket() {
                    Some(t) => after.open_url matches Some(u) && u@ == browse_url(self.jira_domain@, t.key@),
                    None => after.open_url == self.open_url,
                },
            Some(Action::ScrollDownDescription(n)) => e == EventState::Consumed
                && after.state == self.state && after.open_url == self.open_url
                && after.ticket_description == self.ticket_description
                && after.scroll == (if self.selected_ticket() is Some {
                    scrolled_down(self.scroll, n)
                } else {
                    self.scroll
                }),
            Some(Action::ScrollUpDescription(n)) => e == EventState::Consumed
                && after.state == self.state && after.open_url == self.open_url
                && after.ticket_description == self.ticket_description
                && after.scroll == scrolled_up(self.scroll, n),
            Some(a) => e == EventState::Consumed
                && after.state == ticket_moved(self.state, a, self.len())
                && after.scroll == self.scroll && after.open_url == self.open_url
                && after.ticket_description == (if a is Next && self.len() == 0 {
                    self.ticket_description
                } else {
                    None
                }),
        }
        &&& after.tickets == self.tickets
        &&& after.key_mappings == self.key_mappings
        &&& after.jira_domain == self.jira_domain
    }
}

impl Component for TicketWidget {
    /// Moving the selection down a list of tickets must not pass the largest index.
    open spec fn event_allowed(&self, key: Key) -> bool {
        bound(self.key_mappings@, key) matches Some(Action::Next(n))
            ==> (self.len() > 0 ==> can_move_down(self.state, n as int, self.len()))
    }

    fn commands(&self, _out: &mut Vec<CommandInfo>)
        ensures
            final(_out)@ == old(_out)@,
    {
    }

    fn event(&mut self, key: Key) -> (e: EventState)
        ensures
            old(self).key_step(key, e, *final(self)),
    {
        match self.key_mappings.get(&key) {
            Some(action) => {
                match action {
                    Action::OpenBrowser => self.open_browser(),
                    Action::Next(line) => self.next(line),
                    Action::Previous(line) => self.previous(line),
                    Action::Last => self.go_to_bottom(),
                    Action::First => self.go_to_top(),
                    Action::ScrollDownDescription(line) => self.scroll_down_description(line),
                    Action::ScrollUpDescription(line) => self.scroll_up_description(line),
                }
                EventState::Consumed
            },
            None => EventState::NotConsumed,
        }
    }
}

/// Under the ticket list's bindings, the scroll-up key moves the selection one ticket up,
/// stopping at the first, and never down (where no key bound after it is the same key).
pub proof fn law_ticket_scroll_up_moves_up(k: KeyConfig, w: TicketWidget, e: EventState, after: TicketWidget)
    requires
        w.key_mappings@ == ticket_bindings(k),
        k.scroll_up != k.scroll_down_multiple_lines,
        k.scroll_up != k.scroll_up_multiple_lines,
        k.scroll_up != k.scroll_to_bottom,
        k.scroll_up != k.scroll_to_top,
        k.scroll_up != k.page_down,
        k.scroll_up != k.page_up,
        w.key_step(k.scroll_up, e, after),
    ensures
        e == EventState::Consumed,
        w.state is None ==> after.state is None,
        w.state matches Some(i) ==> after.state == Some(if i > 0 { (i - 1) as usize } else { 0usize }),
        after.scroll == w.scroll,
{
    assert(ticket_bindings(k).dom().contains(k.scroll_up));
    assert(ticket_bindings(k)[k.scroll_up] == Action::Previous(1));
}

} // verus!
