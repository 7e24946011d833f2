use vstd::prelude::*;
use crate::config::KeyConfig;
use crate::event::key::Key;
use crate::jira::tickets::{LinkInwardOutwardParent, TicketData};
use crate::text::concat3;
use super::commands::{CommandInfo, CommandText, keyed_command, keys_in_brackets, CMD_GROUP_GENERAL};
use super::{Component, EventState, KeyMap, bound};

verus! {

/// What a key does in the parent panel.
#[derive(Debug, Clone, Copy, PartialEq, Eq, Structural)]
pub enum Action {
    OpenBrowser,
}

impl Action {
    pub fn to_command_text(self, key: Key) -> (c: CommandText)
        ensures
            c.name@ == keys_in_brackets("Open Ticket in browser "@, seq![key]),
            c.group == CMD_GROUP_GENERAL,
            !c.hide_help,
    {
        match self {
            Self::OpenBrowser => keyed_command("Open Ticket in browser ", key),
        }
    }
}

/// The panel with the parent of the selected ticket.
#[derive(Debug)]
pub struct TicketParentWidget {
    pub jira_domain: String,
    pub state: Option<usize>,
    pub parent_ticket: Option<LinkInwardOutwardParent>,
    pub key_mappings: KeyMap<Action>,
    /// The address to open in the browser, once a key asked for it.
    pub open_url: Option<String>,
}

/// The parent panel's bindings.
pub open spec fn parent_bindings(k: KeyConfig) -> Map<Key, Action> {
    Map::empty().insert(k.open_browser, Action::OpenBrowser)
}

/// The address at which a Jira site shows a ticket.
pub open spec fn browse_url(domain: Seq<char>, key: Seq<char>) -> Seq<char> {
    domain + "/browse/"@ + key
}

/// What the parent panel shows.
#[derive(Debug)]
pub enum ParentView {
    /// No ticket is selected: the panel is cleared.
    Nothing,
    /// The ticket has no parent: the table has its headers only.
    NoParent,
    /// The parent's key, summary and priority, and the ticket's type and status.
    Parent(Vec<String>),
}

/// The priority name, or nothing.
pub open spec fn priority_text(p: Option<crate::jira::tickets::Priority>) -> Seq<char> {
    match p {
        Some(p) => p.name@,
        None => Seq::empty(),
    }
}

impl TicketParentWidget {
    pub fn new(key_config: KeyConfig, jira_domain: &str) -> (w: Self)
        ensures
            w.jira_domain@ == jira_domain@,
            w.state is None,
            w.parent_ticket is None,
            w.open_url is None,
            w.key_mappings@ == parent_bindings(key_config),
    {
        let mut key_mappings = KeyMap::new();
        key_mappings.insert(key_config.open_browser, Action::OpenBrowser);
        Self {
            jira_domain: String::from_str(jira_domain),
            key_mappings,
            state: None,
            parent_ticket: None,
            open_url: None,
        }
    }

    pub fn selected(&self) -> (p: Option<LinkInwardOutwardParent>)
        ensures
            p == self.parent_ticket,
    {
        match &self.parent_ticket {
            Some(p) => Some(p.clone()),
            None => None,
        }
    }

    /// Asks for the parent ticket's page to be opened in the browser, when there is a parent.
    pub fn open_browser(&mut self)
        ensures
            match old(self).parent_ticket {
                Some(p) => final(self).open_url matches Some(u) && u@ == browse_url(old(self).jira_domain@, p.key@),
                None => final(self).open_url == old(self).open_url,
            },
            final(self).parent_ticket == old(self).parent_ticket,
            final(self).state == old(self).state,
            final(self).jira_domain == old(self).jira_domain,
            final(self).key_mappings == old(self).key_mappings,
    {
        match &self.parent_ticket {
            Some(p) => {
                self.open_url = Some(concat3(self.jira_domain.as_str(), "/browse/", p.key.as_str()));
            },
            None => {},
        }
    }

    /// Brings the panel up to date with the selected ticket before it is drawn, and says
    /// what to draw. Without focus the panel has no selection; with focus and a known
    /// parent, the parent's row is selected; the ticket's parent becomes the known parent.
    pub fn prepare_draw(&mut self, focused: bool, selected_ticket: Option<&TicketData>) -> (v: ParentView)
        ensures
            match selected_ticket {
                None => v is Nothing && final(self).state == old(self).state
                    && final(self).parent_ticket == old(self).parent_ticket,
                Some(t) => {
                    &&& final(self).state == (if focused && old(self).parent_ticket is Some {
                        Some(0usize)
                    } else if !focused {
                        None
                    } else {
                        old(self).state
                    })
                    &&& match t.fields.parent {
                        None => v is NoParent && final(self).parent_ticket == old(self).parent_ticket,
                        Some(p) => final(self).parent_ticket == Some(p) && (v matches ParentView::Parent(cells)
                            && cells@.len() == 5
                            && cells@[0]@ == p.key@
                            && cells@[1]@ == p.fields.summary@
                            && cells@[2]@ == priority_text(p.fields.priority)
                            && cells@[3]@ == t.fields.issuetype.name@
                            && cells@[4]@ == t.fields.status.name@),
                    }
                },
            },
            final(self).jira_domain == old(self).jira_domain,
            final(self).key_mappings == old(self).key_mappings,
            final(self).open_url == old(self).open_url,
    {
        let ticket = match selected_ticket {
            None => return ParentView::Nothing,
            Some(ticket_data) => ticket_data,
        };
        if !focused {
            self.state = None;
        }
        if focused && self.parent_ticket.is_some() {
            self.state = Some(0);
        }
        match &ticket.fields.parent {
            None => ParentView::NoParent,
            Some(i) => {
                self.parent_ticket = Some(i.clone());
                let priority = match &i.fields.priority {
                    Some(p) => p.name.clone(),
                    None => String::new(),
                };
                let mut cells = Vec::new();
                cells.push(i.key.clone());
                cells.push(i.fields.summary.clone());
                cells.push(priority);
                cells.push(ticket.fields.issuetype.name.clone());
                cells.push(ticket.fields.status.name.clone());
                ParentView::Parent(cells)
            },
        }
    }
}

impl Component for TicketParentWidget {
    open spec fn event_allowed(&self, key: Key) -> bool {
        true
    }

    fn commands(&self, _out: &mut Vec<CommandInfo>)
        ensures
            final(_out)@ == old(_out)@,
    {
    }

    /// The open browser key asks for the parent's page to be opened.
    fn event(&mut self, key: Key) -> (e: EventState)
        ensures
            bound(old(self).key_mappings@, key) is Some ==> e == EventState::Consumed
                && match old(self).parent_ticket {
                    Some(p) => final(self).open_url matches Some(u) && u@ == browse_url(old(self).jira_domain@, p.key@),
                    None => final(self).open_url == old(self).open_url,
                },
            bound(old(self).key_mappings@, key) is None ==> e == EventState::NotConsumed
                && final(self).open_url == old(self).open_url,
            final(self).parent_ticket == old(self).parent_ticket,
            final(self).state == old(self).state,
            final(self).jira_domain == old(self).jira_domain,
            final(self).key_mappings == old(self).key_mappings,
    {
        match self.key_mappings.get(&key) {
            Some(Action::OpenBrowser) => {
                self.open_browser();
                EventState::Consumed
            },
            None => EventState::NotConsumed,
        }
    }
}

} // verus!
