use vstd::prelude::*;
use crate::config::KeyConfig;
use crate::event::key::Key;
use crate::jira::projects::Project;
use crate::text::decimal;
use super::commands::{CommandInfo, CommandText, keyed_command, counted_command, keys_in_brackets, CMD_GROUP_GENERAL};
use super::{Component, EventState, KeyMap, bound, step_up, moved_down, moved_up, can_move_down, can_move_down_by};

verus! {

/// What a key does in the list of projects.
#[derive(Debug, Clone, Copy, PartialEq, Eq, Structural)]
pub enum Action {
    Down(usize),
    Up(usize),
    Bottom,
    Top,
}

/// The help text of a project list action bound to `key`.
pub open spec fn project_action_text(action: Action, key: Key) -> Seq<char> {
    match action {
        Action::Down(line) => keys_in_brackets("Scroll down "@ + decimal(line as nat) + " "@, seq![key]),
        Action::Up(line) => keys_in_brackets("Scroll up "@ + decimal(line as nat) + " "@, seq![key]),
        Action::Bottom => keys_in_brackets("Scroll to bottom "@, seq![key]),
        Action::Top => keys_in_brackets("Scroll to top "@, seq![key]),
    }
}

impl Action {
    pub fn to_command_text(self, key: Key) -> (c: CommandText)
        ensures
            c.name@ == project_action_text(self, key),
            c.group == CMD_GROUP_GENERAL,
            !c.hide_help,
    {
        match self {
            Self::Down(line) => counted_command("Scroll down ", line as u64, key),
            Self::Up(line) => counted_command("Scroll up ", line as u64, key),
            Self::Bottom => keyed_command("Scroll to bottom ", key),
            Self::Top => keyed_command("Scroll to top ", key),
        }
    }
}

/// The list of projects.
pub struct ProjectsWidget {
    pub projects: Vec<Project>,
    pub state: Option<usize>,
    pub key_mappings: KeyMap<Action>,
}

/// The project list's bindings: the arrow keys, and the configured scroll keys.
pub open spec fn project_bindings(k: KeyConfig) -> Map<Key, Action> {
    Map::empty()
        .insert(Key::Down, Action::Down(1))
        .insert(Key::Up, Action::Up(1))
        .insert(k.scroll_down, Action::Down(1))
        .insert(k.scroll_up, Action::Up(1))
        .insert(k.scroll_down_multiple_lines, Action::Down(10))
        .insert(k.scroll_up_multiple_lines, Action::Up(10))
        .insert(k.scroll_to_bottom, Action::Bottom)
        .insert(k.scroll_to_top, Action::Top)
}

/// The index of the first project with the given key, if any.
pub open spec fn position_of_key(projects: Seq<Project>, key: Seq<char>) -> Option<usize> {
    if exists|i: int| 0 <= i < projects.len() && #[trigger] projects[i].key@ == key {
        let i = choose|i: int| 0 <= i < projects.len() && #[trigger] projects[i].key@ == key
            && forall|j: int| 0 <= j < i ==> #[trigger] projects[j].key@ != key;
        Some(i as usize)
    } else {
        None
    }
}

/// The selection after choosing `index`; no index keeps the selection.
pub open spec fn chosen(selected: Option<usize>, index: Option<usize>) -> Option<usize> {
    if index is Some { index } else { selected }
}

/// The selection after an action in a list of `len` projects.
pub open spec fn project_moved(selected: Option<usize>, a: Action, len: int) -> Option<usize> {
    match a {
        Action::Down(n) => chosen(selected, moved_down(selected, n as int, len)),
        Action::Up(n) => chosen(selected, moved_up(selected, n as int)),
        Action::Bottom => if len == 0 { selected } else { Some((len - 1) as usize) },
        Action::Top => if len == 0 { selected } else { Some(0usize) },
    }
}

impl ProjectsWidget {
    pub open spec fn len(&self) -> int {
        self.projects@.len() as int
    }

    pub fn new(projects: &Vec<Project>, key_config: KeyConfig) -> (w: Self)
        ensures
            w.projects@ == projects@,
            w.state == (if projects@.len() > 0 { Some(0usize) } else { None }),
            w.key_mappings@ == project_bindings(key_config),
    {
        let state = if projects.len() > 0 { Some(0) } else { None };
        let mut key_mappings = KeyMap::new();
        key_mappings.insert(Key::Down, Action::Down(1));
        key_mappings.insert(Key::Up, Action::Up(1));
        key_mappings.insert(key_config.scroll_down, Action::Down(1));
        key_mappings.insert(key_config.scroll_up, Action::Up(1));
        key_mappings.insert(key_config.scroll_down_multiple_lines, Action::Down(10));
        key_mappings.insert(key_config.scroll_up_multiple_lines, Action::Up(10));
        key_mappings.insert(key_config.scroll_to_bottom, Action::Bottom);
        key_mappings.insert(key_config.scroll_to_top, Action::Top);
        let list = projects.clone();
        proof {
            assert(list@ =~= projects@);
        }
        Self { state, projects: list, key_mappings }
    }

    /// Tells whether the widget can handle `key` as it stands.
    pub fn accepts(&self, key: Key) -> (b: bool)
        ensures
            b == self.event_allowed(key),
    {
        match self.key_mappings.get(&key) {
            Some(Action::Down(n)) => can_move_down_by(self.state, n, self.projects.len()),
            _ => true,
        }
    }

    /// Selects a later project, stopping at the last one.
    pub fn next(&mut self, line: usize)
        requires
            can_move_down(old(self).state, line as int, old(self).len()),
        ensures
            final(self).state == project_moved(old(self).state, Action::Down(line), old(self).len()),
            final(self).projects == old(self).projects,
            final(self).key_mappings == old(self).key_mappings,
    {
        let i = match self.state {
            Some(i) => if i + line >= self.projects.len() { Some(self.projects.len() - 1) } else { Some(i + line) },
            None => None,
        };
        self.select(i);
    }

    /// Selects an earlier project, stopping at the first one.
    pub fn previous(&mut self, line: usize)
        ensures
            final(self).state == project_moved(old(self).state, Action::Up(line), old(self).len()),
            final(self).projects == old(self).projects,
            final(self).key_mappings == old(self).key_mappings,
    {
        let i = step_up(self.state, line);
        self.select(i);
    }

    pub fn go_to_top(&mut self)
        ensures
            final(self).state == project_moved(old(self).state, Action::Top, old(self).len()),
            final(self).projects == old(self).projects,
            final(self).key_mappings == old(self).key_mappings,
    {
        if self.projects.len() == 0 {
            return;
        }
        self.select(Some(0));
    }

    pub fn go_to_bottom(&mut self)
        ensures
            final(self).state == project_moved(old(self).state, Action::Bottom, old(self).len()),
            final(self).projects == old(self).projects,
            final(self).key_mappings == old(self).key_mappings,
    {
        if self.projects.len() == 0 {
            return;
        }
        self.select(Some(self.projects.len() - 1));
    }

    pub fn selected(&self) -> (p: Option<&Project>)
        ensures
            match self.state {
                Some(i) if i < self.len() => p == Some(&self.projects@[i as int]),
                _ => p is None,
            },
    {
        match self.state {
            Some(i) => if i < self.projects.len() { Some(&self.projects[i]) } else { None },
            None => None,
        }
    }

    /// Selects a project by index; no index keeps the selection.
    pub fn select(&mut self, index: Option<usize>)
        ensures
            final(self).state == chosen(old(self).state, index),
            final(self).projects == old(self).projects,
            final(self).key_mappings == old(self).key_mappings,
    {
        if index.is_some() {
            self.state = index
        }
    }

    /// Selects the first project with the given key; when no project has it, the selection
    /// stays.
    pub fn select_project(&mut self, ticket_key: &str)
        ensures
            final(self).state == chosen(old(self).state, position_of_key(old(self).projects@, ticket_key@)),
            final(self).projects == old(self).projects,
            final(self).key_mappings == old(self).key_mappings,
    {
        let key = String::from_str(ticket_key);
        let mut i: usize = 0;
        while i < self.projects.len()
            invariant
                0 <= i <= self.projects@.len(),
                key@ == ticket_key@,
                self.projects == old(self).projects,
                self.state == old(self).state,
                self.key_mappings == old(self).key_mappings,
                forall|j: int| 0 <= j < i ==> #[trigger] self.projects@[j].key@ != ticket_key@,
            decreases self.projects@.len() - i,
        {
            if self.projects[i].key == key {
                proof {
                    let p = position_of_key(self.projects@, ticket_key@);
                    assert(self.projects@[i as int].key@ == ticket_key@);
                    let w = choose|w: int| 0 <= w < self.projects@.len() && #[trigger] self.projects@[w].key@ == ticket_key@
                        && forall|j: int| 0 <= j < w ==> #[trigger] self.projects@[j].key@ != ticket_key@;
                    assert(0 <= w < self.projects@.len() && self.projects@[w].key@ == ticket_key@);
                    assert(w == i);
                }
                self.select(Some(i));
                return;
            }
            i = i + 1;
        }
        self.select(None);
    }

    /// Shows another list of projects; the selection stays where it was.
    pub fn update(&mut self, jira_projects: &Vec<Project>)
        ensures
            final(self).projects@ == jira_projects@,
            final(self).state == old(self).state,
            final(self).key_mappings == old(self).key_mappings,
    {
        self.projects = jira_projects.clone();
        proof {
            assert(self.projects@ =~= jira_projects@);
        }
    }
}

impl ProjectsWidget {
    /// What a key does to the widget: `e` says whether it took the key, and `after` is
    /// the widget afterwards.
    pub open spec fn key_step(&self, key: Key, e: EventState, after: Self) -> bool {
        &&& match bound(self.key_mappings@, key) {
            Some(a) => e == EventState::Consumed && after.state == project_moved(self.state, a, self.len()),
            None => e == EventState::NotConsumed && after.state == self.state,
        }
        &&& after.projects == self.projects
        &&& after.key_mappings == self.key_mappings
    }
}

impl Component for ProjectsWidget {
    /// Moving the selection down an empty list, or past the largest index, is undefined.
    open spec fn event_allowed(&self, key: Key) -> bool {
        bound(self.key_mappings@, key) matches Some(Action::Down(n)) ==> can_move_down(self.state, n as int, self.len())
    }

    fn commands(&self, _out: &mut Vec<CommandInfo>)
        ensures
            final(_out)@ == old(_out)@,
    {
    }

    fn event(&mut self, key: Key) -> (e: EventState)
        ensures
            old(self).key_step(key, e, *final(self)),
    {
        match self.key_mappings.get(&key) {
            Some(action) => {
                match action {
                    Action::Down(line) => self.next(line),
                    Action::Up(line) => self.previous(line),
                    Action::Bottom => self.go_to_bottom(),
                    Action::Top => self.go_to_top(),
                }
                EventState::Consumed
            },
            None => EventState::NotConsumed,
        }
    }
}

} // verus!
