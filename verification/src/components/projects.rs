use vstd::prelude::*;
use crate::config::KeyConfig;
use crate::event::key::Key;
use crate::jira::projects::Project;
use crate::widgets::{EventState, ListMove, list_key_move, list_key_move_of, moved_to_top, moved_to_bottom};

verus! {

/// An earlier list of project names. Its moves up and down work out a new row without
/// selecting it, and it reports the movement keys as not taken and every other key as taken.
#[derive(Debug)]
pub struct ProjectsComponent {
    projects: Vec<String>,
    state: Option<usize>,
    key_config: KeyConfig,
}

impl ProjectsComponent {
    pub closed spec fn names(&self) -> Seq<String> {
        self.projects@
    }

    pub closed spec fn selection(&self) -> Option<usize> {
        self.state
    }

    pub closed spec fn keys(&self) -> KeyConfig {
        self.key_config
    }

    /// The names of the projects; the first row is selected only when there is none.
    pub fn new(projects: &Vec<Project>, key_config: KeyConfig) -> (c: Self)
        ensures
            c.names().len() == projects@.len(),
            forall|i: int| 0 <= i < projects@.len() ==> #[trigger] c.names()[i] == projects@[i].name,
            c.selection() == (if projects@.len() == 0 { Some(0usize) } else { None }),
            c.keys() == key_config,
    {
        let state = if projects.len() == 0 { Some(0) } else { None };
        let mut projects_list: Vec<String> = Vec::new();
        let mut i: usize = 0;
        while i < projects.len()
            invariant
                0 <= i <= projects@.len(),
                projects_list@.len() == i,
                forall|j: int| 0 <= j < i ==> #[trigger] projects_list@[j] == projects@[j].name,
            decreases projects@.len() - i,
        {
            projects_list.push(projects[i].name.clone());
            i = i + 1;
        }
        Self { state, projects: projects_list, key_config }
    }

    /// Works out the row `line` rows further down, stopping at the last row, and leaves the
    /// selection as it was.
    pub fn next_project(&mut self, line: usize)
        requires
            old(self).selection() matches Some(i) ==> old(self).names().len() > 0 && i + line <= usize::MAX,
        ensures
            *final(self) == *old(self),
    {
        let _next = match self.state {
            Some(i) => if i + line >= self.projects.len() { Some(self.projects.len() - 1) } else { Some(i + line) },
            None => None,
        };
    }

    /// Works out the row `line` rows further up, stopping at the first row, and leaves the
    /// selection as it was.
    pub fn previous_project(&mut self, line: usize)
        ensures
            *final(self) == *old(self),
    {
        let _previous = match self.state {
            Some(i) => if i <= line { Some(0) } else { Some(i - line) },
            None => None,
        };
    }

    pub fn go_to_top(&mut self)
        ensures
            final(self).selection() == moved_to_top(old(self).selection(), old(self).names().len() as int),
            final(self).names() == old(self).names(),
            final(self).keys() == old(self).keys(),
    {
        if self.projects.len() == 0 {
            return;
        }
        self.state = Some(0);
    }

    pub fn go_to_bottom(&mut self)
        ensures
            final(self).selection() == moved_to_bottom(old(self).selection(), old(self).names().len() as int),
            final(self).names() == old(self).names(),
            final(self).keys() == old(self).keys(),
    {
        if self.projects.len() == 0 {
            return;
        }
        self.state = Some(self.projects.len() - 1);
    }

    pub fn selected_project(&self) -> (p: Option<&String>)
        ensures
            match self.selection() {
                Some(i) if i < self.names().len() => p == Some(&self.names()[i as int]),
                _ => p is None,
            },
    {
        match self.state {
            Some(i) => if i < self.projects.len() { Some(&self.projects[i]) } else { None },
            None => None,
        }
    }

    /// Handles a key: the movement keys go to the top or the bottom, or work out a row
    /// without selecting it, and are reported as not taken; other keys are reported as taken.
    pub fn event(&mut self, key: Key) -> (e: EventState)
        requires
            list_key_move(old(self).keys(), key) matches Some(ListMove::Down(n))
                ==> (old(self).selection() matches Some(i) ==> old(self).names().len() > 0 && i + n <= usize::MAX),
        ensures
            match list_key_move(old(self).keys(), key) {
                Some(ListMove::Bottom) => e == EventState::NotConsumed
                    && final(self).selection() == moved_to_bottom(old(self).selection(), old(self).names().len() as int),
                Some(ListMove::Top) => e == EventState::NotConsumed
                    && final(self).selection() == moved_to_top(old(self).selection(), old(self).names().len() as int),
                Some(_) => e == EventState::NotConsumed && final(self).selection() == old(self).selection(),
                None => e == EventState::Consumed && final(self).selection() == old(self).selection(),
            },
            final(self).names() == old(self).names(),
            final(self).keys() == old(self).keys(),
    {
        match list_key_move_of(&self.key_config, key) {
            Some(ListMove::Down(n)) => self.next_project(n),
            Some(ListMove::Up(n)) => self.previous_project(n),
            Some(ListMove::Bottom) => self.go_to_bottom(),
            Some(ListMove::Top) => self.go_to_top(),
            None => return EventState::Consumed,
        }
        EventState::NotConsumed
    }
}

} // verus!
