use vstd::prelude::*;
use crate::config::{Config, KeyConfig, default_key_config};
use crate::event::key::Key;
use crate::jira::Jira;
use crate::jira::projects::Project;
use crate::jira::tickets::{Comments, TicketData, TicketTransitions};
use crate::widgets::{Component, EventState, InputMode, list_key_move, can_make_move};
use crate::widgets::comments_add::comment_of;
use crate::widgets::labels::labels_key_allowed;
use crate::widgets::projects::project_bindings;
use crate::widgets::tickets::ticket_bindings;
use crate::widgets::comments::comment_bindings;
use crate::widgets::comments_add::{normal_bindings, edit_bindings};
use crate::widgets::parent::parent_bindings;
use crate::widgets::search_projects::search_move_allowed;
use crate::widgets::comments::CommentsList;
use crate::widgets::commands::{self, CMD_GROUP_GENERAL, CommandInfo, keys_in_brackets};
use crate::widgets::comments_add::CommentAdd;
use crate::widgets::components::ComponentsWidget;
use crate::widgets::description::DescriptionWidget;
use crate::widgets::labels::LabelsWidget;
use crate::widgets::parent::TicketParentWidget;
use crate::widgets::projects::{ProjectsWidget, chosen, position_of_key};
use crate::widgets::tickets::{ticket_position, removed_first};
use crate::widgets::search_projects::SearchProjectsWidget;
use crate::widgets::search_tickets::SearchTicketsWidget;
use crate::widgets::ticket_transition::TransitionWidget;
use crate::widgets::tickets::TicketWidget;

verus! {

/// The pane that receives the keys.
#[derive(Debug, Clone, Copy, PartialEq, Eq, Structural)]
pub enum Focus {
    CommentsList,
    CommentsAdd,
    Components,
    Description,
    Labels,
    Projects,
    SearchProjects,
    SearchTickets,
    Tickets,
    TicketRelation,
    TicketTransition,
}

/// What a navigation key leads to.
#[derive(Debug, Clone, Copy, PartialEq, Eq, Structural)]
pub enum Route {
    /// Another pane takes the keys.
    Go(Focus),
    /// The selected ticket's labels are shown and take the keys.
    ShowLabels,
    /// The selected ticket's components are shown and take the keys.
    ShowComponents,
    /// The selected ticket's comments are loaded and take the keys.
    ShowComments,
    /// The selected project's tickets are loaded and take the keys.
    ShowTickets,
    NextProjects,
    PreviousProjects,
    NextTickets,
    PreviousTickets,
    /// The selected ticket's transitions are loaded and take the keys.
    ShowTransitions,
    /// The project search opens, ready for typing.
    SearchProjects,
    /// The ticket search opens.
    SearchTickets,
    /// The project picked in the search is opened.
    ChooseProject,
    /// The ticket picked in the search is shown.
    ChooseTicket,
}

/// Work that only the caller can do (the Jira API, the local cache); the caller hands the
/// outcome back to `App::arrive`.
#[derive(Debug, Clone, PartialEq, Eq)]
pub enum Work {
    /// Load the first page of tickets of the project with this key; there is no key when
    /// no project is selected, which the caller cannot serve.
    LoadTickets(Option<String>),
    NextProjectPage,
    PreviousProjectPage,
    NextTicketPage(Option<String>),
    PreviousTicketPage(Option<String>),
    /// Load the comments of the ticket with this key.
    LoadComments(String),
    /// Load the transitions of the ticket with this key.
    LoadTransitions(String),
    /// Look the project with this key up in the cache, then in Jira.
    FindProject(String),
    /// Look the ticket with this key up in the cache, then in Jira.
    FindTicket(String),
    /// Add a comment with this body to the ticket with this key.
    PostComment(String, String),
    /// Move the ticket with this key along the transition with this identifier and name;
    /// there is no transition when none is selected, which the caller cannot serve.
    MoveTicket(String, Option<(String, Option<String>)>),
    /// Fetch the ticket with this key afresh.
    RefreshTicket(String),
    /// Empty the cache and load the first page of projects.
    ResetProjects,
    /// Empty the ticket cache and load the first page of the project with this key.
    ResetTickets(Option<String>),
}

/// What the caller brings back from a piece of `Work`.
#[derive(Debug)]
pub enum Fetched {
    /// A page of tickets, which replaces the list.
    Tickets(Vec<TicketData>),
    /// A page of projects, which replaces the list.
    Projects(Vec<Project>),
    /// A fresh first page of projects, after the cache was emptied.
    ProjectsAfresh(Vec<Project>),
    Comments(Comments),
    Transitions(TicketTransitions),
    /// The project that was looked up.
    FoundProject(Project),
    /// The project that was looked up exists neither in the cache nor in Jira.
    ProjectMissing,
    /// The ticket that was looked up, under its key, as fetched afresh.
    FoundTicket(String, TicketData),
    /// The ticket that was looked up exists neither in the cache nor in Jira.
    TicketMissing,
    /// The comment was added.
    CommentPosted,
    /// The ticket was moved.
    TicketMoved,
    /// The ticket with this key, as fetched afresh.
    Ticket(String, TicketData),
}

/// What became of a key or of a piece of work.
#[derive(Debug, Clone, PartialEq, Eq)]
pub enum Outcome {
    NotConsumed,
    Consumed,
    /// Consumed; the work is to be done, and its outcome handed back with this pane as the
    /// one to take the keys afterwards.
    Pending(Work, Focus),
}

/// The message shown when the project search finds nothing.
pub open spec fn project_missing_message() -> Seq<char> {
    "Unable to locate project in cache and in JIRA \n You may not have access to view project"@
}

/// The message shown when the ticket search finds nothing.
pub open spec fn ticket_missing_message() -> Seq<char> {
    "Unable to locate ticket in cache and in JIRA \n You may not have access to view ticket"@
}

/// Where a navigation key leads from a pane, the first matching binding winning.
pub open spec fn focus_route(focus: Focus, key: Key, k: KeyConfig) -> Option<Route> {
    match focus {
        Focus::CommentsList => if key == k.esc {
            Some(Route::Go(Focus::Tickets))
        } else if key == k.ticket_add_comments {
            Some(Route::Go(Focus::CommentsAdd))
        } else {
            None
        },
        Focus::CommentsAdd => if key == k.esc { Some(Route::Go(Focus::CommentsList)) } else { None },
        Focus::Components => if key == k.esc {
            Some(Route::Go(Focus::Projects))
        } else if key == k.previous || key == k.move_up {
            Some(Route::Go(Focus::Labels))
        } else if key == k.next || key == k.move_down {
            Some(Route::Go(Focus::TicketRelation))
        } else if key == k.move_right {
            Some(Route::Go(Focus::Description))
        } else if key == k.ticket_view_comments {
            Some(Route::ShowComments)
        } else {
            None
        },
        Focus::Description => if key == k.esc {
            Some(Route::Go(Focus::Projects))
        } else if key == k.move_left {
            Some(Route::Go(Focus::Tickets))
        } else if key == k.previous {
            Some(Route::Go(Focus::TicketRelation))
        } else if key == k.next {
            Some(Route::Go(Focus::Tickets))
        } else if key == k.ticket_view_comments {
            Some(Route::ShowComments)
        } else {
            None
        },
        Focus::Labels => if key == k.previous || key == k.move_up {
            Some(Route::Go(Focus::Tickets))
        } else if key == k.next || key == k.move_down {
            Some(Route::ShowComponents)
        } else if key == k.move_right {
            Some(Route::Go(Focus::Description))
        } else if key == k.ticket_view_comments {
            Some(Route::ShowComments)
        } else {
            None
        },
        Focus::Projects => if key == k.enter {
            Some(Route::ShowTickets)
        } else if key == k.filter {
            Some(Route::SearchProjects)
        } else if key == k.next_page {
            Some(Route::NextProjects)
        } else if key == k.previous_page {
            Some(Route::PreviousProjects)
        } else {
            None
        },
        Focus::SearchProjects => if key == k.enter {
            Some(Route::ChooseProject)
        } else if key == k.esc {
            Some(Route::Go(Focus::Projects))
        } else {
            None
        },
        Focus::SearchTickets => if key == k.enter {
            Some(Route::ChooseTicket)
        } else if key == k.esc {
            Some(Route::Go(Focus::Tickets))
        } else {
            None
        },
        Focus::TicketRelation => if key == k.esc {
            Some(Route::Go(Focus::Projects))
        } else if key == k.previous || key == k.move_up {
            Some(Route::Go(Focus::Components))
        } else if key == k.next || key == k.move_right {
            Some(Route::Go(Focus::Description))
        } else if key == k.ticket_view_comments {
            Some(Route::ShowComments)
        } else {
            None
        },
        Focus::Tickets => if key == k.esc {
            Some(Route::Go(Focus::Projects))
        } else if key == k.next || key == k.move_down {
            Some(Route::ShowLabels)
        } else if key == k.previous || key == k.move_right {
            Some(Route::Go(Focus::Description))
        } else if key == k.ticket_view_comments {
            Some(Route::ShowComments)
        } else if key == k.next_page {
            Some(Route::NextTickets)
        } else if key == k.previous_page {
            Some(Route::PreviousTickets)
        } else if key == k.ticket_transition {
            Some(Route::ShowTransitions)
        } else if key == k.filter {
            Some(Route::SearchTickets)
        } else {
            None
        },
        Focus::TicketTransition => if key == k.esc { Some(Route::Go(Focus::Tickets)) } else { None },
    }
}

/// The key of a project, if there is one.
pub open spec fn project_key(p: Option<Project>) -> Option<String> {
    match p {
        Some(p) => Some(p.key),
        None => None,
    }
}

/// The labels of a ticket; none without a ticket.
pub open spec fn labels_of(t: Option<TicketData>) -> Seq<String> {
    match t {
        Some(t) => t.fields.labels@,
        None => Seq::empty(),
    }
}

/// The component names of a ticket; none without a ticket.
pub open spec fn component_names_of(t: Option<TicketData>) -> Seq<Seq<char>> {
    match t {
        Some(t) => t.fields.components@.map_values(|c: crate::jira::tickets::Components| c.name@),
        None => Seq::empty(),
    }
}

/// The outcome of a key that a pane took or left.
pub open spec fn verdict(e: EventState) -> Outcome {
    if e == EventState::Consumed { Outcome::Consumed } else { Outcome::NotConsumed }
}

/// Whether `work` asks to move the ticket with this key along the given transition: its
/// identifier and name, or nothing when no transition is selected.
pub open spec fn moves_ticket(work: Work, ticket: String, transition: Option<crate::jira::tickets::TicketTransition>) -> bool {
    work matches Work::MoveTicket(k, tr) && k == ticket && match transition {
        Some(t) => tr == Some((t.id, t.name)),
        None => tr is None,
    }
}

/// Whether a pane took the key, read from the outcome it led to.
pub open spec fn taken(r: Outcome) -> EventState {
    if r == Outcome::NotConsumed { EventState::NotConsumed } else { EventState::Consumed }
}

/// The outcome once the comment pane took a key: the recorded lines are to be sent to the
/// selected ticket when the user asked for it and there is at least one.
pub open spec fn comment_outcome(ticket: Option<TicketData>, c: CommentAdd, r: Outcome) -> bool {
    match ticket {
        Some(t) => if c.messages@.len() > 0 && c.push_comment {
            r matches Outcome::Pending(Work::PostComment(k, body), f) && k == t.key
                && body@ == comment_of(c.messages@) && f == Focus::CommentsAdd
        } else {
            r == Outcome::Consumed
        },
        None => r == Outcome::Consumed,
    }
}

/// The whole screen: the panes, the Jira session, and which pane takes the keys.
pub struct App {
    pub comments_list: CommentsList,
    pub comment_add: CommentAdd,
    pub components: ComponentsWidget,
    pub description: DescriptionWidget,
    pub focus: Focus,
    pub jira: Jira,
    pub labels: LabelsWidget,
    pub parent: TicketParentWidget,
    pub projects: ProjectsWidget,
    pub search_projects: SearchProjectsWidget,
    pub search_tickets: SearchTicketsWidget,
    pub tickets: TicketWidget,
    pub ticket_transition: TransitionWidget,
    pub config: Config,
    /// The error message on screen, if any.
    pub error: Option<String>,
}

impl App {
    /// The selected project, if any.
    pub open spec fn selected_project(&self) -> Option<Project> {
        match self.projects.state {
            Some(i) => if i < self.projects.projects@.len() {
                Some(self.projects.projects@[i as int])
            } else {
                None
            },
            None => None,
        }
    }

    /// The screen as it is, with another pane taking the keys.
    pub open spec fn with_focus(self, focus: Focus) -> App {
        App { focus, ..self }
    }

    /// What a navigation key does: the screen `after` and the outcome `r`. Work is left
    /// pending with the screen unchanged; the pane to move to comes back with its outcome.
    pub open spec fn focus_step(self, key: Key, r: Outcome, after: App) -> bool {
        match focus_route(self.focus, key, self.config.key_config) {
            None => r == Outcome::NotConsumed && after == self,
            Some(Route::Go(f)) => r == Outcome::Consumed && after == self.with_focus(f),
            Some(Route::ShowLabels) => {
                &&& r == Outcome::Consumed
                &&& after == App { focus: Focus::Labels, labels: after.labels, ..self }
                &&& after.labels.items() == labels_of(self.tickets.selected_ticket())
                &&& after.labels.selection() == self.labels.selection()
                &&& after.labels.keys() == self.labels.keys()
            },
            Some(Route::ShowComponents) => {
                &&& r == Outcome::Consumed
                &&& after == App { focus: Focus::Components, components: after.components, ..self }
                &&& after.components.items().map_values(|c: String| c@)
                    == component_names_of(self.tickets.selected_ticket())
                &&& after.components.selection() == self.components.selection()
                &&& after.components.keys() == self.components.keys()
            },
            Some(Route::ShowComments) => match self.tickets.selected_ticket() {
                Some(t) => r == Outcome::Pending(Work::LoadComments(t.key), Focus::CommentsList)
                    && after == self,
                None => r == Outcome::Consumed && after == self.with_focus(Focus::CommentsList),
            },
            Some(Route::ShowTickets) => after == self
                && r == Outcome::Pending(Work::LoadTickets(project_key(self.selected_project())), Focus::Tickets),
            Some(Route::NextProjects) => after == self
                && r == Outcome::Pending(Work::NextProjectPage, Focus::Projects),
            Some(Route::PreviousProjects) => after == self
                && r == Outcome::Pending(Work::PreviousProjectPage, Focus::Projects),
            Some(Route::NextTickets) => after == self
                && r == Outcome::Pending(Work::NextTicketPage(project_key(self.selected_project())), Focus::Tickets),
            Some(Route::PreviousTickets) => after == self
                && r == Outcome::Pending(Work::PreviousTicketPage(project_key(self.selected_project())), Focus::Tickets),
            Some(Route::ShowTransitions) => match self.tickets.selected_ticket() {
                Some(t) => r == Outcome::Pending(Work::LoadTransitions(t.key), Focus::TicketTransition)
                    && after == self,
                None => r == Outcome::Consumed && after == self.with_focus(Focus::TicketTransition),
            },
            Some(Route::SearchProjects) => r == Outcome::Consumed && after == App {
                focus: Focus::SearchProjects,
                search_projects: SearchProjectsWidget { input_mode: InputMode::Editing, ..self.search_projects },
                ..self
            },
            Some(Route::SearchTickets) => {
                &&& r == Outcome::Consumed
                &&& after == (App { focus: Focus::SearchTickets, search_tickets: after.search_tickets, ..self })
                &&& after.search_tickets == (SearchTicketsWidget {
                    input_mode: InputMode::Editing,
                    tickets: after.search_tickets.tickets,
                    ..self.search_tickets
                })
                &&& after.search_tickets.tickets@.len() == self.tickets.tickets@.len()
                &&& forall|i: int| 0 <= i < self.tickets.tickets@.len()
                    ==> #[trigger] after.search_tickets.tickets@[i] == self.tickets.tickets@[i].key
            },
            Some(Route::ChooseTicket) => match self.search_tickets.selected_key() {
                Some(k) => r == Outcome::Consumed && after == (App {
                    focus: Focus::Description,
                    tickets: (TicketWidget {
                        state: chosen(self.tickets.state, ticket_position(self.tickets.tickets@, k@)),
                        ..self.tickets
                    }),
                    ..self
                }),
                None => after == self
                    && r == Outcome::Pending(Work::FindTicket(self.search_tickets.input), Focus::Description),
            },
            Some(Route::ChooseProject) => match self.search_projects.selected_key() {
                Some(k) => {
                    &&& after == App {
                        projects: ProjectsWidget {
                            state: chosen(self.projects.state, position_of_key(self.projects.projects@, k@)),
                            ..self.projects
                        },
                        ..self
                    }
                    &&& r == Outcome::Pending(Work::LoadTickets(project_key(after.selected_project())), Focus::Tickets)
                },
                None => after == self
                    && r == Outcome::Pending(Work::FindProject(self.search_projects.input), Focus::Tickets),
            },
        }
    }

    /// A screen over the given projects, whose first project is selected, with the project
    /// list taking the keys.
    pub fn new(config: Config, jira: Jira, projects: &Vec<Project>) -> (app: App)
        ensures
            app.focus == Focus::Projects,
            app.config == config,
            app.jira == jira,
            app.projects.projects@ == projects@,
            app.projects.state == (if projects@.len() > 0 { Some(0usize) } else { None }),
            app.search_projects.projects@.len() == projects@.len(),
            forall|i: int| 0 <= i < projects@.len() ==> #[trigger] app.search_projects.projects@[i] == projects@[i].key,
            app.search_projects.search_projects@.len() == 0,
            app.tickets.tickets@.len() == 0,
            app.tickets.jira_domain == config.jira_config.domain,
            app.labels.items().len() == 0,
            app.components.items().len() == 0,
            app.comments_list.comments is None,
            app.comment_add.messages@.len() == 0,
            !app.comment_add.push_comment,
            app.ticket_transition.transitions@.len() == 0,
            !app.ticket_transition.push_transition,
            app.error is None,
            app.search_tickets.tickets@.len() == 0,
            app.search_tickets.search_tickets@.len() == 0,
            app.search_tickets.input_mode == InputMode::Normal,
            ({
                let k = config.key_config;
                &&& app.projects.key_mappings@ == project_bindings(k)
                &&& app.search_projects.state is None
                &&& app.search_projects.input@.len() == 0
                &&& app.search_projects.input_mode == InputMode::Normal
                &&& app.tickets.state == Some(0usize)
                &&& app.tickets.key_mappings@ == ticket_bindings(k)
                &&& app.labels.keys() == k && app.labels.selection() == Some(0usize)
                &&& app.components.keys() == k && app.components.selection() == Some(0usize)
                &&& app.description.keys() == k && app.description.scroll_offset() == 0
                &&& app.comments_list.state == Some(0usize)
                &&& app.comments_list.key_mappings@ == comment_bindings(k)
                &&& app.comment_add.input_mode == InputMode::Normal
                &&& app.comment_add.normal_key_mappings@ == normal_bindings(k)
                &&& app.comment_add.edit_key_mappings@ == edit_bindings(k)
                &&& app.parent.jira_domain@ == config.jira_config.domain@ && app.parent.state is None
                &&& app.parent.key_mappings@ == parent_bindings(k)
                &&& app.ticket_transition.key_config == k && app.ticket_transition.state is None
            }),
    {
        let key_config = config.key_config;
        let domain = config.jira_config.domain.clone();
        App {
            comments_list: CommentsList::new(key_config),
            comment_add: CommentAdd::new(key_config),
            components: ComponentsWidget::new(key_config),
            description: DescriptionWidget::new(key_config),
            focus: Focus::Projects,
            jira,
            labels: LabelsWidget::new(key_config),
            parent: TicketParentWidget::new(key_config, domain.as_str()),
            projects: ProjectsWidget::new(projects, key_config),
            search_projects: SearchProjectsWidget::new(projects),
            search_tickets: SearchTicketsWidget::new(),
            tickets: TicketWidget::new(key_config, domain),
            ticket_transition: TransitionWidget::new(Vec::new(), key_config),
            config,
            error: None,
        }
    }

    /// The key of the selected project, if any.
    fn selected_project_key(&self) -> (k: Option<String>)
        ensures
            k == project_key(self.selected_project()),
    {
        match self.projects.selected() {
            Some(p) => Some(p.key.clone()),
            None => None,
        }
    }

    /// Shows the labels of the selected ticket; none without a ticket.
    pub fn update_labels(&mut self)
        ensures
            *final(self) == (App { labels: final(self).labels, ..*old(self) }),
            final(self).labels.items() == labels_of(old(self).tickets.selected_ticket()),
            final(self).labels.selection() == old(self).labels.selection(),
            final(self).labels.keys() == old(self).labels.keys(),
    {
        match self.tickets.selected() {
            None => {
                let empty: Vec<String> = Vec::new();
                self.labels.update(&empty);
            },
            Some(t) => {
                let labels = t.fields.labels.clone();
                proof {
                    assert(labels@ =~= t.fields.labels@);
                }
                self.labels.update(&labels);
            },
        }
    }

    /// Shows the components of the selected ticket; none without a ticket.
    pub fn update_components(&mut self)
        ensures
            *final(self) == (App { components: final(self).components, ..*old(self) }),
            final(self).components.items().map_values(|c: String| c@)
                == component_names_of(old(self).tickets.selected_ticket()),
            final(self).components.selection() == old(self).components.selection(),
            final(self).components.keys() == old(self).components.keys(),
    {
        match self.tickets.selected() {
            None => {
                let empty: Vec<crate::jira::tickets::Components> = Vec::new();
                self.components.update(&empty);
                proof {
                    assert(self.components.items().map_values(|c: String| c@) =~= Seq::<Seq<char>>::empty());
                }
            },
            Some(t) => {
                let components = &t.fields.components;
                self.components.update(components);
                proof {
                    assert(self.components.items().map_values(|c: String| c@)
                        =~= component_names_of(old(self).tickets.selected_ticket()));
                }
            },
        }
    }

    /// Moves the keys to another pane as the navigation keys say, or leaves work for the
    /// caller that must come first.
    pub fn move_focus(&mut self, key: Key) -> (r: Outcome)
        ensures
            old(self).focus_step(key, r, *final(self)),
    {
        let k = self.config.key_config;
        match self.focus {
            Focus::CommentsList => {
                if key == k.esc {
                    self.focus = Focus::Tickets;
                    return Outcome::Consumed;
                }
                if key == k.ticket_add_comments {
                    self.focus = Focus::CommentsAdd;
                    return Outcome::Consumed;
                }
            },
            Focus::CommentsAdd => {
                if key == k.esc {
                    self.focus = Focus::CommentsList;
                    return Outcome::Consumed;
                }
            },
            Focus::Components => {
                if key == k.esc {
                    self.focus = Focus::Projects;
                    return Outcome::Consumed;
                }
                if key == k.previous || key == k.move_up {
                    self.focus = Focus::Labels;
                    return Outcome::Consumed;
                }
                if key == k.next || key == k.move_down {
                    self.focus = Focus::TicketRelation;
                    return Outcome::Consumed;
                }
                if key == k.move_right {
                    self.focus = Focus::Description;
                    return Outcome::Consumed;
                }
                if key == k.ticket_view_comments {
                    return self.show_comments();
                }
            },
            Focus::Description => {
                if key == k.esc {
                    self.focus = Focus::Projects;
                    return Outcome::Consumed;
                }
                if key == k.move_left {
                    self.focus = Focus::Tickets;
                    return Outcome::Consumed;
                }
                if key == k.previous {
                    self.focus = Focus::TicketRelation;
                    return Outcome::Consumed;
                }
                if key == k.next {
                    self.focus = Focus::Tickets;
                    return Outcome::Consumed;
                }
                if key == k.ticket_view_comments {
                    return self.show_comments();
                }
            },
            Focus::Labels => {
                if key == k.previous || key == k.move_up {
                    self.focus = Focus::Tickets;
                    return Outcome::Consumed;
                }
                if key == k.next || key == k.move_down {
                    self.update_components();
                    self.focus = Focus::Components;
                    return Outcome::Consumed;
                }
                if key == k.move_right {
                    self.focus = Focus::Description;
                    return Outcome::Consumed;
                }
                if key == k.ticket_view_comments {
                    return self.show_comments();
                }
            },
            Focus::Projects => {
                if key == k.enter {
                    return Outcome::Pending(Work::LoadTickets(self.selected_project_key()), Focus::Tickets);
                }
                if key == k.filter {
                    self.focus = Focus::SearchProjects;
                    self.search_projects.input_mode = InputMode::Editing;
                    return Outcome::Consumed;
                }
                if key == k.next_page {
                    return Outcome::Pending(Work::NextProjectPage, Focus::Projects);
                }
                if key == k.previous_page {
                    return Outcome::Pending(Work::PreviousProjectPage, Focus::Projects);
                }
            },
            Focus::SearchProjects => {
                if key == k.enter {
                    return self.choose_project();
                }
                if key == k.esc {
                    self.focus = Focus::Projects;
                    return Outcome::Consumed;
                }
            },
            Focus::SearchTickets => {
                if key == k.enter {
                    return self.choose_ticket();
                }
                if key == k.esc {
                    self.focus = Focus::Tickets;
                    return Outcome::Consumed;
                }
            },
            Focus::TicketRelation => {
                if key == k.esc {
                    self.focus = Focus::Projects;
                    return Outcome::Consumed;
                }
                if key == k.previous || key == k.move_up {
                    self.focus = Focus::Components;
                    return Outcome::Consumed;
                }
                if key == k.next || key == k.move_right {
                    self.focus = Focus::Description;
                    return Outcome::Consumed;
                }
                if key == k.ticket_view_comments {
                    return self.show_comments();
                }
            },
            Focus::Tickets => {
                if key == k.esc {
                    self.focus = Focus::Projects;
                    return Outcome::Consumed;
                }
                if key == k.next || key == k.move_down {
                    self.update_labels();
                    self.focus = Focus::Labels;
                    return Outcome::Consumed;
                }
                if key == k.previous || key == k.move_right {
                    self.focus = Focus::Description;
                    return Outcome::Consumed;
                }
                if key == k.ticket_view_comments {
                    return self.show_comments();
                }
                if key == k.next_page {
                    return Outcome::Pending(Work::NextTicketPage(self.selected_project_key()), Focus::Tickets);
                }
                if key == k.previous_page {
                    return Outcome::Pending(Work::PreviousTicketPage(self.selected_project_key()), Focus::Tickets);
                }
                if key == k.ticket_transition {
                    return self.show_transitions();
                }
                if key == k.filter {
                    self.focus = Focus::SearchTickets;
                    self.search_tickets.input_mode = InputMode::Editing;
                    self.search_tickets.update(&self.tickets.tickets);
                    return Outcome::Consumed;
                }
            },
            Focus::TicketTransition => {
                if key == k.esc {
                    self.focus = Focus::Tickets;
                    return Outcome::Consumed;
                }
            },
        }
        Outcome::NotConsumed
    }

    /// The comments of the selected ticket are to be loaded; without a ticket the comment
    /// list takes the keys at once.
    fn show_comments(&mut self) -> (r: Outcome)
        ensures
            match old(self).tickets.selected_ticket() {
                Some(t) => r == Outcome::Pending(Work::LoadComments(t.key), Focus::CommentsList)
                    && *final(self) == *old(self),
                None => r == Outcome::Consumed && *final(self) == old(self).with_focus(Focus::CommentsList),
            },
    {
        match self.tickets.selected() {
            Some(t) => Outcome::Pending(Work::LoadComments(t.key.clone()), Focus::CommentsList),
            None => {
                self.focus = Focus::CommentsList;
                Outcome::Consumed
            },
        }
    }

    /// The transitions of the selected ticket are to be loaded; without a ticket the
    /// transition list takes the keys at once.
    fn show_transitions(&mut self) -> (r: Outcome)
        ensures
            match old(self).tickets.selected_ticket() {
                Some(t) => r == Outcome::Pending(Work::LoadTransitions(t.key), Focus::TicketTransition)
                    && *final(self) == *old(self),
                None => r == Outcome::Consumed && *final(self) == old(self).with_focus(Focus::TicketTransition),
            },
    {
        match self.tickets.selected() {
            Some(t) => Outcome::Pending(Work::LoadTransitions(t.key.clone()), Focus::TicketTransition),
            None => {
                self.focus = Focus::TicketTransition;
                Outcome::Consumed
            },
        }
    }

    /// Opens the project picked in the search: it is selected in the project list and its
    /// tickets are to be loaded; with nothing picked, the typed key is to be looked up.
    fn choose_project(&mut self) -> (r: Outcome)
        ensures
            match old(self).search_projects.selected_key() {
                Some(k) => {
                    &&& *final(self) == (App {
                        projects: (ProjectsWidget {
                            state: chosen(old(self).projects.state, position_of_key(old(self).projects.projects@, k@)),
                            ..old(self).projects
                        }),
                        ..*old(self)
                    })
                    &&& r == Outcome::Pending(Work::LoadTickets(project_key(final(self).selected_project())), Focus::Tickets)
                },
                None => *final(self) == *old(self)
                    && r == Outcome::Pending(Work::FindProject(old(self).search_projects.input), Focus::Tickets),
            },
    {
        match self.search_projects.selected() {
            Some(project) => {
                let key = project.clone();
                self.projects.select_project(key.as_str());
                Outcome::Pending(Work::LoadTickets(self.selected_project_key()), Focus::Tickets)
            },
            None => Outcome::Pending(Work::FindProject(self.search_projects.input.clone()), Focus::Tickets),
        }
    }

    /// Shows the ticket picked in the search: it is selected in the ticket list and its
    /// description takes the keys; with nothing picked, the typed key is to be looked up.
    fn choose_ticket(&mut self) -> (r: Outcome)
        ensures
            match old(self).search_tickets.selected_key() {
                Some(k) => r == Outcome::Consumed && *final(self) == (App {
                    focus: Focus::Description,
                    tickets: (TicketWidget {
                        state: chosen(old(self).tickets.state, ticket_position(old(self).tickets.tickets@, k@)),
                        ..old(self).tickets
                    }),
                    ..*old(self)
                }),
                None => *final(self) == *old(self)
                    && r == Outcome::Pending(Work::FindTicket(old(self).search_tickets.input), Focus::Description),
            },
    {
        match self.search_tickets.selected() {
            Some(ticket) => {
                let key = ticket.clone();
                self.tickets.select_ticket(key.as_str());
                self.focus = Focus::Description;
                Outcome::Consumed
            },
            None => Outcome::Pending(Work::FindTicket(self.search_tickets.input.clone()), Focus::Description),
        }
    }

    /// The commands that the help lists while the comments take the keys.
    pub fn comments_list_commands(&self) -> (res: Vec<CommandInfo>)
        ensures
            res@.len() == 6,
            forall|i: int| 0 <= i < 6 ==> #[trigger] res@[i].text.group == CMD_GROUP_GENERAL
                && !res@[i].text.hide_help,
            ({
                let k = self.config.key_config;
                &&& res@[0].text.name@ == keys_in_brackets("Go back "@, seq![k.esc])
                &&& res@[1].text.name@ == keys_in_brackets("Help "@, seq![k.open_help])
                &&& res@[2].text.name@ == keys_in_brackets(
                    "Scroll up/down/left/right "@,
                    seq![k.scroll_up, k.scroll_down, k.scroll_left, k.scroll_right],
                )
                &&& res@[3].text.name@ == keys_in_brackets("Scroll to top/bottom "@, seq![k.scroll_to_top, k.scroll_to_bottom])
                &&& res@[4].text.name@ == keys_in_brackets(
                    "Scroll up/down multiple lines "@,
                    seq![k.scroll_up_multiple_lines, k.scroll_down_multiple_lines],
                )
                &&& res@[5].text.name@ == keys_in_brackets("Add comments to ticket "@, seq![k.ticket_add_comments])
            }),
    {
        let k = &self.config.key_config;
        let mut res = vec![
            CommandInfo::new(commands::go_back(k)),
            CommandInfo::new(commands::help(k)),
            CommandInfo::new(commands::scroll(k)),
            CommandInfo::new(commands::scroll_to_top_bottom(k)),
            CommandInfo::new(commands::scroll_up_down_multiple_lines(k)),
            CommandInfo::new(commands::ticket_add_comments(k)),
        ];
        self.comments_list.commands(&mut res);
        res
    }

    /// Whether the pane that takes the keys can handle `key` as it stands; while an error
    /// is on screen, every key is.
    pub open spec fn widget_allowed(&self, key: Key) -> bool {
        self.error is None ==> match self.focus {
            Focus::CommentsList => self.comments_list.event_allowed(key),
            Focus::Components => list_key_move(self.components.keys(), key) matches Some(m)
                ==> can_make_move(self.components.selection(), m, self.components.items().len() as int),
            Focus::Labels => labels_key_allowed(
                self.labels.keys(),
                key,
                self.labels.selection(),
                self.labels.items().len() as int,
            ),
            Focus::Projects => key != self.config.key_config.reset ==> self.projects.event_allowed(key),
            Focus::SearchProjects => self.search_projects.input_mode == InputMode::Editing
                ==> search_move_allowed(self.search_projects.state, key, self.search_projects.len()),
            Focus::SearchTickets => self.search_tickets.input_mode == InputMode::Editing
                ==> search_move_allowed(self.search_tickets.state, key, self.search_tickets.len()),
            Focus::Tickets => key != self.config.key_config.reset ==> self.tickets.event_allowed(key),
            Focus::TicketTransition => self.ticket_transition.event_allowed(key),
            _ => true,
        }
    }

    /// Tells whether the pane that takes the keys can handle `key` as it stands.
    pub fn key_allowed(&self, key: Key) -> (b: bool)
        ensures
            b == self.widget_allowed(key),
    {
        if self.error.is_some() {
            return true;
        }
        let reset = self.config.key_config.reset;
        match self.focus {
            Focus::CommentsList => self.comments_list.accepts(key),
            Focus::Components => self.components.accepts(key),
            Focus::Labels => self.labels.accepts(key),
            Focus::Projects => key == reset || self.projects.accepts(key),
            Focus::SearchProjects => self.search_projects.accepts(key),
            Focus::SearchTickets => self.search_tickets.accepts(key),
            Focus::Tickets => key == reset || self.tickets.accepts(key),
            Focus::TicketTransition => self.ticket_transition.accepts(key),
            _ => true,
        }
    }

    /// What the pane that takes the keys does with `key`: the screen `after` and the
    /// outcome `r`. While an error is on screen the key only dismisses it. Otherwise only
    /// that pane changes, but for the reset key, which empties the lists before they are
    /// loaded afresh, and for a transition, which may move the keys to the ticket list.
    pub open spec fn widget_step(self, key: Key, r: Outcome, after: App) -> bool {
        let plain = r == Outcome::Consumed || r == Outcome::NotConsumed;
        if self.error is Some {
            r == Outcome::Consumed && after == (App { error: None, ..self })
        } else {
            match self.focus {
                Focus::CommentsList => plain && after == (App { comments_list: after.comments_list, ..self })
                    && self.comments_list.key_step(key, taken(r), after.comments_list),
                Focus::CommentsAdd => {
                    &&& after == (App { comment_add: after.comment_add, ..self })
                    &&& self.comment_add.key_step(key, taken(r), after.comment_add)
                    &&& taken(r) == EventState::Consumed ==> comment_outcome(self.tickets.selected_ticket(), after.comment_add, r)
                },
                Focus::Components => plain && after == (App { components: after.components, ..self })
                    && self.components.key_step(key, taken(r), after.components),
                Focus::Description => plain && after == (App { description: after.description, ..self })
                    && self.description.key_step(key, taken(r), after.description),
                Focus::Labels => plain && after == (App { labels: after.labels, ..self })
                    && self.labels.key_step(key, taken(r), after.labels),
                Focus::Projects => if key == self.config.key_config.reset {
                    &&& r == Outcome::Pending(Work::ResetProjects, Focus::Projects)
                    &&& after == (App { projects: after.projects, tickets: after.tickets, ..self })
                    &&& after.projects == (ProjectsWidget { projects: after.projects.projects, ..self.projects })
                    &&& after.tickets == (TicketWidget { tickets: after.tickets.tickets, ..self.tickets })
                    &&& after.projects.projects@.len() == 0
                    &&& after.tickets.tickets@.len() == 0
                } else {
                    plain && after == (App { projects: after.projects, ..self })
                        && self.projects.key_step(key, taken(r), after.projects)
                },
                Focus::SearchProjects => plain && after == (App { search_projects: after.search_projects, ..self })
                    && self.search_projects.key_step(key, taken(r), after.search_projects),
                Focus::Tickets => if key == self.config.key_config.reset {
                    &&& r == Outcome::Pending(Work::ResetTickets(project_key(self.selected_project())), Focus::Tickets)
                    &&& after == (App { tickets: after.tickets, ..self })
                    &&& after.tickets == (TicketWidget { tickets: after.tickets.tickets, ..self.tickets })
                    &&& after.tickets.tickets@.len() == 0
                } else {
                    plain && after == (App { tickets: after.tickets, ..self })
                        && self.tickets.key_step(key, taken(r), after.tickets)
                },
                Focus::TicketTransition => {
                    &&& self.ticket_transition.key_step(key, taken(r), after.ticket_transition)
                    &&& if taken(r) == EventState::Consumed && after.ticket_transition.push_transition {
                        match self.tickets.selected_ticket() {
                            Some(t) => after == (App { ticket_transition: after.ticket_transition, ..self })
                                && (r matches Outcome::Pending(w, f) && f == Focus::Tickets
                                && moves_ticket(w, t.key, after.ticket_transition.selected_one())),
                            None => r == Outcome::Consumed
                                && after == (App { ticket_transition: after.ticket_transition, focus: Focus::Tickets, ..self }),
                        }
                    } else {
                        plain && after == (App { ticket_transition: after.ticket_transition, ..self })
                    }
                },
                Focus::SearchTickets => plain && after == (App { search_tickets: after.search_tickets, ..self })
                    && self.search_tickets.key_step(key, taken(r), after.search_tickets),
                Focus::TicketRelation => r == Outcome::NotConsumed && after == self,
            }
        }
    }

    /// What a key does: the pane that takes the keys has it first, and the navigation
    /// keys act on what that pane left.
    pub open spec fn event_step(self, key: Key, r: Outcome, after: App) -> bool {
        exists|mid: App, first: Outcome| #[trigger] self.widget_step(key, first, mid) && if first == Outcome::NotConsumed {
            mid.focus_step(key, r, after)
        } else {
            r == first && after == mid
        }
    }

    /// Hands a key to the pane that takes the keys.
    pub fn widget_event(&mut self, key: Key) -> (r: Outcome)
        requires
            old(self).widget_allowed(key),
        ensures
            old(self).widget_step(key, r, *final(self)),
    {
        if self.error.is_some() {
            self.error = None;
            return Outcome::Consumed;
        }
        let reset = self.config.key_config.reset;
        match self.focus {
            Focus::CommentsList => outcome_of(self.comments_list.event(key)),
            Focus::CommentsAdd => {
                if self.comment_add.event(key).is_consumed() {
                    self.comment_to_send()
                } else {
                    Outcome::NotConsumed
                }
            },
            Focus::Components => outcome_of(self.components.event(key)),
            Focus::Description => outcome_of(self.description.event(key)),
            Focus::Labels => outcome_of(self.labels.event(key)),
            Focus::Projects => {
                if key == reset {
                    self.projects.projects.clear();
                    self.tickets.tickets.clear();
                    return Outcome::Pending(Work::ResetProjects, Focus::Projects);
                }
                outcome_of(self.projects.event(key))
            },
            Focus::SearchProjects => outcome_of(self.search_projects.event(key)),
            Focus::Tickets => {
                if key == reset {
                    self.tickets.tickets.clear();
                    return Outcome::Pending(Work::ResetTickets(self.selected_project_key()), Focus::Tickets);
                }
                outcome_of(self.tickets.event(key))
            },
            Focus::TicketTransition => {
                if !self.ticket_transition.event(key).is_consumed() {
                    return Outcome::NotConsumed;
                }
                if self.ticket_transition.push_transition {
                    match self.tickets.selected() {
                        Some(t) => {
                            let transition = match self.ticket_transition.selected_transition() {
                                Some(tr) => {
                                    let name = match &tr.name {
                                        Some(n) => Some(n.clone()),
                                        None => None,
                                    };
                                    Some((tr.id.clone(), name))
                                },
                                None => None,
                            };
                            return Outcome::Pending(Work::MoveTicket(t.key.clone(), transition), Focus::Tickets);
                        },
                        None => {
                            self.focus = Focus::Tickets;
                        },
                    }
                }
                Outcome::Consumed
            },
            Focus::SearchTickets => outcome_of(self.search_tickets.event(key)),
            Focus::TicketRelation => Outcome::NotConsumed,
        }
    }

    /// The comment to add to the selected ticket, once the comment pane took a key.
    fn comment_to_send(&self) -> (r: Outcome)
        ensures
            comment_outcome(self.tickets.selected_ticket(), self.comment_add, r),
    {
        match self.tickets.selected() {
            Some(t) => match self.comment_add.pending_comment() {
                Some(body) => Outcome::Pending(Work::PostComment(t.key.clone(), body), Focus::CommentsAdd),
                None => Outcome::Consumed,
            },
            None => Outcome::Consumed,
        }
    }

    /// Handles a key: the pane that takes the keys has it first; a key it leaves may move
    /// the keys to another pane.
    pub fn event(&mut self, key: Key) -> (r: Outcome)
        requires
            old(self).widget_allowed(key),
        ensures
            old(self).event_step(key, r, *final(self)),
    {
        let ghost start = *self;
        let first = self.widget_event(key);
        let ghost mid = *self;
        match first {
            Outcome::NotConsumed => {
                let r = self.move_focus(key);
                assert(start.widget_step(key, first, mid));
                r
            },
            _ => {
                assert(start.widget_step(key, first, mid));
                first
            },
        }
    }

    /// Takes back the outcome of a piece of work; `then` is the pane that takes the keys
    /// once it is done.
    pub fn arrive(&mut self, fetched: Fetched, then: Focus) -> (r: Outcome)
        ensures
            match fetched {
                Fetched::Tickets(v) => r == Outcome::Consumed
                    && *final(self) == (App { tickets: final(self).tickets, focus: then, ..*old(self) })
                    && final(self).tickets == (TicketWidget { tickets: final(self).tickets.tickets, ..old(self).tickets })
                    && final(self).tickets.tickets@ == v@,
                Fetched::Projects(v) => r == Outcome::Consumed
                    && *final(self) == (App { projects: final(self).projects, focus: then, ..*old(self) })
                    && final(self).projects == (ProjectsWidget { projects: final(self).projects.projects, ..old(self).projects })
                    && final(self).projects.projects@ == v@,
                Fetched::ProjectsAfresh(v) => r == Outcome::Consumed
                    && *final(self) == (App { projects: final(self).projects, focus: then, ..*old(self) })
                    && final(self).projects.projects@ == v@
                    && final(self).projects.state == (if v@.len() > 0 { Some(0usize) } else { None })
                    && final(self).projects.key_mappings@ == project_bindings(old(self).config.key_config),
                Fetched::Comments(c) => r == Outcome::Consumed
                    && *final(self) == (App { comments_list: final(self).comments_list, focus: then, ..*old(self) })
                    && final(self).comments_list == (CommentsList { comments: Some(c), ..old(self).comments_list }),
                Fetched::Transitions(t) => r == Outcome::Consumed
                    && *final(self) == (App { ticket_transition: final(self).ticket_transition, focus: then, ..*old(self) })
                    && final(self).ticket_transition == (TransitionWidget {
                        transitions: final(self).ticket_transition.transitions,
                        state: if t.transitions@.len() > 0 { Some(0usize) } else { old(self).ticket_transition.state },
                        ..old(self).ticket_transition
                    })
                    && final(self).ticket_transition.transitions@ == t.transitions@,
                Fetched::FoundProject(p) => {
                    &&& *final(self) == (App { projects: final(self).projects, ..*old(self) })
                    &&& final(self).projects == (ProjectsWidget {
                        projects: final(self).projects.projects,
                        state: chosen(old(self).projects.state, position_of_key(seq![p], old(self).search_projects.input@)),
                        ..old(self).projects
                    })
                    &&& final(self).projects.projects@ == seq![p]
                    &&& r == Outcome::Pending(Work::LoadTickets(project_key(final(self).selected_project())), then)
                },
                Fetched::ProjectMissing => r == Outcome::NotConsumed
                    && *final(self) == (App { error: final(self).error, ..*old(self) })
                    && (final(self).error matches Some(m) && m@ == project_missing_message()),
                Fetched::CommentPosted => r == Outcome::Consumed
                    && *final(self) == (App { comment_add: final(self).comment_add, focus: then, ..*old(self) })
                    && final(self).comment_add.messages@.len() == 0
                    && !final(self).comment_add.push_comment
                    && final(self).comment_add.input == old(self).comment_add.input
                    && final(self).comment_add.input_mode == old(self).comment_add.input_mode
                    && final(self).comment_add.same_bindings(&old(self).comment_add),
                Fetched::TicketMoved => {
                    &&& final(self).ticket_transition == (TransitionWidget { push_transition: false, ..old(self).ticket_transition })
                    &&& match old(self).tickets.selected_ticket() {
                        Some(t) => r == Outcome::Pending(Work::RefreshTicket(t.key), then)
                            && *final(self) == (App { ticket_transition: final(self).ticket_transition, ..*old(self) }),
                        None => r == Outcome::Consumed
                            && *final(self) == (App { ticket_transition: final(self).ticket_transition, focus: then, ..*old(self) }),
                    }
                },
                Fetched::FoundTicket(k, t) => {
                    let list = removed_first(old(self).tickets.tickets@, k@).push(t);
                    let first = chosen(old(self).tickets.state, ticket_position(list, k@));
                    &&& r == Outcome::Consumed
                    &&& *final(self) == (App { tickets: final(self).tickets, focus: then, ..*old(self) })
                    &&& final(self).tickets == (TicketWidget {
                        tickets: final(self).tickets.tickets,
                        state: chosen(first, ticket_position(list, old(self).search_tickets.input@)),
                        ..old(self).tickets
                    })
                    &&& final(self).tickets.tickets@ == list
                },
                Fetched::TicketMissing => r == Outcome::NotConsumed
                    && *final(self) == (App { error: final(self).error, ..*old(self) })
                    && (final(self).error matches Some(m) && m@ == ticket_missing_message()),
                Fetched::Ticket(k, t) => {
                    let kept = removed_first(old(self).tickets.tickets@, k@);
                    &&& r == Outcome::Consumed
                    &&& *final(self) == (App { tickets: final(self).tickets, focus: then, ..*old(self) })
                    &&& final(self).tickets == (TicketWidget {
                        tickets: final(self).tickets.tickets,
                        state: chosen(old(self).tickets.state, ticket_position(kept.push(t), k@)),
                        ..old(self).tickets
                    })
                    &&& final(self).tickets.tickets@ == kept.push(t)
                },
            },
    {
        match fetched {
            Fetched::Tickets(v) => {
                self.tickets.update(v, true);
                self.focus = then;
                Outcome::Consumed
            },
            Fetched::Projects(v) => {
                self.projects.update(&v);
                self.focus = then;
                Outcome::Consumed
            },
            Fetched::ProjectsAfresh(v) => {
                self.projects = ProjectsWidget::new(&v, self.config.key_config);
                self.focus = then;
                Outcome::Consumed
            },
            Fetched::Comments(c) => {
                self.comments_list.comments = Some(c);
                self.focus = then;
                Outcome::Consumed
            },
            Fetched::Transitions(t) => {
                self.ticket_transition.update(t);
                self.focus = then;
                Outcome::Consumed
            },
            Fetched::FoundProject(p) => {
                let ghost picked = p;
                let found = vec![p];
                self.projects.update(&found);
                proof {
                    assert(self.projects.projects@ =~= seq![picked]);
                }
                let input = self.search_projects.input.clone();
                self.projects.select_project(input.as_str());
                Outcome::Pending(Work::LoadTickets(self.selected_project_key()), then)
            },
            Fetched::ProjectMissing => {
                self.error = Some(project_missing_text());
                Outcome::NotConsumed
            },
            Fetched::CommentPosted => {
                self.comment_add.comment_sent();
                self.focus = then;
                Outcome::Consumed
            },
            Fetched::TicketMoved => {
                self.ticket_transition.push_transition = false;
                match self.tickets.selected() {
                    Some(t) => Outcome::Pending(Work::RefreshTicket(t.key.clone()), then),
                    None => {
                        self.focus = then;
                        Outcome::Consumed
                    },
                }
            },
            Fetched::FoundTicket(k, t) => {
                let ghost fresh = t;
                self.tickets.remove_ticket(k.as_str());
                let ghost kept = self.tickets.tickets@;
                let added = vec![t];
                self.tickets.update(added, false);
                proof {
                    assert(self.tickets.tickets@ =~= kept.push(fresh));
                }
                self.tickets.select_ticket(k.as_str());
                let input = self.search_tickets.input.clone();
                self.tickets.select_ticket(input.as_str());
                self.focus = then;
                Outcome::Consumed
            },
            Fetched::TicketMissing => {
                self.error = Some(ticket_missing_text());
                Outcome::NotConsumed
            },
            Fetched::Ticket(k, t) => {
                let ghost fresh = t;
                self.tickets.remove_ticket(k.as_str());
                let ghost kept = self.tickets.tickets@;
                let added = vec![t];
                self.tickets.update(added, false);
                proof {
                    assert(self.tickets.tickets@ =~= kept.push(fresh));
                }
                self.tickets.select_ticket(k.as_str());
                self.focus = then;
                Outcome::Consumed
            },
        }
    }
}

/// The outcome of a key that a pane took or left.
fn outcome_of(e: EventState) -> (r: Outcome)
    ensures
        r == verdict(e),
{
    if e.is_consumed() { Outcome::Consumed } else { Outcome::NotConsumed }
}

/// The message shown when the project search finds nothing.
fn project_missing_text() -> (m: String)
    ensures
        m@ == project_missing_message(),
{
    let m = String::from_str("Unable to locate project in cache and in JIRA \n You may not have access to view project");
    proof {
        reveal_strlit("Unable to locate project in cache and in JIRA \n You may not have access to view project");
    }
    m
}

/// The message shown when the ticket search finds nothing.
fn ticket_missing_text() -> (m: String)
    ensures
        m@ == ticket_missing_message(),
{
    let m = String::from_str("Unable to locate ticket in cache and in JIRA \n You may not have access to view ticket");
    proof {
        reveal_strlit("Unable to locate ticket in cache and in JIRA \n You may not have access to view ticket");
    }
    m
}

/// The pane that a navigation route ends on, once its work is done.
pub open spec fn route_pane(r: Route) -> Focus {
    match r {
        Route::Go(f) => f,
        Route::ShowLabels => Focus::Labels,
        Route::ShowComponents => Focus::Components,
        Route::ShowComments => Focus::CommentsList,
        Route::ShowTickets => Focus::Tickets,
        Route::NextProjects | Route::PreviousProjects => Focus::Projects,
        Route::NextTickets | Route::PreviousTickets => Focus::Tickets,
        Route::ShowTransitions => Focus::TicketTransition,
        Route::SearchProjects => Focus::SearchProjects,
        Route::SearchTickets => Focus::SearchTickets,
        Route::ChooseProject => Focus::Tickets,
        Route::ChooseTicket => Focus::Description,
    }
}

/// The panes that show a ticket, in the order the next key walks them.
pub open spec fn ticket_pane_after(f: Focus) -> Option<Focus> {
    match f {
        Focus::Tickets => Some(Focus::Labels),
        Focus::Labels => Some(Focus::Components),
        Focus::Components => Some(Focus::TicketRelation),
        Focus::TicketRelation => Some(Focus::Description),
        Focus::Description => Some(Focus::Tickets),
        _ => None,
    }
}

/// How many escapes a pane is away from the project list.
pub open spec fn escape_depth(f: Focus) -> nat {
    match f {
        Focus::Projects => 0,
        Focus::Components | Focus::Description | Focus::SearchProjects | Focus::TicketRelation
        | Focus::Tickets | Focus::Labels => 1,
        Focus::CommentsList | Focus::SearchTickets | Focus::TicketTransition => 2,
        Focus::CommentsAdd => 3,
    }
}

/// With the default keys, the five panes that show a ticket form a ring: the next key
/// walks from the ticket list to the labels, the components, the related tickets, the
/// description and back to the list, and the previous key walks each step back.
pub proof fn law_ticket_panes_ring(f: Focus)
    requires
        ticket_pane_after(f) is Some,
    ensures
        ({
            let k = default_key_config();
            let g = ticket_pane_after(f)->0;
            &&& focus_route(f, k.next, k) matches Some(r) && route_pane(r) == g
            &&& focus_route(g, k.previous, k) matches Some(r) && route_pane(r) == f
        }),
{
}

/// With the default keys, escape leads one step nearer the project list from every pane
/// but the labels, which leave it to the list they show, and the project list itself.
pub proof fn law_escape_goes_up(f: Focus)
    requires
        f != Focus::Labels,
        f != Focus::Projects,
    ensures
        ({
            let k = default_key_config();
            focus_route(f, k.esc, k) matches Some(Route::Go(g)) && escape_depth(g) < escape_depth(f)
        }),
{
}

/// A ticket fetched afresh takes the place of its earlier copy: when the list held its key
/// at most once, the list afterwards holds the key only in its last row, and that row is
/// the selected one.
pub proof fn law_refreshed_ticket_is_selected(tickets: Seq<TicketData>, selected: Option<usize>, t: TicketData)
    requires
        tickets.len() < usize::MAX,
        forall|i: int, j: int|
            0 <= i < tickets.len() && 0 <= j < tickets.len() && i != j && #[trigger] tickets[i].key@ == t.key@
                ==> #[trigger] tickets[j].key@ != t.key@,
    ensures
        ({
            let list = removed_first(tickets, t.key@).push(t);
            &&& forall|m: int| 0 <= m < list.len() - 1 ==> #[trigger] list[m].key@ != t.key@
            &&& chosen(selected, ticket_position(list, t.key@)) == Some((list.len() - 1) as usize)
        }),
{
    let key = t.key@;
    let kept = removed_first(tickets, key);
    if exists|i: int| 0 <= i < tickets.len() && #[trigger] tickets[i].key@ == key {
        let w = choose|i: int| 0 <= i < tickets.len() && #[trigger] tickets[i].key@ == key;
        assert(forall|j: int| 0 <= j < w ==> #[trigger] tickets[j].key@ != key);
        let p = choose|i: int| 0 <= i < tickets.len() && #[trigger] tickets[i].key@ == key
            && forall|j: int| 0 <= j < i ==> #[trigger] tickets[j].key@ != key;
        assert(ticket_position(tickets, key) == Some(p as usize));
        assert forall|m: int| 0 <= m < kept.len() implies #[trigger] kept[m].key@ != key by {
            if m == p {
                assert(kept[m] == tickets[tickets.len() - 1]);
            } else {
                assert(kept[m] == tickets[m]);
            }
        }
    } else {
        assert(kept == tickets);
    }
    let list = kept.push(t);
    let last = list.len() - 1;
    assert(list[last].key@ == key);
    assert(forall|m: int| 0 <= m < last ==> #[trigger] list[m].key@ != key) by {
        assert forall|m: int| 0 <= m < last implies #[trigger] list[m].key@ != key by {
            assert(list[m] == kept[m]);
        }
    }
    assert(forall|j: int| 0 <= j < last ==> #[trigger] list[j].key@ != key);
    let q = choose|i: int| 0 <= i < list.len() && #[trigger] list[i].key@ == key
        && forall|j: int| 0 <= j < i ==> #[trigger] list[j].key@ != key;
    assert(q == last);
}

/// With the default keys, escape from a pane that a key opens from another pane leads back
/// to the pane it was opened from: the project search to the project list, the ticket
/// search and the transition list to the ticket list, the comment editor to the comments.
pub proof fn law_escape_returns_to_the_opener(from: Focus, key: Key)
    requires
        ({
            let k = default_key_config();
            focus_route(from, key, k) matches Some(r) && {
                let g = route_pane(r);
                g == Focus::SearchProjects || g == Focus::SearchTickets || g == Focus::TicketTransition
                    || g == Focus::CommentsAdd
            }
        }),
    ensures
        ({
            let k = default_key_config();
            let g = route_pane(focus_route(from, key, k)->0);
            focus_route(g, k.esc, k) == Some(Route::Go(from))
        }),
{
}

} // verus!
