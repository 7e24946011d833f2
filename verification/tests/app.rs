use jirust::app::{App, Fetched, Focus, Outcome, Work};
use jirust::config::{Config, JiraConfigFile};
use jirust::event::key::Key;
use jirust::jira::auth::JiraClient;
use jirust::jira::projects::Project;
use jirust::jira::tickets::{
    CommentBody, Comments, Components, FieldAuthor, Fields, ProjectDetails, RenderedFields, Status, TicketData,
    TicketTransition, TicketTransitions, TicketType,
};
use jirust::jira::Jira;
use jirust::widgets::InputMode;

fn project(key: &str) -> Project {
    Project { project_id: format!("id-{}", key), key: key.to_string(), name: format!("Project {}", key) }
}

fn ticket(key: &str) -> TicketData {
    TicketData {
        fields: Fields {
            assignee: None,
            comments: None,
            components: vec![Components { name: "api".to_string() }],
            creator: None,
            issuelinks: Vec::new(),
            issuetype: TicketType { id: "1".to_string(), name: "Task".to_string(), subtask: false },
            labels: vec!["backend".to_string(), "urgent".to_string()],
            parent: None,
            priority: None,
            project: ProjectDetails { key: "A".to_string(), name: "Project A".to_string() },
            reporter: None,
            status: Status { name: "To Do".to_string() },
            summary: format!("Summary of {}", key),
        },
        key: key.to_string(),
        rendered_fields: RenderedFields { description: "<p>Text</p>".to_string() },
    }
}

fn app(projects: Vec<Project>) -> App {
    let settings = JiraConfigFile {
        api_key: Some("a2V5".to_string()),
        api_version: Some("3".to_string()),
        db_file: None,
        domain: "https://example.atlassian.net".to_string(),
        user_email: "me@example.com".to_string(),
        projects: None,
        tickets: None,
    };
    let client = JiraClient::new(
        "3".to_string(),
        "a2V5".to_string(),
        "me@example.com".to_string(),
        "https://example.atlassian.net/rest/api/3".to_string(),
    );
    App::new(Config::new(settings), Jira::new(client, None, None), &projects)
}

fn app_on_tickets() -> App {
    let mut a = app(vec![project("A"), project("B")]);
    assert_eq!(a.event(Key::Enter), Outcome::Pending(Work::LoadTickets(Some("A".to_string())), Focus::Tickets));
    assert_eq!(a.arrive(Fetched::Tickets(vec![ticket("A-1"), ticket("A-2")]), Focus::Tickets), Outcome::Consumed);
    a
}

#[test]
fn the_screen_opens_on_the_project_list() {
    let a = app(vec![project("A"), project("B")]);
    assert_eq!(a.focus, Focus::Projects);
    assert_eq!(a.projects.state, Some(0));
    assert_eq!(a.search_projects.projects, vec!["A".to_string(), "B".to_string()]);
    assert!(a.tickets.tickets.is_empty());
    assert_eq!(a.tickets.jira_domain, "https://example.atlassian.net");
    assert!(a.error.is_none());
}

#[test]
fn enter_on_a_project_loads_its_tickets() {
    let mut a = app(vec![project("A"), project("B")]);
    assert_eq!(a.event(Key::Char('j')), Outcome::Consumed);
    assert_eq!(a.event(Key::Enter), Outcome::Pending(Work::LoadTickets(Some("B".to_string())), Focus::Tickets));
    assert_eq!(a.focus, Focus::Projects);
    assert_eq!(a.arrive(Fetched::Tickets(vec![ticket("B-1")]), Focus::Tickets), Outcome::Consumed);
    assert_eq!(a.focus, Focus::Tickets);
    assert_eq!(a.tickets.tickets.len(), 1);
}

#[test]
fn without_projects_there_is_no_project_to_load() {
    let mut a = app(Vec::new());
    assert_eq!(a.event(Key::Enter), Outcome::Pending(Work::LoadTickets(None), Focus::Tickets));
}

#[test]
fn the_next_key_walks_the_ticket_panes_and_previous_walks_back() {
    let mut a = app_on_tickets();
    assert_eq!(a.event(Key::Tab), Outcome::Consumed);
    assert_eq!(a.focus, Focus::Labels);
    assert_eq!(a.labels.selected(), Some(&"backend".to_string()));
    assert_eq!(a.event(Key::Tab), Outcome::Consumed);
    assert_eq!(a.focus, Focus::Components);
    assert_eq!(a.components.selected(), Some(&"api".to_string()));
    assert_eq!(a.event(Key::Tab), Outcome::Consumed);
    assert_eq!(a.focus, Focus::TicketRelation);
    assert_eq!(a.event(Key::Tab), Outcome::Consumed);
    assert_eq!(a.focus, Focus::Description);
    assert_eq!(a.event(Key::Tab), Outcome::Consumed);
    assert_eq!(a.focus, Focus::Tickets);
    assert_eq!(a.event(Key::BackTab), Outcome::Consumed);
    assert_eq!(a.focus, Focus::Description);
    assert_eq!(a.event(Key::BackTab), Outcome::Consumed);
    assert_eq!(a.focus, Focus::TicketRelation);
    assert_eq!(a.event(Key::BackTab), Outcome::Consumed);
    assert_eq!(a.focus, Focus::Components);
    assert_eq!(a.event(Key::BackTab), Outcome::Consumed);
    assert_eq!(a.focus, Focus::Labels);
    assert_eq!(a.event(Key::BackTab), Outcome::Consumed);
    assert_eq!(a.focus, Focus::Tickets);
}

#[test]
fn escape_leads_back_to_the_project_list() {
    let mut a = app_on_tickets();
    a.focus = Focus::CommentsAdd;
    assert_eq!(a.event(Key::Esc), Outcome::Consumed);
    assert_eq!(a.focus, Focus::CommentsList);
    assert_eq!(a.event(Key::Esc), Outcome::Consumed);
    assert_eq!(a.focus, Focus::Tickets);
    assert_eq!(a.event(Key::Esc), Outcome::Consumed);
    assert_eq!(a.focus, Focus::Projects);
    assert_eq!(a.event(Key::Esc), Outcome::NotConsumed);
    assert_eq!(a.focus, Focus::Projects);
}

#[test]
fn escape_does_nothing_on_the_labels() {
    let mut a = app_on_tickets();
    a.focus = Focus::Labels;
    assert_eq!(a.event(Key::Esc), Outcome::NotConsumed);
    assert_eq!(a.focus, Focus::Labels);
}

#[test]
fn arrows_move_between_the_list_and_the_description() {
    let mut a = app_on_tickets();
    assert_eq!(a.event(Key::Right), Outcome::Consumed);
    assert_eq!(a.focus, Focus::Description);
    assert_eq!(a.event(Key::Left), Outcome::Consumed);
    assert_eq!(a.focus, Focus::Tickets);
}

#[test]
fn comments_of_the_selected_ticket_are_loaded() {
    let mut a = app_on_tickets();
    assert_eq!(a.event(Key::Char('c')), Outcome::Pending(Work::LoadComments("A-1".to_string()), Focus::CommentsList));
    assert_eq!(a.focus, Focus::Tickets);
    let comment = CommentBody {
        author: FieldAuthor { display_name: "Ann".to_string(), active: true },
        created: "2023-01-01".to_string(),
        rendered_body: "<p>hello</p>".to_string(),
        updated: "2023-01-01".to_string(),
        update_author: FieldAuthor { display_name: "Ann".to_string(), active: true },
    };
    let fetched = Fetched::Comments(Comments { comments: vec![comment] });
    assert_eq!(a.arrive(fetched, Focus::CommentsList), Outcome::Consumed);
    assert_eq!(a.focus, Focus::CommentsList);
    assert_eq!(a.comments_list.comments.as_ref().unwrap().comments.len(), 1);
}

#[test]
fn without_a_ticket_the_comments_open_at_once() {
    let mut a = app(vec![project("A")]);
    a.focus = Focus::Tickets;
    assert_eq!(a.event(Key::Char('c')), Outcome::Consumed);
    assert_eq!(a.focus, Focus::CommentsList);
}

#[test]
fn page_keys_leave_the_paging_to_the_caller() {
    let mut a = app_on_tickets();
    assert_eq!(a.event(Key::Char('n')), Outcome::Pending(Work::NextTicketPage(Some("A".to_string())), Focus::Tickets));
    assert_eq!(a.event(Key::Char('N')), Outcome::Pending(Work::PreviousTicketPage(Some("A".to_string())), Focus::Tickets));
    a.focus = Focus::Projects;
    assert_eq!(a.event(Key::Char('n')), Outcome::Pending(Work::NextProjectPage, Focus::Projects));
    assert_eq!(a.event(Key::Char('N')), Outcome::Pending(Work::PreviousProjectPage, Focus::Projects));
    assert_eq!(a.arrive(Fetched::Projects(vec![project("C")]), Focus::Projects), Outcome::Consumed);
    assert_eq!(a.projects.projects.len(), 1);
    assert_eq!(a.projects.projects[0].key, "C");
}

#[test]
fn the_project_search_opens_for_typing_and_picks_a_project() {
    let mut a = app(vec![project("ABC"), project("XYZ")]);
    assert_eq!(a.event(Key::Char('/')), Outcome::Consumed);
    assert_eq!(a.focus, Focus::SearchProjects);
    assert_eq!(a.search_projects.input_mode, InputMode::Editing);
    for c in "XYZ".chars() {
        assert_eq!(a.event(Key::Char(c)), Outcome::Consumed);
    }
    a.search_projects.refresh_search();
    assert_eq!(a.event(Key::Down), Outcome::Consumed);
    assert_eq!(a.event(Key::Enter), Outcome::Pending(Work::LoadTickets(Some("XYZ".to_string())), Focus::Tickets));
    assert_eq!(a.projects.state, Some(1));
}

#[test]
fn a_project_missing_from_the_search_is_looked_up() {
    let mut a = app(vec![project("ABC")]);
    a.event(Key::Char('/'));
    a.event(Key::Char('Q'));
    assert_eq!(a.event(Key::Enter), Outcome::Pending(Work::FindProject("Q".to_string()), Focus::Tickets));
    assert_eq!(a.arrive(Fetched::ProjectMissing, Focus::Tickets), Outcome::NotConsumed);
    assert_eq!(
        a.error,
        Some("Unable to locate project in cache and in JIRA \n You may not have access to view project".to_string())
    );
    assert_eq!(a.focus, Focus::SearchProjects);
    assert_eq!(
        a.arrive(Fetched::FoundProject(project("Q")), Focus::Tickets),
        Outcome::Pending(Work::LoadTickets(Some("Q".to_string())), Focus::Tickets)
    );
    assert_eq!(a.projects.projects.len(), 1);
    assert_eq!(a.projects.state, Some(0));
}

#[test]
fn the_ticket_search_opens_for_typing_and_shows_a_ticket() {
    let mut a = app(vec![project("A")]);
    a.event(Key::Enter);
    assert_eq!(a.arrive(Fetched::Tickets(vec![ticket("ABC-1"), ticket("XYZ-2")]), Focus::Tickets), Outcome::Consumed);
    assert_eq!(a.event(Key::Char('/')), Outcome::Consumed);
    assert_eq!(a.focus, Focus::SearchTickets);
    assert_eq!(a.search_tickets.input_mode, InputMode::Editing);
    assert_eq!(a.search_tickets.tickets, vec!["ABC-1".to_string(), "XYZ-2".to_string()]);
    for c in "XYZ-2".chars() {
        assert_eq!(a.event(Key::Char(c)), Outcome::Consumed);
    }
    assert_eq!(a.search_tickets.refresh_search(), Some(vec![1]));
    assert_eq!(a.search_tickets.search_tickets, vec!["XYZ-2".to_string()]);
    assert_eq!(a.event(Key::Down), Outcome::Consumed);
    assert_eq!(a.event(Key::Enter), Outcome::Consumed);
    assert_eq!(a.focus, Focus::Description);
    assert_eq!(a.tickets.state, Some(1));
}

#[test]
fn escape_leaves_the_ticket_search_for_the_ticket_list() {
    let mut a = app_on_tickets();
    a.event(Key::Char('/'));
    assert_eq!(a.event(Key::Esc), Outcome::Consumed);
    assert_eq!(a.search_tickets.input_mode, InputMode::Normal);
    assert_eq!(a.focus, Focus::SearchTickets);
    assert_eq!(a.event(Key::Esc), Outcome::Consumed);
    assert_eq!(a.focus, Focus::Tickets);
}

#[test]
fn a_ticket_missing_from_the_search_is_looked_up() {
    let mut a = app_on_tickets();
    a.event(Key::Char('/'));
    for c in "Q-9".chars() {
        a.event(Key::Char(c));
    }
    assert_eq!(a.event(Key::Enter), Outcome::Pending(Work::FindTicket("Q-9".to_string()), Focus::Description));
    assert_eq!(a.arrive(Fetched::TicketMissing, Focus::Description), Outcome::NotConsumed);
    assert_eq!(
        a.error,
        Some("Unable to locate ticket in cache and in JIRA \n You may not have access to view ticket".to_string())
    );
    assert_eq!(a.focus, Focus::SearchTickets);
    assert_eq!(
        a.arrive(Fetched::FoundTicket("Q-9".to_string(), ticket("Q-9")), Focus::Description),
        Outcome::Consumed
    );
    assert_eq!(a.focus, Focus::Description);
    assert_eq!(a.tickets.tickets.len(), 3);
    assert_eq!(a.tickets.tickets[2].key, "Q-9");
    assert_eq!(a.tickets.state, Some(2));
}

#[test]
fn a_key_first_dismisses_the_error_on_screen() {
    let mut a = app(vec![project("ABC")]);
    a.event(Key::Char('/'));
    a.event(Key::Char('Q'));
    a.event(Key::Enter);
    a.arrive(Fetched::ProjectMissing, Focus::Tickets);
    assert!(a.error.is_some());
    assert!(a.key_allowed(Key::Down));
    assert_eq!(a.event(Key::Char('x')), Outcome::Consumed);
    assert!(a.error.is_none());
    assert_eq!(a.search_projects.input, "Q");
    assert_eq!(a.focus, Focus::SearchProjects);
}

#[test]
fn reset_empties_the_lists_before_they_are_loaded_afresh() {
    let mut a = app_on_tickets();
    a.focus = Focus::Projects;
    assert_eq!(a.event(Key::Char('r')), Outcome::Pending(Work::ResetProjects, Focus::Projects));
    assert!(a.projects.projects.is_empty());
    assert!(a.tickets.tickets.is_empty());
    assert_eq!(a.arrive(Fetched::ProjectsAfresh(vec![project("A"), project("B")]), Focus::Projects), Outcome::Consumed);
    assert_eq!(a.projects.projects.len(), 2);
    assert_eq!(a.projects.state, Some(0));
}

#[test]
fn reset_on_the_tickets_reloads_the_project() {
    let mut a = app_on_tickets();
    assert_eq!(a.event(Key::Char('r')), Outcome::Pending(Work::ResetTickets(Some("A".to_string())), Focus::Tickets));
    assert!(a.tickets.tickets.is_empty());
}

#[test]
fn a_pushed_comment_is_sent_to_the_selected_ticket_and_then_forgotten() {
    let mut a = app_on_tickets();
    a.focus = Focus::CommentsAdd;
    assert_eq!(a.event(Key::Char('e')), Outcome::Consumed);
    a.event(Key::Char('h'));
    a.event(Key::Char('i'));
    assert_eq!(a.event(Key::Enter), Outcome::Consumed);
    assert_eq!(a.event(Key::Esc), Outcome::Consumed);
    assert_eq!(a.focus, Focus::CommentsAdd);
    assert_eq!(
        a.event(Key::Char('P')),
        Outcome::Pending(Work::PostComment("A-1".to_string(), "hi".to_string()), Focus::CommentsAdd)
    );
    assert_eq!(a.arrive(Fetched::CommentPosted, Focus::CommentsAdd), Outcome::Consumed);
    assert!(a.comment_add.messages.is_empty());
    assert!(!a.comment_add.push_comment);
}

#[test]
fn a_chosen_transition_moves_the_ticket_which_is_then_fetched_afresh() {
    let mut a = app_on_tickets();
    assert_eq!(a.event(Key::Char('t')), Outcome::Pending(Work::LoadTransitions("A-1".to_string()), Focus::TicketTransition));
    let transitions = TicketTransitions {
        transitions: vec![TicketTransition {
            id: "31".to_string(),
            name: Some("Done".to_string()),
            has_screen: Some(false),
            fields: None,
        }],
    };
    assert_eq!(a.arrive(Fetched::Transitions(transitions), Focus::TicketTransition), Outcome::Consumed);
    assert_eq!(a.focus, Focus::TicketTransition);
    assert_eq!(
        a.event(Key::Enter),
        Outcome::Pending(
            Work::MoveTicket("A-1".to_string(), Some(("31".to_string(), Some("Done".to_string())))),
            Focus::Tickets
        )
    );
    assert_eq!(
        a.arrive(Fetched::TicketMoved, Focus::Tickets),
        Outcome::Pending(Work::RefreshTicket("A-1".to_string()), Focus::Tickets)
    );
    assert!(!a.ticket_transition.push_transition);
    let mut fresh = ticket("A-1");
    fresh.fields.status = Status { name: "Done".to_string() };
    assert_eq!(a.arrive(Fetched::Ticket("A-1".to_string(), fresh), Focus::Tickets), Outcome::Consumed);
    assert_eq!(a.focus, Focus::Tickets);
    assert_eq!(a.tickets.tickets.len(), 2);
    assert_eq!(a.tickets.selected().unwrap().fields.status.name, "Done");
}

#[test]
fn a_key_nobody_takes_changes_nothing() {
    let mut a = app_on_tickets();
    assert_eq!(a.event(Key::F5), Outcome::NotConsumed);
    assert_eq!(a.focus, Focus::Tickets);
    assert_eq!(a.tickets.state, Some(0));
}

#[test]
fn the_comment_list_help_lists_its_commands() {
    let a = app(Vec::new());
    let names: Vec<String> = a.comments_list_commands().into_iter().map(|c| c.text.name).collect();
    assert_eq!(
        names,
        vec![
            "Go back [<Esc>]",
            "Help [?]",
            "Scroll up/down/left/right [k,j,h,l]",
            "Scroll to top/bottom [g,G]",
            "Scroll up/down multiple lines [<Ctrl+u>,<Ctrl+d>]",
            "Add comments to ticket [C]",
        ]
    );
}

#[test]
fn a_key_that_would_move_past_an_empty_list_is_refused() {
    let mut a = app(Vec::new());
    assert!(a.key_allowed(Key::Char('j')));
    a.projects.state = Some(0);
    assert!(!a.key_allowed(Key::Char('j')));
    assert!(a.key_allowed(Key::Char('k')));
    assert!(a.key_allowed(Key::Char('r')));
    a.focus = Focus::Tickets;
    assert!(a.key_allowed(Key::Char('j')));
}
