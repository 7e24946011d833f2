use jirust::activity_manager::NextActivity;
use jirust::components::issues::IssuesComponent;
use jirust::components::projects::ProjectsComponent;
use jirust::components::tickets::TicketWidget;
use jirust::components::tickets_metadata::TicketMetadataComponent;
use jirust::config::KeyConfig;
use jirust::event::key::Key;
use jirust::jira::projects::Project;
use jirust::jira::tickets::{Fields, ProjectDetails, RenderedFields, Status, TicketData, TicketType};
use jirust::widgets::EventState;

fn project(key: &str) -> Project {
    Project { project_id: format!("id-{}", key), key: key.to_string(), name: format!("Project {}", key) }
}

fn ticket(key: &str, labels: &[&str]) -> TicketData {
    TicketData {
        fields: Fields {
            assignee: None,
            comments: None,
            components: Vec::new(),
            creator: None,
            issuelinks: Vec::new(),
            issuetype: TicketType { id: "1".to_string(), name: "Bug".to_string(), subtask: false },
            labels: labels.iter().map(|l| l.to_string()).collect(),
            parent: None,
            priority: None,
            project: ProjectDetails { key: "A".to_string(), name: "A".to_string() },
            reporter: None,
            status: Status { name: "To Do".to_string() },
            summary: String::new(),
        },
        key: key.to_string(),
        rendered_fields: RenderedFields { description: String::new() },
    }
}

#[test]
fn the_earlier_project_list_selects_a_row_only_at_the_ends() {
    let mut c = ProjectsComponent::new(&vec![project("A"), project("B"), project("C")], KeyConfig::default());
    assert_eq!(c.selected_project(), None);
    c.go_to_bottom();
    assert_eq!(c.selected_project(), Some(&"Project C".to_string()));
    c.previous_project(1);
    assert_eq!(c.selected_project(), Some(&"Project C".to_string()));
    c.next_project(1);
    assert_eq!(c.selected_project(), Some(&"Project C".to_string()));
    c.go_to_top();
    assert_eq!(c.selected_project(), Some(&"Project A".to_string()));
}

#[test]
fn the_earlier_project_list_reports_movement_keys_as_not_taken() {
    let mut c = ProjectsComponent::new(&vec![project("A"), project("B")], KeyConfig::default());
    assert_eq!(c.event(Key::Char('G')), EventState::NotConsumed);
    assert_eq!(c.selected_project(), Some(&"Project B".to_string()));
    assert_eq!(c.event(Key::Char('j')), EventState::NotConsumed);
    assert_eq!(c.event(Key::Char('x')), EventState::Consumed);
    let empty = ProjectsComponent::new(&Vec::new(), KeyConfig::default());
    assert_eq!(empty.selected_project(), None);
}

#[test]
fn the_issue_list_starts_with_nothing_selected() {
    let mut c = IssuesComponent::new(KeyConfig::default());
    assert!(c.selected_issues().is_none());
    assert_eq!(c.event(Key::Char('j')), EventState::Consumed);
    assert_eq!(c.event(Key::Char('G')), EventState::Consumed);
    assert_eq!(c.event(Key::Enter), EventState::NotConsumed);
    assert!(c.selected_issues().is_none());
}

#[test]
fn the_earlier_ticket_list_caps_moves_at_the_last_row() {
    let mut w = TicketWidget::new(KeyConfig::default());
    w.update(vec![ticket("A-1", &["x"]), ticket("A-2", &[]), ticket("A-3", &["p", "q", "r"])]);
    assert_eq!(w.selected_ticket().unwrap().key, "A-1");
    assert_eq!(w.event(Key::Ctrl('d')), EventState::Consumed);
    assert_eq!(w.selected_ticket().unwrap().key, "A-3");
    assert_eq!(w.event(Key::Char('k')), EventState::Consumed);
    assert_eq!(w.selected_ticket().unwrap().key, "A-2");
    w.ticket_go_to_top();
    assert_eq!(w.selected_ticket().unwrap().key, "A-1");
    w.ticket_go_to_bottom();
    assert_eq!(w.selected_ticket().unwrap().key, "A-3");
    assert_eq!(w.event(Key::Enter), EventState::NotConsumed);
}

#[test]
fn the_earlier_ticket_list_moves_in_the_selected_tickets_labels() {
    let mut w = TicketWidget::new(KeyConfig::default());
    w.update(vec![ticket("A-1", &["p", "q", "r"])]);
    assert_eq!(w.label_event(Key::Char('j')), EventState::Consumed);
    assert_eq!(w.label_event(Key::Char('G')), EventState::Consumed);
    assert_eq!(w.label_event(Key::Char('k')), EventState::Consumed);
    assert_eq!(w.label_event(Key::Char('g')), EventState::Consumed);
    assert_eq!(w.label_event(Key::Char('x')), EventState::NotConsumed);
    w.next_label(10);
    w.previous_label(1);
    w.label_go_to_top();
    w.label_go_to_bottom();
    assert_eq!(w.selected_ticket().unwrap().key, "A-1");
}

#[test]
fn small_leftovers_of_the_earlier_screens() {
    assert_eq!(NextActivity::NextIssueAcitivity, NextActivity::NextIssueAcitivity);
    assert_ne!(NextActivity::NextIssueAcitivity, NextActivity::NextProjectActivity);
    let _ = TicketMetadataComponent::new(KeyConfig::default());
}
