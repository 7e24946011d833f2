use jirust::config::KeyConfig;
use jirust::event::key::Key;
use jirust::jira::projects::Project;
use jirust::jira::tickets::{
    Assignee, Components, CustomField, CustomFieldAllowedValues, CustomFieldSchema, CustomFieldValues, Fields, ProjectDetails, RenderedFields, Status, TicketData, TicketTransition,
    TicketTransitions, TicketType,
};
use jirust::widgets::comments_add::CommentAdd;
use jirust::widgets::components::ComponentsWidget;
use jirust::widgets::create_ticket::{CreateTicketWidget, FocusCreateTicket};
use jirust::widgets::description::DescriptionWidget;
use jirust::widgets::labels::LabelsWidget;
use jirust::widgets::projects::ProjectsWidget;
use jirust::widgets::search::search_keys;
use jirust::widgets::search_projects::SearchProjectsWidget;
use jirust::widgets::ticket_transition::TransitionWidget;
use jirust::widgets::tickets::{ticket_row, TicketWidget};
use jirust::widgets::{scroll_down_by, scroll_up_by, step_down, step_up, Component, EventState, InputMode, KeyMap};

fn project(key: &str) -> Project {
    Project { project_id: format!("id-{}", key), key: key.to_string(), name: format!("Project {}", key) }
}

fn ticket(key: &str) -> TicketData {
    TicketData {
        fields: Fields {
            assignee: Some(Assignee { display_name: "Ann".to_string() }),
            comments: None,
            components: vec![Components { name: "api".to_string() }, Components { name: "ui".to_string() }],
            creator: None,
            issuelinks: Vec::new(),
            issuetype: TicketType { id: "1".to_string(), name: "Bug".to_string(), subtask: false },
            labels: vec!["backend".to_string(), "urgent".to_string()],
            parent: None,
            priority: None,
            project: ProjectDetails { key: "ABC".to_string(), name: "Alphabet".to_string() },
            reporter: None,
            status: Status { name: "To Do".to_string() },
            summary: format!("Summary of {}", key),
        },
        key: key.to_string(),
        rendered_fields: RenderedFields { description: "<p>Some <b>text</b></p>".to_string() },
    }
}

fn transition(id: &str, screen: bool) -> TicketTransition {
    TicketTransition { id: id.to_string(), name: Some(format!("Go {}", id)), has_screen: Some(screen), fields: None }
}

#[test]
fn moving_down_stays_in_the_list() {
    let mut w = ProjectsWidget::new(&vec![project("A"), project("B"), project("C")], KeyConfig::default());
    assert_eq!(w.state, Some(0));
    w.next(10);
    assert_eq!(w.state, Some(2));
    assert_eq!(w.selected().unwrap().key, "C");
    w.next(1);
    assert_eq!(w.state, Some(2));
}

#[test]
fn moving_up_stays_in_the_list() {
    let mut w = ProjectsWidget::new(&vec![project("A"), project("B"), project("C")], KeyConfig::default());
    w.go_to_bottom();
    w.previous(10);
    assert_eq!(w.state, Some(0));
    w.previous(1);
    assert_eq!(w.state, Some(0));
}

#[test]
fn moving_down_then_up_returns_to_the_row() {
    let mut w = ProjectsWidget::new(&vec![project("A"), project("B"), project("C"), project("D")], KeyConfig::default());
    w.next(1);
    w.next(2);
    assert_eq!(w.state, Some(3));
    w.previous(2);
    assert_eq!(w.state, Some(1));
    w.next(2);
    assert_eq!(w.state, Some(3));
}

#[test]
fn cursor_steps_stop_at_the_ends() {
    assert_eq!(step_down(Some(4), 3, 5), Some(4));
    assert_eq!(step_down(Some(1), 2, 5), Some(3));
    assert_eq!(step_down(None, 2, 5), None);
    assert_eq!(step_up(Some(0), 3), Some(0));
    assert_eq!(step_up(Some(5), 3), Some(2));
    assert_eq!(step_up(Some(3), 3), Some(0));
    assert_eq!(step_up(None, 1), None);
}

#[test]
fn project_keys_move_the_selection() {
    let mut w = ProjectsWidget::new(&vec![project("A"), project("B"), project("C")], KeyConfig::default());
    assert_eq!(w.event(Key::Char('j')), EventState::Consumed);
    assert_eq!(w.state, Some(1));
    assert_eq!(w.event(Key::Char('G')), EventState::Consumed);
    assert_eq!(w.state, Some(2));
    assert_eq!(w.event(Key::Char('g')), EventState::Consumed);
    assert_eq!(w.state, Some(0));
    assert_eq!(w.event(Key::Char('x')), EventState::NotConsumed);
    assert_eq!(w.state, Some(0));
}

#[test]
fn a_project_is_selected_by_key() {
    let mut w = ProjectsWidget::new(&vec![project("A"), project("B"), project("C")], KeyConfig::default());
    w.select_project("C");
    assert_eq!(w.state, Some(2));
    w.select_project("Z");
    assert_eq!(w.state, Some(2));
    w.update(&vec![project("Q")]);
    assert_eq!(w.projects.len(), 1);
    assert_eq!(w.state, Some(2));
    assert!(w.selected().is_none());
}

#[test]
fn an_empty_project_list_selects_nothing() {
    let w = ProjectsWidget::new(&Vec::new(), KeyConfig::default());
    assert_eq!(w.state, None);
    assert!(w.selected().is_none());
}

#[test]
fn scrolling_stays_below_one_hundred() {
    assert_eq!(scroll_down_by(0, 99), 99);
    assert_eq!(scroll_down_by(99, 1), 0);
    assert_eq!(scroll_down_by(50, u16::MAX), 0);
    assert_eq!(scroll_up_by(5, 10), 0);
    let mut d = DescriptionWidget::new(KeyConfig::default());
    d.down(60);
    d.down(39);
    assert_eq!(d.scroll(), 99);
    d.down(1);
    assert_eq!(d.scroll(), 0);
}

#[test]
fn scrolling_down_then_up_returns_to_the_offset() {
    let mut d = DescriptionWidget::new(KeyConfig::default());
    d.down(10);
    d.down(25);
    d.up(25);
    assert_eq!(d.scroll(), 10);
    assert_eq!(d.event(Key::Char('j')), EventState::Consumed);
    assert_eq!(d.scroll(), 11);
    assert_eq!(d.event(Key::Char('x')), EventState::NotConsumed);
}

#[test]
fn the_form_focus_goes_round() {
    let mut w = CreateTicketWidget::new(KeyConfig::default());
    assert_eq!(w.focus, FocusCreateTicket::TicketType);
    w.next_focus();
    assert_eq!(w.focus, FocusCreateTicket::Summary);
    w.previous_focus();
    assert_eq!(w.focus, FocusCreateTicket::TicketType);
    w.previous_focus();
    assert_eq!(w.focus, FocusCreateTicket::Description);
    w.next_focus();
    w.next_focus();
    w.next_focus();
    assert_eq!(w.focus, FocusCreateTicket::Description);
}

#[test]
fn the_form_takes_typed_text_in_the_focused_field() {
    let mut w = CreateTicketWidget::new(KeyConfig::default());
    w.next_focus();
    w.input('a');
    w.input('b');
    w.input_pop();
    w.next_focus();
    w.input('z');
    assert_eq!(w.contents.summary, "a");
    assert_eq!(w.contents.description, "z");
}

#[test]
fn the_project_search_finds_the_typed_key() {
    let mut w = SearchProjectsWidget::new(&vec![project("ABC"), project("XYZ")]);
    assert_eq!(w.projects, vec!["ABC".to_string(), "XYZ".to_string()]);
    assert_eq!(w.event(Key::Char('e')), EventState::Consumed);
    assert_eq!(w.input_mode, InputMode::Editing);
    for c in "ABC".chars() {
        assert_eq!(w.event(Key::Char(c)), EventState::Consumed);
    }
    assert_eq!(w.input, "ABC");
    assert_eq!(w.refresh_search(), Some(vec![0]));
    assert_eq!(w.search_projects, vec!["ABC".to_string()]);
    assert_eq!(w.event(Key::Down), EventState::Consumed);
    assert_eq!(w.selected(), Some(&"ABC".to_string()));
    assert_eq!(w.event(Key::Backspace), EventState::Consumed);
    assert_eq!(w.input, "AB");
    assert_eq!(w.event(Key::Esc), EventState::Consumed);
    assert_eq!(w.input_mode, InputMode::Normal);
    assert_eq!(w.refresh_search(), None);
    assert_eq!(w.search_projects, vec!["ABC".to_string()]);
}

#[test]
fn search_results_are_shown_in_the_order_given() {
    let w = SearchProjectsWidget::new(&vec![project("A"), project("B"), project("C")]);
    assert_eq!(w.keys_at(&vec![2, 0]), vec!["C".to_string(), "A".to_string()]);
    assert!(w.keys_at(&Vec::new()).is_empty());
}

#[test]
fn outside_typing_a_key_drops_the_search_selection() {
    let mut w = SearchProjectsWidget::new(&vec![project("ABC")]);
    w.state = Some(0);
    assert_eq!(w.event(Key::Enter), EventState::NotConsumed);
    assert_eq!(w.state, None);
}

#[test]
fn a_comment_is_typed_line_by_line_and_pushed() {
    let mut c = CommentAdd::new(KeyConfig::default());
    assert_eq!(c.pending_comment(), None);
    assert_eq!(c.event(Key::Char('e')), EventState::Consumed);
    assert_eq!(c.input_mode, InputMode::Editing);
    c.event(Key::Char('h'));
    c.event(Key::Char('i'));
    c.event(Key::Enter);
    c.event(Key::Char('y'));
    c.event(Key::Char('o'));
    c.event(Key::Backspace);
    c.event(Key::Char('a'));
    c.event(Key::Enter);
    assert_eq!(c.messages, vec!["hi".to_string(), "ya".to_string()]);
    assert_eq!(c.pending_comment(), None);
    assert_eq!(c.event(Key::Esc), EventState::Consumed);
    assert_eq!(c.event(Key::Char('P')), EventState::Consumed);
    assert!(c.push_comment);
    assert_eq!(c.pending_comment(), Some("hi \n ya".to_string()));
    c.comment_sent();
    assert!(c.messages.is_empty());
    assert!(!c.push_comment);
}

#[test]
fn a_ticket_row_lists_its_cells() {
    let cells = ticket_row(&ticket("ABC-1"));
    assert_eq!(cells, vec!["ABC-1", "", "Bug", "To Do", "Ann", "", ""]);
    let mut t = ticket("ABC-2");
    t.fields.assignee = None;
    assert_eq!(ticket_row(&t)[4], "Unassigned");
}

#[test]
fn tickets_are_added_removed_and_selected() {
    let mut w = TicketWidget::new(KeyConfig::default(), "https://example.atlassian.net".to_string());
    w.update(vec![ticket("A-1"), ticket("A-2"), ticket("A-3")], true);
    assert_eq!(w.tickets.len(), 3);
    w.remove_ticket("A-1");
    let keys: Vec<String> = w.tickets.iter().map(|t| t.key.clone()).collect();
    assert_eq!(keys, vec!["A-3", "A-2"]);
    w.update(vec![ticket("A-1")], false);
    w.select_ticket("A-1");
    assert_eq!(w.state, Some(2));
    assert_eq!(w.selected().unwrap().key, "A-1");
    w.update(vec![ticket("B-1")], true);
    assert_eq!(w.tickets.len(), 1);
}

#[test]
fn the_selected_ticket_opens_in_the_browser() {
    let mut w = TicketWidget::new(KeyConfig::default(), "https://example.atlassian.net".to_string());
    w.open_browser();
    assert_eq!(w.open_url, None);
    w.update(vec![ticket("A-7")], true);
    assert_eq!(w.event(Key::Char('o')), EventState::Consumed);
    assert_eq!(w.open_url, Some("https://example.atlassian.net/browse/A-7".to_string()));
}

#[test]
fn the_selected_ticket_shows_its_summary_and_description() {
    let mut w = TicketWidget::new(KeyConfig::default(), "https://x".to_string());
    let (summary, description) = w.description_texts();
    assert_eq!(summary, "");
    assert_eq!(description, "");
    let mut w = TicketWidget::new(KeyConfig::default(), "https://x".to_string());
    w.update(vec![ticket("A-7")], true);
    let (summary, description) = w.description_texts();
    assert_eq!(summary, "A-7 - Summary of A-7");
    assert!(description.contains("**text**"));
    assert!(!description.contains("<p>"));
}

#[test]
fn labels_and_components_show_the_ticket() {
    let t = ticket("A-1");
    let mut labels = LabelsWidget::new(KeyConfig::default());
    labels.update(&t.fields.labels);
    assert_eq!(labels.selected(), Some(&"backend".to_string()));
    assert_eq!(labels.event(Key::Char('j')), EventState::Consumed);
    assert_eq!(labels.selected(), Some(&"urgent".to_string()));
    let mut components = ComponentsWidget::new(KeyConfig::default());
    components.update(&t.fields.components);
    assert_eq!(components.selected(), Some(&"api".to_string()));
    assert_eq!(components.event(Key::Char('G')), EventState::Consumed);
    assert_eq!(components.selected(), Some(&"ui".to_string()));
}

#[test]
fn enter_on_a_transition_without_a_screen_asks_for_it() {
    let mut w = TransitionWidget::new(Vec::new(), KeyConfig::default());
    w.update(TicketTransitions { transitions: vec![transition("11", false), transition("21", true)] });
    assert_eq!(w.state, Some(0));
    assert_eq!(w.event(Key::Enter), EventState::Consumed);
    assert!(w.push_transition);
    assert_eq!(w.selected_transition().unwrap().id, "11");
}

#[test]
fn enter_on_a_transition_with_a_screen_shows_the_reasons() {
    let mut w = TransitionWidget::new(Vec::new(), KeyConfig::default());
    w.update(TicketTransitions { transitions: vec![transition("11", false), transition("21", true)] });
    assert_eq!(w.event(Key::Char('j')), EventState::Consumed);
    assert_eq!(w.state, Some(1));
    assert_eq!(w.event(Key::Enter), EventState::Consumed);
    assert!(!w.push_transition);
    assert_eq!(w.draw_list_float_screen, Some(true));
}

fn select_field(custom: &str, values: &[&str]) -> CustomFieldValues {
    CustomFieldValues {
        name: "Reason".to_string(),
        key: "customfield_1".to_string(),
        schema: Some(CustomFieldSchema { custom: Some(custom.to_string()), custom_id: Some(1) }),
        allowed_values: Some(
            values.iter().map(|v| CustomFieldAllowedValues { id: v.to_string(), value: v.to_string() }).collect(),
        ),
    }
}

#[test]
fn the_reasons_are_worked_out_only_while_they_are_shown() {
    let mut screen = transition("21", true);
    screen.fields = Some(CustomField {
        values: Some(vec![
            ("a".to_string(), select_field("plugin:select", &["Done", "Won't do"])),
            ("b".to_string(), select_field("plugin:text", &["ignored"])),
            ("c".to_string(), select_field("plugin:select", &["Fixed", "Duplicate"])),
        ]),
    });
    let mut w = TransitionWidget::new(Vec::new(), KeyConfig::default());
    w.update(TicketTransitions { transitions: vec![screen] });
    w.refresh_reasons();
    assert!(w.float_screen_list.is_none());
    assert_eq!(w.focus_float_screen, None);
    assert_eq!(w.event(Key::Enter), EventState::Consumed);
    assert_eq!(w.draw_list_float_screen, Some(true));
    assert!(w.reasons_ready());
    w.refresh_reasons();
    let reasons: Vec<String> = w.float_screen_list.clone().unwrap().into_iter().map(|v| v.value).collect();
    assert_eq!(reasons, vec!["Fixed".to_string(), "Duplicate".to_string()]);
    assert_eq!(w.focus_float_screen, Some(true));
}

#[test]
fn the_search_finds_keys_by_any_word_whatever_the_case() {
    let keys = vec!["Alpha Beta".to_string(), "gamma".to_string(), "BETA ray".to_string()];
    let mut found = search_keys(&keys, "beta");
    found.sort();
    assert_eq!(found, vec![0, 2]);
    assert_eq!(search_keys(&keys, "GAMMA"), vec![1]);
    assert_eq!(search_keys(&keys, "zzzz"), Vec::<usize>::new());
    assert_eq!(search_keys(&keys, ""), Vec::<usize>::new());
}

#[test]
fn a_later_binding_of_a_key_wins() {
    let mut m: KeyMap<u8> = KeyMap::new();
    assert_eq!(m.get(&Key::Enter), None);
    m.insert(Key::Enter, 1);
    m.insert(Key::Esc, 2);
    m.insert(Key::Enter, 3);
    assert_eq!(m.get(&Key::Enter), Some(3));
    assert_eq!(m.get(&Key::Esc), Some(2));
}
