use jirust::config::{JiraConfigProjects, JiraConfigTickets};
use jirust::jira::auth::{jira_authentication, JiraClient, UserData};
use jirust::jira::issue::JiraIssues;
use jirust::jira::projects::{JiraProjectsAPI, Project};
use jirust::jira::tickets::{
    comment_request_body, Components, CreateTicket, Fields, JiraTicketsAPI, ProjectDetails,
    RenderedFields, Status, TicketData, TicketType,
};
use jirust::jira::{Jira, NextTicketPage, PAGE_SIZE};
use jirust::widgets::description::DescriptionWidget;

fn client() -> JiraClient {
    JiraClient::new(
        "3".to_string(),
        "a2V5".to_string(),
        "me@example.com".to_string(),
        "https://example.atlassian.net/rest/api/3".to_string(),
    )
}

fn ticket(key: &str, project: &str) -> TicketData {
    TicketData {
        fields: Fields {
            assignee: None,
            comments: None,
            components: vec![Components { name: "api".to_string() }],
            creator: None,
            issuelinks: Vec::new(),
            issuetype: TicketType { id: "1".to_string(), name: "Bug".to_string(), subtask: false },
            labels: vec!["backend".to_string()],
            parent: None,
            priority: None,
            project: ProjectDetails { key: project.to_string(), name: project.to_string() },
            reporter: None,
            status: Status { name: "To Do".to_string() },
            summary: format!("Summary of {}", key),
        },
        key: key.to_string(),
        rendered_fields: RenderedFields { description: "<p>Text</p>".to_string() },
    }
}

fn project(key: &str) -> Project {
    Project { project_id: format!("id-{}", key), key: key.to_string(), name: format!("Project {}", key) }
}

fn filter(mine: Option<bool>, statuses: Option<Vec<&str>>) -> Option<JiraConfigTickets> {
    Some(JiraConfigTickets {
        current_user_tickets_only: mine,
        show_unassgined: None,
        show_ticket_status: statuses.map(|v| v.into_iter().map(|s| s.to_string()).collect()),
    })
}

#[test]
fn authentication_encodes_email_and_token_in_url_safe_base64() {
    let c = jira_authentication("https://example.atlassian.net", "token-123", "3", "me@example.com");
    assert_eq!(c.api_key, "bWVAZXhhbXBsZS5jb206dG9rZW4tMTIz");
    assert_eq!(c.url, "https://example.atlassian.net/rest/api/3");
    assert_eq!(c.email, "me@example.com");
    assert_eq!(c.api_version, "3");
    assert!(c.user.is_none());
}

#[test]
fn authentication_uses_the_url_safe_alphabet() {
    let c = jira_authentication("https://x", "b??>", "2", "a");
    assert_eq!(c.api_key, "YTpiPz8-");
    assert_eq!(c.url, "https://x/rest/api/2");
}

#[test]
fn every_request_carries_json_headers_and_basic_authorization() {
    let headers = client().get_basic_auth();
    assert_eq!(
        headers,
        vec![
            ("content-type".to_string(), "application/json".to_string()),
            ("accept".to_string(), "application/json".to_string()),
            ("authorization".to_string(), "Basic a2V5".to_string()),
        ]
    );
}

#[test]
fn api_addresses_and_paths() {
    let c = client();
    assert_eq!(c.get_domain(), "https://example.atlassian.net/rest/api/3");
    assert_eq!(c.api_url("myself"), "https://example.atlassian.net/rest/api/3/myself");
    assert_eq!(c.current_user_path(), "user/search?query=me@example.com");
    assert_eq!(JiraProjectsAPI::project_path("ABC"), "project/ABC");
    assert_eq!(JiraTicketsAPI::ticket_path("ABC-1"), "/issue/ABC-1?expand=renderedFields");
    assert_eq!(JiraTicketsAPI::ticket_types_path("10001"), "/issuetype/project?projectId=10001");
    let t = ticket("ABC-7", "ABC");
    assert_eq!(t.comments_path(), "/issue/ABC-7/comment?expand=renderedBody");
    assert_eq!(t.transitions_path(), "/issue/ABC-7/transitions?expand=transitions.fields");
    assert_eq!(t.transition_path(), "/issue/ABC-7/transitions");
}

#[test]
fn the_first_account_found_is_the_current_user() {
    let mut c = client();
    c.set_current_user(&Vec::new());
    assert!(c.user.is_none());
    let found = vec![
        UserData { account_id: "1".to_string(), display_name: "Me".to_string() },
        UserData { account_id: "2".to_string(), display_name: "Other".to_string() },
    ];
    c.set_current_user(&found);
    assert_eq!(c.user.unwrap().account_id, "1");
}

#[test]
fn empty_pages_and_forms() {
    let p = JiraProjectsAPI::new();
    assert!(p.is_last);
    assert!(p.values.is_empty());
    let d = JiraProjectsAPI::default();
    assert!(!d.is_last);
    assert_eq!(d.total, 0);
    let t = JiraTicketsAPI::new();
    assert_eq!(t.total, 0);
    assert!(t.issues.is_empty() && t.start_at.is_none());
    let c = CreateTicket::new();
    assert!(c.summary.is_empty() && c.description.is_empty() && c.ticket_types.is_empty());
    let i = JiraIssues::new();
    assert!(i.issues.is_empty() && i.total.is_none() && i.start_at.is_none());
}

#[test]
fn a_new_session_starts_on_the_first_pages() {
    let j = Jira::new(client(), None, None);
    assert_eq!(j.project_start_at, 0);
    assert_eq!(j.project_max_results, PAGE_SIZE);
    assert_eq!(j.tickets_start_at, 0);
    assert_eq!(j.tickets_max_results, 50);
    assert!(j.projects.values.is_empty());
}

#[test]
fn ticket_query_without_a_filter_selects_the_project() {
    let j = Jira::new(client(), None, None);
    assert_eq!(j.ticket_jql("ABC"), "project = ABC");
}

#[test]
fn ticket_query_for_the_current_user_only() {
    let j = Jira::new(client(), None, filter(Some(true), None));
    assert_eq!(j.ticket_jql("ABC"), "project = ABC AND assignee = currentuser()");
    let j = Jira::new(client(), None, filter(Some(false), None));
    assert_eq!(j.ticket_jql("ABC"), "project = ABC");
}

#[test]
fn ticket_query_with_statuses() {
    let j = Jira::new(client(), None, filter(None, Some(vec!["To Do", "In Progress"])));
    assert_eq!(j.ticket_jql("ABC"), "project = ABC AND (Status = \"To Do\" OR Status = \"In Progress\")");
    let j = Jira::new(client(), None, filter(Some(true), Some(vec!["Done"])));
    assert_eq!(j.ticket_jql("XY"), "project = XY AND assignee = currentuser() AND (Status = \"Done\")");
    let j = Jira::new(client(), None, filter(None, Some(Vec::new())));
    assert_eq!(j.ticket_jql("ABC"), "project = ABC");
}

#[test]
fn ticket_search_address_and_parameters() {
    let mut j = Jira::new(client(), None, filter(Some(true), None));
    assert_eq!(j.tickets_search_url(), "https://example.atlassian.net/rest/api/3/search");
    j.begin_next_ticket_page();
    assert_eq!(
        j.tickets_search_params("ABC"),
        vec![
            ("maxResults".to_string(), "50".to_string()),
            ("jql".to_string(), "project = ABC AND assignee = currentuser()".to_string()),
            ("expand".to_string(), "renderedFields".to_string()),
            ("startAt".to_string(), "50".to_string()),
        ]
    );
}

#[test]
fn project_search_address() {
    let j = Jira::new(client(), None, None);
    assert_eq!(
        j.projects_search_url(),
        "https://example.atlassian.net/rest/api/3/project/search?maxResults=50&startAt=0"
    );
    let j = Jira::new(client(), Some(JiraConfigProjects { default_projects: "ABC,DEF".to_string() }), None);
    assert_eq!(j.projects_search_url(), "https://example.atlassian.net/rest/api/3/project/search?keys=ABC,DEF");
}

#[test]
fn next_then_previous_ticket_page_returns_to_the_page() {
    let mut j = Jira::new(client(), None, None);
    j.begin_next_ticket_page();
    j.begin_next_ticket_page();
    assert_eq!(j.tickets_start_at, 100);
    let start = j.begin_next_ticket_page();
    assert_eq!(start, 150);
    j.get_previous_tickets_page();
    assert_eq!(j.tickets_start_at, 100);
    assert!(j.tickets.issues.is_empty());
}

#[test]
fn previous_ticket_page_stops_at_the_first_ticket() {
    let mut j = Jira::new(client(), None, None);
    j.get_previous_tickets_page();
    assert_eq!(j.tickets_start_at, 0);
}

#[test]
fn next_project_page_from_the_cache_or_from_jira() {
    let mut j = Jira::new(client(), None, None);
    assert_eq!(j.begin_next_project_page(), 50);
    assert!(j.finish_next_project_page(vec![project("A"), project("B")]));
    assert_eq!(j.project_start_at, 50);
    assert_eq!(j.projects.values.len(), 2);
    assert_eq!(j.begin_next_project_page(), 100);
    assert!(!j.finish_next_project_page(Vec::new()));
    assert_eq!(j.project_start_at, 50);
    assert!(j.projects.values.is_empty());
}

#[test]
fn next_then_previous_project_page_returns_to_the_page() {
    let mut j = Jira::new(client(), None, None);
    j.begin_next_project_page();
    j.begin_next_project_page();
    j.get_projects_previous_page();
    assert_eq!(j.project_start_at, 50);
    j.get_projects_previous_page();
    assert_eq!(j.project_start_at, 0);
    j.get_projects_previous_page();
    assert_eq!(j.project_start_at, 0);
}

#[test]
fn next_ticket_page_is_cached_fetched_or_stays() {
    let mut j = Jira::new(client(), None, None);
    j.tickets.total = 120;
    j.begin_next_ticket_page();
    assert_eq!(j.finish_next_ticket_page(vec![ticket("A-1", "A")]), NextTicketPage::Cached);
    assert_eq!(j.tickets_start_at, 50);
    j.begin_next_ticket_page();
    assert_eq!(j.finish_next_ticket_page(Vec::new()), NextTicketPage::Fetch);
    assert_eq!(j.tickets_start_at, 100);
    assert!(j.tickets.issues.is_empty());
    j.tickets.issues.push(ticket("A-101", "A"));
    j.begin_next_ticket_page();
    assert_eq!(j.finish_next_ticket_page(Vec::new()), NextTicketPage::Stay);
    assert_eq!(j.tickets_start_at, 100);
    assert_eq!(j.tickets.issues.len(), 1);
}

#[test]
fn cached_pages_and_remembered_entries() {
    let mut j = Jira::new(client(), None, None);
    assert!(!j.use_cached_projects(Vec::new()));
    assert!(j.use_cached_projects(vec![project("A")]));
    j.remember_project(project("B"));
    assert_eq!(j.projects.values.len(), 2);
    assert_eq!(j.projects.values[1].key, "B");
    assert!(j.use_cached_tickets(Vec::new()));
    assert!(!j.use_cached_tickets(vec![ticket("A-1", "A")]));
    j.remember_ticket(ticket("A-2", "A"));
    assert_eq!(j.tickets.issues.len(), 2);
    assert_eq!(j.tickets.issues[1].key, "A-2");
}

#[test]
fn a_description_is_shown_as_markdown() {
    let mut t = ticket("ABC-1", "ABC");
    t.rendered_fields.description = "It read:<s> Nobody will ever love you</s>".to_string();
    let (summary, description) = DescriptionWidget::draw_texts(Some(&t)).unwrap();
    assert_eq!(summary, "Summary of ABC-1");
    assert_eq!(description, "It read: ~~Nobody will ever love you~~");
    assert!(DescriptionWidget::draw_texts(None).is_none());
}

#[test]
fn a_markdown_heading_becomes_an_atlassian_heading() {
    let body = comment_request_body("# Hi Mercury!");
    let v: serde_json::Value = serde_json::from_str(&body).unwrap();
    assert_eq!(v["body"]["type"], "doc");
    assert_eq!(v["body"]["version"], 1);
    assert_eq!(v["body"]["content"][0]["type"], "heading");
    assert_eq!(v["body"]["content"][0]["attrs"]["level"], 1);
    assert_eq!(v["body"]["content"][0]["content"][0]["text"], "Hi Mercury!");
}

#[test]
fn a_comment_is_sent_as_an_atlassian_document_body() {
    let body = comment_request_body("# Hello World");
    assert!(body.starts_with("{ \"body\": "));
    assert!(body.ends_with(" }"));
    let v: serde_json::Value = serde_json::from_str(&body).unwrap();
    assert_eq!(v["body"]["type"], "doc");
    assert_eq!(v["body"]["content"][0]["type"], "heading");
    assert_eq!(v["body"]["content"][0]["content"][0]["text"], "Hello World");
}
