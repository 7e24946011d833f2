use vstd::prelude::*;
use crate::text::{concat3, concat2};
use crate::markup::{markdown_to_html, html_to_adf, html_of_markdown, adf_of_html};

verus! {

/// Summary fields of a linked or parent ticket.
#[derive(Debug)]
pub struct LinkFields {
    pub issuetype: TicketType,
    pub priority: Option<Priority>,
    pub status: Status,
    pub summary: String,
}

#[derive(Debug, Clone)]
pub struct LinkType {
    pub inward: String,
    pub outward: String,
}

/// A ticket that another ticket links to, or its parent.
#[derive(Debug)]
pub struct LinkInwardOutwardParent {
    pub fields: LinkFields,
    pub key: String,
}

#[derive(Debug, Clone)]
pub struct Links {
    pub inward_issue: Option<LinkInwardOutwardParent>,
    pub outward_issue: Option<LinkInwardOutwardParent>,
    pub link_type: LinkType,
}

#[derive(Debug, Clone)]
pub struct CreatorReporter {
    pub display_name: String,
}

#[derive(Debug, Clone)]
pub struct Assignee {
    pub display_name: String,
}

/// The HTML rendering of a ticket's description.
#[derive(Debug, Clone)]
pub struct RenderedFields {
    pub description: String,
}

#[derive(Debug, Clone)]
pub struct Components {
    pub name: String,
}

#[derive(Debug, Clone)]
pub struct ProjectDetails {
    pub key: String,
    pub name: String,
}

#[derive(Debug)]
pub struct Status {
    pub name: String,
}

#[derive(Debug)]
pub struct Priority {
    pub name: String,
}

#[derive(Debug)]
pub struct TicketType {
    pub id: String,
    pub name: String,
    pub subtask: bool,
}

#[derive(Debug, Clone)]
pub struct FieldAuthor {
    pub display_name: String,
    pub active: bool,
}

/// One comment of a ticket, with its body rendered as HTML.
#[derive(Debug, Clone)]
pub struct CommentBody {
    pub author: FieldAuthor,
    pub created: String,
    pub rendered_body: String,
    pub updated: String,
    pub update_author: FieldAuthor,
}

#[derive(Debug, Clone)]
pub struct Comments {
    pub comments: Vec<CommentBody>,
}

#[derive(Debug, Clone)]
pub struct Fields {
    pub assignee: Option<Assignee>,
    pub comments: Option<Comments>,
    pub components: Vec<Components>,
    pub creator: Option<CreatorReporter>,
    pub issuelinks: Vec<Links>,
    pub issuetype: TicketType,
    pub labels: Vec<String>,
    pub parent: Option<LinkInwardOutwardParent>,
    pub priority: Option<Priority>,
    pub project: ProjectDetails,
    pub reporter: Option<CreatorReporter>,
    pub status: Status,
    pub summary: String,
}

/// A Jira ticket.
#[derive(Debug, Clone)]
pub struct TicketData {
    pub fields: Fields,
    pub key: String,
    pub rendered_fields: RenderedFields,
}

/// A value that a select field of a transition screen allows.
#[derive(Debug)]
pub struct CustomFieldAllowedValues {
    pub id: String,
    pub value: String,
}

#[derive(Debug, Clone)]
pub struct CustomFieldSchema {
    pub custom: Option<String>,
    pub custom_id: Option<u32>,
}

#[derive(Debug, Clone)]
pub struct CustomFieldValues {
    pub name: String,
    pub key: String,
    pub schema: Option<CustomFieldSchema>,
    pub allowed_values: Option<Vec<CustomFieldAllowedValues>>,
}

/// The fields of a transition screen, by field identifier, in the order Jira listed them.
#[derive(Debug, Clone)]
pub struct CustomField {
    pub values: Option<Vec<(String, CustomFieldValues)>>,
}

/// A state change that a ticket can go through.
#[derive(Debug, Clone)]
pub struct TicketTransition {
    pub id: String,
    pub name: Option<String>,
    pub has_screen: Option<bool>,
    pub fields: Option<CustomField>,
}

#[derive(Debug, Clone)]
pub struct TicketTransitions {
    pub transitions: Vec<TicketTransition>,
}

/// The request that moves a ticket through a transition.
#[derive(Debug, Clone)]
pub struct PostTicketTransition {
    pub transition: TicketTransition,
}

impl Clone for Status {
    fn clone(&self) -> (r: Self)
        ensures
            r == *self,
    {
        Status { name: self.name.clone() }
    }
}

impl Clone for Priority {
    fn clone(&self) -> (r: Self)
        ensures
            r == *self,
    {
        Priority { name: self.name.clone() }
    }
}

impl Clone for TicketType {
    fn clone(&self) -> (r: Self)
        ensures
            r == *self,
    {
        TicketType { id: self.id.clone(), name: self.name.clone(), subtask: self.subtask }
    }
}

impl Clone for LinkFields {
    fn clone(&self) -> (r: Self)
        ensures
            r == *self,
    {
        LinkFields {
            issuetype: self.issuetype.clone(),
            priority: match &self.priority {
                Some(p) => Some(p.clone()),
                None => None,
            },
            status: self.status.clone(),
            summary: self.summary.clone(),
        }
    }
}

impl Clone for LinkInwardOutwardParent {
    fn clone(&self) -> (r: Self)
        ensures
            r == *self,
    {
        LinkInwardOutwardParent { fields: self.fields.clone(), key: self.key.clone() }
    }
}

impl Clone for CustomFieldAllowedValues {
    fn clone(&self) -> (r: Self)
        ensures
            r == *self,
    {
        CustomFieldAllowedValues { id: self.id.clone(), value: self.value.clone() }
    }
}

impl TicketData {
    /// The API path that lists the ticket's comments, rendered as HTML.
    pub fn comments_path(&self) -> (p: String)
        ensures
            p@ == "/issue/"@ + self.key@ + "/comment?expand=renderedBody"@,
    {
        concat3("/issue/", self.key.as_str(), "/comment?expand=renderedBody")
    }

    /// The API path that lists the transitions the ticket can go through, with their fields.
    pub fn transitions_path(&self) -> (p: String)
        ensures
            p@ == "/issue/"@ + self.key@ + "/transitions?expand=transitions.fields"@,
    {
        concat3("/issue/", self.key.as_str(), "/transitions?expand=transitions.fields")
    }

    /// The API path to which a transition of the ticket is posted.
    pub fn transition_path(&self) -> (p: String)
        ensures
            p@ == "/issue/"@ + self.key@ + "/transitions"@,
    {
        concat3("/issue/", self.key.as_str(), "/transitions")
    }
}

/// The body of the request that adds a comment: the comment, written in Markdown, is
/// rendered as HTML, converted to an Atlassian document, and wrapped as its `body`.
pub open spec fn comment_request(comment: Seq<char>) -> Seq<char> {
    "{ \"body\": "@ + adf_of_html(html_of_markdown(comment)) + " }"@
}

/// Writes the body of the request that adds `comment` to a ticket.
pub fn comment_request_body(comment: &str) -> (body: String)
    ensures
        body@ == comment_request(comment@),
{
    let html = markdown_to_html(comment);
    let adf = html_to_adf(html);
    concat3("{ \"body\": ", adf.as_str(), " }")
}

/// Details of a ticket to be created.
#[derive(Debug, Clone)]
pub struct CreateTicket {
    pub description: String,
    pub project_id: String,
    pub summary: String,
    pub ticket_types: Vec<TicketType>,
}

impl CreateTicket {
    pub fn new() -> (c: Self)
        ensures
            c.description@ == Seq::<char>::empty(),
            c.project_id@ == Seq::<char>::empty(),
            c.summary@ == Seq::<char>::empty(),
            c.ticket_types@ == Seq::<TicketType>::empty(),
    {
        Self {
            description: String::new(),
            project_id: String::new(),
            summary: String::new(),
            ticket_types: Vec::new(),
        }
    }
}

/// One page of a ticket search.
#[derive(Debug, Clone)]
pub struct JiraTicketsAPI {
    pub start_at: Option<u32>,
    pub max_results: Option<u32>,
    pub total: u32,
    pub issues: Vec<TicketData>,
}

impl JiraTicketsAPI {
    /// An empty page.
    pub fn new() -> (t: Self)
        ensures
            t.start_at is None,
            t.max_results is None,
            t.total == 0,
            t.issues@ == Seq::<TicketData>::empty(),
    {
        Self { start_at: None, max_results: None, total: 0, issues: Vec::new() }
    }

    /// The API path of a ticket, with its fields rendered as HTML.
    pub fn ticket_path(ticket_key: &str) -> (p: String)
        ensures
            p@ == "/issue/"@ + ticket_key@ + "?expand=renderedFields"@,
    {
        concat3("/issue/", ticket_key, "?expand=renderedFields")
    }

    /// The API path that lists the ticket types of a project.
    pub fn ticket_types_path(project_id: &str) -> (p: String)
        ensures
            p@ == "/issuetype/project?projectId="@ + project_id@,
    {
        concat2("/issuetype/project?projectId=", project_id)
    }
}

} // verus!
