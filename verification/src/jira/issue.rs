use vstd::prelude::*;

verus! {

/// The project a ticket belongs to, as a ticket search lists it.
#[derive(Debug)]
pub struct TicketProject {
    pub key: String,
    pub name: String,
}

#[derive(Debug)]
pub struct TicketStatus {
    pub name: String,
}

#[derive(Debug)]
pub struct TicketPriority {
    pub name: String,
}

#[derive(Debug)]
pub struct TicketIssueType {
    pub name: String,
    pub subtask: bool,
}

/// The fields of a ticket that a ticket search lists.
#[derive(Debug)]
pub struct TicketFields {
    pub issuetype: TicketIssueType,
    pub priority: TicketPriority,
    pub project: TicketProject,
    pub labels: Vec<String>,
    pub status: TicketStatus,
    pub summary: String,
}

/// A ticket as a ticket search lists it.
#[derive(Debug)]
pub struct TicketData {
    pub key: String,
    pub fields: TicketFields,
}

/// A page of a ticket search.
#[derive(Debug)]
pub struct JiraIssues {
    pub start_at: Option<i32>,
    pub max_results: Option<i32>,
    pub total: Option<i32>,
    pub issues: Vec<TicketData>,
}

impl JiraIssues {
    /// A page that holds no ticket and says nothing of where it starts or how many there are.
    pub fn new() -> (j: Self)
        ensures
            j.start_at is None,
            j.max_results is None,
            j.total is None,
            j.issues@.len() == 0,
    {
        Self { start_at: None, max_results: None, total: None, issues: Vec::new() }
    }
}

} // verus!
