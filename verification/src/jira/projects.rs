use vstd::prelude::*;
use crate::text::concat2;

verus! {

/// A Jira project.
#[derive(Debug)]
pub struct Project {
    pub project_id: String,
    pub key: String,
    pub name: String,
}

impl Clone for Project {
    fn clone(&self) -> (r: Self)
        ensures
            r == *self,
    {
        Project { project_id: self.project_id.clone(), key: self.key.clone(), name: self.name.clone() }
    }
}

/// One page of a project search.
#[derive(Debug, Clone)]
pub struct JiraProjectsAPI {
    pub is_last: bool,
    pub max_results: u32,
    pub next_page: Option<String>,
    pub start_at: u32,
    pub total: u32,
    pub values: Vec<Project>,
}

impl Default for JiraProjectsAPI {
    fn default() -> (p: Self)
        ensures
            !p.is_last,
            p.max_results == 0,
            p.next_page is None,
            p.start_at == 0,
            p.total == 0,
            p.values@ == Seq::<Project>::empty(),
    {
        JiraProjectsAPI {
            is_last: false,
            max_results: 0,
            next_page: None,
            start_at: 0,
            total: 0,
            values: Vec::new(),
        }
    }
}

impl JiraProjectsAPI {
    /// An empty last page.
    pub fn new() -> (p: Self)
        ensures
            p.is_last,
            p.max_results == 0,
            p.next_page is None,
            p.start_at == 0,
            p.total == 0,
            p.values@ == Seq::<Project>::empty(),
    {
        Self {
            is_last: true,
            max_results: 0,
            next_page: None,
            start_at: 0,
            total: 0,
            values: Vec::new(),
        }
    }

    /// The API path of a project.
    pub fn project_path(project_key: &str) -> (p: String)
        ensures
            p@ == "project/"@ + project_key@,
    {
        concat2("project/", project_key)
    }
}

} // verus!
