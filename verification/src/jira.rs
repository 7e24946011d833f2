pub mod auth;
pub mod issue;
pub mod projects;
pub mod tickets;

use vstd::prelude::*;
use crate::config::{JiraConfigProjects, JiraConfigTickets};
use crate::text::{concat2, concat3, decimal, decimal_string, joined, views};
use self::auth::JiraClient;
use self::projects::{JiraProjectsAPI, Project};
use self::tickets::{JiraTicketsAPI, TicketData};

verus! {

/// The tickets of a project as the local cache stores them.
#[derive(Debug, Clone)]
pub struct DBTicketData {
    pub id: String,
    pub key: String,
    pub tickets: Vec<TicketData>,
}

/// The page size of project and ticket listings.
pub const PAGE_SIZE: u32 = 50;

/// The Jira session: the API client, the pages of projects and tickets on screen, where
/// those pages start, and the user's filters. The local cache itself stays with the caller.
pub struct Jira {
    pub client: JiraClient,
    pub projects: JiraProjectsAPI,
    pub project_start_at: u32,
    pub project_max_results: u32,
    pub tickets_start_at: u32,
    pub tickets_max_results: u32,
    pub tickets: JiraTicketsAPI,
    pub user_config_projects: Option<JiraConfigProjects>,
    pub user_config_tickets: Option<JiraConfigTickets>,
}

/// What follows a look into the cache for the next page of tickets.
#[derive(Debug, Clone, Copy, PartialEq, Eq, Structural)]
pub enum NextTicketPage {
    /// The cache held the page, which is now on screen.
    Cached,
    /// The page is to be fetched from Jira, starting where `tickets_start_at` says.
    Fetch,
    /// There is no further page: the current one stays.
    Stay,
}

/// Where the previous page of projects starts. A page start of zero stays zero.
pub open spec fn previous_project_start(start: u32, max: u32) -> int {
    if start >= 1 { start - max } else { start as int }
}

/// Where the previous page of tickets starts, never before the first ticket.
pub open spec fn previous_ticket_start(start: u32, max: u32) -> int {
    if start >= max { start - max } else { 0 }
}

/// A status filter term.
pub open spec fn status_term(status: Seq<char>) -> Seq<char> {
    "Status = \""@ + status + "\""@
}

/// The statuses that a ticket filter admits, none when it names none.
pub open spec fn filter_statuses(filter: JiraConfigTickets) -> Seq<Seq<char>> {
    match filter.show_ticket_status {
        Some(statuses) => views(statuses@),
        None => Seq::empty(),
    }
}

/// The JQL query that selects the tickets of a project: only the current user's when the
/// filter says so, and only those in one of the statuses the filter names, if it names any.
pub open spec fn ticket_jql(project_key: Seq<char>, filter: Option<JiraConfigTickets>) -> Seq<char> {
    let base = "project = "@ + project_key;
    match filter {
        None => base,
        Some(f) => {
            let mine = if f.current_user_tickets_only == Some(true) {
                base + " AND assignee = currentuser()"@
            } else {
                base
            };
            let statuses = filter_statuses(f);
            if statuses.len() > 0 {
                mine + " AND ("@ + joined(statuses.map_values(|s: Seq<char>| status_term(s)), " OR "@) + ")"@
            } else {
                mine
            }
        },
    }
}

/// The characters of each query parameter name and value.
pub open spec fn param_views(params: Seq<(String, String)>) -> Seq<(Seq<char>, Seq<char>)> {
    params.map_values(|p: (String, String)| (p.0@, p.1@))
}

impl Jira {
    /// The client, the page sizes and the user's filters are those of `other`.
    pub open spec fn keeps_settings(&self, other: &Self) -> bool {
        &&& self.client == other.client
        &&& self.project_max_results == other.project_max_results
        &&& self.tickets_max_results == other.tickets_max_results
        &&& self.user_config_projects == other.user_config_projects
        &&& self.user_config_tickets == other.user_config_tickets
    }

    /// A session that shows the first pages, fifty projects or tickets long.
    pub fn new(
        client: JiraClient,
        user_config_projects: Option<JiraConfigProjects>,
        user_config_tickets: Option<JiraConfigTickets>,
    ) -> (j: Self)
        ensures
            j.client == client,
            j.projects.values@.len() == 0,
            j.project_start_at == 0,
            j.project_max_results == PAGE_SIZE,
            j.tickets_start_at == 0,
            j.tickets_max_results == PAGE_SIZE,
            j.tickets.total == 0,
            j.tickets.issues@.len() == 0,
            j.user_config_projects == user_config_projects,
            j.user_config_tickets == user_config_tickets,
    {
        Jira {
            client,
            projects: JiraProjectsAPI::new(),
            project_start_at: 0,
            project_max_results: PAGE_SIZE,
            tickets_start_at: 0,
            tickets_max_results: PAGE_SIZE,
            tickets: JiraTicketsAPI::new(),
            user_config_projects,
            user_config_tickets,
        }
    }

    /// Moves the project page start one page on, to look the next page up in the cache.
    pub fn begin_next_project_page(&mut self) -> (start: u32)
        requires
            old(self).project_start_at + old(self).project_max_results <= u32::MAX,
        ensures
            start == final(self).project_start_at,
            final(self).project_start_at == old(self).project_start_at + old(self).project_max_results,
            final(self).project_max_results == old(self).project_max_results,
            final(self).projects == old(self).projects,
            final(self).tickets == old(self).tickets,
            final(self).tickets_start_at == old(self).tickets_start_at,
            final(self).keeps_settings(old(self)),
    {
        self.project_start_at = self.project_start_at + self.project_max_results;
        self.project_start_at
    }

    /// Takes the cache's answer for the next page of projects. A page the cache holds goes
    /// on screen (`true`); otherwise the listing is emptied, the page start moves back, and
    /// the next page is to be fetched from Jira (`false`).
    pub fn finish_next_project_page(&mut self, cached: Vec<Project>) -> (from_cache: bool)
        requires
            old(self).project_start_at >= old(self).project_max_results,
        ensures
            from_cache == (cached@.len() > 0),
            from_cache ==> final(self).projects.values@ == cached@
                && final(self).project_start_at == old(self).project_start_at,
            !from_cache ==> final(self).projects.values@.len() == 0
                && final(self).project_start_at == old(self).project_start_at - old(self).project_max_results,
            final(self).projects.next_page == old(self).projects.next_page,
            final(self).project_max_results == old(self).project_max_results,
            final(self).tickets == old(self).tickets,
            final(self).tickets_start_at == old(self).tickets_start_at,
            final(self).keeps_settings(old(self)),
            final(self).projects == (JiraProjectsAPI { values: final(self).projects.values, ..old(self).projects }),
    {
        if cached.len() > 0 {
            self.projects.values = cached;
            true
        } else {
            self.projects.values.clear();
            self.project_start_at = self.project_start_at - self.project_max_results;
            false
        }
    }

    /// Moves the project page start one page back, unless it is at the start, and empties
    /// the listing; the page is then looked up again.
    pub fn get_projects_previous_page(&mut self)
        requires
            old(self).project_start_at >= 1 ==> old(self).project_start_at >= old(self).project_max_results,
        ensures
            final(self).project_start_at == previous_project_start(old(self).project_start_at, old(self).project_max_results),
            final(self).projects.values@.len() == 0,
            final(self).project_max_results == old(self).project_max_results,
            final(self).tickets == old(self).tickets,
            final(self).tickets_start_at == old(self).tickets_start_at,
            final(self).keeps_settings(old(self)),
            final(self).projects == (JiraProjectsAPI { values: final(self).projects.values, ..old(self).projects }),
    {
        if self.project_start_at >= 1 {
            self.project_start_at = self.project_start_at - self.project_max_results;
        }
        self.projects.values.clear();
    }

    /// Takes the cache's answer for the current page of projects: a page the cache holds
    /// goes on screen (`true`); otherwise the page is to be fetched from Jira (`false`).
    pub fn use_cached_projects(&mut self, cached: Vec<Project>) -> (from_cache: bool)
        ensures
            from_cache == (cached@.len() > 0),
            from_cache ==> final(self).projects.values@ == cached@,
            !from_cache ==> final(self).projects.values@ == old(self).projects.values@,
            final(self).project_start_at == old(self).project_start_at,
            final(self).tickets == old(self).tickets,
            final(self).keeps_settings(old(self)),
            final(self).projects == (JiraProjectsAPI { values: final(self).projects.values, ..old(self).projects }),
            final(self).tickets_start_at == old(self).tickets_start_at,
    {
        if cached.len() > 0 {
            self.projects.values = cached;
            true
        } else {
            false
        }
    }

    /// The address that fetches the first page of projects: the projects the user
    /// configured, or else the first page of all projects.
    pub fn projects_search_url(&self) -> (url: String)
        ensures
            url@ == match self.user_config_projects {
                Some(p) => self.client.url@ + "/project/search?keys="@ + p.default_projects@,
                None => self.client.url@ + "/project/search?maxResults="@
                    + decimal(self.project_max_results as nat) + "&startAt=0"@,
            },
    {
        match &self.user_config_projects {
            Some(p) => concat3(self.client.url.as_str(), "/project/search?keys=", p.default_projects.as_str()),
            None => {
                let max = decimal_string(self.project_max_results as u64);
                let mut url = concat3(self.client.url.as_str(), "/project/search?maxResults=", max.as_str());
                url.append("&startAt=0");
                url
            },
        }
    }

    /// Records a project that was looked up in the cache or in Jira.
    pub fn remember_project(&mut self, project: Project)
        ensures
            final(self).projects.values@ == old(self).projects.values@.push(project),
            final(self).project_start_at == old(self).project_start_at,
            final(self).tickets == old(self).tickets,
            final(self).keeps_settings(old(self)),
            final(self).projects == (JiraProjectsAPI { values: final(self).projects.values, ..old(self).projects }),
            final(self).tickets_start_at == old(self).tickets_start_at,
    {
        self.projects.values.push(project);
    }

    /// Moves the ticket page start one page on, to look the next page up in the cache.
    pub fn begin_next_ticket_page(&mut self) -> (start: u32)
        requires
            old(self).tickets_start_at + old(self).tickets_max_results <= u32::MAX,
        ensures
            start == final(self).tickets_start_at,
            final(self).tickets_start_at == old(self).tickets_start_at + old(self).tickets_max_results,
            final(self).tickets_max_results == old(self).tickets_max_results,
            final(self).tickets == old(self).tickets,
            final(self).projects == old(self).projects,
            final(self).project_start_at == old(self).project_start_at,
            final(self).keeps_settings(old(self)),
    {
        self.tickets_start_at = self.tickets_start_at + self.tickets_max_results;
        self.tickets_start_at
    }

    /// Takes the cache's answer for the next page of tickets. A page the cache holds goes on
    /// screen. Otherwise, when Jira has tickets past the current page, the listing is emptied
    /// and the next page is to be fetched; when it has none, the current page stays.
    pub fn finish_next_ticket_page(&mut self, cached: Vec<TicketData>) -> (next: NextTicketPage)
        requires
            old(self).tickets_start_at >= old(self).tickets_max_results,
        ensures
            cached@.len() > 0 ==> next == NextTicketPage::Cached
                && final(self).tickets.issues@ == cached@
                && final(self).tickets_start_at == old(self).tickets_start_at,
            cached@.len() == 0 && old(self).tickets_start_at < old(self).tickets.total ==>
                next == NextTicketPage::Fetch
                && final(self).tickets.issues@.len() == 0
                && final(self).tickets_start_at == old(self).tickets_start_at,
            cached@.len() == 0 && old(self).tickets_start_at >= old(self).tickets.total ==>
                next == NextTicketPage::Stay
                && final(self).tickets.issues@ == old(self).tickets.issues@
                && final(self).tickets_start_at == old(self).tickets_start_at - old(self).tickets_max_results,
            final(self).tickets.total == old(self).tickets.total,
            final(self).tickets_max_results == old(self).tickets_max_results,
            final(self).projects == old(self).projects,
            final(self).project_start_at == old(self).project_start_at,
            final(self).keeps_settings(old(self)),
            final(self).tickets == (JiraTicketsAPI { issues: final(self).tickets.issues, ..old(self).tickets }),
    {
        if cached.len() > 0 {
            self.tickets.issues = cached;
            return NextTicketPage::Cached;
        }
        self.tickets_start_at = self.tickets_start_at - self.tickets_max_results;
        if self.tickets_start_at + self.tickets_max_results < self.tickets.total {
            self.tickets.issues.clear();
            self.tickets_start_at = self.tickets_start_at + self.tickets_max_results;
            return NextTicketPage::Fetch;
        }
        NextTicketPage::Stay
    }

    /// Moves the ticket page start one page back, never before the first ticket, and
    /// empties the listing; the page is then looked up again.
    pub fn get_previous_tickets_page(&mut self)
        ensures
            final(self).tickets_start_at == previous_ticket_start(old(self).tickets_start_at, old(self).tickets_max_results),
            final(self).tickets.issues@.len() == 0,
            final(self).tickets.total == old(self).tickets.total,
            final(self).tickets_max_results == old(self).tickets_max_results,
            final(self).projects == old(self).projects,
            final(self).project_start_at == old(self).project_start_at,
            final(self).keeps_settings(old(self)),
            final(self).tickets == (JiraTicketsAPI { issues: final(self).tickets.issues, ..old(self).tickets }),
    {
        self.tickets_start_at = self.tickets_start_at.saturating_sub(self.tickets_max_results);
        self.tickets.issues.clear();
    }

    /// Takes the cache's answer for the current page of tickets; `true` when it was empty
    /// and the page is to be fetched from Jira.
    pub fn use_cached_tickets(&mut self, cached: Vec<TicketData>) -> (fetch: bool)
        ensures
            fetch == (cached@.len() == 0),
            final(self).tickets.issues@ == cached@,
            final(self).tickets.total == old(self).tickets.total,
            final(self).tickets_start_at == old(self).tickets_start_at,
            final(self).projects == old(self).projects,
            final(self).keeps_settings(old(self)),
            final(self).tickets == (JiraTicketsAPI { issues: final(self).tickets.issues, ..old(self).tickets }),
            final(self).project_start_at == old(self).project_start_at,
    {
        let fetch = cached.len() == 0;
        self.tickets.issues = cached;
        fetch
    }

    /// Records a ticket that was looked up in the cache.
    pub fn remember_ticket(&mut self, ticket: TicketData)
        ensures
            final(self).tickets.issues@ == old(self).tickets.issues@.push(ticket),
            final(self).tickets.total == old(self).tickets.total,
            final(self).tickets_start_at == old(self).tickets_start_at,
            final(self).projects == old(self).projects,
            final(self).keeps_settings(old(self)),
            final(self).tickets == (JiraTicketsAPI { issues: final(self).tickets.issues, ..old(self).tickets }),
            final(self).project_start_at == old(self).project_start_at,
    {
        self.tickets.issues.push(ticket);
    }

    /// The JQL query for the tickets of a project, under the user's ticket filter.
    pub fn ticket_jql(&self, project_key: &str) -> (jql: String)
        ensures
            jql@ == ticket_jql(project_key@, self.user_config_tickets),
    {
        let mut jql = concat2("project = ", project_key);
        match &self.user_config_tickets {
            None => {},
            Some(config_tickets) => {
                if config_tickets.current_user_tickets_only == Some(true) {
                    jql.append(" AND assignee = currentuser()");
                }
                let ghost mine = jql@;
                match &config_tickets.show_ticket_status {
                    None => {},
                    Some(statuses) => {
                        if statuses.len() > 0 {
                            let ghost terms = views(statuses@).map_values(|s: Seq<char>| status_term(s));
                            let mut i: usize = 0;
                            while i < statuses.len()
                                invariant
                                    0 <= i <= statuses@.len(),
                                    statuses@.len() > 0,
                                    terms == views(statuses@).map_values(|s: Seq<char>| status_term(s)),
                                    i == 0 ==> jql@ == mine,
                                    i > 0 ==> jql@ == mine + " AND ("@ + joined(terms.take(i as int), " OR "@),
                                decreases statuses@.len() - i,
                            {
                                if i == 0 {
                                    jql.append(" AND (Status = \"");
                                } else {
                                    jql.append(" OR Status = \"");
                                }
                                jql.append(statuses[i].as_str());
                                jql.append("\"");
                                proof {
                                    reveal_strlit(" AND (Status = \"");
                                    reveal_strlit(" AND (");
                                    reveal_strlit("Status = \"");
                                    reveal_strlit(" OR Status = \"");
                                    reveal_strlit(" OR ");
                                    let t = terms.take(i + 1);
                                    assert(t.drop_last() =~= terms.take(i as int));
                                    assert(t.last() == status_term(statuses@[i as int]@));
                                    if i == 0 {
                                        assert(" AND (Status = \""@ =~= " AND ("@ + "Status = \""@);
                                        assert(jql@ =~= mine + " AND ("@ + joined(t, " OR "@));
                                    } else {
                                        assert(" OR Status = \""@ =~= " OR "@ + "Status = \""@);
                                        assert(jql@ =~= mine + " AND ("@ + joined(t, " OR "@));
                                    }
                                }
                                i = i + 1;
                            }
                            jql.append(")");
                            proof {
                                assert(terms.take(statuses@.len() as int) =~= terms);
                            }
                        }
                    },
                }
            },
        }
        jql
    }

    /// The address of the ticket search.
    pub fn tickets_search_url(&self) -> (url: String)
        ensures
            url@ == self.client.url@ + "/search"@,
    {
        concat2(self.client.url.as_str(), "/search")
    }

    /// The query parameters of the ticket search for the current page of a project.
    pub fn tickets_search_params(&self, project_key: &str) -> (params: Vec<(String, String)>)
        ensures
            param_views(params@) == seq![
                ("maxResults"@, decimal(self.tickets_max_results as nat)),
                ("jql"@, ticket_jql(project_key@, self.user_config_tickets)),
                ("expand"@, "renderedFields"@),
                ("startAt"@, decimal(self.tickets_start_at as nat)),
            ],
    {
        let mut params = Vec::new();
        params.push((String::from_str("maxResults"), decimal_string(self.tickets_max_results as u64)));
        params.push((String::from_str("jql"), self.ticket_jql(project_key)));
        params.push((String::from_str("expand"), String::from_str("renderedFields")));
        params.push((String::from_str("startAt"), decimal_string(self.tickets_start_at as u64)));
        proof {
            assert(param_views(params@) =~= seq![
                ("maxResults"@, decimal(self.tickets_max_results as nat)),
                ("jql"@, ticket_jql(project_key@, self.user_config_tickets)),
                ("expand"@, "renderedFields"@),
                ("startAt"@, decimal(self.tickets_start_at as nat)),
            ]);
        }
        params
    }
}

/// Going one page of tickets on and then one page back returns to the same page.
pub proof fn law_next_then_previous_ticket_page(start: u32, max: u32)
    requires
        start + max <= u32::MAX,
    ensures
        previous_ticket_start((start + max) as u32, max) == start,
{
}

/// Going one page of projects on and then one page back returns to the same page.
pub proof fn law_next_then_previous_project_page(start: u32, max: u32)
    requires
        start + max <= u32::MAX,
    ensures
        previous_project_start((start + max) as u32, max) == start,
{
}

/// Each status that a ticket filter names adds one term to the query, in the order of the
/// list. Of two filters that differ only in that the second lists one more status at the
/// end, the second's query is the first's with that status added: the first status opens
/// the bracketed group ` AND (Status = "<status>")`, and each later one adds
/// ` OR Status = "<status>"` before the closing bracket.
pub proof fn law_each_status_adds_a_term(key: Seq<char>, f: JiraConfigTickets, g: JiraConfigTickets, status: Seq<char>)
    requires
        g.current_user_tickets_only == f.current_user_tickets_only,
        filter_statuses(g) == filter_statuses(f).push(status),
    ensures
        filter_statuses(f).len() == 0 ==> ticket_jql(key, Some(g))
            == ticket_jql(key, Some(f)) + " AND (Status = \""@ + status + "\")"@,
        filter_statuses(f).len() > 0 ==> ticket_jql(key, Some(g))
            == ticket_jql(key, Some(f)).drop_last() + " OR Status = \""@ + status + "\")"@,
{
    reveal_strlit(" AND (Status = \"");
    reveal_strlit("\")");
    reveal_strlit(" OR Status = \"");
    reveal_strlit(" AND (");
    reveal_strlit(" OR ");
    reveal_strlit("Status = \"");
    reveal_strlit("\"");
    reveal_strlit(")");
    let base = "project = "@ + key;
    let mine = if f.current_user_tickets_only == Some(true) { base + " AND assignee = currentuser()"@ } else { base };
    let before = filter_statuses(f);
    let terms = before.map_values(|s: Seq<char>| status_term(s));
    let more = filter_statuses(g).map_values(|s: Seq<char>| status_term(s));
    assert(more =~= terms.push(status_term(status)));
    if before.len() == 0 {
        assert(ticket_jql(key, Some(f)) == mine);
        assert(joined(more, " OR "@) == status_term(status));
        assert(ticket_jql(key, Some(g)) =~= mine + " AND (Status = \""@ + status + "\")"@);
    } else {
        assert(more.drop_last() =~= terms);
        assert(joined(more, " OR "@) == joined(terms, " OR "@) + " OR "@ + status_term(status));
        let old_jql = mine + " AND ("@ + joined(terms, " OR "@) + ")"@;
        assert(ticket_jql(key, Some(f)) == old_jql);
        assert(old_jql.drop_last() =~= mine + " AND ("@ + joined(terms, " OR "@));
        assert(ticket_jql(key, Some(g)) =~= old_jql.drop_last() + " OR Status = \""@ + status + "\")"@);
    }
}

/// Without a filter the query selects the project's tickets alone; a filter that names no
/// status adds at most the condition that the current user is the assignee, when it asks
/// for that.
pub proof fn law_query_without_statuses(key: Seq<char>, f: JiraConfigTickets)
    requires
        filter_statuses(f).len() == 0,
    ensures
        ticket_jql(key, None) == "project = "@ + key,
        f.current_user_tickets_only == Some(true)
            ==> ticket_jql(key, Some(f)) == "project = "@ + key + " AND assignee = currentuser()"@,
        f.current_user_tickets_only != Some(true) ==> ticket_jql(key, Some(f)) == "project = "@ + key,
{
}

} // verus!
