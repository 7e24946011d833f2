use vstd::prelude::*;
use crate::event::key::Key;

verus! {

/// The Jira settings read from the user's configuration file.
#[derive(Debug, Clone)]
pub struct JiraConfigFile {
    pub api_key: Option<String>,
    pub api_version: Option<String>,
    pub db_file: Option<bool>,
    pub domain: String,
    pub user_email: String,
    pub projects: Option<JiraConfigProjects>,
    pub tickets: Option<JiraConfigTickets>,
}

/// Which tickets a project's ticket list shows.
#[derive(Debug, Clone)]
pub struct JiraConfigTickets {
    pub current_user_tickets_only: Option<bool>,
    pub show_unassgined: Option<bool>,
    pub show_ticket_status: Option<Vec<String>>,
}

/// The projects listed when the application starts, as a comma separated list of keys.
#[derive(Debug, Clone)]
pub struct JiraConfigProjects {
    pub default_projects: String,
}

/// The whole configuration: key bindings and Jira settings.
#[derive(Debug, Clone)]
pub struct Config {
    pub key_config: KeyConfig,
    pub jira_config: JiraConfigFile,
}

/// Credentials of a Jira account.
#[derive(Debug, Clone)]
pub struct JiraConfig {
    pub api_key: String,
    pub api_version: String,
    pub domain: String,
    pub user_email: String,
}

/// The key bound to each command.
#[derive(Debug, Clone, Copy)]
pub struct KeyConfig {
    pub enter: Key,
    pub esc: Key,
    pub exit: Key,
    pub filter: Key,
    pub filter_edit: Key,
    pub move_up: Key,
    pub move_down: Key,
    pub move_left: Key,
    pub move_right: Key,
    pub open_browser: Key,
    pub open_help: Key,
    pub next: Key,
    pub next_page: Key,
    pub previous: Key,
    pub previous_page: Key,
    pub quit: Key,
    pub reset: Key,
    pub scroll_up: Key,
    pub scroll_down: Key,
    pub page_up: Key,
    pub page_down: Key,
    pub scroll_right: Key,
    pub scroll_left: Key,
    pub scroll_down_multiple_lines: Key,
    pub scroll_up_multiple_lines: Key,
    pub scroll_to_top: Key,
    pub scroll_to_bottom: Key,
    pub ticket_transition: Key,
    pub ticket_add_comments: Key,
    pub ticket_view_comments: Key,
    pub edit: Key,
    pub push: Key,
    pub backspace: Key,
}

/// The default key bindings.
pub open spec fn default_key_config() -> KeyConfig {
    KeyConfig {
        enter: Key::Enter,
        esc: Key::Esc,
        exit: Key::Ctrl('c'),
        filter: Key::Char('/'),
        filter_edit: Key::Char('e'),
        move_up: Key::Up,
        move_down: Key::Down,
        move_left: Key::Left,
        move_right: Key::Right,
        next: Key::Tab,
        next_page: Key::Char('n'),
        open_browser: Key::Char('o'),
        open_help: Key::Char('?'),
        page_up: Key::Char('K'),
        page_down: Key::Char('J'),
        previous: Key::BackTab,
        previous_page: Key::Char('N'),
        quit: Key::Char('q'),
        reset: Key::Char('r'),
        scroll_up: Key::Char('k'),
        scroll_down: Key::Char('j'),
        scroll_right: Key::Char('l'),
        scroll_left: Key::Char('h'),
        scroll_down_multiple_lines: Key::Ctrl('d'),
        scroll_up_multiple_lines: Key::Ctrl('u'),
        scroll_to_top: Key::Char('g'),
        scroll_to_bottom: Key::Char('G'),
        ticket_transition: Key::Char('t'),
        ticket_add_comments: Key::Char('C'),
        ticket_view_comments: Key::Char('c'),
        edit: Key::Char('e'),
        push: Key::Char('P'),
        backspace: Key::Backspace,
    }
}

impl Default for KeyConfig {
    fn default() -> (k: Self)
        ensures
            k == default_key_config(),
    {
        KeyConfig {
            enter: Key::Enter,
            esc: Key::Esc,
            exit: Key::Ctrl('c'),
            filter: Key::Char('/'),
            filter_edit: Key::Char('e'),
            move_up: Key::Up,
            move_down: Key::Down,
            move_left: Key::Left,
            move_right: Key::Right,
            next: Key::Tab,
            next_page: Key::Char('n'),
            open_browser: Key::Char('o'),
            open_help: Key::Char('?'),
            page_up: Key::Char('K'),
            page_down: Key::Char('J'),
            previous: Key::BackTab,
            previous_page: Key::Char('N'),
            quit: Key::Char('q'),
            reset: Key::Char('r'),
            scroll_up: Key::Char('k'),
            scroll_down: Key::Char('j'),
            scroll_right: Key::Char('l'),
            scroll_left: Key::Char('h'),
            scroll_down_multiple_lines: Key::Ctrl('d'),
            scroll_up_multiple_lines: Key::Ctrl('u'),
            scroll_to_top: Key::Char('g'),
            scroll_to_bottom: Key::Char('G'),
            ticket_transition: Key::Char('t'),
            ticket_add_comments: Key::Char('C'),
            ticket_view_comments: Key::Char('c'),
            edit: Key::Char('e'),
            push: Key::Char('P'),
            backspace: Key::Backspace,
        }
    }
}

impl JiraConfigFile {
    /// Completes the settings read from the configuration file: the API key comes
    /// from the environment and the REST API version is always "3".
    pub fn with_api_key(self, api_key: String) -> (c: Self)
        ensures
            c.api_key == Some(api_key),
            c.api_version matches Some(v) && v@ == "3"@,
            c.db_file == self.db_file,
            c.domain == self.domain,
            c.user_email == self.user_email,
            c.projects == self.projects,
            c.tickets == self.tickets,
    {
        JiraConfigFile {
            api_key: Some(api_key),
            api_version: Some(String::from_str("3")),
            db_file: self.db_file,
            domain: self.domain,
            user_email: self.user_email,
            projects: self.projects,
            tickets: self.tickets,
        }
    }
}

impl Config {
    /// The configuration with the default key bindings and the given Jira settings.
    pub fn new(jira_config: JiraConfigFile) -> (c: Self)
        ensures
            c.key_config == default_key_config(),
            c.jira_config == jira_config,
    {
        Config { key_config: KeyConfig::default(), jira_config }
    }
}

} // verus!
