use jirust::config::{Config, JiraConfigFile, KeyConfig};
use jirust::event::key::Key;
use jirust::text::{concat2, concat3, decimal_string, ends_with, join};
use jirust::widgets::commands::{
    counted_command, go_back, help, keyed_command, keys_text, scroll, scroll_to_top_bottom,
    scroll_up_down_multiple_lines, ticket_add_comments, CMD_GROUP_GENERAL,
};

fn jira_settings() -> JiraConfigFile {
    JiraConfigFile {
        api_key: None,
        api_version: None,
        db_file: Some(true),
        domain: "https://example.atlassian.net".to_string(),
        user_email: "me@example.com".to_string(),
        projects: None,
        tickets: None,
    }
}

#[test]
fn key_names_are_written_as_the_help_shows_them() {
    assert_eq!(Key::Enter.to_string(), "<Enter>");
    assert_eq!(Key::Esc.to_string(), "<Esc>");
    assert_eq!(Key::Tab.to_string(), "<Tab>");
    assert_eq!(Key::BackTab.to_string(), "BackTab");
    assert_eq!(Key::Up.to_string(), "<Up Arrow Key>");
    assert_eq!(Key::Left.to_string(), "<Left Arrow Key>");
    assert_eq!(Key::PageDown.to_string(), "<PageDown>");
    assert_eq!(Key::F5.to_string(), "F5");
    assert_eq!(Key::F12.to_string(), "F12");
    assert_eq!(Key::Unknown.to_string(), "Unknown");
}

#[test]
fn character_keys_and_modifiers_are_written_with_the_character() {
    assert_eq!(Key::Char('j').to_string(), "j");
    assert_eq!(Key::Char(' ').to_string(), "<Space>");
    assert_eq!(Key::Ctrl('d').to_string(), "<Ctrl+d>");
    assert_eq!(Key::Ctrl(' ').to_string(), "<Ctrl+Space>");
    assert_eq!(Key::Alt('x').to_string(), "<Alt+x>");
    assert_eq!(Key::Alt(' ').to_string(), "<Alt+Space>");
}

#[test]
fn numbers_are_written_in_decimal() {
    assert_eq!(decimal_string(0), "0");
    assert_eq!(decimal_string(7), "7");
    assert_eq!(decimal_string(50), "50");
    assert_eq!(decimal_string(1234567890), "1234567890");
    assert_eq!(decimal_string(u64::MAX), "18446744073709551615");
}

#[test]
fn texts_are_joined_and_compared_by_suffix() {
    assert_eq!(concat2("ab", "cd"), "abcd");
    assert_eq!(concat3("a", "", "c"), "ac");
    assert!(ends_with("customfield:select", ":select"));
    assert!(ends_with("abc", ""));
    assert!(!ends_with("select", ":select"));
    assert!(!ends_with("a:selects", ":select"));
    let parts = vec!["one".to_string(), "two".to_string(), "three".to_string()];
    assert_eq!(join(&parts, " \n "), "one \n two \n three");
    assert_eq!(join(&Vec::new(), ", "), "");
    assert_eq!(join(&vec!["alone".to_string()], ", "), "alone");
}

#[test]
fn command_texts_list_their_keys_in_brackets() {
    assert_eq!(keys_text("Move ", &[Key::Up, Key::Char('k')]), "Move [<Up Arrow Key>,k]");
    assert_eq!(keys_text("Nothing ", &[]), "Nothing []");
    let c = keyed_command("Open in browser ", Key::Char('o'));
    assert_eq!(c.name, "Open in browser [o]");
    assert_eq!(c.group, CMD_GROUP_GENERAL);
    assert!(!c.hide_help);
    let c = counted_command("Scroll down ", 10, Key::Ctrl('d'));
    assert_eq!(c.name, "Scroll down 10 [<Ctrl+d>]");
}

#[test]
fn general_commands_use_the_default_keys() {
    let k = KeyConfig::default();
    assert_eq!(go_back(&k).name, "Go back [<Esc>]");
    assert_eq!(help(&k).name, "Help [?]");
    assert_eq!(scroll(&k).name, "Scroll up/down/left/right [k,j,h,l]");
    assert_eq!(scroll_up_down_multiple_lines(&k).name, "Scroll up/down multiple lines [<Ctrl+u>,<Ctrl+d>]");
    assert_eq!(scroll_to_top_bottom(&k).name, "Scroll to top/bottom [g,G]");
    assert_eq!(ticket_add_comments(&k).name, "Add comments to ticket [C]");
    assert_eq!(go_back(&k).group, "-- General --");
}

#[test]
fn default_keys_are_the_documented_bindings() {
    let k = KeyConfig::default();
    assert_eq!(k.enter, Key::Enter);
    assert_eq!(k.esc, Key::Esc);
    assert_eq!(k.exit, Key::Ctrl('c'));
    assert_eq!(k.filter, Key::Char('/'));
    assert_eq!(k.next, Key::Tab);
    assert_eq!(k.previous, Key::BackTab);
    assert_eq!(k.next_page, Key::Char('n'));
    assert_eq!(k.previous_page, Key::Char('N'));
    assert_eq!(k.reset, Key::Char('r'));
    assert_eq!(k.ticket_transition, Key::Char('t'));
    assert_eq!(k.ticket_view_comments, Key::Char('c'));
    assert_eq!(k.ticket_add_comments, Key::Char('C'));
}

#[test]
fn a_configuration_takes_the_default_keys_and_the_given_settings() {
    let config = Config::new(jira_settings());
    assert_eq!(config.key_config.quit, Key::Char('q'));
    assert_eq!(config.jira_config.domain, "https://example.atlassian.net");
    assert_eq!(config.jira_config.db_file, Some(true));
}

#[test]
fn the_api_key_completes_the_settings_with_version_three() {
    let settings = jira_settings().with_api_key("token-123".to_string());
    assert_eq!(settings.api_key, Some("token-123".to_string()));
    assert_eq!(settings.api_version, Some("3".to_string()));
    assert_eq!(settings.user_email, "me@example.com");
    assert_eq!(settings.domain, "https://example.atlassian.net");
}
