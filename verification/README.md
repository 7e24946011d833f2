# jirust

A terminal client for Jira: browse projects and their tickets, find either by key, read a ticket's
description, labels, components, parent and comments, add comments, and move a ticket
through its workflow transitions.

## Layout

- `src/` is the library, verified with Verus. It holds the key bindings and key names,
  the list cursors and scroll offsets of every pane, the text inputs, the navigation
  between panes (`app.rs`), the paging of projects and tickets, the Jira query and request
  texts (`jira/`), and the conversions between HTML, Markdown and Atlassian documents
  (`markup.rs`). Calls into other crates (Base64, HTML and Markdown conversion, fuzzy
  search) go through small trusted wrappers whose contracts say what the library relies
  on.
- `app/` is the program around it: reading the configuration, the HTTPS calls to the
  Jira REST API, the cache of projects and tickets, drawing with `tui`, and the terminal
  event loop. The library decides what a key does; when that needs Jira or the cache it
  hands back the work to do, and the program reports the outcome back to it.
- `tests/` exercises the library on concrete values.

## Configuration

The program reads `~/.config/jirust/config.toml` (the Jira `domain`, `user_email`, and
optionally `projects.default_projects` and a `tickets` filter) and the API token from the
`JIRA_API_KEY` environment variable.
