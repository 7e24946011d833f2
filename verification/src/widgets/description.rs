use vstd::prelude::*;
use crate::config::KeyConfig;
use crate::event::key::Key;
use crate::jira::tickets::TicketData;
use crate::markup::{parse_html, markdown_of_html};
use super::{EventState, scroll_down_by, scroll_up_by, scrolled_down, scrolled_up};

verus! {

/// The panel with the selected ticket's summary and description.
#[derive(Debug)]
pub struct DescriptionWidget {
    key_config: KeyConfig,
    scroll: u16,
}

/// What a key does to the description panel: the new scroll offset, or nothing.
pub open spec fn description_key_effect(keys: KeyConfig, key: Key, scroll: u16) -> Option<u16> {
    if key == keys.scroll_down {
        Some(scrolled_down(scroll, 1))
    } else if key == keys.scroll_up {
        Some(scrolled_up(scroll, 1))
    } else if key == keys.scroll_down_multiple_lines {
        Some(scrolled_down(scroll, 10))
    } else if key == keys.scroll_up_multiple_lines {
        Some(scrolled_up(scroll, 10))
    } else {
        None
    }
}

impl DescriptionWidget {
    pub closed spec fn keys(&self) -> KeyConfig {
        self.key_config
    }

    /// How far the description is scrolled.
    pub closed spec fn scroll_offset(&self) -> u16 {
        self.scroll
    }

    pub fn new(key_config: KeyConfig) -> (d: Self)
        ensures
            d.keys() == key_config,
            d.scroll_offset() == 0,
    {
        Self { key_config, scroll: 0 }
    }

    /// The scroll offset, as the drawing needs it.
    pub fn scroll(&self) -> (s: u16)
        ensures
            s == self.scroll_offset(),
    {
        self.scroll
    }

    pub fn down(&mut self, lines: u16)
        ensures
            final(self).scroll_offset() == scrolled_down(old(self).scroll_offset(), lines),
            final(self).keys() == old(self).keys(),
    {
        self.scroll = scroll_down_by(self.scroll, lines);
    }

    pub fn up(&mut self, lines: u16)
        ensures
            final(self).scroll_offset() == scrolled_up(old(self).scroll_offset(), lines),
            final(self).keys() == old(self).keys(),
    {
        self.scroll = scroll_up_by(self.scroll, lines);
    }

    /// The summary, and the description converted to Markdown, of the selected ticket.
    pub fn draw_texts(selected_ticket: Option<&TicketData>) -> (texts: Option<(String, String)>)
        ensures
            match selected_ticket {
                None => texts is None,
                Some(t) => texts matches Some((summary, description))
                    && summary@ == t.fields.summary@
                    && description@ == markdown_of_html(t.rendered_fields.description@),
            },
    {
        match selected_ticket {
            None => None,
            Some(ticket) => {
                let summary = ticket.fields.summary.clone();
                let text = parse_html(ticket.rendered_fields.description.as_str());
                Some((summary, text))
            },
        }
    }

    /// What a key does to the widget: `e` says whether it took the key, and `after` is
    /// the widget afterwards.
    pub open spec fn key_step(&self, key: Key, e: EventState, after: Self) -> bool {
        &&& match description_key_effect(self.keys(), key, self.scroll_offset()) {
            Some(s) => e == EventState::Consumed && after.scroll_offset() == s,
            None => e == EventState::NotConsumed && after.scroll_offset() == self.scroll_offset(),
        }
        &&& after.keys() == self.keys()
    }

    pub fn event(&mut self, key: Key) -> (e: EventState)
        ensures
            old(self).key_step(key, e, *final(self)),
    {
        if key == self.key_config.scroll_down {
            self.down(1);
            return EventState::Consumed;
        } else if key == self.key_config.scroll_up {
            self.up(1);
            return EventState::Consumed;
        } else if key == self.key_config.scroll_down_multiple_lines {
            self.down(10);
            return EventState::Consumed;
        } else if key == self.key_config.scroll_up_multiple_lines {
            self.up(10);
            return EventState::Consumed;
        }
        EventState::NotConsumed
    }
}

/// The scroll-up keys scroll the description up and never down: one line, or ten, stopping
/// at the top (where no key checked before them is the same key).
pub proof fn law_scroll_up_keys_scroll_up(w: DescriptionWidget, key: Key, e: EventState, after: DescriptionWidget)
    requires
        w.key_step(key, e, after),
        key == w.keys().scroll_up || key == w.keys().scroll_up_multiple_lines,
        key != w.keys().scroll_down,
        key != w.keys().scroll_down_multiple_lines,
    ensures
        e == EventState::Consumed,
        after.scroll_offset() <= w.scroll_offset(),
        key == w.keys().scroll_up ==> after.scroll_offset() == (if w.scroll_offset() > 1 { w.scroll_offset() - 1 } else { 0 }),
        key != w.keys().scroll_up ==> after.scroll_offset() == (if w.scroll_offset() > 10 { w.scroll_offset() - 10 } else { 0 }),
{
}

} // verus!
