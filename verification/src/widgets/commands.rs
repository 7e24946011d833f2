use vstd::prelude::*;
use crate::config::KeyConfig;
use crate::event::key::{Key, key_text};
use crate::text::{decimal, decimal_string};

verus! {

/// The help group of the commands that every view offers.
pub const CMD_GROUP_GENERAL: &'static str = "-- General --";

/// A line of the command help: its text and its group.
#[derive(Clone, PartialEq, Eq, PartialOrd, Ord, Debug)]
pub struct CommandText {
    pub name: String,
    pub group: &'static str,
    pub hide_help: bool,
}

impl CommandText {
    pub fn new(name: String, group: &'static str) -> (c: Self)
        ensures
            c.name == name,
            c.group == group,
            !c.hide_help,
    {
        Self { name, group, hide_help: false }
    }
}

/// A command shown in the help.
pub struct CommandInfo {
    pub text: CommandText,
}

impl CommandInfo {
    pub fn new(text: CommandText) -> (c: Self)
        ensures
            c.text == text,
    {
        Self { text }
    }
}

/// The keys, separated by commas.
pub open spec fn keys_joined(keys: Seq<Key>) -> Seq<char>
    decreases keys.len(),
{
    if keys.len() == 0 {
        Seq::empty()
    } else if keys.len() == 1 {
        key_text(keys[0])
    } else {
        keys_joined(keys.drop_last()) + ","@ + key_text(keys.last())
    }
}

/// `label` followed by the keys, separated by commas, between square brackets.
pub open spec fn keys_in_brackets(label: Seq<char>, keys: Seq<Key>) -> Seq<char> {
    label + "["@ + keys_joined(keys) + "]"@
}

/// Writes `label` followed by the keys, separated by commas, between square brackets.
pub fn keys_text(label: &str, keys: &[Key]) -> (s: String)
    ensures
        s@ == keys_in_brackets(label@, keys@),
{
    let mut s = String::from_str(label);
    s.append("[");
    let mut i: usize = 0;
    while i < keys.len()
        invariant
            0 <= i <= keys@.len(),
            s@ == label@ + "["@ + keys_joined(keys@.take(i as int)),
        decreases keys@.len() - i,
    {
        if i > 0 {
            s.append(",");
        }
        let k = keys[i].to_string();
        s.append(k.as_str());
        proof {
            let t = keys@.take(i + 1);
            assert(t.drop_last() =~= keys@.take(i as int));
            assert(t.last() == keys@[i as int]);
            if i == 0 {
                assert(keys@.take(0) =~= Seq::<Key>::empty());
                assert(s@ =~= label@ + "["@ + keys_joined(t));
            } else {
                assert(s@ =~= label@ + "["@ + keys_joined(t));
            }
        }
        i = i + 1;
    }
    s.append("]");
    proof {
        assert(keys@.take(keys@.len() as int) =~= keys@);
    }
    s
}

/// A general command whose text is `label` followed by its key in brackets.
pub fn keyed_command(label: &str, key: Key) -> (c: CommandText)
    ensures
        c.name@ == keys_in_brackets(label@, seq![key]),
        c.group == CMD_GROUP_GENERAL,
        !c.hide_help,
{
    let keys = [key];
    proof { assert(keys@ =~= seq![key]); }
    general(keys_text(label, &keys))
}

/// A general command whose text is `label`, a count, and its key in brackets.
pub fn counted_command(label: &str, count: u64, key: Key) -> (c: CommandText)
    ensures
        c.name@ == keys_in_brackets(label@ + decimal(count as nat) + " "@, seq![key]),
        c.group == CMD_GROUP_GENERAL,
        !c.hide_help,
{
    let mut text = String::from_str(label);
    let count_text = decimal_string(count);
    text.append(count_text.as_str());
    text.append(" ");
    keyed_command(text.as_str(), key)
}

fn general(name: String) -> (c: CommandText)
    ensures
        c.name == name,
        c.group == CMD_GROUP_GENERAL,
        !c.hide_help,
{
    CommandText::new(name, CMD_GROUP_GENERAL)
}

pub fn go_back(key: &KeyConfig) -> (c: CommandText)
    ensures
        c.name@ == keys_in_brackets("Go back "@, seq![key.esc]),
        c.group == CMD_GROUP_GENERAL,
        !c.hide_help,
{
    general(keys_text("Go back ", &[key.esc]))
}

pub fn scroll(key: &KeyConfig) -> (c: CommandText)
    ensures
        c.name@ == keys_in_brackets(
            "Scroll up/down/left/right "@,
            seq![key.scroll_up, key.scroll_down, key.scroll_left, key.scroll_right],
        ),
        c.group == CMD_GROUP_GENERAL,
        !c.hide_help,
{
    let keys = [key.scroll_up, key.scroll_down, key.scroll_left, key.scroll_right];
    proof { assert(keys@ =~= seq![key.scroll_up, key.scroll_down, key.scroll_left, key.scroll_right]); }
    general(keys_text("Scroll up/down/left/right ", &keys))
}

pub fn scroll_up_down_multiple_lines(key: &KeyConfig) -> (c: CommandText)
    ensures
        c.name@ == keys_in_brackets(
            "Scroll up/down multiple lines "@,
            seq![key.scroll_up_multiple_lines, key.scroll_down_multiple_lines],
        ),
        c.group == CMD_GROUP_GENERAL,
        !c.hide_help,
{
    let keys = [key.scroll_up_multiple_lines, key.scroll_down_multiple_lines];
    proof { assert(keys@ =~= seq![key.scroll_up_multiple_lines, key.scroll_down_multiple_lines]); }
    general(keys_text("Scroll up/down multiple lines ", &keys))
}

pub fn scroll_to_top_bottom(key: &KeyConfig) -> (c: CommandText)
    ensures
        c.name@ == keys_in_brackets(
            "Scroll to top/bottom "@,
            seq![key.scroll_to_top, key.scroll_to_bottom],
        ),
        c.group == CMD_GROUP_GENERAL,
        !c.hide_help,
{
    let keys = [key.scroll_to_top, key.scroll_to_bottom];
    proof { assert(keys@ =~= seq![key.scroll_to_top, key.scroll_to_bottom]); }
    general(keys_text("Scroll to top/bottom ", &keys))
}

pub fn ticket_add_comments(key: &KeyConfig) -> (c: CommandText)
    ensures
        c.name@ == keys_in_brackets("Add comments to ticket "@, seq![key.ticket_add_comments]),
        c.group == CMD_GROUP_GENERAL,
        !c.hide_help,
{
    general(keys_text("Add comments to ticket ", &[key.ticket_add_comments]))
}

pub fn help(key_config: &KeyConfig) -> (c: CommandText)
    ensures
        c.name@ == keys_in_brackets("Help "@, seq![key_config.open_help]),
        c.group == CMD_GROUP_GENERAL,
        !c.hide_help,
{
    general(keys_text("Help ", &[key_config.open_help]))
}

} // verus!
