use vstd::prelude::*;

verus! {

/// A key press, as the terminal reports it.
#[derive(Clone, Copy, Debug, PartialEq, Eq, Hash, Structural)]
pub enum Key {
    Enter,
    Tab,
    Backspace,
    Esc,
    Left,
    Right,
    Up,
    Down,
    Ins,
    Delete,
    Home,
    End,
    PageUp,
    PageDown,
    F0,
    F1,
    F2,
    F3,
    F4,
    F5,
    F6,
    F7,
    F8,
    F9,
    F10,
    F11,
    F12,
    Char(char),
    Ctrl(char),
    Alt(char),
    BackTab,
    Unknown,
}

/// How a key is shown to the user in the command help.
pub open spec fn key_text(k: Key) -> Seq<char> {
    match k {
        Key::Alt(c) => if c == ' ' { "<Alt+Space>"@ } else { "<Alt+"@.push(c) + ">"@ },
        Key::Ctrl(c) => if c == ' ' { "<Ctrl+Space>"@ } else { "<Ctrl+"@.push(c) + ">"@ },
        Key::Char(c) => if c == ' ' { "<Space>"@ } else { seq![c] },
        Key::Left => "<Left Arrow Key>"@,
        Key::Right => "<Right Arrow Key>"@,
        Key::Up => "<Up Arrow Key>"@,
        Key::Down => "<Down Arrow Key>"@,
        Key::Enter => "<Enter>"@,
        Key::Tab => "<Tab>"@,
        Key::Backspace => "<Backspace>"@,
        Key::Esc => "<Esc>"@,
        Key::Ins => "<Ins>"@,
        Key::Delete => "<Delete>"@,
        Key::Home => "<Home>"@,
        Key::End => "<End>"@,
        Key::PageUp => "<PageUp>"@,
        Key::PageDown => "<PageDown>"@,
        Key::F0 => "F0"@,
        Key::F1 => "F1"@,
        Key::F2 => "F2"@,
        Key::F3 => "F3"@,
        Key::F4 => "F4"@,
        Key::F5 => "F5"@,
        Key::F6 => "F6"@,
        Key::F7 => "F7"@,
        Key::F8 => "F8"@,
        Key::F9 => "F9"@,
        Key::F10 => "F10"@,
        Key::F11 => "F11"@,
        Key::F12 => "F12"@,
        Key::BackTab => "BackTab"@,
        Key::Unknown => "Unknown"@,
    }
}

fn wrapped_char(prefix: &str, c: char) -> (s: String)
    ensures
        s@ == prefix@.push(c) + ">"@,
{
    let mut s = String::from_str(prefix);
    s.push(c);
    s.append(">");
    s
}

impl Key {
    /// The text under which this key is shown in the command help.
    pub fn to_string(&self) -> (s: String)
        ensures
            s@ == key_text(*self),
    {
        match *self {
            Key::Alt(c) => if c == ' ' { String::from_str("<Alt+Space>") } else { wrapped_char("<Alt+", c) },
            Key::Ctrl(c) => if c == ' ' { String::from_str("<Ctrl+Space>") } else { wrapped_char("<Ctrl+", c) },
            Key::Char(c) => if c == ' ' {
                String::from_str("<Space>")
            } else {
                let mut s = String::new();
                s.push(c);
                proof { assert(s@ =~= seq![c]); }
                s
            },
            Key::Left => String::from_str("<Left Arrow Key>"),
            Key::Right => String::from_str("<Right Arrow Key>"),
            Key::Up => String::from_str("<Up Arrow Key>"),
            Key::Down => String::from_str("<Down Arrow Key>"),
            Key::Enter => String::from_str("<Enter>"),
            Key::Tab => String::from_str("<Tab>"),
            Key::Backspace => String::from_str("<Backspace>"),
            Key::Esc => String::from_str("<Esc>"),
            Key::Ins => String::from_str("<Ins>"),
            Key::Delete => String::from_str("<Delete>"),
            Key::Home => String::from_str("<Home>"),
            Key::End => String::from_str("<End>"),
            Key::PageUp => String::from_str("<PageUp>"),
            Key::PageDown => String::from_str("<PageDown>"),
            Key::F0 => String::from_str("F0"),
            Key::F1 => String::from_str("F1"),
            Key::F2 => String::from_str("F2"),
            Key::F3 => String::from_str("F3"),
            Key::F4 => String::from_str("F4"),
            Key::F5 => String::from_str("F5"),
            Key::F6 => String::from_str("F6"),
            Key::F7 => String::from_str("F7"),
            Key::F8 => String::from_str("F8"),
            Key::F9 => String::from_str("F9"),
            Key::F10 => String::from_str("F10"),
            Key::F11 => String::from_str("F11"),
            Key::F12 => String::from_str("F12"),
            Key::BackTab => String::from_str("BackTab"),
            Key::Unknown => String::from_str("Unknown"),
        }
    }
}

} // verus!
