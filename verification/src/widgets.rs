pub mod commands;
pub mod comments;
pub mod comments_add;
pub mod components;
pub mod create_ticket;
pub mod description;
pub mod labels;
pub mod parent;
pub mod projects;
pub mod search;
pub mod search_projects;
pub mod search_tickets;
pub mod ticket_transition;
pub mod tickets;

use vstd::prelude::*;
use crate::event::key::Key;
use crate::config::KeyConfig;

verus! {

/// Whether a text widget is being typed into.
#[derive(PartialEq, Eq, Structural, Debug, Clone, Copy)]
pub enum InputMode {
    Normal,
    Editing,
}

/// Whether a widget used a key event.
#[derive(PartialEq, Eq, Structural, Debug, Clone, Copy)]
pub enum EventState {
    Consumed,
    NotConsumed,
}

impl EventState {
    pub fn is_consumed(&self) -> (b: bool)
        ensures
            b <==> *self == EventState::Consumed,
    {
        *self == Self::Consumed
    }
}

impl From<bool> for EventState {
    fn from(consumed: bool) -> (e: Self) {
        if consumed {
            Self::Consumed
        } else {
            Self::NotConsumed
        }
    }
}

impl vstd::std_specs::convert::FromSpecImpl<bool> for EventState {
    open spec fn obeys_from_spec() -> bool {
        true
    }

    open spec fn from_spec(consumed: bool) -> EventState {
        if consumed { EventState::Consumed } else { EventState::NotConsumed }
    }
}

/// The behavior shared by the widgets: the commands they list in the help, and how they
/// handle a key. A widget may leave some keys undefined in some states (`event_allowed`).
pub trait Component {
    /// Whether the widget can handle `key` in its current state.
    spec fn event_allowed(&self, key: Key) -> bool;

    fn commands(&self, out: &mut Vec<commands::CommandInfo>);

    fn event(&mut self, key: Key) -> EventState
        requires
            old(self).event_allowed(key),
    ;

    /// Whether the widget has the focus; unless a widget says otherwise, it never has.
    fn focused(&self) -> (b: bool)
        default_ensures
            !b,
    {
        false
    }

    fn focus(&mut self, _focus: bool) {
    }

    /// Whether the widget is shown; unless a widget says otherwise, it always is.
    fn is_visible(&self) -> (b: bool)
        default_ensures
            b,
    {
        true
    }

    fn conceal(&mut self) {
    }

    fn show(&mut self) {
    }

    fn toggle_visible(&mut self) {
        if self.is_visible() {
            self.conceal();
        } else {
            self.show()
        }
    }
}

/// Key bindings: the action bound to each key. A key bound twice keeps its last binding.
#[derive(Debug)]
pub struct KeyMap<A> {
    pub entries: Vec<(Key, A)>,
}

/// The bindings of a list of (key, action) pairs, the later pairs overriding the earlier.
pub open spec fn bindings<A>(entries: Seq<(Key, A)>) -> Map<Key, A>
    decreases entries.len(),
{
    if entries.len() == 0 {
        Map::empty()
    } else {
        bindings(entries.drop_last()).insert(entries.last().0, entries.last().1)
    }
}

/// The action bound to a key, if any.
pub open spec fn bound<A>(m: Map<Key, A>, key: Key) -> Option<A> {
    if m.dom().contains(key) { Some(m[key]) } else { None }
}

proof fn lemma_bindings_from_last<A>(entries: Seq<(Key, A)>, key: Key, j: int)
    requires
        0 <= j < entries.len(),
        entries[j].0 == key,
        forall|m: int| j < m < entries.len() ==> entries[m].0 != key,
    ensures
        bound(bindings(entries), key) == Some(entries[j].1),
    decreases entries.len(),
{
    if j < entries.len() - 1 {
        lemma_bindings_from_last(entries.drop_last(), key, j);
    }
}

proof fn lemma_bindings_absent<A>(entries: Seq<(Key, A)>, key: Key)
    requires
        forall|m: int| 0 <= m < entries.len() ==> entries[m].0 != key,
    ensures
        bound(bindings(entries), key) is None,
    decreases entries.len(),
{
    if entries.len() > 0 {
        lemma_bindings_absent(entries.drop_last(), key);
    }
}

impl<A: Copy> KeyMap<A> {
    pub open spec fn view(&self) -> Map<Key, A> {
        bindings(self.entries@)
    }

    /// No bindings.
    pub fn new() -> (m: Self)
        ensures
            m@ == Map::<Key, A>::empty(),
    {
        KeyMap { entries: Vec::new() }
    }

    /// Binds `key` to `action`, replacing any earlier binding of `key`.
    pub fn insert(&mut self, key: Key, action: A)
        ensures
            final(self)@ == old(self)@.insert(key, action),
    {
        self.entries.push((key, action));
        proof {
            assert(self.entries@.drop_last() =~= old(self).entries@);
        }
    }

    /// The action bound to `key`.
    pub fn get(&self, key: &Key) -> (a: Option<A>)
        ensures
            a == bound(self@, *key),
    {
        let mut i = self.entries.len();
        while i > 0
            invariant
                i <= self.entries@.len(),
                forall|m: int| i <= m < self.entries@.len() ==> self.entries@[m].0 != *key,
            decreases i,
        {
            i = i - 1;
            let (k, a) = self.entries[i];
            if k == *key {
                proof {
                    lemma_bindings_from_last(self.entries@, *key, i as int);
                }
                return Some(a);
            }
        }
        proof {
            lemma_bindings_absent(self.entries@, *key);
        }
        None
    }
}

/// Position reached from row `i` when moving `line` rows down a list of `len` rows:
/// the move stops at the last row.
pub open spec fn cursor_down(i: int, line: int, len: int) -> int {
    if i + line >= len { len - 1 } else { i + line }
}

/// Position reached from row `i` when moving `line` rows up: the move stops at the first row.
pub open spec fn cursor_up(i: int, line: int) -> int {
    if i <= line { 0 } else { i - line }
}

/// A selection after moving it `line` rows down a list of `len` rows; no selection stays none.
pub open spec fn moved_down(selected: Option<usize>, line: int, len: int) -> Option<usize> {
    match selected {
        Some(i) => Some(cursor_down(i as int, line, len) as usize),
        None => None,
    }
}

/// A selection after moving it `line` rows up; no selection stays none.
pub open spec fn moved_up(selected: Option<usize>, line: int) -> Option<usize> {
    match selected {
        Some(i) => Some(cursor_up(i as int, line) as usize),
        None => None,
    }
}

/// Whether a selection can move `line` rows down a list of `len` rows: moving a
/// selection down an empty list, or past the largest index, is undefined.
pub open spec fn can_move_down(selected: Option<usize>, line: int, len: int) -> bool {
    selected matches Some(i) ==> len > 0 && i + line <= usize::MAX
}

/// A selection after going to the first row; an empty list keeps the selection.
pub open spec fn moved_to_top(selected: Option<usize>, len: int) -> Option<usize> {
    if len == 0 { selected } else { Some(0) }
}

/// A selection after going to the last row; an empty list keeps the selection.
pub open spec fn moved_to_bottom(selected: Option<usize>, len: int) -> Option<usize> {
    if len == 0 { selected } else { Some((len - 1) as usize) }
}

/// A move of a list selection.
#[derive(Debug, Clone, Copy, PartialEq, Eq, Structural)]
pub enum ListMove {
    Down(usize),
    Up(usize),
    Bottom,
    Top,
}

/// The move that a key makes in a list under the standard scroll bindings.
pub open spec fn list_key_move(keys: KeyConfig, key: Key) -> Option<ListMove> {
    if key == keys.scroll_down {
        Some(ListMove::Down(1))
    } else if key == keys.scroll_up {
        Some(ListMove::Up(1))
    } else if key == keys.scroll_down_multiple_lines {
        Some(ListMove::Down(10))
    } else if key == keys.scroll_up_multiple_lines {
        Some(ListMove::Up(10))
    } else if key == keys.scroll_to_bottom {
        Some(ListMove::Bottom)
    } else if key == keys.scroll_to_top {
        Some(ListMove::Top)
    } else {
        None
    }
}

/// The move that a key makes in a list under the standard scroll bindings.
pub fn list_key_move_of(keys: &KeyConfig, key: Key) -> (m: Option<ListMove>)
    ensures
        m == list_key_move(*keys, key),
{
    if key == keys.scroll_down {
        Some(ListMove::Down(1))
    } else if key == keys.scroll_up {
        Some(ListMove::Up(1))
    } else if key == keys.scroll_down_multiple_lines {
        Some(ListMove::Down(10))
    } else if key == keys.scroll_up_multiple_lines {
        Some(ListMove::Up(10))
    } else if key == keys.scroll_to_bottom {
        Some(ListMove::Bottom)
    } else if key == keys.scroll_to_top {
        Some(ListMove::Top)
    } else {
        None
    }
}

/// A selection after a move, in a list that moves down only when it is not empty.
pub open spec fn moved(selected: Option<usize>, m: ListMove, len: int) -> Option<usize> {
    match m {
        ListMove::Down(n) => if len == 0 { selected } else { moved_down(selected, n as int, len) },
        ListMove::Up(n) => moved_up(selected, n as int),
        ListMove::Bottom => moved_to_bottom(selected, len),
        ListMove::Top => moved_to_top(selected, len),
    }
}

/// Whether a move can be made: a move down must not pass the largest index.
pub open spec fn can_make_move(selected: Option<usize>, m: ListMove, len: int) -> bool {
    m matches ListMove::Down(n) ==> (len == 0 || can_move_down(selected, n as int, len))
}

/// Whether the selection is a row of a list of `len` rows, or nothing.
pub open spec fn selection_in_bounds(selected: Option<usize>, len: int) -> bool {
    selected matches Some(i) ==> i < len
}

/// Tells whether a selection can move `line` rows down a list of `len` rows.
pub fn can_move_down_by(selected: Option<usize>, line: usize, len: usize) -> (b: bool)
    ensures
        b == can_move_down(selected, line as int, len as int),
{
    match selected {
        Some(i) => len > 0 && line <= usize::MAX - i,
        None => true,
    }
}

/// Moves a selection `line` rows down a list of `len` rows.
pub fn step_down(selected: Option<usize>, line: usize, len: usize) -> (r: Option<usize>)
    requires
        selected matches Some(i) ==> len > 0 && i + line <= usize::MAX,
    ensures
        r == moved_down(selected, line as int, len as int),
{
    match selected {
        Some(i) => {
            if i + line >= len {
                Some(len - 1)
            } else {
                Some(i + line)
            }
        },
        None => None,
    }
}

/// Moves a selection `line` rows up.
pub fn step_up(selected: Option<usize>, line: usize) -> (r: Option<usize>)
    ensures
        r == moved_up(selected, line as int),
{
    match selected {
        Some(i) => if i <= line { Some(0) } else { Some(i - line) },
        None => None,
    }
}

/// Moving down a non-empty list keeps the selection on a row of the list.
pub proof fn law_move_down_stays_in_list(selected: Option<usize>, line: int, len: int)
    requires
        0 < len <= usize::MAX,
        0 <= line,
    ensures
        selection_in_bounds(moved_down(selected, line, len), len),
{
}

/// Moving up keeps a selection that was on a row of the list on a row of the list.
pub proof fn law_move_up_stays_in_list(selected: Option<usize>, line: int, len: int)
    requires
        selection_in_bounds(selected, len),
        0 <= line,
    ensures
        selection_in_bounds(moved_up(selected, line), len),
{
}

/// Moving `line` rows down and then `line` rows up returns to the same row when the
/// move down did not stop at the last row.
pub proof fn law_move_down_then_up(i: usize, line: int, len: int)
    requires
        0 <= line,
        i + line < len <= usize::MAX,
    ensures
        moved_up(moved_down(Some(i), line, len), line) == Some(i),
{
}

/// Moving `line` rows up and then `line` rows down returns to the same row when the
/// move up did not stop at the first row.
pub proof fn law_move_up_then_down(i: usize, line: int, len: int)
    requires
        0 <= line < i,
        i < len <= usize::MAX,
    ensures
        moved_down(moved_up(Some(i), line), line, len) == Some(i),
{
}

/// Moving down from the last row, or moving up from the first, changes nothing.
pub proof fn law_moves_stop_at_the_ends(line: int, len: int)
    requires
        0 <= line,
        0 < len <= usize::MAX,
    ensures
        moved_down(Some((len - 1) as usize), line, len) == Some((len - 1) as usize),
        moved_up(Some(0), line) == Some(0usize),
{
}

/// The scroll offset of a text panel after scrolling `lines` down: the offset saturates
/// at the largest `u16`, and starts over at the top once it reaches one hundred.
pub open spec fn scrolled_down(scroll: u16, lines: u16) -> u16 {
    let s = if scroll + lines > u16::MAX { u16::MAX as int } else { scroll + lines };
    if s >= 100 { 0 } else { s as u16 }
}

/// The scroll offset of a text panel after scrolling `lines` up, stopping at the top.
pub open spec fn scrolled_up(scroll: u16, lines: u16) -> u16 {
    if scroll <= lines { 0 } else { (scroll - lines) as u16 }
}

/// Scrolls a text panel down.
pub fn scroll_down_by(scroll: u16, lines: u16) -> (r: u16)
    ensures
        r == scrolled_down(scroll, lines),
{
    let s = scroll.saturating_add(lines);
    if s >= 100 { 0 } else { s }
}

/// Scrolls a text panel up.
pub fn scroll_up_by(scroll: u16, lines: u16) -> (r: u16)
    ensures
        r == scrolled_up(scroll, lines),
{
    scroll.saturating_sub(lines)
}

/// A scroll offset below one hundred stays below one hundred whichever way it scrolls.
pub proof fn law_scroll_stays_below_one_hundred(scroll: u16, lines: u16)
    requires
        scroll < 100,
    ensures
        scrolled_down(scroll, lines) < 100,
        scrolled_up(scroll, lines) < 100,
{
}

/// Scrolling down and back up by the same amount returns to the same offset, as long
/// as the move down did not reach one hundred.
pub proof fn law_scroll_down_then_up(scroll: u16, lines: u16)
    requires
        scroll + lines < 100,
    ensures
        scrolled_up(scrolled_down(scroll, lines), lines) == scroll,
{
}

} // verus!
