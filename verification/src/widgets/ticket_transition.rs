use vstd::prelude::*;
use crate::config::KeyConfig;
use crate::event::key::Key;
use crate::jira::tickets::{CustomFieldAllowedValues, CustomFieldValues, TicketTransition, TicketTransitions};
use crate::text::{ends_with, has_suffix};
use super::commands::CommandInfo;
use super::projects::chosen;
use super::{
    Component, EventState, ListMove, list_key_move, list_key_move_of, step_up, moved_down, moved_up,
    can_move_down, can_move_down_by,
};

verus! {

/// The list of transitions of the selected ticket, and the list of reasons that a
/// transition with a screen asks for.
#[derive(Debug)]
pub struct TransitionWidget {
    pub draw_list_float_screen: Option<bool>,
    pub float_screen_list_state: Option<usize>,
    pub float_screen_list: Option<Vec<CustomFieldAllowedValues>>,
    pub focus_float_screen: Option<bool>,
    pub key_config: KeyConfig,
    pub state: Option<usize>,
    pub push_transition: bool,
    pub push_transition_reason: Option<String>,
    pub transitions: Vec<TicketTransition>,
}

/// Whether a transition field is a select field.
pub open spec fn is_select_field(field: CustomFieldValues) -> bool {
    field.schema matches Some(schema) && schema.custom matches Some(custom) && has_suffix(custom@, ":select"@)
}

/// The values that the last select field of a transition screen allows, none if it has none.
pub open spec fn select_reasons(fields: Seq<(String, CustomFieldValues)>) -> Seq<CustomFieldAllowedValues>
    decreases fields.len(),
{
    if fields.len() == 0 {
        Seq::empty()
    } else if is_select_field(fields.last().1) {
        match fields.last().1.allowed_values {
            Some(values) => values@,
            None => Seq::empty(),
        }
    } else {
        select_reasons(fields.drop_last())
    }
}

/// Whether every select field of a transition screen lists its allowed values.
pub open spec fn select_fields_complete(fields: Seq<(String, CustomFieldValues)>) -> bool {
    forall|i: int| 0 <= i < fields.len() && is_select_field(#[trigger] fields[i].1) ==> fields[i].1.allowed_values is Some
}

/// The fields of a transition's screen, none when it lists none.
pub open spec fn transition_fields(t: TicketTransition) -> Seq<(String, CustomFieldValues)> {
    match t.fields {
        Some(f) => match f.values {
            Some(v) => v@,
            None => Seq::empty(),
        },
        None => Seq::empty(),
    }
}

/// The selection of the reasons after a list move, with `len` reasons and `transitions`
/// transitions: going to the bottom picks the row of the last transition.
pub open spec fn reason_moved(selected: Option<usize>, m: ListMove, len: int, transitions: int) -> Option<usize> {
    match m {
        ListMove::Down(n) => moved_down(selected, n as int, len),
        ListMove::Up(n) => moved_up(selected, n as int),
        ListMove::Bottom => if len == 0 { selected } else { Some((transitions - 1) as usize) },
        ListMove::Top => if len == 0 { selected } else { Some(0usize) },
    }
}

/// The selection of the transitions after a list move, with `len` transitions.
pub open spec fn transition_moved(selected: Option<usize>, m: ListMove, len: int) -> Option<usize> {
    match m {
        ListMove::Down(n) => moved_down(selected, n as int, len),
        ListMove::Up(n) => moved_up(selected, n as int),
        ListMove::Bottom => if len == 0 { selected } else { Some((len - 1) as usize) },
        ListMove::Top => if len == 0 { selected } else { Some(0usize) },
    }
}

impl TransitionWidget {
    pub open spec fn len(&self) -> int {
        self.transitions@.len() as int
    }

    pub open spec fn reason_count(&self) -> int {
        match self.float_screen_list {
            Some(l) => l@.len() as int,
            None => 0,
        }
    }

    pub open spec fn selected_one(&self) -> Option<TicketTransition> {
        match self.state {
            Some(i) => if i < self.transitions@.len() { Some(self.transitions@[i as int]) } else { None },
            None => None,
        }
    }

    pub open spec fn selected_reason(&self) -> Option<CustomFieldAllowedValues> {
        match (self.float_screen_list_state, self.float_screen_list) {
            (Some(i), Some(l)) => if i < l@.len() { Some(l@[i as int]) } else { None },
            _ => None,
        }
    }

    /// Whether the reason list can take a move: it must exist while a reason is selected,
    /// a move down must stay within the largest index, and going to the bottom of a
    /// non-empty reason list needs a transition.
    pub open spec fn reason_move_allowed(&self, m: ListMove) -> bool {
        match m {
            ListMove::Down(n) => self.float_screen_list_state is Some ==> self.float_screen_list is Some
                && can_move_down(self.float_screen_list_state, n as int, self.reason_count()),
            ListMove::Up(_) => true,
            ListMove::Bottom => self.float_screen_list is Some && (self.reason_count() > 0 ==> self.len() > 0),
            ListMove::Top => self.float_screen_list is Some,
        }
    }

    /// Everything that a key never changes.
    pub open spec fn same_setup(&self, other: &Self) -> bool {
        &&& self.key_config == other.key_config
        &&& self.transitions == other.transitions
        &&& self.float_screen_list == other.float_screen_list
        &&& self.focus_float_screen == other.focus_float_screen
    }

    /// A widget with no transitions; the given transitions are not kept, but decide
    /// whether a first row is selected.
    pub fn new(transitions: Vec<TicketTransition>, key_config: KeyConfig) -> (w: Self)
        ensures
            w.draw_list_float_screen is None,
            w.float_screen_list_state == Some(0usize),
            w.float_screen_list is None,
            w.focus_float_screen is None,
            w.key_config == key_config,
            !w.push_transition,
            w.push_transition_reason is None,
            w.state == (if transitions@.len() > 0 { Some(0usize) } else { None }),
            w.transitions@.len() == 0,
    {
        let state = if transitions.len() > 0 { Some(0) } else { None };
        Self {
            draw_list_float_screen: None,
            float_screen_list_state: Some(0),
            float_screen_list: None,
            focus_float_screen: None,
            key_config,
            push_transition: false,
            push_transition_reason: None,
            state,
            transitions: Vec::new(),
        }
    }

    /// Tells whether the widget can handle `key` as it stands.
    pub fn accepts(&self, key: Key) -> (b: bool)
        ensures
            b == self.event_allowed(key),
    {
        let m = list_key_move_of(&self.key_config, key);
        if self.draw_list_float_screen == Some(true) {
            let reasons = match &self.float_screen_list {
                Some(l) => l.len(),
                None => 0,
            };
            let listed = self.float_screen_list.is_some();
            let move_ok = match m {
                Some(ListMove::Down(n)) => self.float_screen_list_state.is_none()
                    || (listed && can_move_down_by(self.float_screen_list_state, n, reasons)),
                Some(ListMove::Up(_)) => true,
                Some(ListMove::Bottom) => listed && (reasons == 0 || self.transitions.len() > 0),
                Some(ListMove::Top) => listed,
                None => true,
            };
            let enter_ok = !(key == self.key_config.enter) || self.float_screen_list_state.is_none() || listed;
            move_ok && enter_ok
        } else {
            match m {
                Some(ListMove::Down(n)) => can_move_down_by(self.state, n, self.transitions.len()),
                _ => true,
            }
        }
    }

    pub fn next(&mut self, line: usize)
        requires
            can_move_down(old(self).state, line as int, old(self).len()),
        ensures
            final(self).state == moved_down(old(self).state, line as int, old(self).len()),
            final(self).same_setup(old(self)),
            final(self).draw_list_float_screen == old(self).draw_list_float_screen,
            final(self).float_screen_list_state == old(self).float_screen_list_state,
            final(self).push_transition == old(self).push_transition,
            final(self).push_transition_reason == old(self).push_transition_reason,
    {
        self.state = match self.state {
            Some(i) => if i + line >= self.transitions.len() { Some(self.transitions.len() - 1) } else { Some(i + line) },
            None => None,
        };
    }

    pub fn previous(&mut self, line: usize)
        ensures
            final(self).state == moved_up(old(self).state, line as int),
            final(self).same_setup(old(self)),
            final(self).draw_list_float_screen == old(self).draw_list_float_screen,
            final(self).float_screen_list_state == old(self).float_screen_list_state,
            final(self).push_transition == old(self).push_transition,
            final(self).push_transition_reason == old(self).push_transition_reason,
    {
        self.state = step_up(self.state, line);
    }

    pub fn go_to_top(&mut self)
        ensures
            final(self).state == transition_moved(old(self).state, ListMove::Top, old(self).len()),
            final(self).same_setup(old(self)),
            final(self).draw_list_float_screen == old(self).draw_list_float_screen,
            final(self).float_screen_list_state == old(self).float_screen_list_state,
            final(self).push_transition == old(self).push_transition,
            final(self).push_transition_reason == old(self).push_transition_reason,
    {
        if self.transitions.len() == 0 {
            return;
        }
        self.state = Some(0);
    }

    pub fn go_to_bottom(&mut self)
        ensures
            final(self).state == transition_moved(old(self).state, ListMove::Bottom, old(self).len()),
            final(self).same_setup(old(self)),
            final(self).draw_list_float_screen == old(self).draw_list_float_screen,
            final(self).float_screen_list_state == old(self).float_screen_list_state,
            final(self).push_transition == old(self).push_transition,
            final(self).push_transition_reason == old(self).push_transition_reason,
    {
        if self.transitions.len() == 0 {
            return;
        }
        self.state = Some(self.transitions.len() - 1);
    }

    pub fn selected_transition(&self) -> (t: Option<&TicketTransition>)
        ensures
            match self.selected_one() {
                Some(s) => t == Some(&s),
                None => t is None,
            },
    {
        match self.state {
            Some(i) => if i < self.transitions.len() { Some(&self.transitions[i]) } else { None },
            None => None,
        }
    }

    /// Shows the transitions of another ticket, selecting the first one if there is any.
    pub fn update(&mut self, transitions: TicketTransitions)
        ensures
            final(self).transitions@ == transitions.transitions@,
            final(self).state == (if transitions.transitions@.len() > 0 { Some(0usize) } else { old(self).state }),
            final(self).draw_list_float_screen == old(self).draw_list_float_screen,
            final(self).float_screen_list == old(self).float_screen_list,
            final(self).float_screen_list_state == old(self).float_screen_list_state,
            final(self).push_transition == old(self).push_transition,
            final(self).push_transition_reason == old(self).push_transition_reason,
            final(self).focus_float_screen == old(self).focus_float_screen,
            final(self).key_config == old(self).key_config,
    {
        let nonempty = transitions.transitions.len() > 0;
        self.transitions = transitions.transitions;
        if nonempty {
            self.state = Some(0);
        }
    }

    /// Whether the selected transition has a screen; if so, the list of reasons is to be shown.
    pub fn check_transition_floating_screen(&mut self) -> (b: bool)
        ensures
            b == (old(self).selected_one() matches Some(t) && t.has_screen == Some(true)),
            final(self).draw_list_float_screen == (if b { Some(true) } else { old(self).draw_list_float_screen }),
            final(self).same_setup(old(self)),
            final(self).state == old(self).state,
            final(self).float_screen_list_state == old(self).float_screen_list_state,
            final(self).push_transition == old(self).push_transition,
            final(self).push_transition_reason == old(self).push_transition_reason,
    {
        let has_screen = match self.selected_transition() {
            None => false,
            Some(t) => match t.has_screen {
                Some(b) => b,
                None => false,
            },
        };
        if has_screen {
            self.draw_list_float_screen = Some(true);
        }
        has_screen
    }

    pub fn next_reason(&mut self, line: usize)
        requires
            old(self).reason_move_allowed(ListMove::Down(line)),
        ensures
            final(self).float_screen_list_state == moved_down(old(self).float_screen_list_state, line as int, old(self).reason_count()),
            final(self).same_setup(old(self)),
            final(self).state == old(self).state,
            final(self).draw_list_float_screen == old(self).draw_list_float_screen,
            final(self).push_transition == old(self).push_transition,
            final(self).push_transition_reason == old(self).push_transition_reason,
    {
        self.float_screen_list_state = match self.float_screen_list_state {
            Some(i) => {
                let len = match &self.float_screen_list {
                    Some(l) => l.len(),
                    None => 0,
                };
                if i + line >= len { Some(len - 1) } else { Some(i + line) }
            },
            None => None,
        };
    }

    pub fn previous_reason(&mut self, line: usize)
        ensures
            final(self).float_screen_list_state == moved_up(old(self).float_screen_list_state, line as int),
            final(self).same_setup(old(self)),
            final(self).state == old(self).state,
            final(self).draw_list_float_screen == old(self).draw_list_float_screen,
            final(self).push_transition == old(self).push_transition,
            final(self).push_transition_reason == old(self).push_transition_reason,
    {
        self.float_screen_list_state = step_up(self.float_screen_list_state, line);
    }

    pub fn go_to_top_reason(&mut self)
        requires
            old(self).reason_move_allowed(ListMove::Top),
        ensures
            final(self).float_screen_list_state
                == reason_moved(old(self).float_screen_list_state, ListMove::Top, old(self).reason_count(), old(self).len()),
            final(self).same_setup(old(self)),
            final(self).state == old(self).state,
            final(self).draw_list_float_screen == old(self).draw_list_float_screen,
            final(self).push_transition == old(self).push_transition,
            final(self).push_transition_reason == old(self).push_transition_reason,
    {
        let empty = match &self.float_screen_list {
            Some(l) => l.len() == 0,
            None => true,
        };
        if empty {
            return;
        }
        self.float_screen_list_state = Some(0);
    }

    /// Selects the reason on the row of the last transition.
    pub fn go_to_bottom_reason(&mut self)
        requires
            old(self).reason_move_allowed(ListMove::Bottom),
        ensures
            final(self).float_screen_list_state
                == reason_moved(old(self).float_screen_list_state, ListMove::Bottom, old(self).reason_count(), old(self).len()),
            final(self).same_setup(old(self)),
            final(self).state == old(self).state,
            final(self).draw_list_float_screen == old(self).draw_list_float_screen,
            final(self).push_transition == old(self).push_transition,
            final(self).push_transition_reason == old(self).push_transition_reason,
    {
        let empty = match &self.float_screen_list {
            Some(l) => l.len() == 0,
            None => true,
        };
        if empty {
            return;
        }
        self.float_screen_list_state = Some(self.transitions.len() - 1);
    }

    pub fn selected_transition_reason(&self) -> (r: Option<&CustomFieldAllowedValues>)
        requires
            self.float_screen_list_state is Some ==> self.float_screen_list is Some,
        ensures
            match self.selected_reason() {
                Some(s) => r == Some(&s),
                None => r is None,
            },
    {
        match self.float_screen_list_state {
            Some(i) => match &self.float_screen_list {
                Some(l) => if i < l.len() { Some(&l[i]) } else { None },
                None => None,
            },
            None => None,
        }
    }

    /// Tells whether the reasons of the selected transition can be listed: a transition
    /// with a screen is selected, and each of its select fields lists its allowed values.
    pub fn reasons_ready(&self) -> (b: bool)
        ensures
            b == (self.selected_one() is Some && self.selected_one()->0.fields is Some
                && select_fields_complete(transition_fields(self.selected_one()->0))),
    {
        let transition = match self.selected_transition() {
            Some(t) => t,
            None => return false,
        };
        let ghost fields = transition_fields(*transition);
        match &transition.fields {
            None => false,
            Some(f) => match &f.values {
                None => true,
                Some(values) => {
                    let mut i: usize = 0;
                    while i < values.len()
                        invariant
                            0 <= i <= values@.len(),
                            values@ == fields,
                            fields == transition_fields(self.selected_one()->0),
                            forall|j: int| 0 <= j < i && is_select_field(#[trigger] fields[j].1)
                                ==> fields[j].1.allowed_values is Some,
                        decreases values@.len() - i,
                    {
                        let field = &values[i].1;
                        let is_select = match &field.schema {
                            Some(schema) => match &schema.custom {
                                Some(custom) => ends_with(custom.as_str(), ":select"),
                                None => false,
                            },
                            None => false,
                        };
                        if is_select && field.allowed_values.is_none() {
                            proof {
                                assert(is_select_field(fields[i as int].1));
                            }
                            return false;
                        }
                        i = i + 1;
                    }
                    true
                },
            },
        }
    }

    /// Works out, before drawing, the reasons that the selected transition's screen asks
    /// for: the values of its last select field.
    pub fn prepare_reasons(&mut self)
        requires
            old(self).selected_one() is Some,
            old(self).selected_one()->0.fields is Some,
            select_fields_complete(transition_fields(old(self).selected_one()->0)),
        ensures
            final(self).float_screen_list matches Some(l)
                && l@ == select_reasons(transition_fields(old(self).selected_one()->0)),
            final(self).focus_float_screen == Some(true),
            final(self).state == old(self).state,
            final(self).transitions == old(self).transitions,
            final(self).key_config == old(self).key_config,
            final(self).draw_list_float_screen == old(self).draw_list_float_screen,
            final(self).float_screen_list_state == old(self).float_screen_list_state,
            final(self).push_transition == old(self).push_transition,
            final(self).push_transition_reason == old(self).push_transition_reason,
    {
        let transition = self.selected_transition().unwrap();
        let ghost fields = transition_fields(*transition);
        let mut allowed_values: Vec<CustomFieldAllowedValues> = Vec::new();
        match &transition.fields {
            Some(f) => match &f.values {
                Some(values) => {
                    let mut i: usize = 0;
                    while i < values.len()
                        invariant
                            0 <= i <= values@.len(),
                            values@ == fields,
                            select_fields_complete(fields),
                            allowed_values@ == select_reasons(fields.take(i as int)),
                        decreases values@.len() - i,
                    {
                        let field = &values[i].1;
                        proof {
                            assert(fields.take(i + 1).drop_last() =~= fields.take(i as int));
                            assert(fields.take(i + 1).last() == fields[i as int]);
                        }
                        let is_select = match &field.schema {
                            Some(schema) => match &schema.custom {
                                Some(custom) => ends_with(custom.as_str(), ":select"),
                                None => false,
                            },
                            None => false,
                        };
                        if is_select {
                            let allowed = field.allowed_values.as_ref().unwrap();
                            allowed_values = allowed.clone();
                            proof {
                                assert(allowed_values@ =~= allowed@);
                            }
                        }
                        i = i + 1;
                    }
                    proof {
                        assert(fields.take(values@.len() as int) =~= fields);
                    }
                },
                None => {},
            },
            None => {},
        }
        self.float_screen_list = Some(allowed_values);
        self.focus_float_screen = Some(true);
    }

    /// Before drawing: while the reasons are to be shown, works out the reasons of the
    /// selected transition; otherwise nothing changes.
    pub fn refresh_reasons(&mut self)
        requires
            old(self).draw_list_float_screen == Some(true) ==> {
                &&& old(self).selected_one() is Some
                &&& old(self).selected_one()->0.fields is Some
                &&& select_fields_complete(transition_fields(old(self).selected_one()->0))
            },
        ensures
            old(self).draw_list_float_screen != Some(true) ==> *final(self) == *old(self),
            old(self).draw_list_float_screen == Some(true) ==> {
                &&& final(self).float_screen_list matches Some(l)
                    && l@ == select_reasons(transition_fields(old(self).selected_one()->0))
                &&& *final(self) == (TransitionWidget {
                    float_screen_list: final(self).float_screen_list,
                    focus_float_screen: Some(true),
                    ..*old(self)
                })
            },
    {
        if self.draw_list_float_screen == Some(true) {
            self.prepare_reasons();
        }
    }

    fn float_screen_event(&mut self, key: Key) -> (e: EventState)
        requires
            list_key_move(old(self).key_config, key) matches Some(m) ==> old(self).reason_move_allowed(m),
            key == old(self).key_config.enter ==> (old(self).float_screen_list_state is Some ==> old(self).float_screen_list is Some),
        ensures
            float_screen_step(*old(self), key, e, *final(self)),
    {
        match list_key_move_of(&self.key_config, key) {
            Some(ListMove::Down(n)) => self.next_reason(n),
            Some(ListMove::Up(n)) => self.previous_reason(n),
            Some(ListMove::Bottom) => self.go_to_bottom_reason(),
            Some(ListMove::Top) => self.go_to_top_reason(),
            None => {
                if key == self.key_config.esc {
                    self.draw_list_float_screen = Some(false);
                } else if key == self.key_config.enter {
                    let reason = match self.selected_transition_reason() {
                        Some(i) => Some(i.value.clone()),
                        None => None,
                    };
                    if reason.is_some() {
                        self.push_transition_reason = reason;
                    }
                } else {
                    return EventState::NotConsumed;
                }
            },
        }
        EventState::Consumed
    }
}

/// What a key does while the reasons are shown: a list move moves the reason selection,
/// escape hides the reasons, and enter records the selected reason.
pub open spec fn float_screen_step(w: TransitionWidget, key: Key, e: EventState, r: TransitionWidget) -> bool {
    &&& r.same_setup(&w)
    &&& r.state == w.state
    &&& r.push_transition == w.push_transition
    &&& match list_key_move(w.key_config, key) {
        Some(m) => e == EventState::Consumed
            && r.float_screen_list_state == reason_moved(w.float_screen_list_state, m, w.reason_count(), w.len())
            && r.draw_list_float_screen == w.draw_list_float_screen
            && r.push_transition_reason == w.push_transition_reason,
        None => if key == w.key_config.esc {
            e == EventState::Consumed && r.draw_list_float_screen == Some(false)
                && r.float_screen_list_state == w.float_screen_list_state
                && r.push_transition_reason == w.push_transition_reason
        } else if key == w.key_config.enter {
            e == EventState::Consumed && r.draw_list_float_screen == w.draw_list_float_screen
                && r.float_screen_list_state == w.float_screen_list_state
                && match w.selected_reason() {
                    Some(v) => r.push_transition_reason matches Some(s) && s@ == v.value@,
                    None => r.push_transition_reason == w.push_transition_reason,
                }
        } else {
            e == EventState::NotConsumed && r.draw_list_float_screen == w.draw_list_float_screen
                && r.float_screen_list_state == w.float_screen_list_state
                && r.push_transition_reason == w.push_transition_reason
        },
    }
}

/// What a key does while the transitions are shown: a list move moves the selection, and
/// enter either shows the reasons (for a transition with a screen) or asks for the
/// transition to be made.
pub open spec fn transition_list_step(w: TransitionWidget, key: Key, e: EventState, r: TransitionWidget) -> bool {
    &&& r.same_setup(&w)
    &&& r.float_screen_list_state == w.float_screen_list_state
    &&& r.push_transition_reason == w.push_transition_reason
    &&& match list_key_move(w.key_config, key) {
        Some(m) => e == EventState::Consumed && r.state == transition_moved(w.state, m, w.len())
            && r.draw_list_float_screen == w.draw_list_float_screen
            && r.push_transition == w.push_transition,
        None => if key == w.key_config.enter {
            let screen = w.selected_one() matches Some(t) && t.has_screen == Some(true);
            e == EventState::Consumed && r.state == w.state
                && r.draw_list_float_screen == (if screen { Some(true) } else { w.draw_list_float_screen })
                && r.push_transition == (if screen { w.push_transition } else { true })
        } else {
            e == EventState::NotConsumed && r.state == w.state
                && r.draw_list_float_screen == w.draw_list_float_screen
                && r.push_transition == w.push_transition
        },
    }
}

impl TransitionWidget {
    /// What a key does to the widget, with the reasons shown or not.
    pub open spec fn key_step(&self, key: Key, e: EventState, after: Self) -> bool {
        if self.draw_list_float_screen == Some(true) {
            float_screen_step(*self, key, e, after)
        } else {
            transition_list_step(*self, key, e, after)
        }
    }
}

impl Component for TransitionWidget {
    /// While the reasons are shown, the reason list must exist for the keys that read it;
    /// otherwise moving the selection down must stay within the largest index.
    open spec fn event_allowed(&self, key: Key) -> bool {
        if self.draw_list_float_screen == Some(true) {
            &&& list_key_move(self.key_config, key) matches Some(m) ==> self.reason_move_allowed(m)
            &&& key == self.key_config.enter ==> (self.float_screen_list_state is Some ==> self.float_screen_list is Some)
        } else {
            list_key_move(self.key_config, key) matches Some(ListMove::Down(n)) ==> can_move_down(self.state, n as int, self.len())
        }
    }

    fn commands(&self, _out: &mut Vec<CommandInfo>)
        ensures
            final(_out)@ == old(_out)@,
    {
    }

    fn event(&mut self, key: Key) -> (e: EventState)
        ensures
            old(self).key_step(key, e, *final(self)),
    {
        if self.draw_list_float_screen == Some(true) {
            return self.float_screen_event(key);
        }
        match list_key_move_of(&self.key_config, key) {
            Some(ListMove::Down(n)) => self.next(n),
            Some(ListMove::Up(n)) => self.previous(n),
            Some(ListMove::Bottom) => self.go_to_bottom(),
            Some(ListMove::Top) => self.go_to_top(),
            None => {
                if key == self.key_config.enter {
                    if !self.check_transition_floating_screen() {
                        self.push_transition = true;
                    }
                } else {
                    return EventState::NotConsumed;
                }
            },
        }
        EventState::Consumed
    }
}

/// While the reasons are shown, escape hides them and leaves the transition list as it
/// was (where escape is no list move key, which would move in the reasons instead).
pub proof fn law_escape_hides_the_reasons(w: TransitionWidget, e: EventState, after: TransitionWidget)
    requires
        w.draw_list_float_screen == Some(true),
        list_key_move(w.key_config, w.key_config.esc) is None,
        w.key_step(w.key_config.esc, e, after),
    ensures
        e == EventState::Consumed,
        after.draw_list_float_screen == Some(false),
        after.state == w.state,
        after.transitions == w.transitions,
        after.push_transition == w.push_transition,
        after.push_transition_reason == w.push_transition_reason,
{
}

} // verus!
