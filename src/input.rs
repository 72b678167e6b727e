use crate::event::{Event, MoveDirection, MoveEnd};
use vstd::prelude::*;

verus! {

/// A key of the keyboard, as the terminal reports it.
#[derive(Clone, Copy, PartialEq, Eq, Structural, Debug)]
pub enum KeyCode {
    Backspace,
    Enter,
    Left,
    Right,
    Up,
    Down,
    Home,
    End,
    PageUp,
    PageDown,
    Tab,
    BackTab,
    Delete,
    Insert,
    F(u8),
    Char(char),
    Null,
    Esc,
    CapsLock,
    ScrollLock,
    NumLock,
    PrintScreen,
    Menu,
    Pause,
    KeypadBegin,
}

/// The modifier keys held with a key.
#[derive(Clone, Copy, PartialEq, Eq, Structural, Debug)]
pub struct KeyModifiers {
    pub shift: bool,
    pub control: bool,
    pub alt: bool,
    pub super_key: bool,
    pub hyper: bool,
    pub meta: bool,
}

impl KeyModifiers {
    pub open spec fn spec_with(shift: bool, control: bool) -> KeyModifiers {
        KeyModifiers { shift, control, alt: false, super_key: false, hyper: false, meta: false }
    }

    /// Only `shift` and `control` among the modifiers, as given.
    pub fn with(shift: bool, control: bool) -> (r: KeyModifiers)
        ensures
            r == KeyModifiers::spec_with(shift, control),
    {
        KeyModifiers { shift, control, alt: false, super_key: false, hyper: false, meta: false }
    }
}

/// A key chord: a key and the modifiers held with it.
#[derive(Clone, Copy, PartialEq, Eq, Structural, Debug)]
pub struct KeyEvent {
    pub code: KeyCode,
    pub modifiers: KeyModifiers,
}

pub open spec fn chord(code: KeyCode, shift: bool, control: bool) -> KeyEvent {
    KeyEvent { code, modifiers: KeyModifiers::spec_with(shift, control) }
}

impl KeyEvent {
    pub fn new(code: KeyCode, modifiers: KeyModifiers) -> (r: KeyEvent)
        ensures
            r.code == code,
            r.modifiers == modifiers,
    {
        KeyEvent { code, modifiers }
    }
}

fn chord_of(code: KeyCode, shift: bool, control: bool) -> (r: KeyEvent)
    ensures
        r == chord(code, shift, control),
{
    KeyEvent { code, modifiers: KeyModifiers::with(shift, control) }
}

/// A key chord bound to the action it triggers.
pub struct KeyBind {
    pub event: KeyEvent,
    pub action: Event,
}

pub open spec fn bind(code: KeyCode, shift: bool, control: bool, action: Event) -> KeyBind {
    KeyBind { event: chord(code, shift, control), action }
}

fn bind_of(code: KeyCode, shift: bool, control: bool, action: Event) -> (r: KeyBind)
    ensures
        r == bind(code, shift, control, action),
{
    KeyBind { event: chord_of(code, shift, control), action }
}

/// The index of the first binding of `key` in a table.
pub open spec fn first_bind(inputs: Seq<KeyBind>, key: KeyEvent) -> Option<int>
    decreases inputs.len(),
{
    if inputs.len() == 0 {
        None
    } else if inputs[0].event == key {
        Some(0)
    } else {
        match first_bind(inputs.drop_first(), key) {
            Some(i) => Some(i + 1),
            None => None,
        }
    }
}

pub proof fn lemma_first_bind(inputs: Seq<KeyBind>, key: KeyEvent)
    ensures
        match first_bind(inputs, key) {
            Some(i) => 0 <= i < inputs.len() && inputs[i].event == key && forall|j: int|
                0 <= j < i ==> #[trigger] inputs[j].event != key,
            None => forall|j: int| 0 <= j < inputs.len() ==> #[trigger] inputs[j].event != key,
        },
    decreases inputs.len(),
{
    if inputs.len() > 0 {
        lemma_first_bind(inputs.drop_first(), key);
        assert forall|j: int| 1 <= j < inputs.len() implies inputs[j] == inputs.drop_first()[j
            - 1] by {}
    }
}

/// The action that a table binds to a key chord, if any.
pub open spec fn bound_action(inputs: Seq<KeyBind>, key: KeyEvent) -> Option<Event> {
    match first_bind(inputs, key) {
        Some(i) => Some(inputs[i].action),
        None => None,
    }
}

/// The results of two lookups agree: both none, or actions that say the same thing.
pub open spec fn same_action(r: Option<Event>, expected: Option<Event>) -> bool {
    match (r, expected) {
        (Some(a), Some(b)) => a.same(b),
        (None, None) => true,
        _ => false,
    }
}

/// Maps key chords to events through a table of bindings.
pub struct Handler {
    pub inputs: Vec<KeyBind>,
}

impl Handler {
    pub fn new(inputs: Vec<KeyBind>) -> (r: Handler)
        ensures
            r.inputs@ == inputs@,
    {
        Handler { inputs }
    }

    /// The action of the first binding of the chord, in table order.
    pub fn handle(&self, key_event: KeyEvent) -> (r: Option<Event>)
        ensures
            same_action(r, bound_action(self.inputs@, key_event)),
    {
        proof {
            lemma_first_bind(self.inputs@, key_event);
        }
        let mut i: usize = 0;
        while i < self.inputs.len()
            invariant
                i <= self.inputs.len(),
                forall|j: int| 0 <= j < i ==> #[trigger] self.inputs@[j].event != key_event,
            decreases self.inputs.len() - i,
        {
            if self.inputs[i].event == key_event {
                proof {
                    lemma_first_bind(self.inputs@, key_event);
                    if let Some(k) = first_bind(self.inputs@, key_event) {
                        assert(!(k < i));
                    }
                }
                return Some(self.inputs[i].action.clone());
            }
            i = i + 1;
        }
        None
    }
}

pub open spec fn spec_exit_binds() -> Seq<KeyBind> {
    seq![
        bind(KeyCode::Esc, false, false, Event::Exited),
        bind(KeyCode::Char('q'), false, false, Event::Exited),
        bind(KeyCode::Char('Q'), true, false, Event::Exited),
    ]
}

pub open spec fn spec_cycle_tabs_binds() -> Seq<KeyBind> {
    seq![
        bind(KeyCode::Tab, false, false, Event::CycleTab(MoveDirection::Right)),
        bind(KeyCode::BackTab, true, false, Event::CycleTab(MoveDirection::Left)),
    ]
}

pub open spec fn spec_highlight_binds() -> Seq<KeyBind> {
    seq![
        bind(KeyCode::Char('w'), false, false, Event::CycleHighlight(MoveDirection::Up)),
        bind(KeyCode::Char('W'), true, false, Event::CycleHighlight(MoveDirection::Up)),
        bind(KeyCode::Up, false, false, Event::CycleHighlight(MoveDirection::Up)),
        bind(KeyCode::Char('s'), false, false, Event::CycleHighlight(MoveDirection::Down)),
        bind(KeyCode::Char('S'), true, false, Event::CycleHighlight(MoveDirection::Down)),
        bind(KeyCode::Down, false, false, Event::CycleHighlight(MoveDirection::Down)),
        bind(KeyCode::Char('w'), false, true, Event::HomeEndHighlight(MoveEnd::First)),
        bind(KeyCode::Up, false, true, Event::HomeEndHighlight(MoveEnd::First)),
        bind(KeyCode::Char('s'), false, true, Event::HomeEndHighlight(MoveEnd::Last)),
        bind(KeyCode::Down, false, true, Event::HomeEndHighlight(MoveEnd::Last)),
    ]
}

pub open spec fn spec_select_binds() -> Seq<KeyBind> {
    seq![
        bind(KeyCode::Enter, false, false, Event::Selected),
        bind(KeyCode::Char(' '), false, false, Event::Selected),
    ]
}

pub open spec fn spec_panel_binds() -> Seq<KeyBind> {
    seq![
        bind(KeyCode::Char('a'), false, false, Event::CyclePanel(MoveDirection::Left)),
        bind(KeyCode::Char('A'), true, false, Event::CyclePanel(MoveDirection::Left)),
        bind(KeyCode::Left, false, false, Event::CyclePanel(MoveDirection::Left)),
        bind(KeyCode::Char('d'), false, false, Event::CyclePanel(MoveDirection::Right)),
        bind(KeyCode::Char('D'), true, false, Event::CyclePanel(MoveDirection::Right)),
        bind(KeyCode::Right, false, false, Event::CyclePanel(MoveDirection::Right)),
    ]
}

/// The bindings of the home and lists screens.
pub open spec fn spec_home_inputs() -> Seq<KeyBind> {
    spec_exit_binds() + spec_cycle_tabs_binds() + spec_highlight_binds() + spec_select_binds()
        + spec_panel_binds()
}

/// The bindings while text is typed: everything else types a character.
pub open spec fn spec_typing_inputs() -> Seq<KeyBind> {
    seq![
        bind(KeyCode::Esc, false, false, Event::StopTyping),
        bind(KeyCode::Enter, false, false, Event::Submit),
        bind(KeyCode::Backspace, false, false, Event::DeleteChar),
    ]
}

/// The bindings of a choice popup.
pub open spec fn spec_choice_inputs() -> Seq<KeyBind> {
    spec_highlight_binds() + spec_select_binds()
}

fn exit_binds() -> (r: Vec<KeyBind>)
    ensures
        r@ == spec_exit_binds(),
{
    let mut r: Vec<KeyBind> = Vec::new();
    r.push(bind_of(KeyCode::Esc, false, false, Event::Exited));
    r.push(bind_of(KeyCode::Char('q'), false, false, Event::Exited));
    r.push(bind_of(KeyCode::Char('Q'), true, false, Event::Exited));
    assert(r@ =~= spec_exit_binds());
    r
}

fn cycle_tabs_binds() -> (r: Vec<KeyBind>)
    ensures
        r@ == spec_cycle_tabs_binds(),
{
    let mut r: Vec<KeyBind> = Vec::new();
    r.push(bind_of(KeyCode::Tab, false, false, Event::CycleTab(MoveDirection::Right)));
    r.push(bind_of(KeyCode::BackTab, true, false, Event::CycleTab(MoveDirection::Left)));
    assert(r@ =~= spec_cycle_tabs_binds());
    r
}

fn highlight_binds() -> (r: Vec<KeyBind>)
    ensures
        r@ == spec_highlight_binds(),
{
    let mut r: Vec<KeyBind> = Vec::new();
    r.push(bind_of(KeyCode::Char('w'), false, false, Event::CycleHighlight(MoveDirection::Up)));
    r.push(bind_of(KeyCode::Char('W'), true, false, Event::CycleHighlight(MoveDirection::Up)));
    r.push(bind_of(KeyCode::Up, false, false, Event::CycleHighlight(MoveDirection::Up)));
    r.push(bind_of(KeyCode::Char('s'), false, false, Event::CycleHighlight(MoveDirection::Down)));
    r.push(bind_of(KeyCode::Char('S'), true, false, Event::CycleHighlight(MoveDirection::Down)));
    r.push(bind_of(KeyCode::Down, false, false, Event::CycleHighlight(MoveDirection::Down)));
    r.push(bind_of(KeyCode::Char('w'), false, true, Event::HomeEndHighlight(MoveEnd::First)));
    r.push(bind_of(KeyCode::Up, false, true, Event::HomeEndHighlight(MoveEnd::First)));
    r.push(bind_of(KeyCode::Char('s'), false, true, Event::HomeEndHighlight(MoveEnd::Last)));
    r.push(bind_of(KeyCode::Down, false, true, Event::HomeEndHighlight(MoveEnd::Last)));
    assert(r@ =~= spec_highlight_binds());
    r
}

fn select_binds() -> (r: Vec<KeyBind>)
    ensures
        r@ == spec_select_binds(),
{
    let mut r: Vec<KeyBind> = Vec::new();
    r.push(bind_of(KeyCode::Enter, false, false, Event::Selected));
    r.push(bind_of(KeyCode::Char(' '), false, false, Event::Selected));
    assert(r@ =~= spec_select_binds());
    r
}

fn panel_binds() -> (r: Vec<KeyBind>)
    ensures
        r@ == spec_panel_binds(),
{
    let mut r: Vec<KeyBind> = Vec::new();
    r.push(bind_of(KeyCode::Char('a'), false, false, Event::CyclePanel(MoveDirection::Left)));
    r.push(bind_of(KeyCode::Char('A'), true, false, Event::CyclePanel(MoveDirection::Left)));
    r.push(bind_of(KeyCode::Left, false, false, Event::CyclePanel(MoveDirection::Left)));
    r.push(bind_of(KeyCode::Char('d'), false, false, Event::CyclePanel(MoveDirection::Right)));
    r.push(bind_of(KeyCode::Char('D'), true, false, Event::CyclePanel(MoveDirection::Right)));
    r.push(bind_of(KeyCode::Right, false, false, Event::CyclePanel(MoveDirection::Right)));
    assert(r@ =~= spec_panel_binds());
    r
}

pub fn home_inputs() -> (r: Vec<KeyBind>)
    ensures
        r@ == spec_home_inputs(),
{
    let mut r = exit_binds();
    let mut tabs = cycle_tabs_binds();
    let mut highlights = highlight_binds();
    let mut select = select_binds();
    let mut panels = panel_binds();
    r.append(&mut tabs);
    r.append(&mut highlights);
    r.append(&mut select);
    r.append(&mut panels);
    r
}

pub fn lists_inputs() -> (r: Vec<KeyBind>)
    ensures
        r@ == spec_home_inputs(),
{
    home_inputs()
}

pub fn typing_inputs() -> (r: Vec<KeyBind>)
    ensures
        r@ == spec_typing_inputs(),
{
    let mut r: Vec<KeyBind> = Vec::new();
    r.push(bind_of(KeyCode::Esc, false, false, Event::StopTyping));
    r.push(bind_of(KeyCode::Enter, false, false, Event::Submit));
    r.push(bind_of(KeyCode::Backspace, false, false, Event::DeleteChar));
    assert(r@ =~= spec_typing_inputs());
    r
}

pub fn choice_inputs() -> (r: Vec<KeyBind>)
    ensures
        r@ == spec_choice_inputs(),
{
    let mut r = highlight_binds();
    let mut select = select_binds();
    r.append(&mut select);
    r
}

pub fn user_input_inputs() -> (r: Vec<KeyBind>)
    ensures
        r@ == spec_select_binds(),
{
    select_binds()
}

pub fn timed_info_inputs() -> (r: Vec<KeyBind>)
    ensures
        r@ == Seq::<KeyBind>::empty(),
{
    Vec::new()
}


/// While text is typed, Esc, Enter and Backspace stop typing, submit and
/// delete a character; no chord bound in that table types a character.
pub proof fn lemma_typing_binds(key: KeyEvent)
    ensures
        bound_action(spec_typing_inputs(), chord(KeyCode::Esc, false, false)) == Some(
            Event::StopTyping,
        ),
        bound_action(spec_typing_inputs(), chord(KeyCode::Enter, false, false)) == Some(
            Event::Submit,
        ),
        bound_action(spec_typing_inputs(), chord(KeyCode::Backspace, false, false)) == Some(
            Event::DeleteChar,
        ),
        match bound_action(spec_typing_inputs(), key) {
            Some(action) => !(action is Typed),
            None => true,
        },
{
    let t = spec_typing_inputs();
    lemma_first_bind(t, key);
    reveal_with_fuel(first_bind, 4);
    assert(t[0].event == chord(KeyCode::Esc, false, false));
    assert(t[1].event == chord(KeyCode::Enter, false, false));
    assert(t[2].event == chord(KeyCode::Backspace, false, false));
}

} // verus!
