use crate::event::{Action, Event};
use crate::input::{Handler, KeyBind, KeyCode, KeyEvent, KeyModifiers};
use crate::text::owned;
use vstd::prelude::*;
use vstd::string::StringExecFns;

verus! {

/// What `char::to_uppercase` writes for a character.
pub uninterp spec fn uppercase_of(c: char) -> Seq<char>;

/// Relies on `char::to_uppercase` and `ToString`: the uppercase mapping of a
/// character depends on the character alone; an ASCII lowercase letter maps
/// to its capital and any other ASCII character to itself.
#[verifier::external_body]
fn uppercase(c: char) -> (r: String)
    ensures
        r@ == uppercase_of(c),
        'a' <= c <= 'z' ==> r@ == seq![((c as u32) - 32) as char],
        (c as u32) < 128 && !('a' <= c <= 'z') ==> r@ == seq![c],
{
    c.to_uppercase().to_string()
}

pub open spec fn digit_text(d: nat) -> Seq<char> {
    seq![(('0' as u32) + d) as char]
}

/// The decimal digits of a number.
pub open spec fn decimal_text(n: nat) -> Seq<char>
    decreases n,
{
    if n < 10 {
        digit_text(n)
    } else {
        decimal_text(n / 10) + digit_text(n % 10)
    }
}

fn digit(d: u8) -> (r: &'static str)
    requires
        d < 10,
    ensures
        r@ == digit_text(d as nat),
{
    proof {
        reveal_strlit("0");
        reveal_strlit("1");
        reveal_strlit("2");
        reveal_strlit("3");
        reveal_strlit("4");
        reveal_strlit("5");
        reveal_strlit("6");
        reveal_strlit("7");
        reveal_strlit("8");
        reveal_strlit("9");
    }
    match d {
        0 => "0",
        1 => "1",
        2 => "2",
        3 => "3",
        4 => "4",
        5 => "5",
        6 => "6",
        7 => "7",
        8 => "8",
        _ => "9",
    }
}

/// Writes a number in decimal.
pub fn decimal(n: u8) -> (r: String)
    ensures
        r@ == decimal_text(n as nat),
    decreases n,
{
    if n < 10 {
        owned(digit(n))
    } else {
        decimal(n / 10).concat(digit(n % 10))
    }
}

/// The legend text of the modifiers of a chord: each of CTRL, ALT and SHIFT
/// that is held, in that order, each followed by `+`.
pub open spec fn modifier_text(m: KeyModifiers) -> Seq<char> {
    (if m.control {
        "CTRL+"@
    } else {
        ""@
    }) + (if m.alt {
        "ALT+"@
    } else {
        ""@
    }) + (if m.shift {
        "SHIFT+"@
    } else {
        ""@
    })
}

/// The legend text of a key.
pub open spec fn code_text(code: KeyCode) -> Seq<char> {
    match code {
        KeyCode::Backspace => "Backspace"@,
        KeyCode::Enter => "Enter"@,
        KeyCode::Left => "Left"@,
        KeyCode::Right => "Right"@,
        KeyCode::Up => "Up"@,
        KeyCode::Down => "Down"@,
        KeyCode::Home => "Home"@,
        KeyCode::End => "End"@,
        KeyCode::PageUp => "PageUp"@,
        KeyCode::PageDown => "PageDown"@,
        KeyCode::Tab => "Tab"@,
        KeyCode::BackTab => "BackTab"@,
        KeyCode::Delete => "Delete"@,
        KeyCode::Insert => "Insert"@,
        KeyCode::F(n) => "F"@ + decimal_text(n as nat),
        KeyCode::Char(c) => if c == ' ' {
            "Space"@
        } else {
            uppercase_of(c)
        },
        KeyCode::Null => "Unknown"@,
        KeyCode::Esc => "Esc"@,
        KeyCode::CapsLock => "Caps Lock"@,
        KeyCode::ScrollLock => "Scroll Lock"@,
        KeyCode::NumLock => "Num Lock"@,
        KeyCode::PrintScreen => "Print Screen"@,
        KeyCode::Menu => "Menu"@,
        KeyCode::Pause => "Pause"@,
        KeyCode::KeypadBegin => "Keypad Begin"@,
    }
}

/// The legend text of a chord; the back-tab key shows without its modifiers.
pub open spec fn chord_text(e: KeyEvent) -> Seq<char> {
    if e.code == KeyCode::BackTab {
        code_text(e.code)
    } else {
        modifier_text(e.modifiers) + code_text(e.code)
    }
}

pub fn modifier_to_string(modifier: KeyModifiers) -> (r: String)
    ensures
        r@ == modifier_text(modifier),
{
    let control = if modifier.control {
        "CTRL+"
    } else {
        ""
    };
    let alt = if modifier.alt {
        "ALT+"
    } else {
        ""
    };
    let shift = if modifier.shift {
        "SHIFT+"
    } else {
        ""
    };
    owned(control).concat(alt).concat(shift)
}

pub fn code_to_string(code: KeyCode) -> (r: String)
    ensures
        r@ == code_text(code),
{
    match code {
        KeyCode::Backspace => owned("Backspace"),
        KeyCode::Enter => owned("Enter"),
        KeyCode::Left => owned("Left"),
        KeyCode::Right => owned("Right"),
        KeyCode::Up => owned("Up"),
        KeyCode::Down => owned("Down"),
        KeyCode::Home => owned("Home"),
        KeyCode::End => owned("End"),
        KeyCode::PageUp => owned("PageUp"),
        KeyCode::PageDown => owned("PageDown"),
        KeyCode::Tab => owned("Tab"),
        KeyCode::BackTab => owned("BackTab"),
        KeyCode::Delete => owned("Delete"),
        KeyCode::Insert => owned("Insert"),
        KeyCode::F(n) => owned("F").concat(decimal(n).as_str()),
        KeyCode::Char(c) => if c == ' ' {
            owned("Space")
        } else {
            uppercase(c)
        },
        KeyCode::Null => owned("Unknown"),
        KeyCode::Esc => owned("Esc"),
        KeyCode::CapsLock => owned("Caps Lock"),
        KeyCode::ScrollLock => owned("Scroll Lock"),
        KeyCode::NumLock => owned("Num Lock"),
        KeyCode::PrintScreen => owned("Print Screen"),
        KeyCode::Menu => owned("Menu"),
        KeyCode::Pause => owned("Pause"),
        KeyCode::KeypadBegin => owned("Keypad Begin"),
    }
}

pub fn event_to_string(key_event: KeyEvent) -> (r: String)
    ensures
        r@ == chord_text(key_event),
{
    if key_event.code == KeyCode::BackTab {
        code_to_string(key_event.code)
    } else {
        modifier_to_string(key_event.modifiers).concat(code_to_string(key_event.code).as_str())
    }
}

/// The index of the first occurrence of `label`.
pub open spec fn position(labels: Seq<Seq<char>>, label: Seq<char>) -> Option<int>
    decreases labels.len(),
{
    if labels.len() == 0 {
        None
    } else if labels[0] == label {
        Some(0)
    } else {
        match position(labels.drop_first(), label) {
            Some(i) => Some(i + 1),
            None => None,
        }
    }
}

pub proof fn lemma_position(labels: Seq<Seq<char>>, label: Seq<char>)
    ensures
        match position(labels, label) {
            Some(i) => 0 <= i < labels.len() && labels[i] == label && forall|j: int|
                0 <= j < i ==> #[trigger] labels[j] != label,
            None => forall|j: int| 0 <= j < labels.len() ==> #[trigger] labels[j] != label,
        },
    decreases labels.len(),
{
    if labels.len() > 0 {
        lemma_position(labels.drop_first(), label);
        assert forall|j: int| 1 <= j < labels.len() implies labels[j] == labels.drop_first()[j
            - 1] by {}
    }
}

/// Shift with a character key adds nothing to the legend: the character
/// already shows its case.
pub open spec fn shown(b: KeyBind) -> bool {
    !(b.event.modifiers.shift && b.event.code is Char)
}

/// The legend of a table of bindings, as the labels met so far and one line
/// per label: the label, then the chords bound to an action of that label,
/// in table order, separated by commas.
pub open spec fn legend_lines(inputs: Seq<KeyBind>) -> (Seq<Seq<char>>, Seq<Seq<char>>)
    decreases inputs.len(),
{
    if inputs.len() == 0 {
        (seq![], seq![])
    } else {
        let (labels, lines) = legend_lines(inputs.drop_last());
        let b = inputs.last();
        if !shown(b) {
            (labels, lines)
        } else {
            match b.action.legend_label() {
                None => (labels, lines),
                Some(label) => match position(labels, label) {
                    Some(i) => (labels, lines.update(i, lines[i] + ", "@ + chord_text(b.event))),
                    None => (labels.push(label), lines.push(label + ": "@ + chord_text(b.event))),
                },
            }
        }
    }
}

pub proof fn lemma_legend_lines_len(inputs: Seq<KeyBind>)
    ensures
        legend_lines(inputs).0.len() == legend_lines(inputs).1.len(),
    decreases inputs.len(),
{
    if inputs.len() > 0 {
        lemma_legend_lines_len(inputs.drop_last());
        let (labels, lines) = legend_lines(inputs.drop_last());
        lemma_position(labels, inputs.last().action.legend_label().unwrap_or(seq![]));
    }
}

pub open spec fn legend(inputs: Seq<KeyBind>) -> Seq<Seq<char>> {
    legend_lines(inputs).1
}

pub open spec fn texts(strings: Seq<String>) -> Seq<Seq<char>> {
    strings.map_values(|s: String| s@)
}

/// The index of the first label equal to `label`.
fn find_label(labels: &Vec<String>, label: &String) -> (r: Option<usize>)
    ensures
        match r {
            Some(j) => j < labels@.len() && labels@[j as int]@ == label@ && forall|k: int|
                0 <= k < j ==> #[trigger] labels@[k]@ != label@,
            None => forall|k: int| 0 <= k < labels@.len() ==> #[trigger] labels@[k]@ != label@,
        },
{
    let mut j: usize = 0;
    while j < labels.len()
        invariant
            j <= labels.len(),
            forall|k: int| 0 <= k < j ==> #[trigger] labels@[k]@ != label@,
        decreases labels.len() - j,
    {
        if labels[j] == *label {
            return Some(j);
        }
        j = j + 1;
    }
    None
}

impl Handler {
    /// The legend of the bindings: one line per action label.
    pub fn render(&self) -> (r: Vec<String>)
        ensures
            texts(r@) == legend(self.inputs@),
    {
        let mut actions: Vec<String> = Vec::new();
        let mut binds: Vec<String> = Vec::new();
        let mut i: usize = 0;
        while i < self.inputs.len()
            invariant
                i <= self.inputs.len(),
                texts(actions@) == legend_lines(self.inputs@.take(i as int)).0,
                texts(binds@) == legend_lines(self.inputs@.take(i as int)).1,
            decreases self.inputs.len() - i,
        {
            let input = &self.inputs[i];
            let ghost prefix = self.inputs@.take(i as int);
            assert(self.inputs@.take(i + 1).drop_last() =~= prefix);
            assert(self.inputs@.take(i + 1).last() == *input);
            proof {
                lemma_legend_lines_len(prefix);
            }
            let skip = input.event.modifiers.shift && match input.event.code {
                KeyCode::Char(_) => true,
                _ => false,
            };
            let ghost next = legend_lines(self.inputs@.take(i + 1));
            assert(skip == !shown(*input));
            if skip {
                assert(next == legend_lines(prefix));
            }
            if !skip {
                let label = input.action.handle();
                assert(label is None ==> input.action.legend_label() is None);
                assert(label is None ==> next == legend_lines(prefix));
                if let Some(handle) = label {
                    let action = owned(handle);
                    let text = event_to_string(input.event);
                    proof {
                        lemma_position(texts(actions@), action@);
                    }
                    let found = find_label(&actions, &action);
                    if let Some(j) = found {
                        proof {
                            lemma_position(texts(actions@), action@);
                            assert(texts(actions@)[j as int] == action@);
                            if let Some(p) = position(texts(actions@), action@) {
                                assert(!(p < j));
                            }
                            assert(position(texts(actions@), action@) == Some(j as int));
                            assert(next.0 == legend_lines(prefix).0);
                        }
                        let line = binds[j].clone().concat(", ").concat(text.as_str());
                        binds.set(j, line);
                    } else {
                        proof {
                            lemma_position(texts(actions@), action@);
                            assert forall|k: int| 0 <= k < texts(actions@).len() implies #[trigger] texts(actions@)[k] != action@ by {
                                assert(texts(actions@)[k] == actions@[k]@);
                            }
                            assert(position(texts(actions@), action@) is None);
                        }
                        let ghost old_actions = actions@;
                        actions.push(action.clone());
                        assert(texts(actions@) =~= texts(old_actions).push(action@));
                        assert(next.0 == legend_lines(prefix).0.push(action@));
                        binds.push(action.concat(": ").concat(text.as_str()));
                    }
                }
            }
            i = i + 1;
            assert(texts(actions@) =~= legend_lines(self.inputs@.take(i as int)).0);
            assert(texts(binds@) =~= legend_lines(self.inputs@.take(i as int)).1);
        }
        assert(self.inputs@.take(self.inputs.len() as int) =~= self.inputs@);
        binds
    }
}

} // verus!
