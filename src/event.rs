use crate::channel::{copy_channels, copy_strings, Account, Channel};
use vstd::prelude::*;
use vstd::string::StrSliceExecFns;

verus! {

#[derive(Clone, Copy, PartialEq, Eq, Structural, Debug)]
pub enum MoveDirection {
    Up,
    Down,
    Left,
    Right,
}

#[derive(Clone, Copy, PartialEq, Eq, Structural, Debug)]
pub enum MoveEnd {
    First,
    Last,
}

/// What a popup hands to its callback when it completes.
pub enum Output {
    Input(String),
    Index(usize),
}

/// The action that runs when a popup completes: each one turns the popup's
/// output into the event that carries it on.
#[derive(Clone, Copy, PartialEq, Eq, Structural, Debug)]
pub enum Callback {
    ChatChoice,
    ChatChoiceSearch,
    UsernameSubmit,
    UserIdSubmit,
    ClientIdSubmit,
    ClientSecretSubmit,
    RedirectUrlPortSubmit,
}

/// A yes/no answer chosen by its index among the options "No" and "Yes".
#[derive(Clone, Copy, PartialEq, Eq, Structural, Debug)]
pub enum BoolChoice {
    False,
    True,
}

impl From<usize> for BoolChoice {
    fn from(input: usize) -> (r: Self) {
        if input == 1 {
            BoolChoice::True
        } else {
            BoolChoice::False
        }
    }
}

impl vstd::std_specs::convert::FromSpecImpl<usize> for BoolChoice {
    open spec fn obeys_from_spec() -> bool {
        true
    }

    open spec fn from_spec(input: usize) -> Self {
        if input == 1 {
            BoolChoice::True
        } else {
            BoolChoice::False
        }
    }
}

impl BoolChoice {
    pub fn is_true(&self) -> (r: bool)
        ensures
            r == (*self == BoolChoice::True),
    {
        *self == BoolChoice::True
    }

    pub fn yes_no_display(&self) -> (r: &'static str)
        ensures
            *self == BoolChoice::False ==> r@ == "No"@,
            *self == BoolChoice::True ==> r@ == "Yes"@,
    {
        match *self {
            BoolChoice::False => "No",
            BoolChoice::True => "Yes",
        }
    }
}

/// Everything that can happen in one tick of the application.
pub enum Event {
    Started,
    Exited,
    CheckChannels(Vec<Channel>),
    ChannelSelected(Channel, bool),
    ChoicePopupStarted((String, String, Vec<String>, Option<Callback>)),
    InputPopupStarted((String, String, Option<Callback>)),
    TimedInfoPopupStarted((String, String, u64, Option<Callback>)),
    PopupEnded,
    ChatChoice(usize),
    ChatChoiceSearch(usize),
    CycleTab(MoveDirection),
    CycleHighlight(MoveDirection),
    HomeEndHighlight(MoveEnd),
    Selected,
    CyclePanel(MoveDirection),
    StopTyping,
    Submit,
    DeleteChar,
    Typed(char),
    AccountConfigured(Account),
    SetUser(String),
    SetUserId(String),
    SetClientId(String),
    SetClientSecret(String),
    SetRedirectUrlPort(u16),
    Paste(String),
}

impl Event {
    /// Two events say the same thing: equal, with lists compared by contents.
    pub open spec fn same(self, other: Event) -> bool {
        match (self, other) {
            (Event::CheckChannels(a), Event::CheckChannels(b)) => a@ == b@,
            (Event::ChoicePopupStarted(a), Event::ChoicePopupStarted(b)) => a.0 == b.0 && a.1
                == b.1 && a.2@ == b.2@ && a.3 == b.3,
            _ => self == other,
        }
    }

    /// The legend text of the action that an event stands for, if it has one.
    pub open spec fn legend_label(self) -> Option<Seq<char>> {
        match self {
            Event::Exited => Some("Exit"@),
            Event::CycleTab(_) => Some("Cycle Tabs"@),
            Event::CycleHighlight(_) | Event::HomeEndHighlight(_) => Some("Cycle List"@),
            Event::Selected => Some("Select"@),
            Event::CyclePanel(_) => Some("Cycle Panels"@),
            Event::StopTyping => Some("Stop Typing"@),
            Event::Submit => Some("Submit"@),
            _ => None,
        }
    }
}

impl Clone for Event {
    fn clone(&self) -> (r: Self)
        ensures
            r.same(*self),
    {
        match self {
            Event::Started => Event::Started,
            Event::Exited => Event::Exited,
            Event::CheckChannels(c) => Event::CheckChannels(copy_channels(c)),
            Event::ChannelSelected(c, b) => Event::ChannelSelected(c.clone(), *b),
            Event::ChoicePopupStarted(p) => Event::ChoicePopupStarted(
                (p.0.clone(), p.1.clone(), copy_strings(&p.2), p.3),
            ),
            Event::InputPopupStarted(p) => Event::InputPopupStarted((p.0.clone(), p.1.clone(), p.2)),
            Event::TimedInfoPopupStarted(p) => Event::TimedInfoPopupStarted(
                (p.0.clone(), p.1.clone(), p.2, p.3),
            ),
            Event::PopupEnded => Event::PopupEnded,
            Event::ChatChoice(i) => Event::ChatChoice(*i),
            Event::ChatChoiceSearch(i) => Event::ChatChoiceSearch(*i),
            Event::CycleTab(d) => Event::CycleTab(*d),
            Event::CycleHighlight(d) => Event::CycleHighlight(*d),
            Event::HomeEndHighlight(e) => Event::HomeEndHighlight(*e),
            Event::Selected => Event::Selected,
            Event::CyclePanel(d) => Event::CyclePanel(*d),
            Event::StopTyping => Event::StopTyping,
            Event::Submit => Event::Submit,
            Event::DeleteChar => Event::DeleteChar,
            Event::Typed(c) => Event::Typed(*c),
            Event::AccountConfigured(a) => Event::AccountConfigured(a.clone()),
            Event::SetUser(s) => Event::SetUser(s.clone()),
            Event::SetUserId(s) => Event::SetUserId(s.clone()),
            Event::SetClientId(s) => Event::SetClientId(s.clone()),
            Event::SetClientSecret(s) => Event::SetClientSecret(s.clone()),
            Event::SetRedirectUrlPort(p) => Event::SetRedirectUrlPort(*p),
            Event::Paste(s) => Event::Paste(s.clone()),
        }
    }
}

/// Something that a key binding can trigger and that the legend of bindings names.
pub trait Action {
    spec fn label(&self) -> Option<Seq<char>>;

    fn handle(&self) -> (r: Option<&'static str>)
        ensures
            match r {
                Some(s) => self.label() == Some(s@),
                None => self.label() is None,
            },
    ;
}

impl Action for Event {
    open spec fn label(&self) -> Option<Seq<char>> {
        self.legend_label()
    }

    fn handle(&self) -> (r: Option<&'static str>) {
        match self {
            Event::Exited => Some("Exit"),
            Event::CycleTab(_) => Some("Cycle Tabs"),
            Event::CycleHighlight(_) | Event::HomeEndHighlight(_) => Some("Cycle List"),
            Event::Selected => Some("Select"),
            Event::CyclePanel(_) => Some("Cycle Panels"),
            Event::StopTyping => Some("Stop Typing"),
            Event::Submit => Some("Submit"),
            _ => None,
        }
    }
}

pub open spec fn is_digit(c: char) -> bool {
    '0' <= c <= '9'
}

/// The number that a string of decimal digits writes.
pub open spec fn digits_value(s: Seq<char>) -> int
    decreases s.len(),
{
    if s.len() == 0 {
        0
    } else {
        digits_value(s.drop_last()) * 10 + (s.last() as int - '0' as int)
    }
}

/// The digits of a port number: the text without one leading `+`.
pub open spec fn port_digits(s: Seq<char>) -> Seq<char> {
    if s.len() > 0 && s[0] == '+' {
        s.drop_first()
    } else {
        s
    }
}

/// The port that a text names: one or more decimal digits, after an optional
/// `+`, whose value fits in 16 bits.
pub open spec fn port_of(s: Seq<char>) -> Option<u16> {
    let d = port_digits(s);
    if d.len() > 0 && (forall|i: int| 0 <= i < d.len() ==> is_digit(#[trigger] d[i]))
        && digits_value(d) <= 65535 {
        Some(digits_value(d) as u16)
    } else {
        None
    }
}

proof fn lemma_digits_value_grows(s: Seq<char>, i: int)
    requires
        0 <= i <= s.len(),
        forall|j: int| 0 <= j < s.len() ==> is_digit(#[trigger] s[j]),
    ensures
        digits_value(s.take(i)) <= digits_value(s),
        0 <= digits_value(s.take(i)),
    decreases s.len(),
{
    if s.len() > 0 {
        if i == s.len() {
            assert(s.take(i) =~= s);
            lemma_digits_value_grows(s.drop_last(), 0);
        } else {
            assert(s.drop_last().take(i) =~= s.take(i));
            lemma_digits_value_grows(s.drop_last(), i);
            lemma_digits_value_grows(s.drop_last(), s.len() - 1);
            assert(s.drop_last().take(s.len() - 1) =~= s.drop_last());
        }
    } else {
        assert(s.take(i) =~= s);
    }
}

/// Reads a port number from a text, as the standard library reads a `u16`.
pub fn parse_port(text: &String) -> (r: Option<u16>)
    ensures
        r == port_of(text@),
{
    let s = text.as_str();
    let len = s.unicode_len();
    let mut start: usize = 0;
    if len > 0 && s.get_char(0) == '+' {
        start = 1;
    }
    let ghost d = port_digits(text@);
    assert(d =~= text@.subrange(start as int, len as int));
    if start == len {
        return None;
    }
    let mut value: u32 = 0;
    let mut i: usize = start;
    while i < len
        invariant
            start <= i <= len,
            len == text@.len(),
            s@ == text@,
            d =~= text@.subrange(start as int, len as int),
            d == port_digits(text@),
            forall|j: int| 0 <= j < i - start ==> is_digit(#[trigger] d[j]),
            value == digits_value(d.take(i - start)),
            value <= 65535,
        decreases len - i,
    {
        let c = s.get_char(i);
        if !('0' <= c && c <= '9') {
            assert(!is_digit(d[i - start]));
            assert(!(forall|j: int| 0 <= j < d.len() ==> is_digit(#[trigger] d[j])));
            assert(port_of(text@) is None);
            return None;
        }
        let next = value * 10 + (c as u32 - '0' as u32);
        assert(d.take(i + 1 - start).drop_last() =~= d.take(i - start));
        if next > 65535 {
            proof {
                assert(is_digit(d[i - start]));
                assert(digits_value(d.take(i + 1 - start)) == next);
                if forall|j: int| 0 <= j < d.len() ==> is_digit(#[trigger] d[j]) {
                    lemma_digits_value_grows(d, i + 1 - start);
                }
                assert(port_of(text@) is None);
            }
            return None;
        }
        value = next;
        i = i + 1;
    }
    assert(d.take(len - start) =~= d);
    Some(value as u16)
}

} // verus!
