use crate::event::{parse_port, port_of, Callback, Event, MoveDirection, MoveEnd, Output};
use crate::exit::Exit;
use crate::input::{
    bound_action, choice_inputs, same_action, spec_choice_inputs, spec_select_binds,
    spec_typing_inputs, timed_info_inputs, typing_inputs, user_input_inputs, Handler, KeyBind,
    KeyCode, KeyEvent,
};
use crate::state::{reaction_view, AppState, AppStateView};
use crate::text::{owned, string_of};
use crate::transition::{Reaction, Transition};
use crate::util::{index_add, index_subtract, next_index, previous_index};
use vstd::prelude::*;
use vstd::string::StrSliceExecFns;

verus! {

/// The options of a choice popup and the highlighted one.
pub struct Choice {
    pub selected: usize,
    pub options: Vec<String>,
}

/// The text typed into an input popup, and whether typing is on.
pub struct Input {
    pub typing: bool,
    pub input: Vec<char>,
}

/// A popup that closes by itself after `duration` ticks.
#[derive(Clone, Copy, PartialEq, Eq, Structural, Debug)]
pub struct TimedInfo {
    pub duration: u64,
}

pub enum Type {
    Choice(Choice),
    Input(Input),
    TimedInfo(TimedInfo),
}

/// A popup's kind with its data, lists as sequences.
pub enum TypeView {
    Choice(usize, Seq<String>),
    Input(bool, Seq<char>),
    TimedInfo(u64),
}

pub struct PopupView {
    pub title: String,
    pub message: String,
    pub variant: TypeView,
    pub callback: Option<Callback>,
}

/// A modal screen over another one.
pub struct Popup {
    pub title: String,
    pub message: String,
    pub variant: Type,
    pub callback: Option<Callback>,
}

impl View for Popup {
    type V = PopupView;

    open spec fn view(&self) -> PopupView {
        PopupView {
            title: self.title,
            message: self.message,
            variant: match self.variant {
                Type::Choice(c) => TypeView::Choice(c.selected, c.options@),
                Type::Input(i) => TypeView::Input(i.typing, i.input@),
                Type::TimedInfo(t) => TypeView::TimedInfo(t.duration),
            },
            callback: self.callback,
        }
    }
}

impl PopupView {
    /// The highlighted option of a choice popup is one of its options.
    pub open spec fn wf(self) -> bool {
        match self.variant {
            TypeView::Choice(selected, options) => options.len() > 0 ==> selected < options.len(),
            _ => true,
        }
    }

    pub open spec fn with_variant(self, variant: TypeView) -> PopupView {
        PopupView { variant, ..self }
    }

    /// The bindings that the popup answers to.
    pub open spec fn inputs(self) -> Seq<KeyBind> {
        match self.variant {
            TypeView::Choice(_, _) => spec_choice_inputs(),
            TypeView::Input(typing, _) => if typing {
                spec_typing_inputs()
            } else {
                spec_select_binds()
            },
            TypeView::TimedInfo(_) => Seq::empty(),
        }
    }

    /// The popup after a navigation or editing event.
    pub open spec fn after(self, action: Event) -> PopupView {
        match (self.variant, action) {
            (TypeView::Choice(selected, options), Event::CycleHighlight(d)) => self.with_variant(
                TypeView::Choice(
                    match d {
                        MoveDirection::Down => next_index(selected as int, options.len() as int)
                            as usize,
                        MoveDirection::Up => previous_index(selected as int, options.len() as int)
                            as usize,
                        _ => selected,
                    },
                    options,
                ),
            ),
            (TypeView::Choice(selected, options), Event::HomeEndHighlight(e)) => self.with_variant(
                TypeView::Choice(
                    match e {
                        MoveEnd::First => 0,
                        MoveEnd::Last => if options.len() > 0 {
                            (options.len() - 1) as usize
                        } else {
                            selected
                        },
                    },
                    options,
                ),
            ),
            (TypeView::Input(_, input), Event::Selected) => self.with_variant(
                TypeView::Input(true, input),
            ),
            (TypeView::Input(_, input), Event::StopTyping) => self.with_variant(
                TypeView::Input(false, input),
            ),
            (TypeView::Input(typing, input), Event::DeleteChar) => self.with_variant(
                TypeView::Input(
                    typing,
                    if input.len() > 0 {
                        input.drop_last()
                    } else {
                        input
                    },
                ),
            ),
            (TypeView::Input(typing, input), Event::Typed(c)) => self.with_variant(
                TypeView::Input(typing, input.push(c)),
            ),
            (TypeView::Input(typing, input), Event::Paste(text)) => self.with_variant(
                TypeView::Input(typing, input + text@),
            ),
            _ => self,
        }
    }

    /// The output that completes the popup on this event, if it does.
    pub open spec fn completion(self, action: Event) -> Option<OutputView> {
        match (self.variant, action) {
            (TypeView::Choice(selected, _), Event::Selected) => Some(OutputView::Index(selected)),
            (TypeView::Input(_, input), Event::Submit) => if input.len() > 0 {
                Some(OutputView::Input(input))
            } else {
                None
            },
            _ => None,
        }
    }
}

/// What a popup hands to its callback, text as a sequence.
pub enum OutputView {
    Input(Seq<char>),
    Index(usize),
}

pub open spec fn output_view(output: Output) -> OutputView {
    match output {
        Output::Input(s) => OutputView::Input(s@),
        Output::Index(i) => OutputView::Index(i),
    }
}

/// `event` is the one that the text callback `cb` sends, carrying `text`.
pub open spec fn carries_text(event: Event, cb: Callback, text: Seq<char>) -> bool {
    match (cb, event) {
        (Callback::UsernameSubmit, Event::SetUser(s)) => s@ == text,
        (Callback::UserIdSubmit, Event::SetUserId(s)) => s@ == text,
        (Callback::ClientIdSubmit, Event::SetClientId(s)) => s@ == text,
        (Callback::ClientSecretSubmit, Event::SetClientSecret(s)) => s@ == text,
        _ => false,
    }
}

/// The events a callback sends for an output.
pub open spec fn callback_sent(cb: Callback, output: OutputView, sent: Seq<Event>) -> bool {
    match (cb, output) {
        (Callback::ChatChoice, OutputView::Index(i)) => sent == seq![Event::ChatChoice(i)],
        (Callback::ChatChoiceSearch, OutputView::Index(i)) => sent == seq![
            Event::ChatChoiceSearch(i),
        ],
        (Callback::RedirectUrlPortSubmit, OutputView::Input(text)) => match port_of(text) {
            Some(port) => sent == seq![Event::SetRedirectUrlPort(port)],
            None => sent.len() == 0,
        },
        (Callback::ChatChoice, OutputView::Input(_)) => sent.len() == 0,
        (Callback::ChatChoiceSearch, OutputView::Input(_)) => sent.len() == 0,
        (Callback::RedirectUrlPortSubmit, OutputView::Index(_)) => sent.len() == 0,
        (_, OutputView::Input(text)) => sent.len() == 1 && carries_text(sent[0], cb, text),
        (_, OutputView::Index(_)) => sent.len() == 0,
    }
}

/// The events a popup sends on completion: its end, then what its callback sends.
pub open spec fn completion_sent(
    callback: Option<Callback>,
    output: OutputView,
    sent: Seq<Event>,
) -> bool {
    sent.len() >= 1 && sent[0] == Event::PopupEnded && match callback {
        Some(cb) => callback_sent(cb, output, sent.drop_first()),
        None => sent.len() == 1,
    }
}

pub fn chat_choice(tx: &mut Vec<Event>, output: &Output)
    ensures
        callback_sent(
            Callback::ChatChoice,
            output_view(*output),
            final(tx)@.subrange(old(tx)@.len() as int, final(tx)@.len() as int),
        ),
        final(tx)@.len() >= old(tx)@.len(),
        final(tx)@.subrange(0, old(tx)@.len() as int) == old(tx)@,
{
    let ghost before = tx@;
    if let Output::Index(choice) = output {
        tx.push(Event::ChatChoice(*choice));
    }
    assert(tx@.subrange(0, before.len() as int) =~= before);
    assert(tx@.subrange(before.len() as int, tx@.len() as int) =~= match output_view(*output) {
        OutputView::Index(i) => seq![Event::ChatChoice(i)],
        _ => Seq::<Event>::empty(),
    });
}

pub fn chat_choice_search(tx: &mut Vec<Event>, output: &Output)
    ensures
        callback_sent(
            Callback::ChatChoiceSearch,
            output_view(*output),
            final(tx)@.subrange(old(tx)@.len() as int, final(tx)@.len() as int),
        ),
        final(tx)@.len() >= old(tx)@.len(),
        final(tx)@.subrange(0, old(tx)@.len() as int) == old(tx)@,
{
    let ghost before = tx@;
    if let Output::Index(choice) = output {
        tx.push(Event::ChatChoiceSearch(*choice));
    }
    assert(tx@.subrange(0, before.len() as int) =~= before);
    assert(tx@.subrange(before.len() as int, tx@.len() as int) =~= match output_view(*output) {
        OutputView::Index(i) => seq![Event::ChatChoiceSearch(i)],
        _ => Seq::<Event>::empty(),
    });
}

pub fn username_submit(tx: &mut Vec<Event>, output: &Output)
    ensures
        callback_sent(
            Callback::UsernameSubmit,
            output_view(*output),
            final(tx)@.subrange(old(tx)@.len() as int, final(tx)@.len() as int),
        ),
        final(tx)@.len() >= old(tx)@.len(),
        final(tx)@.subrange(0, old(tx)@.len() as int) == old(tx)@,
{
    let ghost before = tx@;
    if let Output::Input(input) = output {
        tx.push(Event::SetUser(input.clone()));
    }
    assert(tx@.subrange(0, before.len() as int) =~= before);
    assert(tx@.subrange(before.len() as int, tx@.len() as int).len() == tx@.len() - before.len());
}

pub fn user_id_submit(tx: &mut Vec<Event>, output: &Output)
    ensures
        callback_sent(
            Callback::UserIdSubmit,
            output_view(*output),
            final(tx)@.subrange(old(tx)@.len() as int, final(tx)@.len() as int),
        ),
        final(tx)@.len() >= old(tx)@.len(),
        final(tx)@.subrange(0, old(tx)@.len() as int) == old(tx)@,
{
    let ghost before = tx@;
    if let Output::Input(input) = output {
        tx.push(Event::SetUserId(input.clone()));
    }
    assert(tx@.subrange(0, before.len() as int) =~= before);
    assert(tx@.subrange(before.len() as int, tx@.len() as int).len() == tx@.len() - before.len());
}

pub fn client_id_submit(tx: &mut Vec<Event>, output: &Output)
    ensures
        callback_sent(
            Callback::ClientIdSubmit,
            output_view(*output),
            final(tx)@.subrange(old(tx)@.len() as int, final(tx)@.len() as int),
        ),
        final(tx)@.len() >= old(tx)@.len(),
        final(tx)@.subrange(0, old(tx)@.len() as int) == old(tx)@,
{
    let ghost before = tx@;
    if let Output::Input(input) = output {
        tx.push(Event::SetClientId(input.clone()));
    }
    assert(tx@.subrange(0, before.len() as int) =~= before);
    assert(tx@.subrange(before.len() as int, tx@.len() as int).len() == tx@.len() - before.len());
}

pub fn client_secret_submit(tx: &mut Vec<Event>, output: &Output)
    ensures
        callback_sent(
            Callback::ClientSecretSubmit,
            output_view(*output),
            final(tx)@.subrange(old(tx)@.len() as int, final(tx)@.len() as int),
        ),
        final(tx)@.len() >= old(tx)@.len(),
        final(tx)@.subrange(0, old(tx)@.len() as int) == old(tx)@,
{
    let ghost before = tx@;
    if let Output::Input(input) = output {
        tx.push(Event::SetClientSecret(input.clone()));
    }
    assert(tx@.subrange(0, before.len() as int) =~= before);
    assert(tx@.subrange(before.len() as int, tx@.len() as int).len() == tx@.len() - before.len());
}

/// Sends the port typed in; a text that names no port sends nothing.
pub fn redirect_url_port_submit(tx: &mut Vec<Event>, output: &Output)
    ensures
        callback_sent(
            Callback::RedirectUrlPortSubmit,
            output_view(*output),
            final(tx)@.subrange(old(tx)@.len() as int, final(tx)@.len() as int),
        ),
        final(tx)@.len() >= old(tx)@.len(),
        final(tx)@.subrange(0, old(tx)@.len() as int) == old(tx)@,
{
    let ghost before = tx@;
    if let Output::Input(input) = output {
        if let Some(port) = parse_port(input) {
            tx.push(Event::SetRedirectUrlPort(port));
        }
    }
    assert(tx@.subrange(0, before.len() as int) =~= before);
    assert(tx@.subrange(before.len() as int, tx@.len() as int) =~= match output_view(*output) {
        OutputView::Input(text) => match port_of(text) {
            Some(port) => seq![Event::SetRedirectUrlPort(port)],
            None => Seq::<Event>::empty(),
        },
        _ => Seq::<Event>::empty(),
    });
}

impl Callback {
    /// Runs the callback on a popup's output.
    pub fn call(&self, tx: &mut Vec<Event>, output: &Output)
        ensures
            callback_sent(
                *self,
                output_view(*output),
                final(tx)@.subrange(old(tx)@.len() as int, final(tx)@.len() as int),
            ),
            final(tx)@.len() >= old(tx)@.len(),
            final(tx)@.subrange(0, old(tx)@.len() as int) == old(tx)@,
    {
        match self {
            Callback::ChatChoice => chat_choice(tx, output),
            Callback::ChatChoiceSearch => chat_choice_search(tx, output),
            Callback::UsernameSubmit => username_submit(tx, output),
            Callback::UserIdSubmit => user_id_submit(tx, output),
            Callback::ClientIdSubmit => client_id_submit(tx, output),
            Callback::ClientSecretSubmit => client_secret_submit(tx, output),
            Callback::RedirectUrlPortSubmit => redirect_url_port_submit(tx, output),
        }
    }
}

/// The event that opens the popup asking whether to launch the chat too.
pub open spec fn is_chat_popup(event: Event, cb: Callback) -> bool {
    match event {
        Event::ChoicePopupStarted(p) => p.0@ == "Launch Chat"@ && p.1@
            == "Do you want to launch the chat with the stream?"@ && p.2@.len() == 2
            && p.2@[0]@ == "No"@ && p.2@[1]@ == "Yes"@ && p.3 == Some(cb),
        _ => false,
    }
}

fn chat_popup_event(cb: Callback) -> (r: Event)
    ensures
        is_chat_popup(r, cb),
{
    let mut options: Vec<String> = Vec::new();
    options.push(owned("No"));
    options.push(owned("Yes"));
    Event::ChoicePopupStarted(
        (
            owned("Launch Chat"),
            owned("Do you want to launch the chat with the stream?"),
            options,
            Some(cb),
        ),
    )
}

/// Asks for the popup that decides whether the highlighted channel's chat opens too.
pub fn chat_popup(tx: &mut Vec<Event>)
    ensures
        final(tx)@.len() == old(tx)@.len() + 1,
        final(tx)@.drop_last() == old(tx)@,
        is_chat_popup(final(tx)@.last(), Callback::ChatChoice),
{
    tx.push(chat_popup_event(Callback::ChatChoice));
    assert(tx@.drop_last() =~= old(tx)@);
}

/// Asks for the popup that decides whether the searched channel's chat opens too.
pub fn chat_popup_search(tx: &mut Vec<Event>)
    ensures
        final(tx)@.len() == old(tx)@.len() + 1,
        final(tx)@.drop_last() == old(tx)@,
        is_chat_popup(final(tx)@.last(), Callback::ChatChoiceSearch),
{
    tx.push(chat_popup_event(Callback::ChatChoiceSearch));
    assert(tx@.drop_last() =~= old(tx)@);
}

fn new(title: String, message: String, variant: Type, callback: Option<Callback>) -> (r: Popup)
    ensures
        r.title == title,
        r.message == message,
        r.variant == variant,
        r.callback == callback,
{
    Popup { title, message, variant, callback }
}

proof fn lemma_completion(
    before: Seq<Event>,
    after: Seq<Event>,
    callback: Option<Callback>,
    output: OutputView,
)
    requires
        after.len() > before.len(),
        after.subrange(0, (before.len() + 1) as int) == before.push(Event::PopupEnded),
        match callback {
            Some(cb) => callback_sent(cb, output, after.subrange((before.len() + 1) as int, after.len() as int)),
            None => after.len() == (before.len() + 1) as int,
        },
    ensures
        after.subrange(0, before.len() as int) == before,
        completion_sent(callback, output, after.subrange(before.len() as int, after.len() as int)),
{
    let sent = after.subrange(before.len() as int, after.len() as int);
    assert(after.subrange(0, before.len() as int) =~= after.subrange(0, (before.len() + 1) as int).drop_last());
    assert(before.push(Event::PopupEnded).drop_last() =~= before);
    assert(sent[0] == after.subrange(0, (before.len() + 1) as int)[before.len() as int]);
    assert(sent.drop_first() =~= after.subrange((before.len() + 1) as int, after.len() as int));
}

impl Popup {
    pub fn new_choice(
        title: String,
        message: String,
        options: &Vec<String>,
        callback: Option<Callback>,
    ) -> (r: Popup)
        ensures
            r@ == (PopupView { title, message, variant: TypeView::Choice(0, options@), callback }),
    {
        new(title, message, Type::Choice(Choice { selected: 0, options: crate::channel::copy_strings(options) }), callback)
    }

    pub fn new_input(title: String, message: String, callback: Option<Callback>) -> (r: Popup)
        ensures
            r@ == (PopupView { title, message, variant: TypeView::Input(false, Seq::empty()), callback }),
    {
        let r = new(title, message, Type::Input(Input { typing: false, input: Vec::new() }), callback);
        assert(r@.variant == TypeView::Input(false, Seq::<char>::empty()));
        r
    }

    pub fn new_timed_info(
        title: String,
        message: String,
        duration: u64,
        callback: Option<Callback>,
    ) -> (r: Popup)
        ensures
            r@ == (PopupView { title, message, variant: TypeView::TimedInfo(duration), callback }),
    {
        new(title, message, Type::TimedInfo(TimedInfo { duration }), callback)
    }

    /// A copy of the popup.
    pub fn resume(&self) -> (r: Popup)
        ensures
            r@ == self@,
    {
        let variant = match &self.variant {
            Type::Choice(c) => Type::Choice(
                Choice { selected: c.selected, options: crate::channel::copy_strings(&c.options) },
            ),
            Type::Input(i) => Type::Input(
                Input { typing: i.typing, input: crate::channel::copy_chars(&i.input) },
            ),
            Type::TimedInfo(t) => Type::TimedInfo(*t),
        };
        Popup {
            title: self.title.clone(),
            message: self.message.clone(),
            variant,
            callback: self.callback,
        }
    }

    /// The bindings that the popup answers to.
    pub fn inputs(&self) -> (r: Vec<KeyBind>)
        ensures
            r@ == self@.inputs(),
    {
        match &self.variant {
            Type::Choice(_) => choice_inputs(),
            Type::Input(i) => if i.typing {
                typing_inputs()
            } else {
                user_input_inputs()
            },
            Type::TimedInfo(_) => timed_info_inputs(),
        }
    }

    /// A timed popup ends once the timer passes its duration.
    pub fn tick(&self, timer: u64, tx: &mut Vec<Event>)
        ensures
            final(tx)@ == (match self.variant {
                Type::TimedInfo(t) => if timer > t.duration {
                    old(tx)@.push(Event::PopupEnded)
                } else {
                    old(tx)@
                },
                _ => old(tx)@,
            }),
    {
        if let Type::TimedInfo(popup) = &self.variant {
            if timer > popup.duration {
                tx.push(Event::PopupEnded);
            }
        }
    }

    pub fn transition(&self, event: Event, tx: &mut Vec<Event>) -> (r: Reaction)
        ensures
            final(tx)@ == old(tx)@,
            event is Exited ==> r == Reaction::Go(Transition::To(AppState::Exit(Exit))),
            event is PopupEnded ==> r == Reaction::Go(Transition::Pop),
            !(event is Exited) && !(event is PopupEnded) ==> r is Stay,
            reaction_view(r) == AppStateView::Popup(self@).reaction(event),
    {
        match event {
            Event::Exited => Reaction::Go(Transition::To(AppState::Exit(Exit::new()))),
            Event::PopupEnded => Reaction::Go(Transition::Pop),
            _ => Reaction::Stay,
        }
    }

    /// The event for a key chord: the bound action, or, while text is typed
    /// into an input popup, the typed character.
    pub fn handle(&self, key_event: KeyEvent) -> (r: Option<Event>)
        ensures
            match (self@.variant, bound_action(self@.inputs(), key_event), key_event.code) {
                (TypeView::Input(true, _), None, KeyCode::Char(c)) => r == Some(Event::Typed(c)),
                (_, action, _) => same_action(r, action),
            },
    {
        let handler = Handler::new(self.inputs());
        let action = handler.handle(key_event);
        if let Type::Input(popup) = &self.variant {
            if popup.typing && action.is_none() {
                if let KeyCode::Char(c) = key_event.code {
                    return Some(Event::Typed(c));
                }
            }
        }
        action
    }

    /// Applies a navigation or editing event; on completion, sends the end of
    /// the popup and runs its callback.
    pub fn process(&mut self, action: Event, tx: &mut Vec<Event>)
        requires
            old(self)@.wf(),
        ensures
            final(self)@ == old(self)@.after(action),
            final(self)@.wf(),
            final(tx)@.len() >= old(tx)@.len(),
            match old(self)@.completion(action) {
                Some(output) => final(tx)@.subrange(0, old(tx)@.len() as int) == old(tx)@
                    && completion_sent(
                    old(self)@.callback,
                    output,
                    final(tx)@.subrange(old(tx)@.len() as int, final(tx)@.len() as int),
                ),
                None => final(tx)@ == old(tx)@,
            },
    {
        let ghost before = tx@;
        let callback = self.callback;
        match action {
            Event::CycleHighlight(direction) => {
                if let Type::Choice(popup) = &mut self.variant {
                    popup.selected = match direction {
                        MoveDirection::Down => index_add(popup.selected, popup.options.len()),
                        MoveDirection::Up => index_subtract(popup.selected, popup.options.len()),
                        _ => popup.selected,
                    };
                }
            },
            Event::HomeEndHighlight(end) => {
                if let Type::Choice(popup) = &mut self.variant {
                    popup.selected = match end {
                        MoveEnd::First => 0,
                        MoveEnd::Last => if popup.options.len() > 0 {
                            popup.options.len() - 1
                        } else {
                            popup.selected
                        },
                    };
                }
            },
            Event::Selected => {
                match &mut self.variant {
                    Type::Choice(popup) => {
                        tx.push(Event::PopupEnded);
                        assert(tx@.subrange(0, (before.len() + 1) as int) =~= before.push(Event::PopupEnded));
                        if let Some(func) = callback {
                            func.call(tx, &Output::Index(popup.selected));
                        }
                        proof {
                            lemma_completion(before, tx@, callback, OutputView::Index(popup.selected));
                        }
                    },
                    Type::Input(popup) => {
                        popup.typing = true;
                    },
                    Type::TimedInfo(_) => {},
                }
            },
            Event::StopTyping => {
                if let Type::Input(popup) = &mut self.variant {
                    popup.typing = false;
                }
            },
            Event::Submit => {
                if let Type::Input(popup) = &mut self.variant {
                    if popup.input.len() > 0 {
                        let input = string_of(&popup.input);
                        tx.push(Event::PopupEnded);
                        assert(tx@.subrange(0, (before.len() + 1) as int) =~= before.push(Event::PopupEnded));
                        let ghost text = input@;
                        if let Some(func) = callback {
                            func.call(tx, &Output::Input(input));
                        }
                        proof {
                            lemma_completion(before, tx@, callback, OutputView::Input(text));
                        }
                    }
                }
            },
            Event::DeleteChar => {
                if let Type::Input(popup) = &mut self.variant {
                    popup.input.pop();
                }
            },
            Event::Typed(c) => {
                if let Type::Input(popup) = &mut self.variant {
                    popup.input.push(c);
                }
            },
            Event::Paste(to_paste) => {
                if let Type::Input(popup) = &mut self.variant {
                    let chars = crate::text::chars_of(to_paste.as_str());
                    let mut i: usize = 0;
                    while i < chars.len()
                        invariant
                            i <= chars.len(),
                            chars@ == to_paste@,
                            popup.typing == old(self)@.variant->Input_0,
                            popup.input@ == old(self)@.variant->Input_1 + chars@.take(i as int),
                        decreases chars.len() - i,
                    {
                        popup.input.push(chars[i]);
                        i = i + 1;
                        assert(popup.input@ =~= old(self)@.variant->Input_1 + chars@.take(i as int));
                    }
                    assert(chars@.take(chars.len() as int) =~= chars@);
                }
            },
            _ => {},
        }
    }
}

} // verus!
