use crate::channel::{
    apply_status, awaiting_channels, copy_channels, copy_chars, with_status, Channel, Status,
};
use crate::event::{BoolChoice, Event, MoveDirection, MoveEnd};
use crate::exit::Exit;
use crate::input::{
    bound_action, home_inputs, same_action, spec_home_inputs, spec_typing_inputs, typing_inputs,
    Handler, KeyBind, KeyCode, KeyEvent,
};
use crate::panel::{Home as HomePanel, Panel};
use crate::popup::{chat_popup, chat_popup_search, is_chat_popup, Popup, PopupView, TypeView};
use crate::state::{channels_reaction, reaction_view, requested_popup, AppState, AppStateView, ReactionView};
use crate::text::string_of;
use crate::transition::{Effect, Need, Reaction, Transition};
use crate::util::{index_add, index_subtract, next_index, previous_index};
use vstd::prelude::*;
use vstd::string::StrSliceExecFns;

verus! {

/// A status result for a channel: its handle, its status and the game it streams.
pub type StatusUpdate = (String, (Status, Option<String>));

/// The channels after the status results are applied in order.
pub open spec fn with_statuses(channels: Seq<Channel>, updates: Seq<StatusUpdate>) -> Seq<Channel>
    decreases updates.len(),
{
    if updates.len() == 0 {
        channels
    } else {
        let u = updates.last();
        with_status(with_statuses(channels, updates.drop_last()), u.0@, u.1.0, u.1.1)
    }
}

pub proof fn lemma_with_statuses_len(channels: Seq<Channel>, updates: Seq<StatusUpdate>)
    ensures
        with_statuses(channels, updates).len() == channels.len(),
    decreases updates.len(),
{
    if updates.len() > 0 {
        lemma_with_statuses_len(channels, updates.drop_last());
        let u = updates.last();
        crate::channel::lemma_status_target_bounds(with_statuses(channels, updates.drop_last()), u.0@);
    }
}

/// Applies status results, in order, to a list of channels.
pub fn apply_statuses(channels: &mut Vec<Channel>, updates: &Vec<StatusUpdate>)
    ensures
        final(channels)@ == with_statuses(old(channels)@, updates@),
        final(channels)@.len() == old(channels)@.len(),
{
    let mut i: usize = 0;
    while i < updates.len()
        invariant
            i <= updates.len(),
            channels@ == with_statuses(old(channels)@, updates@.take(i as int)),
        decreases updates.len() - i,
    {
        let update = &updates[i];
        apply_status(channels, &update.0, update.1.0, crate::channel::copy_optional_text(&update.1.1));
        assert(updates@.take(i + 1).drop_last() =~= updates@.take(i as int));
        i = i + 1;
    }
    assert(updates@.take(updates.len() as int) =~= updates@);
    proof {
        lemma_with_statuses_len(old(channels)@, updates@);
    }
}

/// The home screen's data, lists as sequences.
pub struct HomeView {
    pub channel_highlight: usize,
    pub favourites: Seq<Channel>,
    pub typing: bool,
    pub search_input: Seq<char>,
    pub focused_panel: HomePanel,
}

impl HomeView {
    /// The highlight stands on a favourite whenever there is one.
    pub open spec fn wf(self) -> bool {
        self.favourites.len() > 0 ==> self.channel_highlight < self.favourites.len()
    }

    /// The bindings that the screen answers to.
    pub open spec fn inputs(self) -> Seq<KeyBind> {
        if self.typing {
            spec_typing_inputs()
        } else {
            spec_home_inputs()
        }
    }

    /// The screen after a navigation or editing event.
    pub open spec fn after(self, action: Event) -> HomeView {
        match action {
            Event::CycleHighlight(d) => if self.focused_panel == HomePanel::Favourites {
                HomeView {
                    channel_highlight: match d {
                        MoveDirection::Down => next_index(
                            self.channel_highlight as int,
                            self.favourites.len() as int,
                        ) as usize,
                        MoveDirection::Up => previous_index(
                            self.channel_highlight as int,
                            self.favourites.len() as int,
                        ) as usize,
                        _ => self.channel_highlight,
                    },
                    ..self
                }
            } else {
                self
            },
            Event::HomeEndHighlight(e) => if self.focused_panel == HomePanel::Favourites {
                HomeView {
                    channel_highlight: match e {
                        MoveEnd::First => 0,
                        MoveEnd::Last => if self.favourites.len() > 0 {
                            (self.favourites.len() - 1) as usize
                        } else {
                            self.channel_highlight
                        },
                    },
                    ..self
                }
            } else {
                self
            },
            Event::Selected => if self.focused_panel == HomePanel::Search {
                HomeView { typing: true, ..self }
            } else {
                self
            },
            Event::CyclePanel(d) => HomeView {
                focused_panel: match d {
                    MoveDirection::Left => self.focused_panel.spec_left(),
                    MoveDirection::Right => self.focused_panel.spec_right(),
                    _ => self.focused_panel,
                },
                ..self
            },
            Event::StopTyping => HomeView { typing: false, ..self },
            Event::Submit => if self.search_input.len() > 0 {
                HomeView { typing: false, ..self }
            } else {
                self
            },
            Event::DeleteChar => HomeView {
                search_input: if self.search_input.len() > 0 {
                    self.search_input.drop_last()
                } else {
                    self.search_input
                },
                ..self
            },
            Event::Typed(c) => HomeView { search_input: self.search_input.push(c), ..self },
            Event::Paste(text) => HomeView { search_input: self.search_input + text@, ..self },
            _ => self,
        }
    }
}

/// The events that the home screen sends while it processes `action`.
pub open spec fn home_sends(v: HomeView, action: Event, sent: Seq<Event>) -> bool {
    match action {
        Event::Exited => sent == seq![Event::Exited],
        Event::CycleTab(d) => sent == seq![Event::CycleTab(d)],
        Event::Selected => if v.focused_panel == HomePanel::Favourites && v.channel_highlight
            < v.favourites.len() {
            sent.len() == 1 && is_chat_popup(sent[0], crate::event::Callback::ChatChoice)
        } else {
            sent.len() == 0
        },
        Event::Submit => if v.search_input.len() > 0 {
            sent.len() == 1 && is_chat_popup(sent[0], crate::event::Callback::ChatChoiceSearch)
        } else {
            sent.len() == 0
        },
        _ => sent.len() == 0,
    }
}

/// `r` pushes a popup whose data is `v`.
pub open spec fn pushes_popup(r: Reaction, v: PopupView) -> bool {
    match r {
        Reaction::Go(Transition::Push(AppState::Popup(p))) => p@ == v,
        _ => false,
    }
}

/// The reaction of a screen with favourites or lists to the events that open popups.
pub open spec fn popup_reaction(event: Event, r: Reaction) -> bool {
    match event {
        Event::ChoicePopupStarted(p) => pushes_popup(
            r,
            PopupView { title: p.0, message: p.1, variant: TypeView::Choice(0, p.2@), callback: p.3 },
        ),
        Event::InputPopupStarted(p) => pushes_popup(
            r,
            PopupView {
                title: p.0,
                message: p.1,
                variant: TypeView::Input(false, Seq::empty()),
                callback: p.2,
            },
        ),
        Event::TimedInfoPopupStarted(p) => pushes_popup(
            r,
            PopupView { title: p.0, message: p.1, variant: TypeView::TimedInfo(p.2), callback: p.3 },
        ),
        _ => true,
    }
}

pub open spec fn opens_popup(event: Event) -> bool {
    event is ChoicePopupStarted || event is InputPopupStarted || event is TimedInfoPopupStarted
}

/// The home screen: the favourite channels and a search box.
pub struct Home {
    pub channel_highlight: usize,
    pub favourites: Vec<Channel>,
    pub typing: bool,
    pub search_input: Vec<char>,
    pub focused_panel: HomePanel,
}

impl View for Home {
    type V = HomeView;

    open spec fn view(&self) -> HomeView {
        HomeView {
            channel_highlight: self.channel_highlight,
            favourites: self.favourites@,
            typing: self.typing,
            search_input: self.search_input@,
            focused_panel: self.focused_panel,
        }
    }
}

/// Opens the popup that the event asks for.
pub fn popup_for(event: Event) -> (r: Reaction)
    requires
        opens_popup(event),
    ensures
        popup_reaction(event, r),
        reaction_view(r) == ReactionView::Push(AppStateView::Popup(requested_popup(event).unwrap())),
{
    match event {
        Event::ChoicePopupStarted((title, message, options, callback)) => Reaction::Go(
            Transition::Push(AppState::Popup(Popup::new_choice(title, message, &options, callback))),
        ),
        Event::InputPopupStarted((title, message, callback)) => Reaction::Go(
            Transition::Push(AppState::Popup(Popup::new_input(title, message, callback))),
        ),
        Event::TimedInfoPopupStarted((title, message, duration, callback)) => Reaction::Go(
            Transition::Push(
                AppState::Popup(Popup::new_timed_info(title, message, duration, callback)),
            ),
        ),
        _ => Reaction::Stay,
    }
}

impl Home {
    pub fn new(
        channel_highlight: usize,
        favourites: &Vec<Channel>,
        typing: bool,
        search_input: &Vec<char>,
        focused_panel: HomePanel,
    ) -> (r: Home)
        requires
            favourites@.len() > 0 ==> channel_highlight < favourites@.len(),
        ensures
            r@ == (HomeView {
                channel_highlight,
                favourites: favourites@,
                typing,
                search_input: search_input@,
                focused_panel,
            }),
            r@.wf(),
    {
        Home {
            channel_highlight,
            favourites: copy_channels(favourites),
            typing,
            search_input: copy_chars(search_input),
            focused_panel,
        }
    }

    /// A fresh screen with the data of a cached one.
    pub fn from_existing(state: &Home) -> (r: Home)
        requires
            state@.wf(),
        ensures
            r@ == state@,
    {
        Home::new(
            state.channel_highlight,
            &state.favourites,
            state.typing,
            &state.search_input,
            state.focused_panel,
        )
    }

    /// The home screen over the given favourites; a check of the channels
    /// whose status is awaited is asked for.
    pub fn init(favourites: &Vec<Channel>, tx: &mut Vec<Event>) -> (r: Home)
        ensures
            r@ == (HomeView {
                channel_highlight: 0,
                favourites: favourites@,
                typing: false,
                search_input: Seq::empty(),
                focused_panel: HomePanel::Favourites,
            }),
            r@.wf(),
            awaiting_channels(favourites@).len() == 0 ==> final(tx)@ == old(tx)@,
            awaiting_channels(favourites@).len() > 0 ==> final(tx)@.len() == old(tx)@.len() + 1
                && final(tx)@.drop_last() == old(tx)@ && match final(tx)@.last() {
                Event::CheckChannels(c) => c@ == awaiting_channels(favourites@),
                _ => false,
            },
    {
        let mut channels_awaiting: Vec<Channel> = Vec::new();
        let mut i: usize = 0;
        while i < favourites.len()
            invariant
                i <= favourites.len(),
                channels_awaiting@ == awaiting_channels(favourites@.take(i as int)),
            decreases favourites.len() - i,
        {
            assert(favourites@.take(i + 1) =~= favourites@.take(i as int).push(favourites@[i as int]));
            proof {
                favourites@.take(i as int).lemma_filter_push(
                    favourites@[i as int],
                    |c: Channel| c.status == Status::Awaiting,
                );
            }
            if favourites[i].status == Status::Awaiting {
                channels_awaiting.push(favourites[i].clone());
            }
            i = i + 1;
        }
        assert(favourites@.take(favourites.len() as int) =~= favourites@);
        if channels_awaiting.len() > 0 {
            tx.push(Event::CheckChannels(channels_awaiting));
            assert(tx@.drop_last() =~= old(tx)@);
        }
        let empty: Vec<char> = Vec::new();
        let r = Home::new(0, favourites, false, &empty, HomePanel::Favourites);
        assert(r@.search_input =~= Seq::<char>::empty());
        r
    }

    /// Applies the status results that came back for the favourites.
    pub fn channel_check(&mut self, updates: &Vec<StatusUpdate>)
        requires
            old(self)@.wf(),
        ensures
            final(self)@ == (HomeView {
                favourites: with_statuses(old(self)@.favourites, updates@),
                ..old(self)@
            }),
            final(self)@.wf(),
    {
        apply_statuses(&mut self.favourites, updates);
    }

    /// The bindings that the screen answers to.
    pub fn inputs(&self) -> (r: Vec<KeyBind>)
        ensures
            r@ == self@.inputs(),
    {
        if self.typing {
            typing_inputs()
        } else {
            home_inputs()
        }
    }

    /// The event for a key chord: the bound action, or, while typing, the typed character.
    pub fn handle(&self, key_event: KeyEvent) -> (r: Option<Event>)
        ensures
            match (self.typing, bound_action(self@.inputs(), key_event), key_event.code) {
                (true, None, KeyCode::Char(c)) => r == Some(Event::Typed(c)),
                (_, action, _) => same_action(r, action),
            },
    {
        let handler = Handler::new(self.inputs());
        let action = handler.handle(key_event);
        if self.typing && action.is_none() {
            if let KeyCode::Char(c) = key_event.code {
                return Some(Event::Typed(c));
            }
        }
        action
    }

    pub fn transition(&self, event: Event, tx: &mut Vec<Event>) -> (r: Reaction)
        ensures
            match event {
                Event::Exited => r == Reaction::Go(Transition::To(AppState::Exit(Exit))),
                Event::CheckChannels(c) => r == Reaction::Run(Effect::CheckChannels(c)),
                Event::ChannelSelected(c, chat) => r == Reaction::Run(Effect::Launch(c, chat)),
                Event::CycleTab(d) => if d == MoveDirection::Left || d == MoveDirection::Right {
                    r == Reaction::Load(Need::Lists)
                } else {
                    r is Stay
                },
                _ => if opens_popup(event) {
                    popup_reaction(event, r)
                } else {
                    r is Stay
                },
            },
            match event {
                Event::ChatChoice(choice) => if self.channel_highlight < self.favourites@.len() {
                    final(tx)@ == old(tx)@.push(
                        Event::ChannelSelected(
                            self.favourites@[self.channel_highlight as int],
                            choice == 1,
                        ),
                    )
                } else {
                    final(tx)@ == old(tx)@
                },
                Event::ChatChoiceSearch(choice) => final(tx)@.len() == old(tx)@.len() + 1
                    && final(tx)@.drop_last() == old(tx)@ && match final(tx)@.last() {
                    Event::ChannelSelected(c, chat) => c.handle@ == self.search_input@
                        && c.friendly_name@ == self.search_input@ && c.status == Status::Awaiting
                        && c.game is None && chat == (choice == 1),
                    _ => false,
                },
                _ => final(tx)@ == old(tx)@,
            },
            reaction_view(r) == channels_reaction(event, Need::Lists),
    {
        match event {
            Event::Exited => Reaction::Go(Transition::To(AppState::Exit(Exit::new()))),
            Event::CheckChannels(channels) => Reaction::Run(Effect::CheckChannels(channels)),
            Event::ChoicePopupStarted(_) => popup_for(event),
            Event::InputPopupStarted(_) => popup_for(event),
            Event::TimedInfoPopupStarted(_) => popup_for(event),
            Event::ChatChoice(choice) => {
                let chat_choice = BoolChoice::from(choice).is_true();
                if self.channel_highlight < self.favourites.len() {
                    let channel = self.favourites[self.channel_highlight].clone();
                    tx.push(Event::ChannelSelected(channel, chat_choice));
                }
                Reaction::Stay
            },
            Event::ChatChoiceSearch(choice) => {
                let chat_choice = BoolChoice::from(choice).is_true();
                let handle = string_of(&self.search_input);
                let channel = Channel::new(handle.clone(), handle, None);
                tx.push(Event::ChannelSelected(channel, chat_choice));
                assert(tx@.drop_last() =~= old(tx)@);
                Reaction::Stay
            },
            Event::CycleTab(direction) => match direction {
                MoveDirection::Left | MoveDirection::Right => Reaction::Load(Need::Lists),
                _ => Reaction::Stay,
            },
            Event::ChannelSelected(channel, chat) => Reaction::Run(Effect::Launch(channel, chat)),
            _ => Reaction::Stay,
        }
    }

    /// Applies a navigation or editing event; events that replace the screen
    /// are sent on for the transition.
    pub fn process(&mut self, action: Event, tx: &mut Vec<Event>)
        requires
            old(self)@.wf(),
        ensures
            final(self)@ == old(self)@.after(action),
            final(self)@.wf(),
            final(tx)@.len() >= old(tx)@.len(),
            final(tx)@.subrange(0, old(tx)@.len() as int) == old(tx)@,
            home_sends(
                old(self)@,
                action,
                final(tx)@.subrange(old(tx)@.len() as int, final(tx)@.len() as int),
            ),
    {
        let ghost before = tx@;
        match action {
            Event::Exited => {
                tx.push(Event::Exited);
            },
            Event::CycleTab(d) => {
                tx.push(Event::CycleTab(d));
            },
            Event::CycleHighlight(direction) => {
                if self.focused_panel == HomePanel::Favourites {
                    self.channel_highlight = match direction {
                        MoveDirection::Down => index_add(
                            self.channel_highlight,
                            self.favourites.len(),
                        ),
                        MoveDirection::Up => index_subtract(
                            self.channel_highlight,
                            self.favourites.len(),
                        ),
                        _ => self.channel_highlight,
                    };
                }
            },
            Event::HomeEndHighlight(end) => {
                if self.focused_panel == HomePanel::Favourites {
                    self.channel_highlight = match end {
                        MoveEnd::First => 0,
                        MoveEnd::Last => if self.favourites.len() > 0 {
                            self.favourites.len() - 1
                        } else {
                            self.channel_highlight
                        },
                    };
                }
            },
            Event::Selected => {
                match self.focused_panel {
                    HomePanel::Favourites => {
                        if self.channel_highlight < self.favourites.len() {
                            chat_popup(tx);
                        }
                    },
                    HomePanel::Search => {
                        self.typing = true;
                    },
                }
            },
            Event::CyclePanel(direction) => {
                self.focused_panel = match direction {
                    MoveDirection::Left => self.focused_panel.left(),
                    MoveDirection::Right => self.focused_panel.right(),
                    _ => self.focused_panel,
                };
            },
            Event::StopTyping => {
                self.typing = false;
            },
            Event::Submit => {
                if self.search_input.len() > 0 {
                    self.typing = false;
                    chat_popup_search(tx);
                }
            },
            Event::DeleteChar => {
                self.search_input.pop();
            },
            Event::Typed(c) => {
                self.search_input.push(c);
            },
            Event::Paste(to_paste) => {
                let chars = crate::text::chars_of(to_paste.as_str());
                let mut i: usize = 0;
                while i < chars.len()
                    invariant
                        i <= chars.len(),
                        chars@ == to_paste@,
                        self.search_input@ == old(self)@.search_input + chars@.take(i as int),
                        self.channel_highlight == old(self).channel_highlight,
                        self.favourites@ == old(self)@.favourites,
                        self.typing == old(self).typing,
                        self.focused_panel == old(self).focused_panel,
                    decreases chars.len() - i,
                {
                    self.search_input.push(chars[i]);
                    i = i + 1;
                    assert(self.search_input@ =~= old(self)@.search_input + chars@.take(i as int));
                }
                assert(chars@.take(chars.len() as int) =~= chars@);
            },
            _ => {},
        }
        proof {
            assert(tx@.subrange(0, before.len() as int) =~= before);
            if tx@.len() == before.len() + 1 {
                assert(tx@.subrange(before.len() as int, tx@.len() as int) =~= seq![tx@.last()]);
            } else {
                assert(tx@.subrange(before.len() as int, tx@.len() as int) =~= Seq::<Event>::empty());
            }
        }
    }
}

} // verus!
