use crate::event::{Event, MoveDirection};
use crate::exit::Exit;
use crate::home::{home_sends, with_statuses, Home, HomeView, StatusUpdate};
use crate::input::{bound_action, same_action, spec_home_inputs, KeyCode, KeyEvent};
use crate::lists::{lists_sends, Lists, ListsView};
use crate::panel::Lists as ListsPanel;
use crate::popup::{completion_sent, Popup, PopupView, TypeView};
use crate::startup::{account_tick_sends, AccountMissing, AccountMissingConfigView, AccountMissingView, AccountRequest, Startup, STARTUP_DURATION};
use crate::channel::Channel;
use crate::event::Callback;
use crate::lists::ListView;
use crate::transition::Effect;
use crate::transition::{Need, Reaction, Transition};
use vstd::prelude::*;

verus! {

/// The kind of a screen, whatever its data.
#[derive(Clone, Copy, PartialEq, Eq, Structural, Debug)]
pub enum StateKind {
    AccountMissing,
    Startup,
    Home,
    Lists,
    Popup,
    Exit,
}

/// One screen of the application with its data.
pub enum AppState {
    AccountMissing(AccountMissing),
    Startup(Startup),
    Home(Home),
    Lists(Lists),
    Popup(Popup),
    Exit(Exit),
}

/// A screen's data, lists as sequences.
pub enum AppStateView {
    AccountMissing(AccountMissingView),
    Startup(Startup),
    Home(HomeView),
    Lists(ListsView),
    Popup(PopupView),
    Exit(Exit),
}

impl AppStateView {
    pub open spec fn wf(self) -> bool {
        match self {
            AppStateView::Home(h) => h.wf(),
            AppStateView::Lists(l) => l.wf(),
            AppStateView::Popup(p) => p.wf(),
            _ => true,
        }
    }

    /// The data of a screen brought back from the cache: the lists screen
    /// comes back with its first panel focused; every other screen as it was.
    pub open spec fn resumed(self) -> AppStateView {
        match self {
            AppStateView::Lists(l) => AppStateView::Lists(
                ListsView { focused_panel: ListsPanel::Lists, ..l },
            ),
            _ => self,
        }
    }

    /// What the screen sends on a tick at `timer`; the account screen is left out.
    pub open spec fn tick_sends(self, timer: u64) -> Seq<Event> {
        match self {
            AppStateView::Startup(s) => if timer > s.duration {
                seq![Event::Started]
            } else {
                seq![]
            },
            AppStateView::Popup(p) => match p.variant {
                TypeView::TimedInfo(d) => if timer > d {
                    seq![Event::PopupEnded]
                } else {
                    seq![]
                },
                _ => seq![],
            },
            AppStateView::Exit(_) => seq![Event::Exited],
            _ => seq![],
        }
    }
}

/// A reaction whose new screen, if any, is well formed.
pub open spec fn reaction_wf(r: Reaction) -> bool {
    match r {
        Reaction::Go(Transition::Push(s)) => s@.wf(),
        Reaction::Go(Transition::To(s)) => s@.wf(),
        _ => true,
    }
}

/// `after` holds what `before` held, and then more.
pub open spec fn extends(before: Seq<Event>, after: Seq<Event>) -> bool {
    after.len() >= before.len() && after.subrange(0, before.len() as int) == before
}


/// Outside work, lists as sequences.
pub enum EffectView {
    CheckChannels(Seq<Channel>),
    Launch(Channel, bool),
    ExitApp,
}

pub open spec fn effect_view(e: Effect) -> EffectView {
    match e {
        Effect::CheckChannels(c) => EffectView::CheckChannels(c@),
        Effect::Launch(c, chat) => EffectView::Launch(c, chat),
        Effect::ExitApp => EffectView::ExitApp,
    }
}

pub open spec fn effects_view(effects: Seq<Effect>) -> Seq<EffectView> {
    effects.map_values(|e: Effect| effect_view(e))
}

/// How a screen answers an event, screens by their data.
pub enum ReactionView {
    Stay,
    Push(AppStateView),
    Pop,
    To(AppStateView),
    Run(EffectView),
    Load(Need),
}

pub open spec fn reaction_view(r: Reaction) -> ReactionView {
    match r {
        Reaction::Stay => ReactionView::Stay,
        Reaction::Go(Transition::Push(s)) => ReactionView::Push(s@),
        Reaction::Go(Transition::Pop) => ReactionView::Pop,
        Reaction::Go(Transition::To(s)) => ReactionView::To(s@),
        Reaction::Run(e) => ReactionView::Run(effect_view(e)),
        Reaction::Load(n) => ReactionView::Load(n),
    }
}

/// The popup that an event asks for, if it asks for one.
pub open spec fn requested_popup(event: Event) -> Option<PopupView> {
    match event {
        Event::ChoicePopupStarted(p) => Some(
            PopupView { title: p.0, message: p.1, variant: TypeView::Choice(0, p.2@), callback: p.3 },
        ),
        Event::InputPopupStarted(p) => Some(
            PopupView {
                title: p.0,
                message: p.1,
                variant: TypeView::Input(false, Seq::empty()),
                callback: p.2,
            },
        ),
        Event::TimedInfoPopupStarted(p) => Some(
            PopupView { title: p.0, message: p.1, variant: TypeView::TimedInfo(p.2), callback: p.3 },
        ),
        _ => None,
    }
}

/// The account screen that prompts next, after the details change to `config`.
pub open spec fn next_account_screen(config: AccountMissingConfigView) -> ReactionView {
    ReactionView::To(
        AppStateView::AccountMissing(
            AccountMissingView { timer: 0, duration: STARTUP_DURATION, account_config: config },
        ),
    )
}

/// How the home and lists screens answer an event; `tab` is what the next
/// tab loads.
pub open spec fn channels_reaction(event: Event, tab: Need) -> ReactionView {
    match event {
        Event::Exited => ReactionView::To(AppStateView::Exit(Exit)),
        Event::CheckChannels(c) => ReactionView::Run(EffectView::CheckChannels(c@)),
        Event::ChannelSelected(c, chat) => ReactionView::Run(EffectView::Launch(c, chat)),
        Event::CycleTab(d) => if d == MoveDirection::Left || d == MoveDirection::Right {
            ReactionView::Load(tab)
        } else {
            ReactionView::Stay
        },
        _ => match requested_popup(event) {
            Some(p) => ReactionView::Push(AppStateView::Popup(p)),
            None => ReactionView::Stay,
        },
    }
}

impl AppStateView {
    pub open spec fn kind(self) -> StateKind {
        match self {
            AppStateView::AccountMissing(_) => StateKind::AccountMissing,
            AppStateView::Startup(_) => StateKind::Startup,
            AppStateView::Home(_) => StateKind::Home,
            AppStateView::Lists(_) => StateKind::Lists,
            AppStateView::Popup(_) => StateKind::Popup,
            AppStateView::Exit(_) => StateKind::Exit,
        }
    }

    /// How the screen answers an event; pairs of screen and event that no
    /// rule names are answered with `Stay`.
    pub open spec fn reaction(self, event: Event) -> ReactionView {
        match self {
            AppStateView::Startup(_) => match event {
                Event::Started => ReactionView::Load(Need::Favourites),
                Event::Exited => ReactionView::To(AppStateView::Exit(Exit)),
                _ => ReactionView::Stay,
            },
            AppStateView::AccountMissing(a) => {
                let c = a.account_config;
                match event {
                    Event::Exited => ReactionView::To(AppStateView::Exit(Exit)),
                    Event::AccountConfigured(_) => ReactionView::Load(Need::Favourites),
                    Event::InputPopupStarted(_) => ReactionView::Push(
                        AppStateView::Popup(requested_popup(event).unwrap()),
                    ),
                    Event::SetUser(u) => next_account_screen(
                        AccountMissingConfigView {
                            callback: Some(Callback::UserIdSubmit),
                            title: Some("User ID"@),
                            username: Some(u@),
                            ..c
                        },
                    ),
                    Event::SetUserId(u) => next_account_screen(
                        AccountMissingConfigView {
                            callback: Some(Callback::ClientIdSubmit),
                            title: Some("Client ID"@),
                            user_id: Some(u@),
                            ..c
                        },
                    ),
                    Event::SetClientId(u) => next_account_screen(
                        AccountMissingConfigView {
                            callback: Some(Callback::ClientSecretSubmit),
                            title: Some("Client Secret"@),
                            client_id: Some(u@),
                            ..c
                        },
                    ),
                    Event::SetClientSecret(u) => next_account_screen(
                        AccountMissingConfigView {
                            callback: Some(Callback::RedirectUrlPortSubmit),
                            title: Some("Redirect URL Port"@),
                            client_secret: Some(u@),
                            ..c
                        },
                    ),
                    Event::SetRedirectUrlPort(p) => next_account_screen(
                        AccountMissingConfigView { callback: None, title: None, port: Some(p), ..c },
                    ),
                    _ => ReactionView::Stay,
                }
            },
            AppStateView::Home(_) => channels_reaction(event, Need::Lists),
            AppStateView::Lists(_) => channels_reaction(event, Need::Favourites),
            AppStateView::Popup(_) => match event {
                Event::Exited => ReactionView::To(AppStateView::Exit(Exit)),
                Event::PopupEnded => ReactionView::Pop,
                _ => ReactionView::Stay,
            },
            AppStateView::Exit(_) => ReactionView::Stay,
        }
    }

    /// The action that the screen makes of a key chord: the bound one, or,
    /// while text is typed, the typed character.
    pub open spec fn key_action(self, key: KeyEvent) -> Option<Event> {
        match self {
            AppStateView::Home(h) => match (h.typing, bound_action(h.inputs(), key), key.code) {
                (true, None, KeyCode::Char(c)) => Some(Event::Typed(c)),
                (_, action, _) => action,
            },
            AppStateView::Lists(_) => bound_action(spec_home_inputs(), key),
            AppStateView::Popup(p) => match (p.variant, bound_action(p.inputs(), key), key.code) {
                (TypeView::Input(true, _), None, KeyCode::Char(c)) => Some(Event::Typed(c)),
                (_, action, _) => action,
            },
            _ => None,
        }
    }

    /// The screen after a navigation or editing event.
    pub open spec fn after(self, action: Event) -> AppStateView {
        match self {
            AppStateView::Home(h) => AppStateView::Home(h.after(action)),
            AppStateView::Lists(l) => AppStateView::Lists(l.after(action)),
            AppStateView::Popup(p) => AppStateView::Popup(p.after(action)),
            _ => self,
        }
    }

    /// The screen after status results: the home screen's favourites, or the
    /// lists screen's open list, take them in order.
    pub open spec fn received(self, updates: Seq<StatusUpdate>) -> AppStateView {
        match self {
            AppStateView::Home(h) => AppStateView::Home(
                HomeView { favourites: with_statuses(h.favourites, updates), ..h },
            ),
            AppStateView::Lists(l) => match l.open_channels() {
                Some(c) => AppStateView::Lists(
                    ListsView {
                        lists: l.lists.update(
                            l.open_list.unwrap() as int,
                            ListView {
                                channels: with_statuses(c, updates),
                                ..l.lists[l.open_list.unwrap() as int]
                            },
                        ),
                        ..l
                    },
                ),
                None => self,
            },
            _ => self,
        }
    }
}

/// The events that the screen sends while it processes `action`.
pub open spec fn sends(v: AppStateView, action: Event, sent: Seq<Event>) -> bool {
    match v {
        AppStateView::Home(h) => home_sends(h, action, sent),
        AppStateView::Lists(l) => lists_sends(l, action, sent),
        AppStateView::Popup(p) => match p.completion(action) {
            Some(output) => completion_sent(p.callback, output, sent),
            None => sent.len() == 0,
        },
        _ => sent.len() == 0,
    }
}

/// Events that say the same thing change a screen alike and make it send alike.
pub proof fn lemma_after_same(v: AppStateView, a: Event, b: Event, sent: Seq<Event>)
    requires
        a.same(b),
    ensures
        v.after(a) == v.after(b),
        sends(v, a, sent) == sends(v, b, sent),
{
}

impl View for AppState {
    type V = AppStateView;

    open spec fn view(&self) -> AppStateView {
        match self {
            AppState::AccountMissing(s) => AppStateView::AccountMissing(s@),
            AppState::Startup(s) => AppStateView::Startup(*s),
            AppState::Home(s) => AppStateView::Home(s@),
            AppState::Lists(s) => AppStateView::Lists(s@),
            AppState::Popup(s) => AppStateView::Popup(s@),
            AppState::Exit(s) => AppStateView::Exit(*s),
        }
    }
}

impl AppState {
    pub open spec fn spec_kind(self) -> StateKind {
        match self {
            AppState::AccountMissing(_) => StateKind::AccountMissing,
            AppState::Startup(_) => StateKind::Startup,
            AppState::Home(_) => StateKind::Home,
            AppState::Lists(_) => StateKind::Lists,
            AppState::Popup(_) => StateKind::Popup,
            AppState::Exit(_) => StateKind::Exit,
        }
    }

    /// The kind of the screen.
    pub fn kind(&self) -> (r: StateKind)
        ensures
            r == self.spec_kind(),
    {
        match self {
            AppState::AccountMissing(_) => StateKind::AccountMissing,
            AppState::Startup(_) => StateKind::Startup,
            AppState::Home(_) => StateKind::Home,
            AppState::Lists(_) => StateKind::Lists,
            AppState::Popup(_) => StateKind::Popup,
            AppState::Exit(_) => StateKind::Exit,
        }
    }

    /// A fresh screen of the same kind, built from this one's data.
    pub fn resume(&self) -> (r: AppState)
        requires
            self@.wf(),
        ensures
            r@ == self@.resumed(),
            r.spec_kind() == self.spec_kind(),
            r@.wf(),
    {
        match self {
            AppState::AccountMissing(s) => AppState::AccountMissing(s.copy()),
            AppState::Startup(s) => AppState::Startup(Startup::new(s.timer, s.duration)),
            AppState::Home(s) => AppState::Home(Home::from_existing(s)),
            AppState::Lists(s) => AppState::Lists(Lists::from_existing(s)),
            AppState::Popup(s) => AppState::Popup(s.resume()),
            AppState::Exit(_) => AppState::Exit(Exit::new()),
        }
    }

    /// The work of the screen on a tick: lifecycle events go to `tx`; the
    /// account screen hands back the details of the account to set up once
    /// it has them all.
    pub fn tick(&self, timer: u64, tx: &mut Vec<Event>) -> (r: Option<AccountRequest>)
        ensures
            !(self is AccountMissing) ==> r is None && final(tx)@ == old(tx)@ + self@.tick_sends(
                timer,
            ),
            extends(old(tx)@, final(tx)@),
            self is AccountMissing && r is None ==> account_tick_sends(
                self->AccountMissing_0@,
                timer,
                final(tx)@.subrange(old(tx)@.len() as int, final(tx)@.len() as int),
            ),
    {
        let ghost before = tx@;
        let r = match self {
            AppState::AccountMissing(s) => s.tick(timer, tx),
            AppState::Startup(s) => {
                s.tick(timer, tx);
                None
            },
            AppState::Home(_) => None,
            AppState::Lists(_) => None,
            AppState::Popup(s) => {
                s.tick(timer, tx);
                None
            },
            AppState::Exit(s) => {
                s.tick(tx);
                None
            },
        };
        assert(tx@.subrange(0, before.len() as int) =~= before);
        assert(!(self is AccountMissing) ==> tx@ =~= before + self@.tick_sends(timer));
        proof {
            if tx@.len() == before.len() + 1 {
                assert(tx@.subrange(before.len() as int, tx@.len() as int) =~= seq![tx@.last()]);
            } else if tx@.len() == before.len() {
                assert(tx@.subrange(before.len() as int, tx@.len() as int) =~= Seq::<Event>::empty());
            }
        }
        r
    }

    /// How the screen answers an event.
    pub fn transition(&self, event: Event, tx: &mut Vec<Event>) -> (r: Reaction)
        requires
            self@.wf(),
        ensures
            reaction_wf(r),
            extends(old(tx)@, final(tx)@),
            reaction_view(r) == self@.reaction(event),
    {
        let ghost before = tx@;
        let r = match self {
            AppState::AccountMissing(s) => s.transition(event, tx),
            AppState::Startup(s) => s.transition(event, tx),
            AppState::Home(s) => s.transition(event, tx),
            AppState::Lists(s) => s.transition(event, tx),
            AppState::Popup(s) => s.transition(event, tx),
            AppState::Exit(s) => s.transition(event, tx),
        };
        assert(tx@.subrange(0, before.len() as int) =~= before);
        r
    }

    /// The event that the screen makes of a key chord.
    pub fn handle(&self, key_event: KeyEvent) -> (r: Option<Event>)
        ensures
            same_action(r, self@.key_action(key_event)),
    {
        match self {
            AppState::Home(s) => s.handle(key_event),
            AppState::Lists(s) => s.handle(key_event),
            AppState::Popup(s) => s.handle(key_event),
            _ => None,
        }
    }

    /// Applies status results to the screen that shows channels.
    pub fn receive(&mut self, updates: &Vec<StatusUpdate>)
        requires
            old(self)@.wf(),
        ensures
            final(self)@.wf(),
            final(self).spec_kind() == old(self).spec_kind(),
            final(self)@ == old(self)@.received(updates@),
    {
        match self {
            AppState::Home(s) => s.channel_check(updates),
            AppState::Lists(s) => s.channel_check(updates),
            _ => {},
        }
    }

    /// Applies a navigation or editing event to the screen's own data.
    pub fn process(&mut self, action: Event, tx: &mut Vec<Event>)
        requires
            old(self)@.wf(),
        ensures
            final(self)@.wf(),
            final(self).spec_kind() == old(self).spec_kind(),
            extends(old(tx)@, final(tx)@),
            final(self)@ == old(self)@.after(action),
            sends(old(self)@, action, final(tx)@.subrange(old(tx)@.len() as int, final(tx)@.len() as int)),
    {
        let ghost before = tx@;
        match self {
            AppState::Home(s) => s.process(action, tx),
            AppState::Lists(s) => s.process(action, tx),
            AppState::Popup(s) => s.process(action, tx),
            _ => {},
        }
        assert(tx@.subrange(0, before.len() as int) =~= before);
    }
}

} // verus!
