use crate::event::{Callback, Event};
use crate::exit::Exit;
use crate::home::{opens_popup, popup_for, popup_reaction};
use crate::popup::Popup;
use crate::state::{reaction_view, AppState, AppStateView};
use crate::text::owned;
use crate::transition::{Need, Reaction, Transition};
use vstd::prelude::*;
use vstd::string::StringExecFns;

verus! {

/// Ticks that the start and account screens wait before they act.
pub const STARTUP_DURATION: u64 = 2;

/// The start screen: once its timer passes its duration, the application starts.
#[derive(Clone, Copy, PartialEq, Eq, Structural, Debug)]
pub struct Startup {
    pub timer: u64,
    pub duration: u64,
}

impl Startup {
    pub fn new(timer: u64, duration: u64) -> (r: Startup)
        ensures
            r == (Startup { timer, duration }),
    {
        Startup { timer, duration }
    }

    /// Once the timer passes the duration, the application has started.
    pub fn tick(&self, timer: u64, tx: &mut Vec<Event>)
        ensures
            timer > self.duration ==> final(tx)@ == old(tx)@.push(Event::Started),
            timer <= self.duration ==> final(tx)@ == old(tx)@,
    {
        if timer > self.duration {
            tx.push(Event::Started);
        }
    }

    /// On start the favourites are loaded for the home screen.
    pub fn transition(&self, event: Event, tx: &mut Vec<Event>) -> (r: Reaction)
        ensures
            final(tx)@ == old(tx)@,
            event is Started ==> r == Reaction::Load(Need::Favourites),
            event is Exited ==> r == Reaction::Go(Transition::To(AppState::Exit(Exit))),
            !(event is Started) && !(event is Exited) ==> r is Stay,
            reaction_view(r) == AppStateView::Startup(*self).reaction(event),
    {
        match event {
            Event::Started => Reaction::Load(Need::Favourites),
            Event::Exited => Reaction::Go(Transition::To(AppState::Exit(Exit::new()))),
            _ => Reaction::Stay,
        }
    }
}

impl Default for Startup {
    fn default() -> (r: Startup)
        ensures
            r == (Startup { timer: 0, duration: STARTUP_DURATION }),
    {
        Startup::new(0, STARTUP_DURATION)
    }
}

/// The account details gathered so far, and the prompt for the next one.
pub struct AccountMissingConfig {
    pub callback: Option<Callback>,
    pub title: Option<String>,
    pub username: Option<String>,
    pub user_id: Option<String>,
    pub client_id: Option<String>,
    pub client_secret: Option<String>,
    pub port: Option<u16>,
}

impl AccountMissingConfig {
    /// A copy of the configuration.
    pub fn copy(&self) -> (r: AccountMissingConfig)
        ensures
            r == *self,
    {
        AccountMissingConfig {
            callback: self.callback,
            title: crate::channel::copy_optional_text(&self.title),
            username: crate::channel::copy_optional_text(&self.username),
            user_id: crate::channel::copy_optional_text(&self.user_id),
            client_id: crate::channel::copy_optional_text(&self.client_id),
            client_secret: crate::channel::copy_optional_text(&self.client_secret),
            port: self.port,
        }
    }
}

impl Default for AccountMissingConfig {
    fn default() -> (r: AccountMissingConfig)
        ensures
            r.callback == Some(Callback::UsernameSubmit),
            r.title is Some && r.title.unwrap()@ == "Username"@,
            r.username is None,
            r.user_id is None,
            r.client_id is None,
            r.client_secret is None,
            r.port is None,
    {
        AccountMissingConfig {
            callback: Some(Callback::UsernameSubmit),
            title: Some(owned("Username")),
            username: None,
            user_id: None,
            client_id: None,
            client_secret: None,
            port: None,
        }
    }
}

/// The details from which an account is to be set up.
pub struct AccountRequest {
    pub username: String,
    pub user_id: String,
    pub client_id: String,
    pub client_secret: String,
    pub port: u16,
}

/// The account details gathered so far, texts as sequences.
pub struct AccountMissingConfigView {
    pub callback: Option<Callback>,
    pub title: Option<Seq<char>>,
    pub username: Option<Seq<char>>,
    pub user_id: Option<Seq<char>>,
    pub client_id: Option<Seq<char>>,
    pub client_secret: Option<Seq<char>>,
    pub port: Option<u16>,
}

pub open spec fn text_view(t: Option<String>) -> Option<Seq<char>> {
    match t {
        Some(s) => Some(s@),
        None => None,
    }
}

impl View for AccountMissingConfig {
    type V = AccountMissingConfigView;

    open spec fn view(&self) -> AccountMissingConfigView {
        AccountMissingConfigView {
            callback: self.callback,
            title: text_view(self.title),
            username: text_view(self.username),
            user_id: text_view(self.user_id),
            client_id: text_view(self.client_id),
            client_secret: text_view(self.client_secret),
            port: self.port,
        }
    }
}

/// The account screen's data, texts as sequences.
pub struct AccountMissingView {
    pub timer: u64,
    pub duration: u64,
    pub account_config: AccountMissingConfigView,
}

impl View for AccountMissing {
    type V = AccountMissingView;

    open spec fn view(&self) -> AccountMissingView {
        AccountMissingView {
            timer: self.timer,
            duration: self.duration,
            account_config: self.account_config@,
        }
    }
}

/// The events that the account screen sends on a tick at `timer`: the
/// prompt for the next detail, once the timer passes the duration.
pub open spec fn account_tick_sends(a: AccountMissingView, timer: u64, sends: Seq<Event>) -> bool {
    match (timer > a.duration, a.account_config.callback, a.account_config.title) {
        (true, Some(cb), Some(title)) => sends.len() == 1 && is_prompt(sends[0], title, cb),
        _ => sends.len() == 0,
    }
}

/// The screen shown while no account is set up: it prompts for each detail in turn.
pub struct AccountMissing {
    pub timer: u64,
    pub duration: u64,
    pub account_config: AccountMissingConfig,
}

/// `event` asks for the input popup that prompts for the detail named `title`.
pub open spec fn is_prompt(event: Event, title: Seq<char>, callback: Callback) -> bool {
    match event {
        Event::InputPopupStarted(p) => p.0@ == title && p.1@ == "Your "@ + title + " here"@
            && p.2 == Some(callback),
        _ => false,
    }
}

/// The screen that the next prompt comes from, after the details change.
pub open spec fn next_prompt(r: Reaction, config: AccountMissingConfig) -> bool {
    match r {
        Reaction::Go(Transition::To(AppState::AccountMissing(a))) => a.timer == 0 && a.duration
            == STARTUP_DURATION && a.account_config == config,
        _ => false,
    }
}

impl AccountMissing {
    pub fn new(timer: u64, duration: u64, account_config: AccountMissingConfig) -> (r: AccountMissing)
        ensures
            r == (AccountMissing { timer, duration, account_config }),
    {
        AccountMissing { timer, duration, account_config }
    }

    /// A copy of the screen.
    pub fn copy(&self) -> (r: AccountMissing)
        ensures
            r == *self,
    {
        AccountMissing::new(self.timer, self.duration, self.account_config.copy())
    }

    /// Once the timer passes the duration, the screen prompts for the next
    /// detail; when none is left to prompt for, it hands back the details
    /// from which the account is set up.
    pub fn tick(&self, timer: u64, tx: &mut Vec<Event>) -> (r: Option<AccountRequest>)
        ensures
            timer <= self.duration ==> r is None && final(tx)@ == old(tx)@,
            timer > self.duration ==> match (self.account_config.callback, self.account_config.title) {
                (Some(cb), Some(title)) => r is None && final(tx)@.len() == old(tx)@.len() + 1
                    && final(tx)@.drop_last() == old(tx)@ && is_prompt(final(tx)@.last(), title@, cb),
                _ => final(tx)@ == old(tx)@ && match (
                    self.account_config.username,
                    self.account_config.user_id,
                    self.account_config.client_id,
                    self.account_config.client_secret,
                    self.account_config.port,
                ) {
                    (Some(u), Some(i), Some(c), Some(s), Some(p)) => r is Some && r.unwrap().username
                        == u && r.unwrap().user_id == i && r.unwrap().client_id == c
                        && r.unwrap().client_secret == s && r.unwrap().port == p,
                    _ => r is None,
                },
            },
    {
        if timer <= self.duration {
            return None;
        }
        if let Some(callback) = self.account_config.callback {
            if let Some(title) = &self.account_config.title {
                let message = owned("Your ").concat(title.as_str()).concat(" here");
                tx.push(Event::InputPopupStarted((title.clone(), message, Some(callback))));
                assert(tx@.drop_last() =~= old(tx)@);
                return None;
            }
        }
        let config = &self.account_config;
        match (&config.username, &config.user_id, &config.client_id, &config.client_secret, config.port) {
            (Some(u), Some(i), Some(c), Some(s), Some(p)) => Some(
                AccountRequest {
                    username: u.clone(),
                    user_id: i.clone(),
                    client_id: c.clone(),
                    client_secret: s.clone(),
                    port: p,
                },
            ),
            _ => None,
        }
    }

    pub fn transition(&self, event: Event, tx: &mut Vec<Event>) -> (r: Reaction)
        ensures
            final(tx)@ == old(tx)@,
            match event {
                Event::Exited => r == Reaction::Go(Transition::To(AppState::Exit(Exit))),
                Event::AccountConfigured(_) => r == Reaction::Load(Need::Favourites),
                Event::InputPopupStarted(_) => popup_reaction(event, r),
                Event::SetUser(username) => next_prompt(
                    r,
                    AccountMissingConfig {
                        callback: Some(Callback::UserIdSubmit),
                        title: r->Go_0->To_0->AccountMissing_0.account_config.title,
                        username: Some(username),
                        ..self.account_config
                    },
                ) && r->Go_0->To_0->AccountMissing_0.account_config.title.unwrap()@ == "User ID"@,
                Event::SetUserId(user_id) => next_prompt(
                    r,
                    AccountMissingConfig {
                        callback: Some(Callback::ClientIdSubmit),
                        title: r->Go_0->To_0->AccountMissing_0.account_config.title,
                        user_id: Some(user_id),
                        ..self.account_config
                    },
                ) && r->Go_0->To_0->AccountMissing_0.account_config.title.unwrap()@ == "Client ID"@,
                Event::SetClientId(client_id) => next_prompt(
                    r,
                    AccountMissingConfig {
                        callback: Some(Callback::ClientSecretSubmit),
                        title: r->Go_0->To_0->AccountMissing_0.account_config.title,
                        client_id: Some(client_id),
                        ..self.account_config
                    },
                ) && r->Go_0->To_0->AccountMissing_0.account_config.title.unwrap()@
                    == "Client Secret"@,
                Event::SetClientSecret(client_secret) => next_prompt(
                    r,
                    AccountMissingConfig {
                        callback: Some(Callback::RedirectUrlPortSubmit),
                        title: r->Go_0->To_0->AccountMissing_0.account_config.title,
                        client_secret: Some(client_secret),
                        ..self.account_config
                    },
                ) && r->Go_0->To_0->AccountMissing_0.account_config.title.unwrap()@
                    == "Redirect URL Port"@,
                Event::SetRedirectUrlPort(port) => next_prompt(
                    r,
                    AccountMissingConfig {
                        callback: None,
                        title: None,
                        port: Some(port),
                        ..self.account_config
                    },
                ),
                _ => r is Stay,
            },
            reaction_view(r) == AppStateView::AccountMissing(self@).reaction(event),
    {
        match event {
            Event::Exited => Reaction::Go(Transition::To(AppState::Exit(Exit::new()))),
            Event::AccountConfigured(_) => Reaction::Load(Need::Favourites),
            Event::InputPopupStarted(_) => popup_for(event),
            Event::SetUser(username) => {
                let mut config = self.account_config.copy();
                config.callback = Some(Callback::UserIdSubmit);
                config.title = Some(owned("User ID"));
                config.username = Some(username);
                new_account_missing(config)
            },
            Event::SetUserId(user_id) => {
                let mut config = self.account_config.copy();
                config.callback = Some(Callback::ClientIdSubmit);
                config.title = Some(owned("Client ID"));
                config.user_id = Some(user_id);
                new_account_missing(config)
            },
            Event::SetClientId(client_id) => {
                let mut config = self.account_config.copy();
                config.callback = Some(Callback::ClientSecretSubmit);
                config.title = Some(owned("Client Secret"));
                config.client_id = Some(client_id);
                new_account_missing(config)
            },
            Event::SetClientSecret(client_secret) => {
                let mut config = self.account_config.copy();
                config.callback = Some(Callback::RedirectUrlPortSubmit);
                config.title = Some(owned("Redirect URL Port"));
                config.client_secret = Some(client_secret);
                new_account_missing(config)
            },
            Event::SetRedirectUrlPort(port) => {
                let mut config = self.account_config.copy();
                config.callback = None;
                config.title = None;
                config.port = Some(port);
                new_account_missing(config)
            },
            _ => Reaction::Stay,
        }
    }
}

impl Default for AccountMissing {
    fn default() -> (r: AccountMissing)
        ensures
            r.timer == 0,
            r.duration == STARTUP_DURATION,
            r.account_config.callback == Some(Callback::UsernameSubmit),
            r.account_config.title is Some && r.account_config.title.unwrap()@ == "Username"@,
            r.account_config.username is None,
            r.account_config.user_id is None,
            r.account_config.client_id is None,
            r.account_config.client_secret is None,
            r.account_config.port is None,
    {
        AccountMissing::new(0, STARTUP_DURATION, AccountMissingConfig::default())
    }
}

fn new_account_missing(account_config: AccountMissingConfig) -> (r: Reaction)
    ensures
        next_prompt(r, account_config),
        r->Go_0->To_0->AccountMissing_0.account_config == account_config,
{
    Reaction::Go(
        Transition::To(
            AppState::AccountMissing(AccountMissing::new(0, STARTUP_DURATION, account_config)),
        ),
    )
}

} // verus!
