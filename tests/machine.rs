use twitch_launcher::cache::Cache;
use twitch_launcher::channel::{Channel, Status};
use twitch_launcher::event::{Callback, Event};
use twitch_launcher::exit::Exit;
use twitch_launcher::home::Home;
use twitch_launcher::machine::{Pending, Request, StateMachine};
use twitch_launcher::panel::Home as HomePanel;
use twitch_launcher::popup::Popup;
use twitch_launcher::state::{AppState, StateKind};
use twitch_launcher::transition::{Effect, Need, Transition};

fn foo_favourites() -> Vec<Channel> {
    vec![Channel::new(String::from("Foo"), String::from("foo"), None)]
}

fn home_with(highlight: usize, favourites: &Vec<Channel>) -> Home {
    Home::new(highlight, favourites, false, &Vec::new(), HomePanel::Favourites)
}

fn started_machine() -> StateMachine {
    let mut machine = StateMachine::new(true);
    assert!(matches!(machine.tick(), Request::Nothing));
    assert!(matches!(machine.tick(), Request::Nothing));
    assert!(matches!(machine.tick(), Request::Load(Need::Favourites)));
    machine.resume_favourites(&foo_favourites());
    machine
}

#[test]
fn lib_it_works() {
    let result = 2 + 2;
    assert_eq!(result, 4);
}

#[test]
fn cache_overwrites_entry_of_same_kind() {
    let mut cache = Cache::new();
    let favourites = foo_favourites();
    let first = cache.add(AppState::Home(home_with(0, &Vec::new())));
    let second = cache.add(AppState::Popup(Popup::new_timed_info(
        String::from("t"),
        String::from("m"),
        3,
        None,
    )));
    let third = cache.add(AppState::Home(home_with(0, &favourites)));
    assert_eq!(first, 0);
    assert_eq!(second, 1);
    assert_eq!(third, 0);
    assert_eq!(cache.len(), 2);
    match cache.get(0) {
        Some(AppState::Home(home)) => assert_eq!(home.favourites.len(), 1),
        _ => panic!("expected the second home screen in the first slot"),
    }
    assert_eq!(cache.get(1).map(|s| s.kind()), Some(StateKind::Popup));
    assert!(cache.get(2).is_none());
}

#[test]
fn startup_scenario_reaches_home() {
    let mut machine = StateMachine::new(true);
    assert_eq!(machine.state().kind(), StateKind::Startup);
    assert!(matches!(machine.tick(), Request::Nothing));
    assert!(machine.events().is_empty());
    assert!(matches!(machine.tick(), Request::Nothing));
    assert!(machine.events().is_empty());
    assert_eq!(machine.timer(), 2);
    assert!(matches!(machine.tick(), Request::Load(Need::Favourites)));
    assert_eq!(machine.pending(), Pending::Load(Need::Favourites));
    machine.resume_favourites(&foo_favourites());
    assert_eq!(machine.pending(), Pending::Nothing);
    assert_eq!(machine.timer(), 0);
    match machine.state() {
        AppState::Home(home) => {
            assert_eq!(home.channel_highlight, 0);
            assert_eq!(home.favourites.len(), 1);
            assert_eq!(home.favourites[0].handle, "foo");
        }
        _ => panic!("expected the home screen"),
    }
    // The favourite's status is awaited, so a check is asked for.
    assert_eq!(machine.events().len(), 1);
    assert!(matches!(&machine.events()[0], Event::CheckChannels(c) if c.len() == 1));
    assert!(matches!(machine.tick(), Request::Nothing));
    let effects = machine.take_effects();
    assert_eq!(effects.len(), 1);
    assert!(matches!(&effects[0], Effect::CheckChannels(c) if c[0].handle == "foo"));
}

#[test]
fn popups_pop_in_reverse_order() {
    let mut machine = started_machine();
    let _ = machine.tick();
    machine.apply_transition(Transition::Push(AppState::Popup(Popup::new_choice(
        String::from("c"),
        String::from("m"),
        &vec![String::from("No"), String::from("Yes")],
        None,
    ))));
    assert_eq!(machine.stack_len(), 1);
    machine.apply_transition(Transition::Push(AppState::Popup(Popup::new_input(
        String::from("i"),
        String::from("m"),
        None,
    ))));
    assert_eq!(machine.stack_len(), 2);
    machine.apply_transition(Transition::Pop);
    assert_eq!(machine.state().kind(), StateKind::Popup);
    match machine.state() {
        AppState::Popup(p) => assert_eq!(p.title, "c"),
        _ => panic!("expected the choice popup"),
    }
    machine.apply_transition(Transition::Pop);
    assert_eq!(machine.state().kind(), StateKind::Home);
    assert_eq!(machine.stack_len(), 0);
    // A pop on an empty stack changes nothing.
    machine.apply_transition(Transition::Pop);
    assert_eq!(machine.state().kind(), StateKind::Home);
}

#[test]
fn popup_through_events_returns_home() {
    let mut machine = started_machine();
    let _ = machine.tick();
    machine.send(Event::ChoicePopupStarted((
        String::from("c"),
        String::from("m"),
        vec![String::from("a")],
        None,
    )));
    let _ = machine.tick();
    assert_eq!(machine.state().kind(), StateKind::Popup);
    assert_eq!(machine.stack_len(), 1);
    // A popup does not open another one.
    machine.send(Event::InputPopupStarted((String::from("i"), String::from("m"), None)));
    let _ = machine.tick();
    assert_eq!(machine.stack_len(), 1);
    machine.send(Event::PopupEnded);
    let _ = machine.tick();
    assert_eq!(machine.state().kind(), StateKind::Home);
    assert_eq!(machine.stack_len(), 0);
}

#[test]
fn timed_popup_ends_once() {
    let mut machine = started_machine();
    let _ = machine.tick();
    machine.send(Event::TimedInfoPopupStarted((
        String::from("t"),
        String::from("m"),
        1,
        None,
    )));
    let _ = machine.tick();
    assert_eq!(machine.state().kind(), StateKind::Popup);
    assert_eq!(machine.timer(), 0);
    let _ = machine.tick();
    assert!(machine.events().is_empty());
    let _ = machine.tick();
    assert_eq!(machine.state().kind(), StateKind::Home);
    for _ in 0..5 {
        let _ = machine.tick();
        assert!(machine.events().iter().all(|e| !matches!(e, Event::PopupEnded)));
    }
    assert_eq!(machine.state().kind(), StateKind::Home);
}

#[test]
fn exit_event_ends_application() {
    let mut machine = started_machine();
    let _ = machine.tick();
    let _ = machine.take_effects();
    machine.send(Event::Exited);
    let _ = machine.tick();
    assert_eq!(machine.state().kind(), StateKind::Exit);
    let effects = machine.take_effects();
    assert!(matches!(effects.as_slice(), [Effect::ExitApp]));
    // The exit screen keeps asking the application to end.
    let _ = machine.tick();
    assert!(matches!(machine.take_effects().as_slice(), [Effect::ExitApp]));
    assert!(matches!(AppState::Exit(Exit::new()).kind(), StateKind::Exit));
}

#[test]
fn account_setup_prompts_for_details() {
    let mut machine = StateMachine::new(false);
    assert_eq!(machine.state().kind(), StateKind::AccountMissing);
    let _ = machine.tick();
    let _ = machine.tick();
    let _ = machine.tick();
    match machine.state() {
        AppState::Popup(p) => {
            assert_eq!(p.title, "Username");
            assert_eq!(p.message, "Your Username here");
            assert_eq!(p.callback, Some(Callback::UsernameSubmit));
        }
        _ => panic!("expected the username prompt"),
    }
    machine.handle(twitch_launcher::input::KeyEvent::new(
        twitch_launcher::input::KeyCode::Enter,
        twitch_launcher::input::KeyModifiers::with(false, false),
    ));
    machine.paste(String::from("me"));
    machine.handle(twitch_launcher::input::KeyEvent::new(
        twitch_launcher::input::KeyCode::Enter,
        twitch_launcher::input::KeyModifiers::with(false, false),
    ));
    assert_eq!(machine.events().len(), 2);
    assert!(matches!(&machine.events()[0], Event::PopupEnded));
    assert!(matches!(&machine.events()[1], Event::SetUser(u) if u == "me"));
    let _ = machine.tick();
    assert_eq!(machine.state().kind(), StateKind::AccountMissing);
    let _ = machine.tick();
    match machine.state() {
        AppState::AccountMissing(a) => {
            assert_eq!(a.account_config.username.as_deref(), Some("me"));
            assert_eq!(a.account_config.title.as_deref(), Some("User ID"));
        }
        _ => panic!("expected the account screen"),
    }
}

#[test]
fn account_result_resumes_tick() {
    let mut machine = StateMachine::new(false);
    let _ = machine.tick();
    machine.send(Event::SetRedirectUrlPort(8080));
    let _ = machine.tick();
    match machine.state() {
        AppState::AccountMissing(a) => {
            assert_eq!(a.account_config.port, Some(8080));
            assert!(a.account_config.callback.is_none());
        }
        _ => panic!("expected the account screen"),
    }
    // The other details are missing, so no account can be asked for.
    for _ in 0..4 {
        assert!(matches!(machine.tick(), Request::Nothing));
    }
    let mut full = StateMachine::new(false);
    for event in [
        Event::SetUser(String::from("u")),
        Event::SetUserId(String::from("1")),
        Event::SetClientId(String::from("c")),
        Event::SetClientSecret(String::from("s")),
        Event::SetRedirectUrlPort(80),
    ] {
        full.send(event);
        let _ = full.tick();
    }
    let _ = full.tick();
    let _ = full.tick();
    match full.tick() {
        Request::Account(details) => {
            assert_eq!(details.username, "u");
            assert_eq!(details.user_id, "1");
            assert_eq!(details.client_id, "c");
            assert_eq!(details.client_secret, "s");
            assert_eq!(details.port, 80);
        }
        _ => panic!("expected a request for the account"),
    }
    assert_eq!(full.pending(), Pending::Account);
    assert!(matches!(full.resume_account(None), Request::Nothing));
    assert_eq!(full.state().kind(), StateKind::Exit);
}

#[test]
fn status_results_reach_home() {
    let mut machine = started_machine();
    let _ = machine.tick();
    machine.receive(&vec![(
        String::from("foo"),
        (Status::Online, Some(String::from("GameX"))),
    )]);
    match machine.state() {
        AppState::Home(home) => {
            assert_eq!(home.favourites[0].status, Status::Online);
            assert_eq!(home.favourites[0].game.as_deref(), Some("GameX"));
        }
        _ => panic!("expected the home screen"),
    }
}

#[test]
fn status_results_reach_home_under_popup() {
    let mut machine = started_machine();
    let _ = machine.tick();
    machine.send(Event::TimedInfoPopupStarted((
        String::from("t"),
        String::from("m"),
        1,
        None,
    )));
    let _ = machine.tick();
    assert_eq!(machine.state().kind(), StateKind::Popup);
    machine.receive(&vec![(
        String::from("foo"),
        (Status::Online, Some(String::from("GameX"))),
    )]);
    let _ = machine.tick();
    let _ = machine.tick();
    match machine.state() {
        AppState::Home(home) => {
            assert_eq!(home.favourites[0].status, Status::Online);
            assert_eq!(home.favourites[0].game.as_deref(), Some("GameX"));
        }
        _ => panic!("expected the home screen"),
    }
}

#[test]
fn idle_ticks_advance_timer() {
    let mut machine = started_machine();
    let _ = machine.tick();
    let before = machine.timer();
    let _ = machine.tick();
    assert_eq!(machine.timer(), before + 1);
    assert_eq!(machine.state().kind(), StateKind::Home);
}
