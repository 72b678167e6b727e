use twitch_launcher::channel::{status_of_reply, Channel, Status, StreamReply};
use twitch_launcher::event::{parse_port, BoolChoice, Callback, Event, MoveDirection, MoveEnd, Output};
use twitch_launcher::home::Home;
use twitch_launcher::input::{KeyCode, KeyEvent, KeyModifiers};
use twitch_launcher::lists::{List, Lists};
use twitch_launcher::panel::{Home as HomePanel, Lists as ListsPanel, Panel};
use twitch_launcher::popup::{redirect_url_port_submit, Popup, Type};
use twitch_launcher::state::{AppState, StateKind};
use twitch_launcher::startup::{AccountMissing, Startup};
use twitch_launcher::transition::{Effect, Need, Reaction, Transition};
use twitch_launcher::util::{index_add, index_subtract};

fn channel(handle: &str) -> Channel {
    Channel::new(String::from(handle), String::from(handle), None)
}

#[test]
fn highlight_wraps_around() {
    let n: usize = 5;
    assert_eq!(index_add(n - 1, n), 0);
    assert_eq!(index_subtract(0, n), n - 1);
    assert_eq!(index_add(0, 0), 0);
    assert_eq!(index_subtract(0, 0), 0);
    assert_eq!(index_add(2, n), 3);
    assert_eq!(index_subtract(3, n), 2);
    assert_eq!(index_subtract(0, 1), 0);
}

#[test]
fn status_results_update_favourites() {
    let favourites = vec![channel("foo")];
    let mut home = Home::new(0, &favourites, false, &Vec::new(), HomePanel::Favourites);
    assert_eq!(home.favourites[0].status, Status::Awaiting);
    home.channel_check(&vec![(
        String::from("foo"),
        (Status::Online, Some(String::from("GameX"))),
    )]);
    assert_eq!(home.favourites[0].status, Status::Online);
    assert_eq!(home.favourites[0].game.as_deref(), Some("GameX"));
    // A result for a handle that is not a favourite changes nothing.
    home.channel_check(&vec![(String::from("bar"), (Status::Offline, None))]);
    assert_eq!(home.favourites.len(), 1);
    assert_eq!(home.favourites[0].status, Status::Online);
    assert_eq!(home.favourites[0].game.as_deref(), Some("GameX"));
}

#[test]
fn typing_captures_unbound_characters() {
    let mut home = Home::new(0, &Vec::new(), false, &Vec::new(), HomePanel::Favourites);
    let mut tx = Vec::new();
    home.process(Event::CyclePanel(MoveDirection::Right), &mut tx);
    assert_eq!(home.focused_panel, HomePanel::Search);
    home.process(Event::Selected, &mut tx);
    assert!(home.typing);
    let plain = KeyModifiers::with(false, false);
    for c in ['a', 'q', 'Q', ' ', '1', 'w'] {
        let e = home.handle(KeyEvent::new(KeyCode::Char(c), plain));
        assert!(matches!(e, Some(Event::Typed(t)) if t == c));
    }
    assert!(matches!(
        home.handle(KeyEvent::new(KeyCode::Enter, plain)),
        Some(Event::Submit)
    ));
    assert!(matches!(
        home.handle(KeyEvent::new(KeyCode::Esc, plain)),
        Some(Event::StopTyping)
    ));
    assert!(matches!(
        home.handle(KeyEvent::new(KeyCode::Backspace, plain)),
        Some(Event::DeleteChar)
    ));
    assert!(home.handle(KeyEvent::new(KeyCode::Up, plain)).is_none());
    assert!(tx.is_empty());
}

#[test]
fn home_bindings_when_not_typing() {
    let home = Home::new(0, &Vec::new(), false, &Vec::new(), HomePanel::Favourites);
    let plain = KeyModifiers::with(false, false);
    assert!(matches!(home.handle(KeyEvent::new(KeyCode::Char('q'), plain)), Some(Event::Exited)));
    assert!(matches!(
        home.handle(KeyEvent::new(KeyCode::Char('s'), KeyModifiers::with(false, true))),
        Some(Event::HomeEndHighlight(MoveEnd::Last))
    ));
    assert!(home.handle(KeyEvent::new(KeyCode::Char('x'), plain)).is_none());
}

#[test]
fn home_editing_and_search() {
    let mut home = Home::new(0, &Vec::new(), true, &Vec::new(), HomePanel::Search);
    let mut tx = Vec::new();
    home.process(Event::Typed('f'), &mut tx);
    home.process(Event::Paste(String::from("oox")), &mut tx);
    home.process(Event::DeleteChar, &mut tx);
    assert_eq!(home.search_input, vec!['f', 'o', 'o']);
    home.process(Event::Submit, &mut tx);
    assert!(!home.typing);
    assert_eq!(tx.len(), 1);
    match &tx[0] {
        Event::ChoicePopupStarted((title, _, options, callback)) => {
            assert_eq!(title, "Launch Chat");
            assert_eq!(options, &vec![String::from("No"), String::from("Yes")]);
            assert_eq!(*callback, Some(Callback::ChatChoiceSearch));
        }
        _ => panic!("expected the chat popup"),
    }
    let mut sent = Vec::new();
    let r = home.transition(Event::ChatChoiceSearch(1), &mut sent);
    assert!(matches!(r, Reaction::Stay));
    match &sent[0] {
        Event::ChannelSelected(c, chat) => {
            assert_eq!(c.handle, "foo");
            assert_eq!(c.friendly_name, "foo");
            assert!(*chat);
        }
        _ => panic!("expected the selected channel"),
    }
    // Submitting an empty search does nothing.
    let mut empty = Home::new(0, &Vec::new(), true, &Vec::new(), HomePanel::Search);
    let mut none = Vec::new();
    empty.process(Event::Submit, &mut none);
    assert!(empty.typing);
    assert!(none.is_empty());
}

#[test]
fn home_highlight_moves() {
    let favourites = vec![channel("a"), channel("b"), channel("c")];
    let mut home = Home::new(0, &favourites, false, &Vec::new(), HomePanel::Favourites);
    let mut tx = Vec::new();
    home.process(Event::CycleHighlight(MoveDirection::Up), &mut tx);
    assert_eq!(home.channel_highlight, 2);
    home.process(Event::CycleHighlight(MoveDirection::Down), &mut tx);
    assert_eq!(home.channel_highlight, 0);
    home.process(Event::HomeEndHighlight(MoveEnd::Last), &mut tx);
    assert_eq!(home.channel_highlight, 2);
    home.process(Event::HomeEndHighlight(MoveEnd::First), &mut tx);
    assert_eq!(home.channel_highlight, 0);
    home.process(Event::Selected, &mut tx);
    assert!(matches!(&tx[0], Event::ChoicePopupStarted((_, _, _, Some(Callback::ChatChoice)))));
    let mut sent = Vec::new();
    home.transition(Event::ChatChoice(0), &mut sent);
    assert!(matches!(&sent[0], Event::ChannelSelected(c, false) if c.handle == "a"));
    // An empty list keeps its highlight where it is.
    let mut empty = Home::new(0, &Vec::new(), false, &Vec::new(), HomePanel::Favourites);
    empty.process(Event::HomeEndHighlight(MoveEnd::Last), &mut tx);
    assert_eq!(empty.channel_highlight, 0);
}

#[test]
fn home_transitions() {
    let home = Home::init(&vec![channel("a")], &mut Vec::new());
    let mut tx = Vec::new();
    assert!(matches!(
        home.transition(Event::Exited, &mut tx),
        Reaction::Go(Transition::To(AppState::Exit(_)))
    ));
    assert!(matches!(
        home.transition(Event::CycleTab(MoveDirection::Right), &mut tx),
        Reaction::Load(Need::Lists)
    ));
    assert!(matches!(
        home.transition(Event::CycleTab(MoveDirection::Up), &mut tx),
        Reaction::Stay
    ));
    assert!(matches!(
        home.transition(Event::ChannelSelected(channel("a"), true), &mut tx),
        Reaction::Run(Effect::Launch(_, true))
    ));
    match home.transition(
        Event::InputPopupStarted((String::from("t"), String::from("m"), None)),
        &mut tx,
    ) {
        Reaction::Go(Transition::Push(AppState::Popup(p))) => assert_eq!(p.title, "t"),
        _ => panic!("expected a pushed popup"),
    }
    assert!(matches!(home.transition(Event::Started, &mut tx), Reaction::Stay));
    assert!(tx.is_empty());
}

#[test]
fn init_asks_to_check_awaited_channels() {
    let mut online = channel("b");
    online.status = Status::Online;
    let mut tx = Vec::new();
    let home = Home::init(&vec![channel("a"), online.clone()], &mut tx);
    assert_eq!(home.favourites.len(), 2);
    assert!(matches!(&tx[0], Event::CheckChannels(c) if c.len() == 1 && c[0].handle == "a"));
    let mut quiet = Vec::new();
    let _ = Home::init(&vec![online], &mut quiet);
    assert!(quiet.is_empty());
}

#[test]
fn choice_popup_completes_with_selection() {
    let mut popup = Popup::new_choice(
        String::from("Launch Chat"),
        String::from("m"),
        &vec![String::from("No"), String::from("Yes")],
        Some(Callback::ChatChoice),
    );
    let mut tx = Vec::new();
    popup.process(Event::CycleHighlight(MoveDirection::Down), &mut tx);
    match &popup.variant {
        Type::Choice(c) => assert_eq!(c.selected, 1),
        _ => panic!("expected a choice popup"),
    }
    popup.process(Event::Selected, &mut tx);
    assert_eq!(tx.len(), 2);
    assert!(matches!(tx[0], Event::PopupEnded));
    assert!(matches!(tx[1], Event::ChatChoice(1)));
    let mut none = Vec::new();
    assert!(matches!(
        popup.transition(Event::PopupEnded, &mut none),
        Reaction::Go(Transition::Pop)
    ));
}

#[test]
fn input_popup_edits_and_submits() {
    let mut popup = Popup::new_input(
        String::from("Redirect URL Port"),
        String::from("m"),
        Some(Callback::RedirectUrlPortSubmit),
    );
    let mut tx = Vec::new();
    popup.process(Event::Typed('1'), &mut tx);
    popup.process(Event::Paste(String::from("80")), &mut tx);
    popup.process(Event::Submit, &mut tx);
    assert_eq!(tx.len(), 2);
    assert!(matches!(tx[0], Event::PopupEnded));
    assert!(matches!(tx[1], Event::SetRedirectUrlPort(180)));
}

#[test]
fn timed_popup_ticks_until_duration() {
    let popup = Popup::new_timed_info(String::from("t"), String::from("m"), 3, None);
    let mut tx = Vec::new();
    popup.tick(3, &mut tx);
    assert!(tx.is_empty());
    popup.tick(4, &mut tx);
    assert!(matches!(tx.as_slice(), [Event::PopupEnded]));
}

#[test]
fn port_text_is_parsed() {
    assert_eq!(parse_port(&String::from("8080")), Some(8080));
    assert_eq!(parse_port(&String::from("+80")), Some(80));
    assert_eq!(parse_port(&String::from("65535")), Some(65535));
    assert_eq!(parse_port(&String::from("65536")), None);
    assert_eq!(parse_port(&String::from("")), None);
    assert_eq!(parse_port(&String::from("+")), None);
    assert_eq!(parse_port(&String::from("8a")), None);
    let mut tx = Vec::new();
    redirect_url_port_submit(&mut tx, &Output::Input(String::from("nope")));
    assert!(tx.is_empty());
    redirect_url_port_submit(&mut tx, &Output::Index(1));
    assert!(tx.is_empty());
}

#[test]
fn bool_choice_reads_index() {
    assert!(BoolChoice::from(1).is_true());
    assert!(!BoolChoice::from(0).is_true());
    assert!(!BoolChoice::from(7).is_true());
    assert_eq!(BoolChoice::True.yes_no_display(), "Yes");
    assert_eq!(BoolChoice::False.yes_no_display(), "No");
}

#[test]
fn startup_and_account_screens() {
    let startup = Startup::default();
    assert_eq!(startup.duration, 2);
    let mut tx = Vec::new();
    startup.tick(2, &mut tx);
    assert!(tx.is_empty());
    startup.tick(3, &mut tx);
    assert!(matches!(tx.as_slice(), [Event::Started]));
    assert!(matches!(
        startup.transition(Event::Started, &mut Vec::new()),
        Reaction::Load(Need::Favourites)
    ));
    let account = AccountMissing::default();
    let mut prompt = Vec::new();
    assert!(account.tick(3, &mut prompt).is_none());
    match &prompt[0] {
        Event::InputPopupStarted((title, message, callback)) => {
            assert_eq!(title, "Username");
            assert_eq!(message, "Your Username here");
            assert_eq!(*callback, Some(Callback::UsernameSubmit));
        }
        _ => panic!("expected the username prompt"),
    }
    match account.transition(Event::SetClientSecret(String::from("s")), &mut Vec::new()) {
        Reaction::Go(Transition::To(AppState::AccountMissing(next))) => {
            assert_eq!(next.account_config.client_secret.as_deref(), Some("s"));
            assert_eq!(next.account_config.title.as_deref(), Some("Redirect URL Port"));
            assert_eq!(next.account_config.callback, Some(Callback::RedirectUrlPortSubmit));
            assert_eq!(next.timer, 0);
        }
        _ => panic!("expected the next prompt"),
    }
}

#[test]
fn lists_screen_navigation() {
    let lists = vec![
        List { name: String::from("a"), path: String::from("a.json"), channels: vec![channel("x"), channel("y")] },
        List { name: String::from("b"), path: String::from("b.json"), channels: vec![] },
    ];
    let mut screen = Lists::init(&lists);
    let mut tx = Vec::new();
    screen.process(Event::CyclePanel(MoveDirection::Right), &mut tx);
    assert_eq!(screen.focused_panel, ListsPanel::Lists);
    screen.process(Event::Selected, &mut tx);
    assert_eq!(screen.open_list, Some(0));
    screen.process(Event::CyclePanel(MoveDirection::Right), &mut tx);
    assert_eq!(screen.focused_panel, ListsPanel::ListContent);
    screen.process(Event::CycleHighlight(MoveDirection::Up), &mut tx);
    assert_eq!(screen.channel_highlight, 1);
    let mut sent = Vec::new();
    screen.transition(Event::ChatChoice(1), &mut sent);
    assert!(matches!(&sent[0], Event::ChannelSelected(c, true) if c.handle == "y"));
    screen.channel_check(&vec![(String::from("y"), (Status::Offline, None))]);
    assert_eq!(screen.lists[0].channels[1].status, Status::Offline);
    assert!(matches!(
        screen.transition(Event::CycleTab(MoveDirection::Left), &mut sent),
        Reaction::Load(Need::Favourites)
    ));
    assert_eq!(AppState::Lists(screen).kind(), StateKind::Lists);
    assert_eq!(ListsPanel::ListContent.left(), ListsPanel::Lists);
}

#[test]
fn status_result_with_same_status_sets_game() {
    let mut online = channel("foo");
    online.status = Status::Online;
    let mut home = Home::new(0, &vec![online], false, &Vec::new(), HomePanel::Favourites);
    home.channel_check(&vec![(
        String::from("foo"),
        (Status::Online, Some(String::from("GameX"))),
    )]);
    assert_eq!(home.favourites[0].status, Status::Online);
    assert_eq!(home.favourites[0].game.as_deref(), Some("GameX"));
    // The last of several results for one handle wins.
    home.channel_check(&vec![
        (String::from("foo"), (Status::Offline, None)),
        (String::from("foo"), (Status::Online, Some(String::from("GameY")))),
    ]);
    assert_eq!(home.favourites[0].game.as_deref(), Some("GameY"));
}

#[test]
fn stream_replies_give_statuses() {
    assert_eq!(status_of_reply(StreamReply::Failed), (Status::Unknown, None));
    assert_eq!(status_of_reply(StreamReply::NotLive), (Status::Offline, None));
    assert_eq!(
        status_of_reply(StreamReply::Live(String::from("GameX"))),
        (Status::Online, Some(String::from("GameX")))
    );
}
