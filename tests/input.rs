use twitch_launcher::channel::{Account, Expose, Secret, Status};
use twitch_launcher::display::{account_missing, animate_ellipsis, generate_keys_widget, starting};
use twitch_launcher::event::{Action, Event};
use twitch_launcher::input::{home_inputs, typing_inputs, Handler, KeyCode, KeyEvent, KeyModifiers};
use twitch_launcher::legend::{code_to_string, decimal, event_to_string, modifier_to_string};
use twitch_launcher::theme::{Colour, CustomColour};

#[test]
fn legend_of_home_bindings() {
    let legend = Handler::new(home_inputs()).render();
    assert_eq!(
        legend,
        vec![
            String::from("Exit: Esc, Q"),
            String::from("Cycle Tabs: Tab, BackTab"),
            String::from("Cycle List: W, Up, S, Down, CTRL+W, CTRL+Up, CTRL+S, CTRL+Down"),
            String::from("Select: Enter, Space"),
            String::from("Cycle Panels: A, Left, D, Right"),
        ]
    );
}

#[test]
fn legend_of_typing_bindings() {
    let legend = Handler::new(typing_inputs()).render();
    assert_eq!(legend, vec![String::from("Stop Typing: Esc"), String::from("Submit: Enter")]);
}

#[test]
fn first_binding_wins() {
    let plain = KeyModifiers::with(false, false);
    let handler = Handler::new(vec![
        twitch_launcher::input::KeyBind {
            event: KeyEvent::new(KeyCode::Enter, plain),
            action: Event::Selected,
        },
        twitch_launcher::input::KeyBind {
            event: KeyEvent::new(KeyCode::Enter, plain),
            action: Event::Submit,
        },
    ]);
    assert!(matches!(handler.handle(KeyEvent::new(KeyCode::Enter, plain)), Some(Event::Selected)));
    assert!(handler.handle(KeyEvent::new(KeyCode::Enter, KeyModifiers::with(true, false))).is_none());
}

#[test]
fn chord_texts() {
    assert_eq!(code_to_string(KeyCode::Char('a')), "A");
    assert_eq!(code_to_string(KeyCode::Char(' ')), "Space");
    assert_eq!(code_to_string(KeyCode::F(12)), "F12");
    assert_eq!(code_to_string(KeyCode::F(5)), "F5");
    assert_eq!(decimal(255), "255");
    assert_eq!(modifier_to_string(KeyModifiers::with(true, true)), "CTRL+SHIFT+");
    assert_eq!(modifier_to_string(KeyModifiers::with(false, false)), "");
    assert_eq!(
        event_to_string(KeyEvent::new(KeyCode::BackTab, KeyModifiers::with(true, false))),
        "BackTab"
    );
    assert_eq!(
        event_to_string(KeyEvent::new(KeyCode::Up, KeyModifiers::with(false, true))),
        "CTRL+Up"
    );
}

#[test]
fn event_labels() {
    assert_eq!(Event::Exited.handle(), Some("Exit"));
    assert_eq!(Event::Submit.handle(), Some("Submit"));
    assert_eq!(Event::DeleteChar.handle(), None);
}

#[test]
fn waiting_messages() {
    assert_eq!(animate_ellipsis(0), "");
    assert_eq!(animate_ellipsis(2), ".");
    assert_eq!(animate_ellipsis(7), "...");
    assert_eq!(animate_ellipsis(8), "");
    assert_eq!(starting(4), "Starting..");
    assert_eq!(
        account_missing(1),
        "Account not configured, please enter your details when prompted"
    );
    assert_eq!(
        generate_keys_widget(&vec![String::from("a"), String::from("b")]),
        vec![String::from("a"), String::from(" | b")]
    );
}

#[test]
fn colours_and_statuses() {
    assert_eq!(CustomColour::from(Colour::Red), CustomColour { r: 197, g: 15, b: 31 });
    assert_eq!(CustomColour::from(Colour::Reset), CustomColour { r: 18, g: 18, b: 18 });
    assert_eq!(CustomColour::from(Colour::Rgb(1, 2, 3)).as_tui_colour(), Colour::Rgb(1, 2, 3));
    assert_eq!(Status::Online.message(), "online");
    assert_eq!(Status::Awaiting.message(), "...  ");
    assert_eq!(Status::default(), Status::Awaiting);
}

#[test]
fn secrets_expose_their_value() {
    let account = Account {
        username: String::from("u"),
        user_id: String::from("1"),
        client_id: Secret::new(String::from("c")),
        client_secret: Secret::new(String::from("s")),
        user_access_token: Secret::new(String::from("token")),
        refresh_token: Secret::new(String::from("r")),
        redirect_url_port: 80,
    };
    assert_eq!(account.access_token().expose_value(), "token");
}
