use dsh_desktop::prefs::{CloseAction, Prefs};

#[test]
fn close_action_defaults_to_ask() {
    assert_eq!(CloseAction::default(), CloseAction::Ask);
    assert_eq!(Prefs::default().close_action, CloseAction::Ask);
}

#[test]
fn close_action_names_round_trip() {
    for a in [CloseAction::Ask, CloseAction::Tray, CloseAction::Exit] {
        assert_eq!(CloseAction::from_name(a.name()), Some(a));
        assert_eq!(CloseAction::from_choice(a.name()), a);
    }
    assert_eq!(CloseAction::Ask.name(), "ask");
    assert_eq!(CloseAction::Tray.name(), "tray");
    assert_eq!(CloseAction::Exit.name(), "exit");
}

#[test]
fn unknown_names_and_choices() {
    assert_eq!(CloseAction::from_name("Exit"), None);
    assert_eq!(CloseAction::from_name(""), None);
    assert_eq!(CloseAction::from_choice("minimize"), CloseAction::Ask);
    assert_eq!(CloseAction::from_choice(""), CloseAction::Ask);
}
