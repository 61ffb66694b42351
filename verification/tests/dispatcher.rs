use skipd::command::Command;
use skipd::dispatch::{settle_open, settle_strike, Dispatcher};
use skipd::error::DispatchError;
use skipd::keys::KeyCode;

fn holds(was_open: bool, is_open: bool, command: Command, r: &Result<(), DispatchError>) -> bool {
    if was_open && !is_open {
        return false;
    }
    match r {
        Ok(()) => is_open,
        Err(DispatchError::InjectionInitError { .. }) => !was_open && !is_open,
        Err(DispatchError::InjectionError { key, .. }) => is_open && *key == command.key_code(),
        Err(DispatchError::InvalidCommand { .. }) => false,
    }
}

#[test]
fn new_dispatcher_has_no_channel() {
    let d = Dispatcher::new();
    assert!(!d.is_open());
}

#[test]
fn settle_open_keeps_the_cause() {
    let r = settle_open(Err(enigo::NewConError::EstablishCon("no successful connection")));
    match r {
        Ok(_) => panic!("a failed open gave a channel"),
        Err(e) => assert_eq!(
            e,
            DispatchError::InjectionInitError {
                cause: enigo::NewConError::EstablishCon("no successful connection")
            }
        ),
    }
    let r = settle_open(Err(enigo::NewConError::NoEmptyKeycodes));
    match r {
        Ok(_) => panic!("a failed open gave a channel"),
        Err(e) => assert_eq!(
            e,
            DispatchError::InjectionInitError { cause: enigo::NewConError::NoEmptyKeycodes }
        ),
    }
}

#[test]
fn toggle_play_strikes_space_and_succeeds() {
    let command = Command::decode("TogglePlay").unwrap();
    let key = command.key_code();
    assert_eq!(key, KeyCode::Space);
    assert_eq!(settle_strike(key, Ok(())), Ok(()));
}

#[test]
fn settle_strike_succeeds_for_every_key() {
    let keys = [
        KeyCode::LeftArrow,
        KeyCode::RightArrow,
        KeyCode::Space,
        KeyCode::VolumeUp,
        KeyCode::VolumeDown,
        KeyCode::VolumeMute,
    ];
    for key in keys {
        assert_eq!(settle_strike(key, Ok(())), Ok(()));
    }
}

#[test]
fn settle_strike_keeps_key_and_cause() {
    assert_eq!(
        settle_strike(KeyCode::VolumeUp, Err(enigo::InputError::Simulate("refused"))),
        Err(DispatchError::InjectionError {
            key: KeyCode::VolumeUp,
            cause: enigo::InputError::Simulate("refused"),
        })
    );
    assert_eq!(
        settle_strike(KeyCode::LeftArrow, Err(enigo::InputError::Mapping("full".to_string()))),
        Err(DispatchError::InjectionError {
            key: KeyCode::LeftArrow,
            cause: enigo::InputError::Mapping("full".to_string()),
        })
    );
}

#[test]
fn unknown_raw_value_is_refused_and_nothing_is_opened() {
    let mut d = Dispatcher::new();
    let r = d.dispatch_raw("Unknown");
    assert_eq!(r, Err(DispatchError::InvalidCommand { raw: "Unknown".to_string() }));
    assert!(!d.is_open());
    let r = d.dispatch_raw("");
    assert_eq!(r, Err(DispatchError::InvalidCommand { raw: String::new() }));
    assert!(!d.is_open());
}

#[test]
fn dispatch_result_goes_with_the_channel_state() {
    let mut d = Dispatcher::new();
    let was_open = d.is_open();
    let r = d.dispatch(Command::VolumeMute);
    assert!(holds(was_open, d.is_open(), Command::VolumeMute, &r));
}

#[test]
fn failed_open_leaves_the_next_call_free_to_try_again() {
    let mut d = Dispatcher::new();
    let first = d.dispatch(Command::VolumeMute);
    if let Err(DispatchError::InjectionInitError { .. }) = first {
        assert!(!d.is_open());
        let was_open = d.is_open();
        let second = d.dispatch(Command::VolumeMute);
        assert!(holds(was_open, d.is_open(), Command::VolumeMute, &second));
        match second {
            Err(DispatchError::InjectionInitError { .. }) => assert!(!d.is_open()),
            _ => assert!(d.is_open()),
        }
    } else {
        assert!(d.is_open());
        let second = d.dispatch(Command::VolumeMute);
        assert!(d.is_open());
        assert!(!matches!(second, Err(DispatchError::InjectionInitError { .. })));
    }
}

#[test]
fn dispatch_raw_of_a_tag_behaves_as_dispatch() {
    let mut d = Dispatcher::new();
    let was_open = d.is_open();
    let r = d.dispatch_raw("VolumeMute");
    assert!(holds(was_open, d.is_open(), Command::VolumeMute, &r));
    assert!(!matches!(r, Err(DispatchError::InvalidCommand { .. })));
}
