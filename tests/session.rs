use xfake::input::{button_in_range, keycode_in_range, ButtonState, InputEvent, MAX_BUTTON};
use xfake::request::{contains_nul, decimal_string, parse_request, Error, Request};
use xfake::session::{invoke, run, Backend, Command, Reply, Session};

/// A display server stand-in that counts and records every call.
struct FakeServer {
    reachable: bool,
    keysyms: Vec<(String, u64)>,
    keycodes: Vec<(u64, u8)>,
    range: (i32, i32),
    names: Vec<(i32, String)>,
    opens: u32,
    closes: u32,
    flushes: u32,
    calls: Vec<String>,
    lookups: Vec<i32>,
    events: Vec<InputEvent>,
    printed: Vec<String>,
}

impl FakeServer {
    fn new() -> FakeServer {
        FakeServer {
            reachable: true,
            keysyms: vec![("a".to_string(), 0x61), ("Return".to_string(), 0xff0d), ("F35".to_string(), 0xffe0)],
            keycodes: vec![(0x61, 38), (0xff0d, 36), (0xffe0, 0)],
            range: (8, 255),
            names: vec![],
            opens: 0,
            closes: 0,
            flushes: 0,
            calls: vec![],
            lookups: vec![],
            events: vec![],
            printed: vec![],
        }
    }
}

impl Backend for FakeServer {
    fn perform(&mut self, command: &Command) -> Reply {
        self.calls.push(format!("{:?}", command));
        match command {
            Command::Open => {
                self.opens += 1;
                Reply::Opened(self.reachable)
            }
            Command::ResolveKeysym(name) => {
                let found = self.keysyms.iter().find(|(n, _)| n == name).map(|(_, k)| *k);
                Reply::Keysym(found.unwrap_or(0))
            }
            Command::ResolveKeycode(keysym) => {
                let found = self.keycodes.iter().find(|(k, _)| k == keysym).map(|(_, c)| *c);
                Reply::Keycode(found.unwrap_or(0))
            }
            Command::QueryKeycodeRange => Reply::KeycodeRange(self.range.0, self.range.1),
            Command::LookupName(code) => {
                self.lookups.push(*code);
                Reply::Name(self.names.iter().find(|(c, _)| c == code).map(|(_, n)| n.clone()))
            }
            Command::Print(line) => {
                self.printed.push(line.clone());
                Reply::Done
            }
            Command::Synthesize(event) => {
                self.events.push(*event);
                Reply::Done
            }
            Command::Flush => {
                self.flushes += 1;
                Reply::Done
            }
            Command::Close => {
                self.closes += 1;
                Reply::Done
            }
            Command::Finish => Reply::Done,
        }
    }
}

/// Runs `request` to its end; the fake server never answers out of turn.
fn finish(request: Request, server: &mut FakeServer) -> Session {
    let (session, refused) = run(request, server);
    assert!(refused.is_none());
    assert!(session.is_finished());
    session
}

/// Validates the options and, where they are valid, runs the request.
fn validate_and_run(
    key: Option<&str>,
    mouse: Option<u32>,
    release: bool,
    dump: bool,
    server: &mut FakeServer,
) -> Result<(), Error> {
    let (session, refused) = invoke(key.map(|k| k.to_string()), mouse, release, dump, server)?;
    assert!(refused.is_none());
    session.into_outcome()
}

/// A backend that answers every command with `Done`.
struct Mute;

impl Backend for Mute {
    fn perform(&mut self, _command: &Command) -> Reply {
        Reply::Done
    }
}

fn key(name: &str, state: ButtonState) -> Request {
    Request::Key { name: name.to_string(), state }
}

#[test]
fn flag_values() {
    assert_eq!(ButtonState::Pressed.flag(), 1);
    assert_eq!(ButtonState::Released.flag(), 0);
    assert_eq!(ButtonState::from_release(true), ButtonState::Released);
    assert_eq!(ButtonState::from_release(false), ButtonState::Pressed);
}

#[test]
fn range_checks() {
    assert!(button_in_range(0));
    assert!(button_in_range(MAX_BUTTON));
    assert!(!button_in_range(11));
    assert!(!button_in_range(u32::MAX));
    assert!(keycode_in_range(8, 8, 255));
    assert!(keycode_in_range(255, 8, 255));
    assert!(!keycode_in_range(7, 8, 255));
    assert!(!keycode_in_range(0, 8, 255));
    assert!(!keycode_in_range(10, 20, 5));
}

#[test]
fn parse_single_actions() {
    match parse_request(Some("a".to_string()), None, false, false) {
        Ok(Request::Key { name, state }) => {
            assert_eq!(name, "a");
            assert_eq!(state, ButtonState::Pressed);
        }
        other => panic!("unexpected {:?}", other),
    }
    assert!(matches!(
        parse_request(None, Some(3), true, false),
        Ok(Request::Button { button: 3, state: ButtonState::Released })
    ));
    assert!(matches!(parse_request(None, None, false, true), Ok(Request::Dump)));
    assert!(matches!(parse_request(None, None, true, true), Ok(Request::Dump)));
}

#[test]
fn parse_rejects_conflicts_before_opening() {
    let cases: Vec<(Option<&str>, Option<u32>, bool, bool)> = vec![
        (Some("a"), Some(1), false, false),
        (None, None, false, false),
        (None, None, true, false),
        (Some("a"), None, false, true),
        (None, Some(1), false, true),
        (Some("a"), Some(1), false, true),
    ];
    for (key, mouse, release, dump) in cases {
        let mut server = FakeServer::new();
        let result = validate_and_run(key, mouse, release, dump, &mut server);
        assert!(matches!(result, Err(Error::Argument)));
        assert_eq!((server.opens, server.closes), (0, 0));
        assert!(server.events.is_empty());
    }
    let mut server = FakeServer::new();
    assert!(matches!(validate_and_run(Some("a"), None, true, false, &mut server), Ok(())));
    assert_eq!((server.opens, server.closes), (1, 1));
    assert_eq!(server.events, vec![InputEvent::Key { keycode: 38, state: ButtonState::Released }]);
}

#[test]
fn error_messages() {
    assert_eq!(Error::Connection.message(), "Could not acquire XDisplay");
    assert_eq!(Error::KeyNotFound("Foo".to_string()).message(), "Key 'Foo' not found");
    assert_eq!(
        Error::KeyNameHasNul("a\0".to_string()).message(),
        "Key name 'a\0' holds a NUL character"
    );
    assert_eq!(
        Error::KeycodeNotFound("F35".to_string()).message(),
        "Keycode for keysym of 'F35' not found"
    );
    assert_eq!(Error::ButtonOutOfRange(11).message(), "Mouse button '11' out of range");
    assert_eq!(
        Error::ButtonOutOfRange(u32::MAX).message(),
        "Mouse button '4294967295' out of range"
    );
    assert_eq!(decimal_string(0), "0");
    assert_eq!(decimal_string(1000), "1000");
}

#[test]
fn single_key_press_flushes_then_closes() {
    let mut server = FakeServer::new();
    let s = finish(key("Return", ButtonState::Pressed), &mut server);
    assert!(matches!(s.into_outcome(), Ok(())));
    assert_eq!(server.events, vec![InputEvent::Key { keycode: 36, state: ButtonState::Pressed }]);
    assert_eq!(server.flushes, 1);
    assert_eq!((server.opens, server.closes), (1, 1));
    assert_eq!(
        server.calls,
        vec![
            "Open",
            "ResolveKeysym(\"Return\")",
            "ResolveKeycode(65293)",
            "QueryKeycodeRange",
            "Synthesize(Key { keycode: 36, state: Pressed })",
            "Flush",
            "Close",
        ]
    );
}

#[test]
fn unknown_key_makes_no_further_lookup() {
    let mut server = FakeServer::new();
    let s = finish(key("NotARealKeyName", ButtonState::Released), &mut server);
    assert!(matches!(s.into_outcome(), Err(Error::KeyNotFound(_))));
    assert_eq!(server.calls, vec!["Open", "ResolveKeysym(\"NotARealKeyName\")", "Close"]);
}

#[test]
fn button_calls_in_order() {
    let mut server = FakeServer::new();
    let s = finish(Request::Button { button: 2, state: ButtonState::Released }, &mut server);
    assert!(matches!(s.into_outcome(), Ok(())));
    assert_eq!(
        server.calls,
        vec!["Open", "Synthesize(Button { button: 2, state: Released })", "Flush", "Close"]
    );
    let mut server = FakeServer::new();
    let s = finish(Request::Button { button: 11, state: ButtonState::Released }, &mut server);
    assert!(matches!(s.into_outcome(), Err(Error::ButtonOutOfRange(11))));
    assert_eq!(server.calls, vec!["Open", "Close"]);
}

#[test]
fn refused_reply_is_handed_back() {
    let (s, refused) = run(Request::Dump, &mut Mute);
    assert!(matches!(refused, Some(Reply::Done)));
    assert!(!s.is_finished());
    assert!(matches!(s.pending(), Command::Open));
}

#[test]
fn press_then_release_sends_two_events() {
    let mut server = FakeServer::new();
    let pressed = finish(key("a", ButtonState::Pressed), &mut server);
    let released = finish(key("a", ButtonState::Released), &mut server);
    assert!(pressed.is_finished() && released.is_finished());
    assert!(matches!(pressed.into_outcome(), Ok(())));
    assert!(matches!(released.into_outcome(), Ok(())));
    assert_eq!(
        server.events,
        vec![
            InputEvent::Key { keycode: 38, state: ButtonState::Pressed },
            InputEvent::Key { keycode: 38, state: ButtonState::Released },
        ]
    );
    assert_eq!(server.flushes, 2);
    assert_eq!((server.opens, server.closes), (2, 2));
}

#[test]
fn unknown_key_name_fails() {
    let mut server = FakeServer::new();
    let s = finish(key("NotARealKeyName", ButtonState::Pressed), &mut server);
    match s.into_outcome() {
        Err(Error::KeyNotFound(name)) => assert_eq!(name, "NotARealKeyName"),
        other => panic!("unexpected {:?}", other),
    }
    assert!(server.events.is_empty());
    assert_eq!(server.flushes, 0);
    assert_eq!((server.opens, server.closes), (1, 1));
}

#[test]
fn key_name_with_nul_fails_before_lookup() {
    let mut server = FakeServer::new();
    let s = finish(key("a\0b", ButtonState::Pressed), &mut server);
    match s.into_outcome() {
        Err(Error::KeyNameHasNul(name)) => assert_eq!(name, "a\0b"),
        other => panic!("unexpected {:?}", other),
    }
    assert_eq!(server.calls, vec!["Open", "Close"]);
    assert!(server.events.is_empty());
    assert_eq!(server.flushes, 0);
}

#[test]
fn nul_detection() {
    assert!(contains_nul("\0"));
    assert!(contains_nul("ab\0"));
    assert!(!contains_nul(""));
    assert!(!contains_nul("Return"));
}

#[test]
fn dump_calls_in_order() {
    let mut server = FakeServer::new();
    server.range = (8, 9);
    server.names = vec![(9, "Escape".to_string())];
    let s = finish(Request::Dump, &mut server);
    assert!(matches!(s.into_outcome(), Ok(())));
    assert_eq!(
        server.calls,
        vec!["Open", "QueryKeycodeRange", "LookupName(8)", "LookupName(9)", "Print(\"Escape\")", "Close"]
    );
}

#[test]
fn unbound_keysym_fails() {
    let mut server = FakeServer::new();
    let s = finish(key("F35", ButtonState::Pressed), &mut server);
    match s.into_outcome() {
        Err(Error::KeycodeNotFound(name)) => assert_eq!(name, "F35"),
        other => panic!("unexpected {:?}", other),
    }
    assert!(server.events.is_empty());
    assert_eq!((server.opens, server.closes), (1, 1));
}

#[test]
fn keycode_above_range_fails() {
    let mut server = FakeServer::new();
    server.range = (8, 30);
    let s = finish(key("a", ButtonState::Released), &mut server);
    assert!(matches!(s.into_outcome(), Err(Error::KeycodeNotFound(_))));
    assert!(server.events.is_empty());
    assert_eq!((server.opens, server.closes), (1, 1));
}

#[test]
fn buttons_in_range_succeed() {
    for b in 0..=10u32 {
        let mut server = FakeServer::new();
        let s = finish(Request::Button { button: b, state: ButtonState::Pressed }, &mut server);
        assert!(matches!(s.into_outcome(), Ok(())));
        assert_eq!(server.events, vec![InputEvent::Button { button: b, state: ButtonState::Pressed }]);
        assert_eq!(server.flushes, 1);
        assert_eq!((server.opens, server.closes), (1, 1));
    }
}

#[test]
fn button_out_of_range_fails() {
    for b in [11u32, 12, u32::MAX] {
        let mut server = FakeServer::new();
        let s = finish(Request::Button { button: b, state: ButtonState::Released }, &mut server);
        match s.into_outcome() {
            Err(Error::ButtonOutOfRange(got)) => assert_eq!(got, b),
            other => panic!("unexpected {:?}", other),
        }
        assert!(server.events.is_empty());
        assert_eq!(server.flushes, 0);
        assert_eq!((server.opens, server.closes), (1, 1));
    }
}

#[test]
fn dump_prints_named_keycodes_in_order() {
    let mut server = FakeServer::new();
    server.range = (8, 14);
    server.names = vec![
        (9, "Escape".to_string()),
        (10, "1".to_string()),
        (12, "1".to_string()),
        (14, "Tab".to_string()),
        (15, "BackSpace".to_string()),
    ];
    let s = finish(Request::Dump, &mut server);
    assert!(matches!(s.into_outcome(), Ok(())));
    assert_eq!(server.lookups, vec![8, 9, 10, 11, 12, 13, 14]);
    assert_eq!(server.printed, vec!["Escape", "1", "1", "Tab"]);
    assert!(server.events.is_empty());
    assert_eq!((server.opens, server.closes), (1, 1));
}

#[test]
fn dump_of_single_and_empty_interval() {
    let mut server = FakeServer::new();
    server.range = (20, 20);
    server.names = vec![(20, "q".to_string())];
    let s = finish(Request::Dump, &mut server);
    assert!(matches!(s.into_outcome(), Ok(())));
    assert_eq!(server.printed, vec!["q"]);

    let mut server = FakeServer::new();
    server.range = (20, 19);
    let s = finish(Request::Dump, &mut server);
    assert!(matches!(s.into_outcome(), Ok(())));
    assert!(server.lookups.is_empty());
    assert!(server.printed.is_empty());
    assert_eq!((server.opens, server.closes), (1, 1));
}

#[test]
fn unreachable_server_is_never_closed() {
    for request in [key("a", ButtonState::Pressed), Request::Button { button: 1, state: ButtonState::Pressed }, Request::Dump] {
        let mut server = FakeServer::new();
        server.reachable = false;
        let s = finish(request, &mut server);
        assert!(s.is_finished());
        assert!(matches!(s.into_outcome(), Err(Error::Connection)));
        assert!(server.events.is_empty());
        assert_eq!((server.opens, server.closes), (1, 0));
    }
}

#[test]
fn session_steps_through_a_key_press() {
    let mut s = Session::new(key("Return", ButtonState::Pressed));
    assert!(matches!(s.pending(), Command::Open));
    assert!(matches!(s.step(Reply::Opened(true)), Command::ResolveKeysym(ref n) if n == "Return"));
    assert!(matches!(s.step(Reply::Keysym(0xff0d)), Command::ResolveKeycode(0xff0d)));
    assert!(matches!(s.step(Reply::Keycode(36)), Command::QueryKeycodeRange));
    assert!(matches!(
        s.step(Reply::KeycodeRange(8, 255)),
        Command::Synthesize(InputEvent::Key { keycode: 36, state: ButtonState::Pressed })
    ));
    assert!(matches!(s.step(Reply::Done), Command::Flush));
    assert!(matches!(s.step(Reply::Done), Command::Close));
    assert!(!s.is_finished());
    assert!(matches!(s.step(Reply::Done), Command::Finish));
    assert!(s.is_finished());
    assert!(matches!(s.outcome(), Ok(())));
}

#[test]
fn reply_of_wrong_kind_changes_nothing() {
    let mut s = Session::new(Request::Dump);
    assert!(!s.accepts(&Reply::Done));
    assert!(matches!(s.step(Reply::Done), Command::Open));
    assert!(matches!(s.step(Reply::Opened(true)), Command::QueryKeycodeRange));
    assert!(!s.accepts(&Reply::Keysym(1)));
    assert!(matches!(s.step(Reply::Keysym(1)), Command::QueryKeycodeRange));
    assert!(matches!(s.step(Reply::KeycodeRange(8, 9)), Command::LookupName(8)));
    assert!(matches!(s.step(Reply::Name(Some("x".to_string()))), Command::Print(ref l) if l == "x"));
    assert!(matches!(s.step(Reply::Done), Command::LookupName(9)));
    assert!(matches!(s.step(Reply::Name(None)), Command::Close));
    assert!(matches!(s.step(Reply::Done), Command::Finish));
    assert!(!s.accepts(&Reply::Done));
}
