//! One invocation as a state machine over the native display calls.
//!
//! A driver asks `pending` for the next native call, performs it, and hands
//! its result to `step`, until the command is `Finish`. The session keeps a
//! ghost `Trace` of every call performed, and its invariant states what the
//! finished invocation did in terms of that trace.
use vstd::prelude::*;
use crate::input::{button_in_range, keycode_in_range, ButtonState, InputEvent, MAX_BUTTON, NO_SYMBOL};
use crate::request::{actions_asked, contains_nul, has_nul, parse_request, Error, Request};

verus! {

/// The next native call to perform.
#[derive(Debug)]
pub enum Command {
    /// Open the connection; answered by `Reply::Opened`.
    Open,
    /// Look a symbol name up in the symbol table; answered by `Reply::Keysym`.
    ResolveKeysym(String),
    /// Find the keycode of a keysym in the active keymap; answered by `Reply::Keycode`.
    ResolveKeycode(u64),
    /// Query the valid keycode interval; answered by `Reply::KeycodeRange`.
    QueryKeycodeRange,
    /// Name the canonical keysym of a keycode; answered by `Reply::Name`.
    LookupName(i32),
    /// Emit one line of keymap output; answered by `Reply::Done`.
    Print(String),
    /// Synthesize one input event; answered by `Reply::Done`.
    Synthesize(InputEvent),
    /// Flush the output queue to the server; answered by `Reply::Done`.
    Flush,
    /// Release the connection; answered by `Reply::Done`.
    Close,
    /// The invocation is over: read its outcome.
    Finish,
}

/// The result of a performed native call.
#[derive(Debug)]
pub enum Reply {
    Done,
    /// Whether the connection was opened.
    Opened(bool),
    /// The keysym found for a name, `NO_SYMBOL` when there is none.
    Keysym(u64),
    Keycode(u8),
    /// The inclusive interval `[min, max]` of valid keycodes.
    KeycodeRange(i32, i32),
    /// The name of a keycode's keysym, if it has a readable one.
    Name(Option<String>),
}

/// What an invocation has done so far, call by call.
pub struct Trace {
    pub opens: nat,
    pub closes: nat,
    /// Whether an open succeeded.
    pub connected: bool,
    /// Every call performed, in order.
    pub log: Seq<Command>,
    /// The events synthesized, in order.
    pub events: Seq<InputEvent>,
    pub keysym: Option<u64>,
    pub keycode: Option<u8>,
    pub range: Option<(i32, i32)>,
    /// The keycodes whose names were looked up, in order.
    pub lookups: Seq<i32>,
    /// The names those lookups gave, in the same order.
    pub names: Seq<Option<Seq<char>>>,
    /// The lines printed, in order.
    pub printed: Seq<Seq<char>>,
}

impl Trace {
    pub open spec fn fresh() -> Trace {
        Trace {
            opens: 0,
            closes: 0,
            connected: false,
            log: Seq::empty(),
            events: Seq::empty(),
            keysym: None,
            keycode: None,
            range: None,
            lookups: Seq::empty(),
            names: Seq::empty(),
            printed: Seq::empty(),
        }
    }

    /// The trace after `cmd` was performed and answered by `reply`.
    pub open spec fn record(self, cmd: Command, reply: Reply) -> Trace {
        let t = Trace { log: self.log.push(cmd), ..self };
        match cmd {
            Command::Open => Trace {
                opens: t.opens + 1,
                connected: reply == Reply::Opened(true),
                ..t
            },
            Command::ResolveKeysym(_) => Trace { keysym: Some(reply->Keysym_0), ..t },
            Command::ResolveKeycode(_) => Trace { keycode: Some(reply->Keycode_0), ..t },
            Command::QueryKeycodeRange => Trace {
                range: Some((reply->KeycodeRange_0, reply->KeycodeRange_1)),
                ..t
            },
            Command::LookupName(k) => Trace {
                lookups: t.lookups.push(k),
                names: t.names.push(name_view(reply->Name_0)),
                ..t
            },
            Command::Print(line) => Trace { printed: t.printed.push(line@), ..t },
            Command::Synthesize(ev) => Trace { events: t.events.push(ev), ..t },
            Command::Flush => t,
            Command::Close => Trace { closes: t.closes + 1, ..t },
            Command::Finish => self,
        }
    }

    /// A key's keysym was found, its keycode lies in the keycode interval,
    /// and that keycode is `kc`.
    pub open spec fn key_bound(self, kc: u8) -> bool {
        &&& self.keysym matches Some(ks) && ks != NO_SYMBOL
        &&& self.keycode == Some(kc)
        &&& self.range matches Some((min, max)) && min <= kc as int <= max
    }

    /// The lookups are the keycodes `min, min + 1, ...` in order, one name each.
    pub open spec fn ascending_from(self, min: int) -> bool {
        &&& self.names.len() == self.lookups.len()
        &&& forall|i: int| 0 <= i < self.lookups.len() ==> self.lookups[i] == min + i
    }
}

pub open spec fn name_view(n: Option<String>) -> Option<Seq<char>> {
    match n {
        Some(s) => Some(s@),
        None => None,
    }
}

/// The names present among `names`, in order.
pub open spec fn named(names: Seq<Option<Seq<char>>>) -> Seq<Seq<char>>
    decreases names.len(),
{
    if names.len() == 0 {
        Seq::empty()
    } else {
        let rest = named(names.drop_last());
        match names.last() {
            Some(n) => rest.push(n),
            None => rest,
        }
    }
}

/// The calls of a dump so far: the open, the interval query, then name
/// lookups and prints only.
pub open spec fn dump_prefix(log: Seq<Command>) -> bool {
    &&& log.len() >= 2
    &&& log[0] == Command::Open
    &&& log[1] == Command::QueryKeycodeRange
    &&& forall|i: int| 2 <= i < log.len() ==> (#[trigger] log[i] is LookupName || log[i] is Print)
}

/// The number of keycodes in the inclusive interval `[min, max]`.
pub open spec fn interval_len(min: int, max: int) -> int {
    if min <= max { max - min + 1 } else { 0 }
}

/// Where an invocation stands.
#[derive(Debug)]
pub enum Phase {
    Opening { request: Request },
    Keysym { name: String, state: ButtonState },
    Keycode { name: String, state: ButtonState, keysym: u64 },
    KeyRange { name: String, state: ButtonState, keycode: u8 },
    DumpRange,
    DumpName { current: i32, max: i32 },
    DumpPrint { current: i32, max: i32, name: String },
    Synthesizing { event: InputEvent },
    Flushing,
    Closing,
    Finished,
}

impl Phase {
    pub open spec fn command(self) -> Command {
        match self {
            Phase::Opening { .. } => Command::Open,
            Phase::Keysym { name, .. } => Command::ResolveKeysym(name),
            Phase::Keycode { keysym, .. } => Command::ResolveKeycode(keysym),
            Phase::KeyRange { .. } => Command::QueryKeycodeRange,
            Phase::DumpRange => Command::QueryKeycodeRange,
            Phase::DumpName { current, .. } => Command::LookupName(current),
            Phase::DumpPrint { name, .. } => Command::Print(name),
            Phase::Synthesizing { event } => Command::Synthesize(event),
            Phase::Flushing => Command::Flush,
            Phase::Closing => Command::Close,
            Phase::Finished => Command::Finish,
        }
    }

    pub open spec fn accepts(self, reply: Reply) -> bool {
        match self {
            Phase::Opening { .. } => reply is Opened,
            Phase::Keysym { .. } => reply is Keysym,
            Phase::Keycode { .. } => reply is Keycode,
            Phase::KeyRange { .. } => reply is KeycodeRange,
            Phase::DumpRange => reply is KeycodeRange,
            Phase::DumpName { .. } => reply is Name,
            Phase::DumpPrint { .. } => reply is Done,
            Phase::Synthesizing { .. } => reply is Done,
            Phase::Flushing => reply is Done,
            Phase::Closing => reply is Done,
            Phase::Finished => false,
        }
    }

    /// A bound on the number of calls still to come.
    pub open spec fn remaining(self) -> int {
        match self {
            Phase::Opening { .. } => 0x4_0000_0001,
            Phase::DumpRange => 0x4_0000_0000,
            Phase::Keysym { .. } => 6,
            Phase::Keycode { .. } => 5,
            Phase::KeyRange { .. } => 4,
            Phase::DumpName { current, max } => 2 * (max - current) + 3,
            Phase::DumpPrint { current, max, .. } => 2 * (max - current) + 2,
            Phase::Synthesizing { .. } => 3,
            Phase::Flushing => 2,
            Phase::Closing => 1,
            Phase::Finished => 0,
        }
    }
}

/// The calls a key request for `name` makes before releasing the
/// connection, given what its lookups gave: none for a name that holds a NUL
/// character; else the keysym lookup; then, for a
/// keysym found, the keycode lookup and the interval query; then, for a
/// keycode in the interval, the event and a flush.
pub open spec fn key_calls(t: Trace, name: String, state: ButtonState) -> Seq<Command> {
    let ks = t.keysym->Some_0;
    let kc = t.keycode->Some_0;
    if has_nul(name@) {
        seq![Command::Open]
    } else if ks == NO_SYMBOL {
        seq![Command::Open, Command::ResolveKeysym(name)]
    } else if t.key_bound(kc) {
        seq![
            Command::Open,
            Command::ResolveKeysym(name),
            Command::ResolveKeycode(ks),
            Command::QueryKeycodeRange,
            Command::Synthesize(InputEvent::Key { keycode: kc, state }),
            Command::Flush,
        ]
    } else {
        seq![
            Command::Open,
            Command::ResolveKeysym(name),
            Command::ResolveKeycode(ks),
            Command::QueryKeycodeRange,
        ]
    }
}

/// The calls a button request makes before releasing the connection: the
/// event and a flush for a button in range, nothing for one out of range.
pub open spec fn button_calls(button: u32, state: ButtonState) -> Seq<Command> {
    if button <= MAX_BUTTON {
        seq![Command::Open, Command::Synthesize(InputEvent::Button { button, state }), Command::Flush]
    } else {
        seq![Command::Open]
    }
}

/// What a finished key request ends in, given what its lookups gave.
pub open spec fn key_outcome(t: Trace, name: String) -> Result<(), Error> {
    if has_nul(name@) {
        Err(Error::KeyNameHasNul(name))
    } else if t.keysym == Some(NO_SYMBOL) {
        Err(Error::KeyNotFound(name))
    } else if t.key_bound(t.keycode->Some_0) {
        Ok(())
    } else {
        Err(Error::KeycodeNotFound(name))
    }
}

/// The events a finished key request synthesized, given what its lookups gave.
pub open spec fn key_events(t: Trace, state: ButtonState) -> Seq<InputEvent> {
    if t.keysym != Some(NO_SYMBOL) && t.key_bound(t.keycode->Some_0) {
        seq![InputEvent::Key { keycode: t.keycode->Some_0, state }]
    } else {
        Seq::empty()
    }
}

/// The command that follows a successful open, for `request`.
pub open spec fn opened_command(request: Request) -> Command {
    match request {
        Request::Key { name, .. } => if has_nul(name@) {
            Command::Close
        } else {
            Command::ResolveKeysym(name)
        },
        Request::Button { button, state } => if button <= MAX_BUTTON {
            Command::Synthesize(InputEvent::Button { button, state })
        } else {
            Command::Close
        },
        Request::Dump => Command::QueryKeycodeRange,
    }
}

/// The command of a dump that follows the name lookup of `keycode`, in an
/// interval that ends at `max`.
pub open spec fn next_lookup(keycode: i32, max: i32) -> Command {
    if keycode == max {
        Command::Close
    } else {
        Command::LookupName((keycode + 1) as i32)
    }
}

/// One invocation: its request, where it stands, and what it has done.
pub struct Session {
    phase: Phase,
    outcome: Result<(), Error>,
    request: Ghost<Request>,
    trace: Ghost<Trace>,
}

impl Session {
    pub closed spec fn request(self) -> Request {
        self.request@
    }

    pub closed spec fn trace(self) -> Trace {
        self.trace@
    }

    pub closed spec fn phase(self) -> Phase {
        self.phase
    }

    pub closed spec fn outcome_spec(self) -> Result<(), Error> {
        self.outcome
    }

    pub open spec fn pending_spec(self) -> Command {
        self.phase().command()
    }

    pub open spec fn accepts_spec(self, reply: Reply) -> bool {
        self.phase().accepts(reply)
    }

    pub open spec fn finished(self) -> bool {
        self.phase() is Finished
    }

    pub open spec fn remaining(self) -> int {
        self.phase().remaining()
    }

    spec fn key_wf(self, name: String, state: ButtonState) -> bool {
        let t = self.trace@;
        match self.phase {
            Phase::Keysym { name: n, state: s } => {
                &&& n == name && s == state
                &&& !has_nul(name@)
                &&& t.keysym is None && t.keycode is None && t.range is None
                &&& t.log == seq![Command::Open]
                &&& t.events == Seq::<InputEvent>::empty()
                &&& self.outcome == Ok::<(), Error>(())
            },
            Phase::Keycode { name: n, state: s, keysym } => {
                &&& n == name && s == state
                &&& !has_nul(name@)
                &&& t.keysym == Some(keysym) && keysym != NO_SYMBOL
                &&& t.keycode is None && t.range is None
                &&& t.log == seq![Command::Open, Command::ResolveKeysym(name)]
                &&& t.events == Seq::<InputEvent>::empty()
                &&& self.outcome == Ok::<(), Error>(())
            },
            Phase::KeyRange { name: n, state: s, keycode } => {
                &&& n == name && s == state
                &&& !has_nul(name@)
                &&& t.keysym matches Some(ks) && ks != NO_SYMBOL
                &&& t.keycode == Some(keycode)
                &&& t.range is None
                &&& t.log == seq![
                    Command::Open,
                    Command::ResolveKeysym(name),
                    Command::ResolveKeycode(t.keysym->Some_0),
                ]
                &&& t.events == Seq::<InputEvent>::empty()
                &&& self.outcome == Ok::<(), Error>(())
            },
            Phase::Synthesizing { event } => {
                &&& t.key_bound(t.keycode->Some_0)
                &&& !has_nul(name@)
                &&& event == (InputEvent::Key { keycode: t.keycode->Some_0, state })
                &&& t.log == seq![
                    Command::Open,
                    Command::ResolveKeysym(name),
                    Command::ResolveKeycode(t.keysym->Some_0),
                    Command::QueryKeycodeRange,
                ]
                &&& t.events == Seq::<InputEvent>::empty()
                &&& self.outcome == Ok::<(), Error>(())
            },
            Phase::Flushing => {
                &&& t.key_bound(t.keycode->Some_0)
                &&& !has_nul(name@)
                &&& t.events == key_events(t, state)
                &&& t.log == seq![
                    Command::Open,
                    Command::ResolveKeysym(name),
                    Command::ResolveKeycode(t.keysym->Some_0),
                    Command::QueryKeycodeRange,
                    Command::Synthesize(InputEvent::Key { keycode: t.keycode->Some_0, state }),
                ]
                &&& self.outcome == Ok::<(), Error>(())
            },
            Phase::Closing | Phase::Finished => {
                &&& has_nul(name@) <==> t.keysym is None
                &&& t.keysym is None ==> t.keycode is None && t.range is None
                &&& t.keysym is Some && t.keysym != Some(NO_SYMBOL) ==> t.keycode is Some && t.range is Some
                &&& t.keysym == Some(NO_SYMBOL) ==> t.keycode is None && t.range is None
                &&& t.log == if self.phase is Closing {
                    key_calls(t, name, state)
                } else {
                    key_calls(t, name, state).push(Command::Close)
                }
                &&& self.outcome == key_outcome(t, name)
                &&& t.events == key_events(t, state)
            },
            _ => false,
        }
    }

    spec fn button_wf(self, button: u32, state: ButtonState) -> bool {
        let t = self.trace@;
        let ev = InputEvent::Button { button, state };
        match self.phase {
            Phase::Synthesizing { event } => {
                &&& button <= MAX_BUTTON
                &&& event == ev
                &&& t.range is None
                &&& t.log == seq![Command::Open]
                &&& t.events == Seq::<InputEvent>::empty()
                &&& self.outcome == Ok::<(), Error>(())
            },
            Phase::Flushing => {
                &&& button <= MAX_BUTTON
                &&& t.events == seq![ev]
                &&& t.range is None
                &&& t.log == seq![Command::Open, Command::Synthesize(ev)]
                &&& self.outcome == Ok::<(), Error>(())
            },
            Phase::Closing | Phase::Finished => t.range is None && t.log == (if self.phase is Closing {
                button_calls(button, state)
            } else {
                button_calls(button, state).push(Command::Close)
            }) && if button <= MAX_BUTTON {
                &&& t.events == seq![ev]
                &&& self.outcome == Ok::<(), Error>(())
            } else {
                &&& t.events == Seq::<InputEvent>::empty()
                &&& self.outcome == Err::<(), Error>(Error::ButtonOutOfRange(button))
            },
            _ => false,
        }
    }

    spec fn dump_wf(self) -> bool {
        let t = self.trace@;
        &&& t.events == Seq::<InputEvent>::empty()
        &&& self.outcome == Ok::<(), Error>(())
        &&& match self.phase {
            Phase::DumpRange => {
                &&& t.log == seq![Command::Open]
                &&& t.range is None
                &&& t.lookups.len() == 0
                &&& t.names == Seq::<Option<Seq<char>>>::empty()
                &&& t.printed == Seq::<Seq<char>>::empty()
            },
            Phase::DumpName { current, max } => {
                &&& t.range matches Some((min, mx)) && mx == max && min <= current <= max
                    && t.lookups.len() == current - min && t.ascending_from(min as int)
                &&& t.printed == named(t.names)
                &&& dump_prefix(t.log)
            },
            Phase::DumpPrint { current, max, name } => {
                &&& t.range matches Some((min, mx)) && mx == max && min <= current <= max
                    && t.lookups.len() == current - min + 1 && t.ascending_from(min as int)
                &&& t.names.last() == Some(name@)
                &&& t.printed.push(name@) == named(t.names)
                &&& dump_prefix(t.log)
            },
            Phase::Closing | Phase::Finished => {
                &&& t.range matches Some((min, max)) && t.lookups.len() == interval_len(
                    min as int,
                    max as int,
                ) && t.ascending_from(min as int)
                &&& t.printed == named(t.names)
                &&& if self.phase is Closing {
                    dump_prefix(t.log)
                } else {
                    t.log.len() > 0 && t.log.last() == Command::Close && dump_prefix(t.log.drop_last())
                }
            },
            _ => false,
        }
    }

    /// The invariant of a session.
    pub closed spec fn wf(self) -> bool {
        let t = self.trace@;
        &&& t.opens <= 1 && t.closes <= 1
        &&& (self.phase is Opening) == (t.opens == 0)
        &&& self.phase matches Phase::Opening { request } ==> request == self.request@ && t
            == Trace::fresh() && self.outcome == Ok::<(), Error>(())
        &&& !(self.phase is Opening) && !(self.phase is Finished) ==> t.connected && t.closes == 0
        &&& self.phase is Finished ==> t.closes == (if t.connected { 1nat } else { 0nat })
        &&& !(self.phase is Opening) && !t.connected ==> {
            &&& self.phase is Finished
            &&& self.outcome == Err::<(), Error>(Error::Connection)
            &&& t.events == Seq::<InputEvent>::empty()
            &&& t.log == seq![Command::Open]
        }
        &&& !(self.phase is Opening) && t.connected ==> match self.request@ {
            Request::Key { name, state } => self.key_wf(name, state),
            Request::Button { button, state } => self.button_wf(button, state),
            Request::Dump => self.dump_wf(),
        }
        &&& self.phase.remaining() >= 0
    }
}

proof fn lemma_named_push(names: Seq<Option<Seq<char>>>, n: Option<Seq<char>>)
    ensures
        named(names.push(n)) == (match n {
            Some(line) => named(names).push(line),
            None => named(names),
        }),
{
    assert(names.push(n).drop_last() =~= names);
}

/// The phase after the name lookup of `keycode`, of a dump up to `max`, is done.
fn advance(keycode: i32, max: i32) -> (r: Phase)
    requires
        keycode <= max,
    ensures
        r == (if keycode == max { Phase::Closing } else { Phase::DumpName { current: (keycode + 1) as i32, max } }),
{
    if keycode == max {
        Phase::Closing
    } else {
        Phase::DumpName { current: keycode + 1, max }
    }
}

impl Session {
    /// A session for `request` that has done nothing yet: its first command
    /// opens the connection.
    pub fn new(request: Request) -> (s: Session)
        ensures
            s.wf(),
            s.request() == request,
            s.trace() == Trace::fresh(),
            s.pending_spec() == Command::Open,
            s.outcome_spec() is Ok,
    {
        Session {
            phase: Phase::Opening { request },
            outcome: Ok(()),
            request: Ghost(request),
            trace: Ghost(Trace::fresh()),
        }
    }

    /// The native call to perform next.
    pub fn pending(&self) -> (r: Command)
        ensures
            r == self.pending_spec(),
    {
        match &self.phase {
            Phase::Opening { .. } => Command::Open,
            Phase::Keysym { name, .. } => Command::ResolveKeysym(name.clone()),
            Phase::Keycode { keysym, .. } => Command::ResolveKeycode(*keysym),
            Phase::KeyRange { .. } => Command::QueryKeycodeRange,
            Phase::DumpRange => Command::QueryKeycodeRange,
            Phase::DumpName { current, .. } => Command::LookupName(*current),
            Phase::DumpPrint { name, .. } => Command::Print(name.clone()),
            Phase::Synthesizing { event } => Command::Synthesize(*event),
            Phase::Flushing => Command::Flush,
            Phase::Closing => Command::Close,
            Phase::Finished => Command::Finish,
        }
    }

    /// Whether `reply` answers the pending command.
    pub fn accepts(&self, reply: &Reply) -> (r: bool)
        ensures
            r == self.accepts_spec(*reply),
    {
        match &self.phase {
            Phase::Opening { .. } => matches!(reply, Reply::Opened(_)),
            Phase::Keysym { .. } => matches!(reply, Reply::Keysym(_)),
            Phase::Keycode { .. } => matches!(reply, Reply::Keycode(_)),
            Phase::KeyRange { .. } => matches!(reply, Reply::KeycodeRange(_, _)),
            Phase::DumpRange => matches!(reply, Reply::KeycodeRange(_, _)),
            Phase::DumpName { .. } => matches!(reply, Reply::Name(_)),
            Phase::DumpPrint { .. } => matches!(reply, Reply::Done),
            Phase::Synthesizing { .. } => matches!(reply, Reply::Done),
            Phase::Flushing => matches!(reply, Reply::Done),
            Phase::Closing => matches!(reply, Reply::Done),
            Phase::Finished => false,
        }
    }

    pub fn is_finished(&self) -> (r: bool)
        ensures
            r == self.finished(),
    {
        matches!(self.phase, Phase::Finished)
    }

    /// How the invocation ended; meaningful once it is finished.
    pub fn outcome(&self) -> (r: &Result<(), Error>)
        ensures
            *r == self.outcome_spec(),
    {
        &self.outcome
    }

    /// How the invocation ended; meaningful once it is finished.
    pub fn into_outcome(self) -> (r: Result<(), Error>)
        ensures
            r == self.outcome_spec(),
    {
        self.outcome
    }

    /// Takes the result of `reply` to the pending command, and returns the
    /// command to perform next. A reply of the wrong kind changes nothing, and
    /// the same command is returned again.
    pub fn step(&mut self, reply: Reply) -> (r: Command)
        requires
            old(self).wf(),
        ensures
            final(self).wf(),
            final(self).request() == old(self).request(),
            r == final(self).pending_spec(),
            !old(self).accepts_spec(reply) ==> *final(self) == *old(self),
            old(self).accepts_spec(reply) ==> final(self).trace() == old(self).trace().record(
                old(self).pending_spec(),
                reply,
            ),
            old(self).accepts_spec(reply) ==> 0 <= final(self).remaining() < old(self).remaining(),
            old(self).pending_spec() is Open && reply == Reply::Opened(false) ==> {
                &&& r == Command::Finish
                &&& final(self).finished()
                &&& final(self).outcome_spec() == Err::<(), Error>(Error::Connection)
            },
            old(self).pending_spec() is Open && reply == Reply::Opened(true) ==> r == opened_command(
                old(self).request(),
            ),
            old(self).pending_spec() is ResolveKeysym && reply is Keysym ==> r == (if reply->Keysym_0
                == NO_SYMBOL {
                Command::Close
            } else {
                Command::ResolveKeycode(reply->Keysym_0)
            }),
            old(self).pending_spec() is ResolveKeycode && reply is Keycode ==> r
                == Command::QueryKeycodeRange,
            old(self).pending_spec() is QueryKeycodeRange && old(self).request() is Key
                && reply is KeycodeRange ==> r == ({
                let kc = old(self).trace().keycode->Some_0;
                if reply->KeycodeRange_0 <= kc as int <= reply->KeycodeRange_1 {
                    Command::Synthesize(
                        InputEvent::Key { keycode: kc, state: old(self).request()->Key_state },
                    )
                } else {
                    Command::Close
                }
            }),
            old(self).pending_spec() is QueryKeycodeRange && old(self).request() is Dump
                && reply is KeycodeRange ==> r == (if reply->KeycodeRange_0 <= reply->KeycodeRange_1 {
                Command::LookupName(reply->KeycodeRange_0)
            } else {
                Command::Close
            }),
            old(self).pending_spec() is LookupName && reply is Name && reply->Name_0 is Some ==> r
                == Command::Print(reply->Name_0->Some_0),
            old(self).pending_spec() is LookupName && reply == Reply::Name(None) ==> r == next_lookup(
                old(self).pending_spec()->LookupName_0,
                old(self).trace().range->Some_0.1,
            ),
            old(self).pending_spec() is Print && reply is Done ==> r == next_lookup(
                old(self).trace().lookups.last(),
                old(self).trace().range->Some_0.1,
            ),
            old(self).pending_spec() is Synthesize && reply is Done ==> r == Command::Flush,
            old(self).pending_spec() is Flush && reply is Done ==> r == Command::Close,
            old(self).pending_spec() is Close && reply is Done ==> r == Command::Finish
                && final(self).finished(),
    {
        if !self.accepts(&reply) {
            return self.pending();
        }
        let ghost t0 = self.trace@;
        let ghost t = self.trace@.record(self.phase.command(), reply);
        self.trace = Ghost(t);
        let mut phase = Phase::Finished;
        std::mem::swap(&mut phase, &mut self.phase);
        let next = match phase {
            Phase::Opening { request } => match reply {
                Reply::Opened(true) => match request {
                    Request::Key { name, state } => {
                        if contains_nul(name.as_str()) {
                            self.outcome = Err(Error::KeyNameHasNul(name));
                            Phase::Closing
                        } else {
                            Phase::Keysym { name, state }
                        }
                    },
                    Request::Button { button, state } => {
                        if button_in_range(button) {
                            Phase::Synthesizing { event: InputEvent::Button { button, state } }
                        } else {
                            self.outcome = Err(Error::ButtonOutOfRange(button));
                            Phase::Closing
                        }
                    },
                    Request::Dump => Phase::DumpRange,
                },
                _ => {
                    self.outcome = Err(Error::Connection);
                    Phase::Finished
                },
            },
            Phase::Keysym { name, state } => match reply {
                Reply::Keysym(keysym) => {
                    proof {
                        assert(t.log =~= seq![Command::Open, Command::ResolveKeysym(name)]);
                    }
                    if keysym == NO_SYMBOL {
                        self.outcome = Err(Error::KeyNotFound(name));
                        Phase::Closing
                    } else {
                        Phase::Keycode { name, state, keysym }
                    }
                },
                _ => Phase::Keysym { name, state },
            },
            Phase::Keycode { name, state, keysym } => match reply {
                Reply::Keycode(keycode) => {
                    proof {
                        assert(t.log =~= seq![
                            Command::Open,
                            Command::ResolveKeysym(name),
                            Command::ResolveKeycode(keysym),
                        ]);
                    }
                    Phase::KeyRange { name, state, keycode }
                },
                _ => Phase::Keycode { name, state, keysym },
            },
            Phase::KeyRange { name, state, keycode } => match reply {
                Reply::KeycodeRange(min, max) => {
                    proof {
                        assert(t.log =~= seq![
                            Command::Open,
                            Command::ResolveKeysym(name),
                            Command::ResolveKeycode(t.keysym->Some_0),
                            Command::QueryKeycodeRange,
                        ]);
                    }
                    if keycode_in_range(keycode, min, max) {
                        Phase::Synthesizing { event: InputEvent::Key { keycode, state } }
                    } else {
                        self.outcome = Err(Error::KeycodeNotFound(name));
                        Phase::Closing
                    }
                },
                _ => Phase::KeyRange { name, state, keycode },
            },
            Phase::DumpRange => match reply {
                Reply::KeycodeRange(min, max) => {
                    if min <= max {
                        Phase::DumpName { current: min, max }
                    } else {
                        Phase::Closing
                    }
                },
                _ => Phase::DumpRange,
            },
            Phase::DumpName { current, max } => match reply {
                Reply::Name(Some(name)) => {
                    proof {
                        lemma_named_push(t0.names, Some(name@));
                    }
                    Phase::DumpPrint { current, max, name }
                },
                Reply::Name(None) => {
                    proof {
                        lemma_named_push(t0.names, None);
                    }
                    advance(current, max)
                },
                _ => Phase::DumpName { current, max },
            },
            Phase::DumpPrint { current, max, .. } => advance(current, max),
            Phase::Synthesizing { event } => {
                proof {
                    assert(t0.events.push(event) =~= seq![event]);
                    if self.request@ is Key {
                        assert(t.log =~= seq![
                            Command::Open,
                            Command::ResolveKeysym(self.request@->Key_name),
                            Command::ResolveKeycode(t.keysym->Some_0),
                            Command::QueryKeycodeRange,
                            Command::Synthesize(event),
                        ]);
                    } else {
                        assert(t.log =~= seq![Command::Open, Command::Synthesize(event)]);
                    }
                }
                Phase::Flushing
            },
            Phase::Flushing => {
                proof {
                    if self.request@ is Key {
                        assert(t.log =~= seq![
                            Command::Open,
                            Command::ResolveKeysym(self.request@->Key_name),
                            Command::ResolveKeycode(t.keysym->Some_0),
                            Command::QueryKeycodeRange,
                            Command::Synthesize(t.events[0]),
                            Command::Flush,
                        ]);
                    } else {
                        assert(t.log =~= seq![
                            Command::Open,
                            Command::Synthesize(t.events[0]),
                            Command::Flush,
                        ]);
                    }
                }
                Phase::Closing
            },
            Phase::Closing => Phase::Finished,
            Phase::Finished => Phase::Finished,
        };
        self.phase = next;
        self.pending()
    }
}

/// Performs native calls for a session: the display connection, or a
/// stand-in for it.
pub trait Backend {
    /// Performs `command` and returns its result.
    fn perform(&mut self, command: &Command) -> Reply;
}

/// Runs the invocation of `request` against `backend`: performs each pending
/// command and steps on its reply. Returns the finished session, or, where
/// the backend answered a command with a reply of the wrong kind, the session
/// as it stood and that reply.
pub fn run<B: Backend>(request: Request, backend: &mut B) -> (r: (Session, Option<Reply>))
    ensures
        r.0.wf(),
        r.0.request() == request,
        r.1 is None ==> r.0.finished(),
        r.1 is Some ==> !r.0.finished() && !r.0.accepts_spec(r.1->Some_0),
{
    let mut s = Session::new(request);
    let mut command = s.pending();
    while !s.is_finished()
        invariant
            s.wf(),
            s.request() == request,
            command == s.pending_spec(),
        decreases s.remaining(),
    {
        let reply = backend.perform(&command);
        if !s.accepts(&reply) {
            return (s, Some(reply));
        }
        command = s.step(reply);
    }
    (s, None)
}

/// Validates the options (see `parse_request`) and runs the request they
/// give against `backend`. Options that ask for no action, or for more than
/// one, fail with `Argument` before any session exists, and leave the backend
/// as it was; valid options give a session that starts with a
/// fresh open.
pub fn invoke<B: Backend>(
    key: Option<String>,
    mouse: Option<u32>,
    release: bool,
    dump: bool,
    backend: &mut B,
) -> (r: Result<(Session, Option<Reply>), Error>)
    ensures
        r is Err <==> actions_asked(key, mouse, dump) != 1,
        r is Err ==> r->Err_0 is Argument,
        r is Err ==> *final(backend) == *old(backend),
        r is Ok ==> {
            let (s, refused) = r->Ok_0;
            &&& s.wf()
            &&& refused is None ==> s.finished()
            &&& refused is Some ==> !s.finished() && !s.accepts_spec(refused->Some_0)
            &&& key is Some ==> s.request() == (Request::Key {
                name: key->Some_0,
                state: if release { ButtonState::Released } else { ButtonState::Pressed },
            })
            &&& mouse is Some ==> s.request() == (Request::Button {
                button: mouse->Some_0,
                state: if release { ButtonState::Released } else { ButtonState::Pressed },
            })
            &&& dump ==> s.request() is Dump
        },
{
    match parse_request(key, mouse, release, dump) {
        Ok(request) => Ok(run(request, backend)),
        Err(e) => Err(e),
    }
}

/// The connection is opened at most once and released at most once; a
/// session is finished exactly when no call remains, and a finished session
/// opened the connection once and released it once if, and only if, it was
/// acquired.
pub proof fn lemma_released_once(s: &Session)
    requires
        s.wf(),
    ensures
        s.trace().opens <= 1,
        s.trace().closes <= s.trace().opens,
        s.remaining() >= 0,
        s.finished() <==> s.remaining() == 0,
        s.finished() ==> s.trace().opens == 1 && s.trace().closes == (if s.trace().connected {
            1nat
        } else {
            0nat
        }),
{
}

/// A finished key request whose name has no keysym fails with `KeyNotFound`:
/// after the keysym lookup it makes no keycode lookup, no interval query, no
/// event and no flush, and releases the connection.
pub proof fn lemma_unknown_key(s: &Session)
    requires
        s.wf(),
        s.finished(),
        s.request() is Key,
        s.trace().connected,
        s.trace().keysym == Some(NO_SYMBOL),
    ensures
        s.outcome_spec() == Err::<(), Error>(Error::KeyNotFound(s.request()->Key_name)),
        s.trace().events == Seq::<InputEvent>::empty(),
        s.trace().keycode is None,
        s.trace().range is None,
        s.trace().log == seq![
            Command::Open,
            Command::ResolveKeysym(s.request()->Key_name),
            Command::Close,
        ],
{
}

/// A finished key request whose name holds a NUL character fails with
/// `KeyNameHasNul`: after the open it makes no lookup, no event and no flush,
/// and releases the connection.
pub proof fn lemma_key_name_with_nul(s: &Session)
    requires
        s.wf(),
        s.finished(),
        s.request() is Key,
        s.trace().connected,
        has_nul(s.request()->Key_name@),
    ensures
        s.outcome_spec() == Err::<(), Error>(Error::KeyNameHasNul(s.request()->Key_name)),
        s.trace().events == Seq::<InputEvent>::empty(),
        s.trace().keysym is None,
        s.trace().log == seq![Command::Open, Command::Close],
{
}

/// A finished key request whose keysym has no keycode in the keycode
/// interval fails with `KeycodeNotFound`: it synthesizes nothing, does not
/// flush, and releases the connection.
pub proof fn lemma_unbound_key(s: &Session)
    requires
        s.wf(),
        s.finished(),
        s.request() is Key,
        s.trace().connected,
        s.trace().keysym is Some,
        s.trace().keysym != Some(NO_SYMBOL),
        !s.trace().key_bound(s.trace().keycode->Some_0),
    ensures
        s.outcome_spec() == Err::<(), Error>(Error::KeycodeNotFound(s.request()->Key_name)),
        s.trace().events == Seq::<InputEvent>::empty(),
        s.trace().log == seq![
            Command::Open,
            Command::ResolveKeysym(s.request()->Key_name),
            Command::ResolveKeycode(s.trace().keysym->Some_0),
            Command::QueryKeycodeRange,
            Command::Close,
        ],
{
}

/// A finished key request whose name resolves to keycode `kc` in the keycode
/// interval succeeds: it looked the keysym up for the request's name and the
/// keycode for that keysym, synthesized exactly one event of the requested
/// transition on `kc`, then flushed, then released the connection.
pub proof fn lemma_key_sent(s: &Session, kc: u8)
    requires
        s.wf(),
        s.finished(),
        s.request() is Key,
        s.trace().connected,
        s.trace().key_bound(kc),
    ensures
        s.outcome_spec() == Ok::<(), Error>(()),
        s.trace().events == seq![InputEvent::Key { keycode: kc, state: s.request()->Key_state }],
        s.trace().log == seq![
            Command::Open,
            Command::ResolveKeysym(s.request()->Key_name),
            Command::ResolveKeycode(s.trace().keysym->Some_0),
            Command::QueryKeycodeRange,
            Command::Synthesize(InputEvent::Key { keycode: kc, state: s.request()->Key_state }),
            Command::Flush,
            Command::Close,
        ],
{
}

/// A failed open ends the invocation at once with `Connection`: nothing
/// else is called, nothing is synthesized, and nothing is released.
pub proof fn lemma_connection_failed(s: &Session)
    requires
        s.wf(),
        s.trace().opens == 1,
        !s.trace().connected,
    ensures
        s.finished(),
        s.outcome_spec() == Err::<(), Error>(Error::Connection),
        s.trace().closes == 0,
        s.trace().events == Seq::<InputEvent>::empty(),
        s.trace().log == seq![Command::Open],
{
}

/// Pressing and then releasing a key whose name resolves to keycode `kc`
/// both succeed, and together synthesize exactly a press and then a release
/// of `kc`.
pub proof fn lemma_press_then_release(press: &Session, release: &Session, kc: u8)
    requires
        press.wf(),
        release.wf(),
        press.finished(),
        release.finished(),
        press.trace().connected,
        release.trace().connected,
        press.request() matches Request::Key { name, state } && state == ButtonState::Pressed,
        release.request() matches Request::Key { name, state } && state == ButtonState::Released
            && name == press.request()->Key_name,
        press.trace().key_bound(kc),
        release.trace().key_bound(kc),
    ensures
        press.outcome_spec() == Ok::<(), Error>(()),
        release.outcome_spec() == Ok::<(), Error>(()),
        press.trace().events + release.trace().events == seq![
            InputEvent::Key { keycode: kc, state: ButtonState::Pressed },
            InputEvent::Key { keycode: kc, state: ButtonState::Released },
        ],
{
    assert(press.trace().events + release.trace().events =~= seq![
        InputEvent::Key { keycode: kc, state: ButtonState::Pressed },
        InputEvent::Key { keycode: kc, state: ButtonState::Released },
    ]);
}

/// A finished button request succeeds if, and only if, the button lies in
/// the supported range; it then synthesizes exactly that one button event
/// and flushes, and otherwise fails with `ButtonOutOfRange` and synthesizes
/// nothing. Either way it queries no keymap and releases the connection last.
pub proof fn lemma_button_range(s: &Session)
    requires
        s.wf(),
        s.finished(),
        s.request() is Button,
        s.trace().connected,
    ensures
        ({
            let button = s.request()->Button_button;
            let state = s.request()->Button_state;
            &&& s.trace().range is None
            &&& s.trace().log == button_calls(button, state).push(Command::Close)
            &&& if button <= MAX_BUTTON {
                &&& s.outcome_spec() == Ok::<(), Error>(())
                &&& s.trace().events == seq![InputEvent::Button { button, state }]
            } else {
                &&& s.outcome_spec() == Err::<(), Error>(Error::ButtonOutOfRange(button))
                &&& s.trace().events == Seq::<InputEvent>::empty()
            }
        }),
{
}

/// A finished dump looked up every keycode of the interval once, in
/// ascending order, printed exactly the names found, in that order, and
/// synthesized nothing: after the open and the interval query it made only
/// name lookups and prints, and released the connection last.
pub proof fn lemma_dump_lines(s: &Session)
    requires
        s.wf(),
        s.finished(),
        s.request() is Dump,
        s.trace().connected,
    ensures
        s.trace().range matches Some((min, max)) && s.trace().lookups.len() == interval_len(
            min as int,
            max as int,
        ) && s.trace().ascending_from(min as int),
        s.trace().printed == named(s.trace().names),
        s.trace().events == Seq::<InputEvent>::empty(),
        s.outcome_spec() == Ok::<(), Error>(()),
        s.trace().log.len() > 2,
        s.trace().log[0] == Command::Open,
        s.trace().log[1] == Command::QueryKeycodeRange,
        s.trace().log.last() == Command::Close,
        forall|i: int|
            2 <= i < s.trace().log.len() - 1 ==> (#[trigger] s.trace().log[i] is LookupName
                || s.trace().log[i] is Print),
{
    let log = s.trace().log;
    assert forall|i: int| 2 <= i < log.len() - 1 implies (#[trigger] log[i] is LookupName
        || log[i] is Print) by {
        assert(log[i] == log.drop_last()[i]);
    }
}

} // verus!
