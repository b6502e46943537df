//! The one action an invocation performs, and the failures it can end in.
use vstd::prelude::*;
use vstd::string::{StrSliceExecFns, StringExecFns};
use crate::input::ButtonState;

verus! {

/// What one invocation asks for: exactly one action.
#[derive(Debug)]
pub enum Request {
    /// Send a key event for the key of this symbol name.
    Key { name: String, state: ButtonState },
    /// Send a mouse button event.
    Button { button: u32, state: ButtonState },
    /// List the symbol names of the active keymap.
    Dump,
}

/// Every way an invocation can fail.
#[derive(Debug)]
pub enum Error {
    /// No connection to the display server could be opened.
    Connection,
    /// The key name holds a NUL character, which no symbol name can hold.
    KeyNameHasNul(String),
    /// The symbol table has no keysym of this name.
    KeyNotFound(String),
    /// The keysym of this name has no keycode in the active keymap.
    KeycodeNotFound(String),
    /// The button index lies above the supported range.
    ButtonOutOfRange(u32),
    /// Zero actions, or more than one, were asked for.
    Argument,
}

/// Whether `s` holds a NUL character.
pub open spec fn has_nul(s: Seq<char>) -> bool {
    s.contains('\0')
}

/// Whether `s` holds a NUL character.
pub fn contains_nul(s: &str) -> (r: bool)
    ensures
        r == has_nul(s@),
{
    let n = s.unicode_len();
    let mut i: usize = 0;
    while i < n
        invariant
            n == s@.len(),
            i <= n,
            forall|j: int| 0 <= j < i ==> s@[j] != '\0',
        decreases n - i,
    {
        if s.get_char(i) == '\0' {
            return true;
        }
        i = i + 1;
    }
    false
}

/// The decimal digit `d`, for `d < 10`.
pub open spec fn digit(d: nat) -> char {
    if d == 0 {
        '0'
    } else if d == 1 {
        '1'
    } else if d == 2 {
        '2'
    } else if d == 3 {
        '3'
    } else if d == 4 {
        '4'
    } else if d == 5 {
        '5'
    } else if d == 6 {
        '6'
    } else if d == 7 {
        '7'
    } else if d == 8 {
        '8'
    } else {
        '9'
    }
}

/// The decimal numeral of `n`, without leading zeros.
pub open spec fn decimal(n: nat) -> Seq<char>
    decreases n,
{
    if n < 10 {
        seq![digit(n)]
    } else {
        decimal(n / 10).push(digit(n % 10))
    }
}

fn digit_str(d: u32) -> (r: &'static str)
    requires
        d < 10,
    ensures
        r@ == seq![digit(d as nat)],
{
    match d {
        0 => {
            proof {
                reveal_strlit("0");
            }
            "0"
        },
        1 => {
            proof {
                reveal_strlit("1");
            }
            "1"
        },
        2 => {
            proof {
                reveal_strlit("2");
            }
            "2"
        },
        3 => {
            proof {
                reveal_strlit("3");
            }
            "3"
        },
        4 => {
            proof {
                reveal_strlit("4");
            }
            "4"
        },
        5 => {
            proof {
                reveal_strlit("5");
            }
            "5"
        },
        6 => {
            proof {
                reveal_strlit("6");
            }
            "6"
        },
        7 => {
            proof {
                reveal_strlit("7");
            }
            "7"
        },
        8 => {
            proof {
                reveal_strlit("8");
            }
            "8"
        },
        _ => {
            proof {
                reveal_strlit("9");
            }
            "9"
        },
    }
}

/// The decimal numeral of `n`.
pub fn decimal_string(n: u32) -> (r: String)
    ensures
        r@ == decimal(n as nat),
    decreases n,
{
    if n < 10 {
        String::from_str(digit_str(n))
    } else {
        let mut r = decimal_string(n / 10);
        r.append(digit_str(n % 10));
        r
    }
}

impl Error {
    /// The text that reports this error to the user.
    pub open spec fn message_spec(self) -> Seq<char> {
        match self {
            Error::Connection => "Could not acquire XDisplay"@,
            Error::KeyNameHasNul(key) => "Key name '"@ + key@ + "' holds a NUL character"@,
            Error::KeyNotFound(key) => "Key '"@ + key@ + "' not found"@,
            Error::KeycodeNotFound(key) => "Keycode for keysym of '"@ + key@ + "' not found"@,
            Error::ButtonOutOfRange(button) => "Mouse button '"@ + decimal(button as nat)
                + "' out of range"@,
            Error::Argument => "Exactly one of a key name, --mouse or --dump must be given"@,
        }
    }

    pub fn message(&self) -> (r: String)
        ensures
            r@ == self.message_spec(),
    {
        match self {
            Error::Connection => String::from_str("Could not acquire XDisplay"),
            Error::KeyNameHasNul(key) => {
                let mut r = String::from_str("Key name '");
                r.append(key.as_str());
                r.append("' holds a NUL character");
                r
            },
            Error::KeyNotFound(key) => {
                let mut r = String::from_str("Key '");
                r.append(key.as_str());
                r.append("' not found");
                r
            },
            Error::KeycodeNotFound(key) => {
                let mut r = String::from_str("Keycode for keysym of '");
                r.append(key.as_str());
                r.append("' not found");
                r
            },
            Error::ButtonOutOfRange(button) => {
                let mut r = String::from_str("Mouse button '");
                let digits = decimal_string(*button);
                r.append(digits.as_str());
                r.append("' out of range");
                r
            },
            Error::Argument => String::from_str(
                "Exactly one of a key name, --mouse or --dump must be given",
            ),
        }
    }
}

/// How many of the three actions the options ask for.
pub open spec fn actions_asked(key: Option<String>, mouse: Option<u32>, dump: bool) -> int {
    (if key is Some { 1int } else { 0int }) + (if mouse is Some { 1int } else { 0int }) + (if dump {
        1int
    } else {
        0int
    })
}

/// Validates the command-line options: a key name, a mouse button index, or
/// the dump switch, exactly one of them. `release` chooses the transition of
/// a key or button event and is ignored by a dump.
pub fn parse_request(key: Option<String>, mouse: Option<u32>, release: bool, dump: bool) -> (r:
    Result<Request, Error>)
    ensures
        r is Ok <==> actions_asked(key, mouse, dump) == 1,
        r is Err ==> r->Err_0 is Argument,
        r is Ok && key is Some ==> r->Ok_0 == (Request::Key {
            name: key->Some_0,
            state: if release { ButtonState::Released } else { ButtonState::Pressed },
        }),
        r is Ok && mouse is Some ==> r->Ok_0 == (Request::Button {
            button: mouse->Some_0,
            state: if release { ButtonState::Released } else { ButtonState::Pressed },
        }),
        r is Ok && dump ==> r->Ok_0 is Dump,
{
    let state = ButtonState::from_release(release);
    match (key, mouse, dump) {
        (Some(name), None, false) => Ok(Request::Key { name, state }),
        (None, Some(button), false) => Ok(Request::Button { button, state }),
        (None, None, true) => Ok(Request::Dump),
        _ => Err(Error::Argument),
    }
}

} // verus!
