//! Parses and renders X display address strings of the form
//! `hostname:display_number.screen_number`, and derives the X11 socket path.

use vstd::prelude::*;

use crate::strings::{
    dec_str, lemma_dec_str_no_sep, lemma_dec_str_round_trip, lemma_split_len, lemma_split_two,
    spec_parse_u32, spec_split, split_char, u32_to_string, parse_u32,
};

verus! {

/// Represents a value as used by the DISPLAY environment variable.
/// The format is `hostname:display_number.screen_number`.
#[derive(Debug, PartialEq)]
pub struct Display {
    /// Unparsed hostname or address part; an empty part means no hostname.
    pub hostname: Option<String>,
    /// The X server instance on the host, e.g. `0` for `DISPLAY=:0`.
    pub display_number: u32,
    /// Which screen of the display to use, if one was given.
    pub screen_number: Option<u32>,
}

/// Mathematical model of a display address.
pub struct DisplayModel {
    pub hostname: Option<Seq<char>>,
    pub display_number: u32,
    pub screen_number: Option<u32>,
}

impl View for Display {
    type V = DisplayModel;

    open spec fn view(&self) -> DisplayModel {
        DisplayModel {
            hostname: match self.hostname {
                Some(ref h) => Some(h@),
                None => None,
            },
            display_number: self.display_number,
            screen_number: self.screen_number,
        }
    }
}

/// How a display address string can be rejected.
#[derive(Debug, PartialEq)]
pub enum DisplayError {
    /// The string does not consist of exactly two parts around a `:`.
    InvalidFormat(String),
    /// The display number token is not an unsigned integer.
    InvalidDisplayNumber(String),
    /// The screen number token is not an unsigned integer.
    InvalidScreenNumber(String),
    /// The environment variable is absent, as opposed to malformed.
    NotSet,
}

/// Model of a rejection, carrying the offending token.
pub enum DisplayErrorModel {
    InvalidFormat(Seq<char>),
    InvalidDisplayNumber(Seq<char>),
    InvalidScreenNumber(Seq<char>),
    NotSet,
}

impl View for DisplayError {
    type V = DisplayErrorModel;

    open spec fn view(&self) -> DisplayErrorModel {
        match self {
            DisplayError::InvalidFormat(s) => DisplayErrorModel::InvalidFormat(s@),
            DisplayError::InvalidDisplayNumber(s) => DisplayErrorModel::InvalidDisplayNumber(s@),
            DisplayError::InvalidScreenNumber(s) => DisplayErrorModel::InvalidScreenNumber(s@),
            DisplayError::NotSet => DisplayErrorModel::NotSet,
        }
    }
}

pub open spec fn spec_display_error_message(e: DisplayErrorModel) -> Seq<char> {
    match e {
        DisplayErrorModel::InvalidFormat(s) => "invalid DISPLAY format: "@ + s,
        DisplayErrorModel::InvalidDisplayNumber(s) => "invalid display number: "@ + s,
        DisplayErrorModel::InvalidScreenNumber(s) => "invalid screen number: "@ + s,
        DisplayErrorModel::NotSet => "DISPLAY environment variable is not set"@,
    }
}

impl DisplayError {
    /// Human-readable description, naming the offending token.
    pub fn message(&self) -> (r: String)
        ensures
            r@ == spec_display_error_message(self@),
    {
        match self {
            DisplayError::InvalidFormat(s) => {
                let mut m = String::from_str("invalid DISPLAY format: ");
                m.append(s.as_str());
                m
            },
            DisplayError::InvalidDisplayNumber(s) => {
                let mut m = String::from_str("invalid display number: ");
                m.append(s.as_str());
                m
            },
            DisplayError::InvalidScreenNumber(s) => {
                let mut m = String::from_str("invalid screen number: ");
                m.append(s.as_str());
                m
            },
            DisplayError::NotSet => String::from_str("DISPLAY environment variable is not set"),
        }
    }
}

/// What parsing a display address means: the string must hold exactly one
/// `:`; the part before it is the hostname (empty means none); the part
/// after it is split on `.` into a mandatory display number and an optional
/// screen number, any further `.`-separated tokens being ignored.
pub open spec fn spec_parse_display(s: Seq<char>) -> Result<DisplayModel, DisplayErrorModel> {
    let parts = spec_split(s, ':');
    if parts.len() != 2 {
        Err(DisplayErrorModel::InvalidFormat(s))
    } else {
        let host = if parts[0].len() > 0 {
            Some(parts[0])
        } else {
            None
        };
        let toks = spec_split(parts[1], '.');
        match spec_parse_u32(toks[0]) {
            None => Err(DisplayErrorModel::InvalidDisplayNumber(toks[0])),
            Some(num) => {
                if toks.len() > 1 {
                    match spec_parse_u32(toks[1]) {
                        None => Err(DisplayErrorModel::InvalidScreenNumber(toks[1])),
                        Some(scr) => Ok(
                            DisplayModel {
                                hostname: host,
                                display_number: num,
                                screen_number: Some(scr),
                            },
                        ),
                    }
                } else {
                    Ok(DisplayModel { hostname: host, display_number: num, screen_number: None })
                }
            },
        }
    }
}

/// The X11 socket path derived from a display number alone; hostname and
/// screen number never affect it (local-display assumption).
pub open spec fn spec_socket_path(display_number: u32) -> Seq<char> {
    "/tmp/.X11-unix/X"@ + dec_str(display_number as nat)
}

/// Rendering of a display address; an absent hostname renders as the empty
/// string before the `:`, never by omitting the separator.
pub open spec fn spec_display_address(d: DisplayModel) -> Seq<char> {
    (match d.hostname {
        Some(h) => h,
        None => Seq::<char>::empty(),
    }) + seq![':'] + dec_str(d.display_number as nat) + (match d.screen_number {
        Some(scr) => seq!['.'] + dec_str(scr as nat),
        None => Seq::<char>::empty(),
    })
}

impl Display {
    /// Parses a display address string.
    pub fn from_str(display: &str) -> (r: Result<Self, DisplayError>)
        ensures
            match r {
                Ok(d) => spec_parse_display(display@) == Ok::<DisplayModel, DisplayErrorModel>(d@),
                Err(e) => spec_parse_display(display@) == Err::<DisplayModel, DisplayErrorModel>(
                    e@,
                ),
            },
    {
        let parts = split_char(display, ':');
        if parts.len() != 2 {
            return Err(DisplayError::InvalidFormat(String::from_str(display)));
        }
        let hostname: Option<String> = if parts[0].as_str().unicode_len() > 0 {
            Some(parts[0].clone())
        } else {
            None
        };
        let toks = split_char(parts[1].as_str(), '.');
        proof {
            lemma_split_len(parts@[1]@, '.');
        }
        let display_number = match parse_u32(toks[0].as_str()) {
            Some(n) => n,
            None => {
                return Err(DisplayError::InvalidDisplayNumber(toks[0].clone()));
            },
        };
        let screen_number: Option<u32> = if toks.len() > 1 {
            match parse_u32(toks[1].as_str()) {
                Some(n) => Some(n),
                None => {
                    return Err(DisplayError::InvalidScreenNumber(toks[1].clone()));
                },
            }
        } else {
            None
        };
        Ok(Display { hostname, display_number, screen_number })
    }

    /// Interprets the value of the display environment variable, where an
    /// absent variable is a distinct condition from a malformed one.
    pub fn from_env(display: Option<&str>) -> (r: Result<Self, DisplayError>)
        ensures
            match display {
                None => r matches Err(e) && e@ matches DisplayErrorModel::NotSet,
                Some(s) => match r {
                    Ok(d) => spec_parse_display(s@) == Ok::<DisplayModel, DisplayErrorModel>(d@),
                    Err(e) => spec_parse_display(s@) == Err::<DisplayModel, DisplayErrorModel>(
                        e@,
                    ),
                },
            },
    {
        match display {
            Some(s) => Self::from_str(s),
            None => Err(DisplayError::NotSet),
        }
    }

    /// The X11 socket path for this display.
    pub fn get_socket_path(&self) -> (r: String)
        ensures
            r@ == spec_socket_path(self.display_number),
    {
        let mut s = String::from_str("/tmp/.X11-unix/X");
        s.append(u32_to_string(self.display_number).as_str());
        s
    }

    /// Renders the address back to its string form.
    pub fn to_display_address(&self) -> (r: String)
        ensures
            r@ == spec_display_address(self@),
    {
        let mut s = match &self.hostname {
            Some(h) => h.clone(),
            None => String::new(),
        };
        s.append(":");
        s.append(u32_to_string(self.display_number).as_str());
        if let Some(scr) = self.screen_number {
            s.append(".");
            s.append(u32_to_string(scr).as_str());
        }
        proof {
            reveal_strlit(":");
            reveal_strlit(".");
            assert(":"@ =~= seq![':']);
            assert("."@ =~= seq!['.']);
            assert(s@ =~= spec_display_address(self@));
        }
        s
    }
}

/// Parsing inverts rendering: any display address whose hostname, if
/// present, is non-empty and free of `:` parses back from its rendered
/// form to exactly itself. In particular, an absent hostname renders as
/// the empty string and parses back to an absent hostname.
pub proof fn lemma_parse_render_round_trip(d: DisplayModel)
    requires
        d.hostname matches Some(h) ==> h.len() > 0 && !h.contains(':'),
    ensures
        spec_parse_display(spec_display_address(d)) == Ok::<DisplayModel, DisplayErrorModel>(d),
{
    let host = match d.hostname {
        Some(h) => h,
        None => Seq::<char>::empty(),
    };
    let num = dec_str(d.display_number as nat);
    let tail = match d.screen_number {
        Some(scr) => seq!['.'] + dec_str(scr as nat),
        None => Seq::<char>::empty(),
    };
    let rest = num + tail;
    lemma_dec_str_no_sep(d.display_number as nat);
    lemma_dec_str_round_trip(d.display_number as nat);
    assert(!rest.contains(':')) by {
        assert forall|i: int| 0 <= i < rest.len() implies rest[i] != ':' by {
            if i < num.len() {
                assert(num[i] != ':');
            } else {
                match d.screen_number {
                    Some(scr) => {
                        lemma_dec_str_no_sep(scr as nat);
                        if i > num.len() {
                            assert(rest[i] == dec_str(scr as nat)[i - num.len() - 1]);
                            assert(dec_str(scr as nat)[i - num.len() - 1] != ':');
                        }
                    },
                    None => {},
                }
            }
        }
    }
    assert(!host.contains(':'));
    lemma_split_two(host, rest, ':');
    let full = spec_display_address(d);
    assert(full =~= host + seq![':'] + rest);
    let parts = spec_split(full, ':');
    assert(parts =~~= seq![host, rest]);
    match d.screen_number {
        Some(scr) => {
            lemma_dec_str_no_sep(scr as nat);
            lemma_dec_str_round_trip(scr as nat);
            assert(!num.contains('.'));
            assert(!dec_str(scr as nat).contains('.'));
            assert(rest =~= num + seq!['.'] + dec_str(scr as nat));
            lemma_split_two(num, dec_str(scr as nat), '.');
            let toks = spec_split(rest, '.');
            assert(toks =~~= seq![num, dec_str(scr as nat)]);
            assert(spec_parse_u32(toks[0]) == Some(d.display_number));
            assert(spec_parse_u32(toks[1]) == Some(scr));
        },
        None => {
            assert(rest =~= num);
            assert(!num.contains('.'));
            crate::strings::lemma_split_whole(num, '.');
            let toks = spec_split(rest, '.');
            assert(toks =~~= seq![num]);
            assert(spec_parse_u32(toks[0]) == Some(d.display_number));
        },
    }
    match d.hostname {
        Some(h) => {
            assert(parts[0].len() > 0);
        },
        None => {
            assert(parts[0].len() == 0);
        },
    }
}

} // verus!
