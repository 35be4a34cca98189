//! Parses the upscale-mode language (`none`, `dlss`, `fsr:<mode>:<strength>`)
//! and the synchronization-primitive modes of the compatibility runtime.

use vstd::prelude::*;

use crate::strings::{
    dec_str, lemma_split_len, lower_seq, spec_join, spec_parse_u32, spec_split, split_char,
    starts_with, skip_chars, str_eq, to_ascii_lower, push_char, parse_u32, u32_to_string,
};

verus! {

/// Smallest accepted resolution-scaling strength.
pub const MIN_FSR_STRENGTH: u8 = 0;

/// Largest accepted resolution-scaling strength.
pub const MAX_FSR_STRENGTH: u8 = 5;

/// How an upscale mode string can be rejected.
#[derive(Debug, PartialEq)]
pub enum UpscaleModeError {
    /// The string is none of the recognized upscale modes.
    InvalidUpscaleMode(String),
    /// The scaling-mode token of an `fsr:` string is not a known mode.
    InvalidFsrMode(String),
    /// The strength token of an `fsr:` string is not a small integer.
    InvalidFsrStrength(String),
    /// The strength is an integer outside the accepted band.
    OutOfRangeFsrStrength(u8),
}

/// Model of an upscale mode rejection.
pub enum UpscaleModeErrorModel {
    InvalidUpscaleMode(Seq<char>),
    InvalidFsrMode(Seq<char>),
    InvalidFsrStrength(Seq<char>),
    OutOfRangeFsrStrength(u8),
}

impl View for UpscaleModeError {
    type V = UpscaleModeErrorModel;

    open spec fn view(&self) -> UpscaleModeErrorModel {
        match self {
            UpscaleModeError::InvalidUpscaleMode(s) => UpscaleModeErrorModel::InvalidUpscaleMode(
                s@,
            ),
            UpscaleModeError::InvalidFsrMode(s) => UpscaleModeErrorModel::InvalidFsrMode(s@),
            UpscaleModeError::InvalidFsrStrength(s) => UpscaleModeErrorModel::InvalidFsrStrength(
                s@,
            ),
            UpscaleModeError::OutOfRangeFsrStrength(v) => {
                UpscaleModeErrorModel::OutOfRangeFsrStrength(*v)
            },
        }
    }
}

pub open spec fn spec_upscale_error_message(e: UpscaleModeErrorModel) -> Seq<char> {
    match e {
        UpscaleModeErrorModel::InvalidUpscaleMode(s) => "Invalid upscale mode: "@ + s,
        UpscaleModeErrorModel::InvalidFsrMode(s) => "Invalid FSR mode: "@ + s,
        UpscaleModeErrorModel::InvalidFsrStrength(s) => "Invalid FSR strength: "@ + s,
        UpscaleModeErrorModel::OutOfRangeFsrStrength(v) => "FSR strength must be between 0 and 5, but got: "@
            + dec_str(v as nat),
    }
}

impl UpscaleModeError {
    /// Human-readable description, naming the offending input and, for a
    /// range violation, the violated bounds.
    pub fn message(&self) -> (r: String)
        ensures
            r@ == spec_upscale_error_message(self@),
    {
        match self {
            UpscaleModeError::InvalidUpscaleMode(s) => {
                let mut m = String::from_str("Invalid upscale mode: ");
                m.append(s.as_str());
                m
            },
            UpscaleModeError::InvalidFsrMode(s) => {
                let mut m = String::from_str("Invalid FSR mode: ");
                m.append(s.as_str());
                m
            },
            UpscaleModeError::InvalidFsrStrength(s) => {
                let mut m = String::from_str("Invalid FSR strength: ");
                m.append(s.as_str());
                m
            },
            UpscaleModeError::OutOfRangeFsrStrength(v) => {
                let mut m = String::from_str("FSR strength must be between 0 and 5, but got: ");
                m.append(u32_to_string(*v as u32).as_str());
                m
            },
        }
    }
}

/// The resolution-scaling quality modes of the compatibility runtime's
/// fullscreen scaler.
#[derive(Debug, Clone, Copy, PartialEq)]
pub enum FsrMode {
    /// The scaler's own `none` mode.
    Off,
    Quality,
    Balanced,
    Performance,
    UltraPerformance,
}

/// The strings the graphics shim expects for each scaling mode.
pub open spec fn spec_fsr_mode_text(m: FsrMode) -> Seq<char> {
    match m {
        FsrMode::Off => "none"@,
        FsrMode::Quality => "quality"@,
        FsrMode::Balanced => "balanced"@,
        FsrMode::Performance => "performance"@,
        FsrMode::UltraPerformance => "ultra"@,
    }
}

/// What parsing a scaling mode means: each mode name, or its first letter,
/// compared without regard to ASCII case.
pub open spec fn spec_parse_fsr_mode(s: Seq<char>) -> Result<FsrMode, UpscaleModeErrorModel> {
    let l = lower_seq(s);
    if l == "none"@ || l == "n"@ {
        Ok(FsrMode::Off)
    } else if l == "quality"@ || l == "q"@ {
        Ok(FsrMode::Quality)
    } else if l == "balanced"@ || l == "b"@ {
        Ok(FsrMode::Balanced)
    } else if l == "performance"@ || l == "p"@ {
        Ok(FsrMode::Performance)
    } else if l == "ultra"@ || l == "u"@ {
        Ok(FsrMode::UltraPerformance)
    } else {
        Err(UpscaleModeErrorModel::InvalidFsrMode(s))
    }
}

impl FsrMode {
    /// The mode's name as the graphics shim spells it.
    pub fn text(&self) -> (r: String)
        ensures
            r@ == spec_fsr_mode_text(*self),
    {
        match self {
            FsrMode::Off => String::from_str("none"),
            FsrMode::Quality => String::from_str("quality"),
            FsrMode::Balanced => String::from_str("balanced"),
            FsrMode::Performance => String::from_str("performance"),
            FsrMode::UltraPerformance => String::from_str("ultra"),
        }
    }

    /// Parses a scaling mode name or its single-letter alias.
    pub fn from_str(s: &str) -> (r: Result<Self, UpscaleModeError>)
        ensures
            match r {
                Ok(m) => spec_parse_fsr_mode(s@) == Ok::<FsrMode, UpscaleModeErrorModel>(m),
                Err(e) => spec_parse_fsr_mode(s@) == Err::<FsrMode, UpscaleModeErrorModel>(e@),
            },
    {
        let l = to_ascii_lower(s);
        if str_eq(l.as_str(), "none") || str_eq(l.as_str(), "n") {
            Ok(FsrMode::Off)
        } else if str_eq(l.as_str(), "quality") || str_eq(l.as_str(), "q") {
            Ok(FsrMode::Quality)
        } else if str_eq(l.as_str(), "balanced") || str_eq(l.as_str(), "b") {
            Ok(FsrMode::Balanced)
        } else if str_eq(l.as_str(), "performance") || str_eq(l.as_str(), "p") {
            Ok(FsrMode::Performance)
        } else if str_eq(l.as_str(), "ultra") || str_eq(l.as_str(), "u") {
            Ok(FsrMode::UltraPerformance)
        } else {
            Err(UpscaleModeError::InvalidFsrMode(String::from_str(s)))
        }
    }
}

/// The upscale modes available to a launch; at most one is active.
#[derive(Debug, Clone, Copy, PartialEq)]
pub enum UpscaleMode {
    /// No upscaling applied.
    Off,
    /// Fullscreen resolution scaling; the application must run in true
    /// fullscreen for the scaler to engage.
    Fsr { mode: FsrMode, strength: u8 },
    /// Learned upscaling through the vendor API of the graphics shim.
    Dlss,
}

/// What parsing an upscale mode means: `none` and `dlss` (or their first
/// letters) compared without regard to ASCII case; otherwise the string
/// must start with the literal prefix `fsr:` followed by a scaling mode,
/// a `:`, and a strength between 0 and 5. A strength token that is not a
/// byte-sized integer is malformed; one between 6 and 255 is out of range.
pub open spec fn spec_parse_upscale_mode(s: Seq<char>) -> Result<
    UpscaleMode,
    UpscaleModeErrorModel,
> {
    let l = lower_seq(s);
    if l == "none"@ || l == "n"@ {
        Ok(UpscaleMode::Off)
    } else if l == "dlss"@ || l == "d"@ {
        Ok(UpscaleMode::Dlss)
    } else if s.len() >= 4 && s.take(4) == "fsr:"@ {
        let rest = s.skip(4);
        let parts = spec_split(rest, ':');
        if parts.len() < 2 {
            Err(UpscaleModeErrorModel::InvalidUpscaleMode(s))
        } else {
            let strength_tok = spec_join(parts.skip(1), ':');
            match spec_parse_fsr_mode(parts[0]) {
                Err(e) => Err(e),
                Ok(mode) => match spec_parse_u32(strength_tok) {
                    None => Err(UpscaleModeErrorModel::InvalidFsrStrength(strength_tok)),
                    Some(v) => if v > 255 {
                        Err(UpscaleModeErrorModel::InvalidFsrStrength(strength_tok))
                    } else if v > MAX_FSR_STRENGTH as u32 {
                        Err(UpscaleModeErrorModel::OutOfRangeFsrStrength(v as u8))
                    } else {
                        Ok(UpscaleMode::Fsr { mode, strength: v as u8 })
                    },
                },
            }
        }
    } else {
        Err(UpscaleModeErrorModel::InvalidUpscaleMode(s))
    }
}

impl UpscaleMode {
    /// Parses an upscale mode string.
    pub fn from_str(s: &str) -> (r: Result<Self, UpscaleModeError>)
        ensures
            match r {
                Ok(m) => spec_parse_upscale_mode(s@) == Ok::<UpscaleMode, UpscaleModeErrorModel>(
                    m,
                ),
                Err(e) => spec_parse_upscale_mode(s@) == Err::<
                    UpscaleMode,
                    UpscaleModeErrorModel,
                >(e@),
            },
    {
        let l = to_ascii_lower(s);
        if str_eq(l.as_str(), "none") || str_eq(l.as_str(), "n") {
            return Ok(UpscaleMode::Off);
        }
        if str_eq(l.as_str(), "dlss") || str_eq(l.as_str(), "d") {
            return Ok(UpscaleMode::Dlss);
        }
        if !starts_with(s, "fsr:") {
            proof {
                reveal_strlit("fsr:");
            }
            return Err(UpscaleModeError::InvalidUpscaleMode(String::from_str(s)));
        }
        proof {
            reveal_strlit("fsr:");
        }
        let rest = skip_chars(s, 4);
        let parts = split_char(rest.as_str(), ':');
        let ghost pdeep = parts.deep_view();
        proof {
            lemma_split_len(rest@, ':');
        }
        if parts.len() < 2 {
            return Err(UpscaleModeError::InvalidUpscaleMode(String::from_str(s)));
        }
        let mut strength_tok = parts[1].clone();
        assert(strength_tok@ == spec_join(pdeep.subrange(1, 2), ':'));
        let mut i: usize = 2;
        while i < parts.len()
            invariant
                2 <= i <= parts.len(),
                parts.len() >= 2,
                pdeep == parts.deep_view(),
                strength_tok@ == spec_join(pdeep.subrange(1, i as int), ':'),
            decreases parts.len() - i,
        {
            push_char(&mut strength_tok, ':');
            strength_tok.append(parts[i].as_str());
            i += 1;
            proof {
                assert(pdeep.subrange(1, i as int).drop_last() =~= pdeep.subrange(
                    1,
                    i as int - 1,
                ));
                assert(strength_tok@ =~= spec_join(pdeep.subrange(1, i as int), ':'));
            }
        }
        assert(pdeep.subrange(1, parts.len() as int) =~= pdeep.skip(1));
        let mode = match FsrMode::from_str(parts[0].as_str()) {
            Ok(m) => m,
            Err(e) => {
                return Err(e);
            },
        };
        let v = match parse_u32(strength_tok.as_str()) {
            Some(v) => v,
            None => {
                return Err(UpscaleModeError::InvalidFsrStrength(strength_tok));
            },
        };
        if v > 255 {
            return Err(UpscaleModeError::InvalidFsrStrength(strength_tok));
        }
        if v > MAX_FSR_STRENGTH as u32 {
            return Err(UpscaleModeError::OutOfRangeFsrStrength(v as u8));
        }
        Ok(UpscaleMode::Fsr { mode, strength: v as u8 })
    }
}

/// How synchronization primitives of the compatibility runtime are tuned;
/// the two explicit primitives are mutually exclusive.
#[derive(Debug, Clone, Copy, PartialEq, Eq, Structural)]
pub enum SyncMode {
    /// Use the runtime's default.
    Off,
    /// The futex-based primitive.
    Fsync,
    /// The eventfd-based primitive.
    Esync,
}

/// What parsing a sync mode means: one of the three names, compared
/// without regard to ASCII case; no single-letter aliases.
pub open spec fn spec_parse_sync_mode(s: Seq<char>) -> Result<SyncMode, Seq<char>> {
    let l = lower_seq(s);
    if l == "none"@ {
        Ok(SyncMode::Off)
    } else if l == "fsync"@ {
        Ok(SyncMode::Fsync)
    } else if l == "esync"@ {
        Ok(SyncMode::Esync)
    } else {
        Err("Invalid sync mode: "@ + s)
    }
}

impl SyncMode {
    /// Parses a sync mode name.
    pub fn from_str(s: &str) -> (r: Result<Self, String>)
        ensures
            match r {
                Ok(m) => spec_parse_sync_mode(s@) == Ok::<SyncMode, Seq<char>>(m),
                Err(e) => spec_parse_sync_mode(s@) == Err::<SyncMode, Seq<char>>(e@),
            },
    {
        let l = to_ascii_lower(s);
        if str_eq(l.as_str(), "none") {
            Ok(SyncMode::Off)
        } else if str_eq(l.as_str(), "fsync") {
            Ok(SyncMode::Fsync)
        } else if str_eq(l.as_str(), "esync") {
            Ok(SyncMode::Esync)
        } else {
            let mut m = String::from_str("Invalid sync mode: ");
            m.append(s);
            Err(m)
        }
    }
}

} // verus!
