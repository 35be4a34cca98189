//! Resolves the user and group id to use inside the user namespace, either
//! drawn randomly from a safe band or parsed from explicit `UID:GID` input.

use vstd::prelude::*;

use rand::Rng;

use crate::strings::{
    dec_str, lemma_split_len, lower_seq, spec_parse_u32, spec_split, split_char, str_eq,
    to_ascii_lower, parse_u32, u32_to_string,
};

verus! {

/// Smallest id used for mappings: stays clear of real system and user
/// accounts and of the ranges other container ecosystems hand out.
pub const MIN_ID: u32 = 300000;

/// Largest id used for mappings: ids beyond the maximum of a signed 32-bit
/// integer can make namespace creation fail on common kernels.
pub const MAX_ID: u32 = 2147483647;

/// How a user mapping string can be rejected.
#[derive(Debug, PartialEq)]
pub enum UserMappingError {
    /// The string is neither `random` nor of the `UID:GID` shape.
    InvalidFormat(String),
    /// A component is not an unsigned integer.
    InvalidId(String),
    /// A component is an integer outside the allowed band.
    OutOfRangeId(u32),
}

/// Model of a user mapping rejection.
pub enum UserMappingErrorModel {
    InvalidFormat(Seq<char>),
    InvalidId(Seq<char>),
    OutOfRangeId(u32),
}

impl View for UserMappingError {
    type V = UserMappingErrorModel;

    open spec fn view(&self) -> UserMappingErrorModel {
        match self {
            UserMappingError::InvalidFormat(s) => UserMappingErrorModel::InvalidFormat(s@),
            UserMappingError::InvalidId(s) => UserMappingErrorModel::InvalidId(s@),
            UserMappingError::OutOfRangeId(v) => UserMappingErrorModel::OutOfRangeId(*v),
        }
    }
}

pub open spec fn spec_user_mapping_error_message(e: UserMappingErrorModel) -> Seq<char> {
    match e {
        UserMappingErrorModel::InvalidFormat(s) => "Expected UID:GID format, but got: "@ + s,
        UserMappingErrorModel::InvalidId(s) => "Input is not a valid ID: "@ + s,
        UserMappingErrorModel::OutOfRangeId(v) => "Value must be between 300000 and 2147483647, but got: "@
            + dec_str(v as nat),
    }
}

impl UserMappingError {
    /// Human-readable description, naming the offending input and, for a
    /// range violation, the violated bounds.
    pub fn message(&self) -> (r: String)
        ensures
            r@ == spec_user_mapping_error_message(self@),
    {
        match self {
            UserMappingError::InvalidFormat(s) => {
                let mut m = String::from_str("Expected UID:GID format, but got: ");
                m.append(s.as_str());
                m
            },
            UserMappingError::InvalidId(s) => {
                let mut m = String::from_str("Input is not a valid ID: ");
                m.append(s.as_str());
                m
            },
            UserMappingError::OutOfRangeId(v) => {
                let mut m = String::from_str("Value must be between 300000 and 2147483647, but got: ");
                m.append(u32_to_string(*v).as_str());
                m
            },
        }
    }
}

/// What parsing one id component means: it must be an unsigned integer
/// (failing as not-a-number otherwise) within the allowed band (failing as
/// out-of-range otherwise, echoing the value).
pub open spec fn spec_parse_id(s: Seq<char>) -> Result<u32, UserMappingErrorModel> {
    match spec_parse_u32(s) {
        None => Err(UserMappingErrorModel::InvalidId(s)),
        Some(v) => if v < MIN_ID || v > MAX_ID {
            Err(UserMappingErrorModel::OutOfRangeId(v))
        } else {
            Ok(v)
        },
    }
}

/// Parses one id component of a `UID:GID` mapping.
pub fn parse_id(id: &str) -> (r: Result<u32, UserMappingError>)
    ensures
        match r {
            Ok(v) => spec_parse_id(id@) == Ok::<u32, UserMappingErrorModel>(v),
            Err(e) => spec_parse_id(id@) == Err::<u32, UserMappingErrorModel>(e@),
        },
{
    let value = match parse_u32(id) {
        Some(v) => v,
        None => {
            return Err(UserMappingError::InvalidId(String::from_str(id)));
        },
    };
    if value < MIN_ID || value > MAX_ID {
        return Err(UserMappingError::OutOfRangeId(value));
    }
    Ok(value)
}

/// Represents a user mapping configuration.
#[derive(Debug, Clone, Copy, PartialEq)]
pub enum UserMapping {
    /// Use random user and group ids.
    Random,
    /// Explicitly specified user and group ids.
    Custom(u32, u32),
}

/// Relies on rand::Rng::gen_range through rand::thread_rng: returns a value
/// within the given inclusive bounds and panics only on an empty range,
/// which the precondition rules out.
#[verifier::external_body]
fn random_id_in(lo: u32, hi: u32) -> (r: u32)
    requires
        lo <= hi,
    ensures
        lo <= r <= hi,
{
    rand::thread_rng().gen_range(lo..=hi)
}

/// What parsing a user mapping string means: `random`, compared without
/// regard to ASCII case, selects the random mapping; otherwise the string
/// must be two `:`-separated components, each an id in the allowed band.
pub open spec fn spec_parse_user_mapping(s: Seq<char>) -> Result<
    UserMapping,
    UserMappingErrorModel,
> {
    if lower_seq(s) == "random"@ {
        Ok(UserMapping::Random)
    } else {
        let parts = spec_split(s, ':');
        if parts.len() != 2 {
            Err(UserMappingErrorModel::InvalidFormat(s))
        } else {
            match spec_parse_id(parts[0]) {
                Err(e) => Err(e),
                Ok(uid) => match spec_parse_id(parts[1]) {
                    Err(e) => Err(e),
                    Ok(gid) => Ok(UserMapping::Custom(uid, gid)),
                },
            }
        }
    }
}

impl UserMapping {
    /// Parses a user mapping string.
    pub fn from_str(s: &str) -> (r: Result<Self, UserMappingError>)
        ensures
            match r {
                Ok(m) => spec_parse_user_mapping(s@) == Ok::<UserMapping, UserMappingErrorModel>(
                    m,
                ),
                Err(e) => spec_parse_user_mapping(s@) == Err::<
                    UserMapping,
                    UserMappingErrorModel,
                >(e@),
            },
    {
        let lowered = to_ascii_lower(s);
        if str_eq(lowered.as_str(), "random") {
            return Ok(UserMapping::Random);
        }
        let parts = split_char(s, ':');
        proof {
            lemma_split_len(s@, ':');
        }
        if parts.len() != 2 {
            return Err(UserMappingError::InvalidFormat(String::from_str(s)));
        }
        let uid = match parse_id(parts[0].as_str()) {
            Ok(v) => v,
            Err(e) => {
                return Err(e);
            },
        };
        let gid = match parse_id(parts[1].as_str()) {
            Ok(v) => v,
            Err(e) => {
                return Err(e);
            },
        };
        Ok(UserMapping::Custom(uid, gid))
    }

    /// The ids this mapping resolves to: a random mapping draws the user and
    /// group id independently from the allowed band; a custom mapping hands
    /// back exactly its ids.
    pub fn get_uid_gid(&self) -> (r: (u32, u32))
        ensures
            match self {
                UserMapping::Random => MIN_ID <= r.0 <= MAX_ID && MIN_ID <= r.1 <= MAX_ID,
                UserMapping::Custom(uid, gid) => r.0 == uid && r.1 == gid,
            },
    {
        match self {
            UserMapping::Random => {
                let random_uid = random_id_in(MIN_ID, MAX_ID);
                let random_gid = random_id_in(MIN_ID, MAX_ID);
                (random_uid, random_gid)
            },
            UserMapping::Custom(uid, gid) => (*uid, *gid),
        }
    }

    /// The resolved ids, rendered in decimal.
    pub fn get_uid_gid_string(&self) -> (r: (String, String))
        ensures
            exists|uid: u32, gid: u32|
                {
                    &&& r.0@ == dec_str(uid as nat)
                    &&& r.1@ == dec_str(gid as nat)
                    &&& match self {
                        UserMapping::Random => MIN_ID <= uid <= MAX_ID && MIN_ID <= gid <= MAX_ID,
                        UserMapping::Custom(u, g) => uid == u && gid == g,
                    }
                },
    {
        let (uid, gid) = self.get_uid_gid();
        let r = (u32_to_string(uid), u32_to_string(gid));
        assert(r.0@ == dec_str(uid as nat) && r.1@ == dec_str(gid as nat));
        r
    }
}

} // verus!
