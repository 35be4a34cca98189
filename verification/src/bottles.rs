//! Where the runtime-bundle manager keeps its data: the data root under the
//! user's home, and the directories holding prefixes and runners. Listing
//! the entries of those directories is the caller's I/O.

use vstd::prelude::*;

use crate::strings::{lower_seq, str_eq, to_ascii_lower};

verus! {

/// What an asset listing shows.
#[derive(Debug, Clone, Copy, PartialEq, Eq, Structural)]
pub enum Category {
    All,
    PrefixesOnly,
    RunnersOnly,
}

/// What parsing a listing category means.
pub open spec fn spec_parse_category(s: Seq<char>) -> Result<Category, Seq<char>> {
    let l = lower_seq(s);
    if l == "all"@ || l == "a"@ {
        Ok(Category::All)
    } else if l == "prefixes"@ || l == "p"@ {
        Ok(Category::PrefixesOnly)
    } else if l == "runners"@ || l == "r"@ {
        Ok(Category::RunnersOnly)
    } else {
        Err("invalid category: "@ + s)
    }
}

impl Category {
    /// Parses a listing category name or its single-letter alias.
    pub fn from_str(s: &str) -> (r: Result<Self, String>)
        ensures
            match r {
                Ok(c) => spec_parse_category(s@) == Ok::<Category, Seq<char>>(c),
                Err(e) => spec_parse_category(s@) == Err::<Category, Seq<char>>(e@),
            },
    {
        let l = to_ascii_lower(s);
        if str_eq(l.as_str(), "all") || str_eq(l.as_str(), "a") {
            Ok(Category::All)
        } else if str_eq(l.as_str(), "prefixes") || str_eq(l.as_str(), "p") {
            Ok(Category::PrefixesOnly)
        } else if str_eq(l.as_str(), "runners") || str_eq(l.as_str(), "r") {
            Ok(Category::RunnersOnly)
        } else {
            let mut m = String::from_str("invalid category: ");
            m.append(s);
            Err(m)
        }
    }
}

/// The path where the runtime-bundle manager stores its data, under the
/// given home directory.
pub fn get_data_root(home_dir: &str) -> (r: String)
    ensures
        r@ == home_dir@ + "/.var/app/com.usebottles.bottles/data/bottles"@,
{
    let mut s = String::from_str(home_dir);
    s.append("/.var/app/com.usebottles.bottles/data/bottles");
    s
}

/// The directory under the data root whose subdirectories are the
/// installed prefixes; the caller enumerates it.
pub fn list_prefixes(data_root: &str) -> (r: String)
    ensures
        r@ == data_root@ + "/bottles"@,
{
    let mut s = String::from_str(data_root);
    s.append("/bottles");
    s
}

/// The directory under the data root whose subdirectories are the
/// installed runners; the caller enumerates it.
pub fn list_runners(data_root: &str) -> (r: String)
    ensures
        r@ == data_root@ + "/runners"@,
{
    let mut s = String::from_str(data_root);
    s.append("/runners");
    s
}

} // verus!
