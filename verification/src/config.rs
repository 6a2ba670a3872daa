//! The configuration: one optional base directory, taken from the
//! command-line arguments once at startup.

use crate::error::Error;
use crate::http::request::text_of;
use vstd::prelude::*;

verus! {

/// The texts of a list of strings.
pub open spec fn texts(args: Seq<String>) -> Seq<Seq<char>> {
    Seq::new(args.len(), |i: int| args[i]@)
}

/// The first index at or after `i` at which `args` holds `flag`, or the length of `args`.
pub open spec fn flag_index(args: Seq<Seq<char>>, flag: Seq<char>, i: int) -> int
    decreases args.len() - i,
{
    if 0 <= i < args.len() && args[i] != flag {
        flag_index(args, flag, i + 1)
    } else {
        i
    }
}

/// The argument that follows the first occurrence of `flag`, if `flag`
/// occurs and something follows it.
pub open spec fn flag_value(args: Seq<Seq<char>>, flag: Seq<char>) -> Option<Seq<char>> {
    if flag_index(args, flag, 0) + 1 < args.len() {
        Some(args[flag_index(args, flag, 0) + 1])
    } else {
        None
    }
}

/// The configuration of the server.
#[allow(non_snake_case)]
#[derive(Debug)]
pub struct Config {
    /// The directory under which `/files/...` paths are resolved; the
    /// current directory where there is none.
    pub DIRECTORY: Option<String>,
}

impl Clone for Config {
    fn clone(&self) -> (copy: Self)
        ensures
            text_of(copy.DIRECTORY) == text_of(self.DIRECTORY),
    {
        Config {
            DIRECTORY: match &self.DIRECTORY {
                Some(directory) => Some(directory.clone()),
                None => None,
            },
        }
    }
}

/// The argument that follows the first occurrence of `flag` in `args`.
pub fn get_env(args: &Vec<String>, flag: &str) -> (value: Option<String>)
    ensures
        text_of(value) == flag_value(texts(args@), flag@),
{
    let wanted: String = flag.to_owned();
    let mut i: usize = 0;
    while i < args.len() && args[i] != wanted
        invariant
            i <= args.len(),
            wanted@ == flag@,
            flag_index(texts(args@), flag@, 0) == flag_index(texts(args@), flag@, i as int),
        decreases args.len() - i,
    {
        i = i + 1;
    }
    if i < args.len() && i + 1 < args.len() {
        Some(args[i + 1].clone())
    } else {
        None
    }
}

impl Config {
    /// The configuration that the command-line arguments `args` give: the
    /// directory is the argument behind `--directory`.
    pub fn load_from_env(args: &Vec<String>) -> (r: Result<Config, Error>)
        ensures
            r matches Ok(config) && text_of(config.DIRECTORY) == flag_value(
                texts(args@),
                "--directory"@,
            ),
    {
        Ok(Config { DIRECTORY: get_env(args, "--directory") })
    }
}

/// The configuration that the command-line arguments `args` give.
pub fn config(args: &Vec<String>) -> (config: Config)
    ensures
        text_of(config.DIRECTORY) == flag_value(texts(args@), "--directory"@),
{
    match Config::load_from_env(args) {
        Ok(config) => config,
        Err(_) => vstd::pervasive::unreached(),
    }
}

} // verus!
