//! Settings of a run, and the paths derived from them.

use vstd::prelude::*;
use vstd::string::StrSliceExecFns;
use crate::error::Error;
use crate::habitica::opt_text;
use crate::text::{find_char, first_at, first_line, first_line_of, last_word, last_word_of, parse_u32, parsed_u32, push_char};

verus! {

/// Where the stats ledger is kept between the steps of a session.
pub const STATS_CACHE_FILE: &'static str = "cached_habitica_stats.json";

/// Settings read from the local task manager and the environment.
/// Directories are plain path strings.
#[derive(Debug)]
pub struct Config {
    pub habitica_user_id: String,
    pub habitica_api_key: String,
    pub task_note_dir: String,
    pub task_note_prefix: String,
    pub task_note_extension: String,
    pub data_location: String,
    pub verbose: bool,
}

/// `name` under the directory `base`, as a path join does it: an absolute
/// name replaces the base, and a separator is added only where missing.
pub open spec fn joined(base: Seq<char>, name: Seq<char>) -> Seq<char> {
    if name.len() > 0 && name[0] == '/' {
        name
    } else if base.len() == 0 || base.last() == '/' {
        base + name
    } else {
        base + seq!['/'] + name
    }
}

pub fn join_path(base: &str, name: &str) -> (r: String)
    ensures
        r@ == joined(base@, name@),
{
    let nlen = name.unicode_len();
    if nlen > 0 && name.get_char(0) == '/' {
        return String::from_str(name);
    }
    let blen = base.unicode_len();
    let mut r = String::from_str(base);
    if blen > 0 && base.get_char(blen - 1) != '/' {
        push_char(&mut r, '/');
    }
    r.append(name);
    r
}

/// A parsed component, or zero where it does not parse.
pub open spec fn number_or_zero(s: Seq<char>) -> nat {
    match parsed_u32(s) {
        Some(n) => n,
        None => 0,
    }
}

/// The verdict on the output of the task manager's version query: the
/// version is the last word of its first line, and it must be at least 2.5.
/// A refusal carries the version text ("unknown" where there is no word).
pub open spec fn version_verdict(out: Seq<char>) -> Result<(), Seq<char>> {
    match last_word_of(first_line_of(out)) {
        None => Err("unknown"@),
        Some(w) => {
            let d1 = first_at(w, '.', 0);
            if d1 >= w.len() {
                Err(w)
            } else {
                let d2 = first_at(w, '.', d1 + 1);
                let major = number_or_zero(w.subrange(0, d1));
                let minor = number_or_zero(w.subrange(d1 + 1, d2));
                if major < 2 || (major == 2 && minor < 5) {
                    Err(w)
                } else {
                    Ok(())
                }
            }
        },
    }
}

/// Relies on `dirs::home_dir`: the user's home directory, if it can be
/// found, as text. Nothing is promised of its value.
#[verifier::external_body]
fn home_dir() -> (r: Option<String>) {
    dirs::home_dir().map(|p| p.to_string_lossy().into_owned())
}

/// A path with a leading `~` read as the home directory `home`.
pub open spec fn expanded(path: Seq<char>, home: Option<Seq<char>>) -> Result<Seq<char>, ()> {
    if path.len() > 0 && path[0] == '~' {
        match home {
            None => Err(()),
            Some(h) => {
                let rest = path.drop_first();
                let rest = if rest.len() > 0 && rest[0] == '/' {
                    rest.drop_first()
                } else {
                    rest
                };
                Ok(joined(h, rest))
            },
        }
    } else {
        Ok(path)
    }
}

impl Config {
    /// Accepts a task manager whose version query printed a version of at
    /// least 2.5; refuses any other with `TaskwarriorVersionTooOld`.
    pub fn check_version(version_str: &str) -> (r: Result<(), Error>)
        ensures
            match version_verdict(version_str@) {
                Ok(()) => r is Ok,
                Err(v) => r matches Err(Error::TaskwarriorVersionTooOld(x)) && x@ == v,
            },
    {
        let line = first_line(version_str);
        let version = match last_word(line) {
            Some(w) => w,
            None => {
                return Err(Error::TaskwarriorVersionTooOld(String::from_str("unknown")));
            },
        };
        let n = version.unicode_len();
        let d1 = find_char(version, '.', 0);
        if d1 >= n {
            return Err(Error::TaskwarriorVersionTooOld(String::from_str(version)));
        }
        let d2 = find_char(version, '.', d1 + 1);
        let major: u32 = match parse_u32(version, 0, d1) {
            Some(v) => v,
            None => 0,
        };
        let minor: u32 = match parse_u32(version, d1 + 1, d2) {
            Some(v) => v,
            None => 0,
        };
        if major < 2 || (major == 2 && minor < 5) {
            return Err(Error::TaskwarriorVersionTooOld(String::from_str(version)));
        }
        Ok(())
    }

    /// The file that holds the stats ledger: `cached_habitica_stats.json`
    /// in the data directory.
    pub fn stats_cache_path(&self) -> (r: String)
        ensures
            r@ == joined(self.data_location@, STATS_CACHE_FILE@),
    {
        join_path(self.data_location.as_str(), STATS_CACHE_FILE)
    }

    /// Expands a leading `~` to `home`; fails where it is needed and absent.
    pub fn expand_path_with(path: &str, home: Option<String>) -> (r: Result<String, Error>)
        ensures
            match expanded(path@, opt_text(home)) {
                Ok(p) => r matches Ok(x) && x@ == p,
                Err(_) => r matches Err(Error::ConfigError(_)),
            },
    {
        let n = path.unicode_len();
        if n > 0 && path.get_char(0) == '~' {
            match home {
                None => Err(Error::ConfigError(String::from_str("Could not determine home directory"))),
                Some(h) => {
                    let start: usize = if n > 1 && path.get_char(1) == '/' { 2 } else { 1 };
                    let rest = path.substring_char(start, n);
                    proof {
                        let r1 = path@.drop_first();
                        if n > 1 && path@[1] == '/' {
                            assert(rest@ =~= r1.drop_first());
                        } else {
                            assert(rest@ =~= r1);
                        }
                    }
                    Ok(join_path(h.as_str(), rest))
                },
            }
        } else {
            Ok(String::from_str(path))
        }
    }

    /// Expands a leading `~` to the user's home directory.
    pub fn expand_path(path: &str) -> (r: Result<String, Error>)
        ensures
            !(path@.len() > 0 && path@[0] == '~') ==> (r matches Ok(x) && x@ == path@),
            r matches Ok(x) ==> exists|home: Seq<char>| #[trigger] expanded(path@, Some(home)) == Ok::<Seq<char>, ()>(x@),
            r is Err ==> r matches Err(Error::ConfigError(_)),
    {
        let n = path.unicode_len();
        let home = if n > 0 && path.get_char(0) == '~' {
            home_dir()
        } else {
            None
        };
        let ghost h = opt_text(home);
        let r = Self::expand_path_with(path, home);
        proof {
            if r is Ok {
                let x = r->Ok_0;
                if h is Some {
                    assert(expanded(path@, Some(h->0)) == Ok::<Seq<char>, ()>(x@));
                } else {
                    assert(expanded(path@, Some(Seq::<char>::empty())) == Ok::<Seq<char>, ()>(x@));
                }
            }
        }
        r
    }

    /// A configured value, or `default` where the value is empty.
    pub fn get_taskrc_value_or_default(value: String, default: &str) -> (r: String)
        ensures
            value@.len() == 0 ==> r@ == default@,
            value@.len() > 0 ==> r@ == value@,
    {
        if value.as_str().unicode_len() == 0 {
            String::from_str(default)
        } else {
            value
        }
    }
}

} // verus!
