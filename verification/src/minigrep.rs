//! A line search: the lines of a text that hold a query.
//!
//! Reading the text and printing the lines is the caller's. Splitting into
//! lines, looking for the query and lowering the case are std's.

use vstd::prelude::*;
use vstd::string::StringExecFns;
use crate::text::{contains, lines, lines_of, lowercase, occurs_in, texts, to_lowercase};

verus! {

/// What went wrong in a search.
#[derive(Debug, Clone)]
pub enum Error {
    /// An argument was not given: its name.
    MissingArg(&'static str),
    /// The text could not be read.
    IO(String),
    /// Something else failed.
    Runtime(String),
    /// No line holds the query.
    NoResults,
}

/// The message of the error for a file that could not be read: one text for
/// a file that was not found, another for every other failure, each followed
/// by what the failure says of itself.
pub open spec fn io_message(not_found: bool, detail: Seq<char>) -> Seq<char> {
    if not_found {
        "file not found: "@ + detail
    } else {
        "unexpected IO Error: "@ + detail
    }
}

impl Error {
    /// The error for a file that could not be read. `not_found` says whether
    /// the file was not there, `detail` is what the failure says of itself.
    pub fn from_io(not_found: bool, detail: &str) -> (e: Error)
        ensures
            e matches Error::IO(message) && message@ == io_message(not_found, detail@),
    {
        let prefix = if not_found {
            "file not found: "
        } else {
            "unexpected IO Error: "
        };
        let mut message = String::from_str(prefix);
        message.append(detail);
        Error::IO(message)
    }
}

/// Those of `lines` whose key holds `query`, in their order. The key of a
/// line is what stands at the line's place in `keys`; a line without a key is
/// left out.
pub open spec fn select(lines: Seq<Seq<char>>, keys: Seq<Seq<char>>, query: Seq<char>) -> Seq<
    Seq<char>,
>
    decreases lines.len(),
{
    if lines.len() == 0 {
        Seq::empty()
    } else {
        let before = select(lines.drop_last(), keys, query);
        let at = lines.len() - 1;
        if at < keys.len() && occurs_in(query, keys[at]) {
            before.push(lines.last())
        } else {
            before
        }
    }
}

/// Each of `texts` in lower case.
pub open spec fn lowered(texts: Seq<Seq<char>>) -> Seq<Seq<char>> {
    Seq::new(texts.len(), |i: int| lowercase(texts[i]))
}

/// The lines of `contents` that hold `query`.
pub open spec fn search_result(query: Seq<char>, contents: Seq<char>) -> Seq<Seq<char>> {
    select(lines_of(contents), lines_of(contents), query)
}

/// The lines of `contents` that hold `query`, the case of letters set aside:
/// those whose lower case holds the lower case of the query.
pub open spec fn search_case_insensitive_result(query: Seq<char>, contents: Seq<char>) -> Seq<
    Seq<char>,
> {
    select(lines_of(contents), lowered(lines_of(contents)), lowercase(query))
}

/// Those of `lines` whose key holds `query`, in their order.
pub fn keep_lines<'a>(lines: &Vec<&'a str>, keys: &Vec<&str>, query: &str) -> (kept: Vec<&'a str>)
    ensures
        texts(kept@) == select(texts(lines@), texts(keys@), query@),
{
    let mut kept: Vec<&'a str> = Vec::new();
    let mut i: usize = 0;
    assert(texts(lines@).take(0) =~= Seq::<Seq<char>>::empty());
    while i < lines.len()
        invariant
            i <= lines.len(),
            texts(kept@) == select(texts(lines@).take(i as int), texts(keys@), query@),
        decreases lines.len() - i,
    {
        let ghost before = kept@;
        let keep = i < keys.len() && contains(keys[i], query);
        if keep {
            kept.push(lines[i]);
        }
        proof {
            let l = texts(lines@).take(i + 1);
            assert(l.drop_last() =~= texts(lines@).take(i as int));
            assert(l.last() == lines@[i as int]@);
            if keep {
                assert(texts(kept@) =~= texts(before).push(lines@[i as int]@));
            }
        }
        i += 1;
    }
    assert(texts(lines@).take(i as int) =~= texts(lines@));
    kept
}

/// The lines of `contents` that hold `query`, in their order.
pub fn search<'a>(query: &str, contents: &'a str) -> (found: Vec<&'a str>)
    ensures
        texts(found@) == search_result(query@, contents@),
{
    let all = lines(contents);
    keep_lines(&all, &all, query)
}

/// The lines of `contents` that hold `query`, the case of letters set aside.
pub fn search_case_insensitive<'a>(query: &str, contents: &'a str) -> (found: Vec<&'a str>)
    ensures
        texts(found@) == search_case_insensitive_result(query@, contents@),
{
    let query = to_lowercase(query);
    let all = lines(contents);
    let mut low: Vec<String> = Vec::new();
    let mut i: usize = 0;
    while i < all.len()
        invariant
            i <= all.len(),
            low.len() == i,
            forall|k: int| 0 <= k < i ==> (#[trigger] low[k])@ == lowercase(all[k]@),
        decreases all.len() - i,
    {
        low.push(to_lowercase(all[i]));
        i += 1;
    }
    let mut keys: Vec<&str> = Vec::new();
    let mut j: usize = 0;
    while j < low.len()
        invariant
            j <= low.len(),
            keys.len() == j,
            forall|k: int| 0 <= k < j ==> (#[trigger] keys[k])@ == low[k]@,
        decreases low.len() - j,
    {
        keys.push(low[j].as_str());
        j += 1;
    }
    assert(texts(keys@) =~= lowered(texts(all@)));
    keep_lines(&all, &keys, query.as_str())
}

/// Whether a setting says yes: whether it is `1`, `true` or `ok`, the case
/// of letters set aside.
pub open spec fn affirmative(value: Seq<char>) -> bool {
    let value = lowercase(value);
    value == lowercase("1"@) || value == lowercase("true"@) || value == lowercase("ok"@)
}

/// Whether `value` is one of `first`, `second` and `third`.
pub fn is_one_of(value: &String, first: &String, second: &String, third: &String) -> (found: bool)
    ensures
        found == (value@ == first@ || value@ == second@ || value@ == third@),
{
    *value == *first || *value == *second || *value == *third
}

/// Whether `value` says yes.
pub fn is_affirmative(value: &str) -> (found: bool)
    ensures
        found == affirmative(value@),
{
    let value = to_lowercase(value);
    let first = to_lowercase("1");
    let second = to_lowercase("true");
    let third = to_lowercase("ok");
    is_one_of(&value, &first, &second, &third)
}

/// What one search is about.
pub struct Config {
    query: String,
    filename: String,
    case_insensitive: bool,
}

/// What a configuration is.
pub struct ConfigModel {
    pub query: Seq<char>,
    pub filename: Seq<char>,
    pub case_insensitive: bool,
}

impl View for Config {
    type V = ConfigModel;

    closed spec fn view(&self) -> ConfigModel {
        ConfigModel {
            query: self.query@,
            filename: self.filename@,
            case_insensitive: self.case_insensitive,
        }
    }
}

/// The configuration that the arguments of the program and the setting of the
/// case give, or the name of the argument that is missing.
///
/// The first argument is the program's name, the second the query, the third
/// the name of the file. Where the setting of the case is given, it counts if
/// it is affirmative.
pub open spec fn config_of(args: Seq<Seq<char>>, setting: Option<Seq<char>>) -> Result<
    ConfigModel,
    Seq<char>,
> {
    if args.len() < 2 {
        Err("query"@)
    } else if args.len() < 3 {
        Err("filename"@)
    } else {
        Ok(
            ConfigModel {
                query: args[1],
                filename: args[2],
                case_insensitive: match setting {
                    Some(value) => affirmative(value),
                    None => false,
                },
            },
        )
    }
}

/// What each of `args` holds.
pub open spec fn arg_texts(args: Seq<String>) -> Seq<Seq<char>> {
    Seq::new(args.len(), |i: int| args[i]@)
}

impl Config {
    /// The configuration that the arguments of the program give, `setting`
    /// being the setting of the case where there is one.
    pub fn from_values(args: &Vec<String>, setting: Option<&str>) -> (r: Result<Config, Error>)
        ensures
            match r {
                Ok(config) => config_of(
                    arg_texts(args@),
                    match setting {
                        Some(value) => Some(value@),
                        None => None,
                    },
                ) == Ok::<ConfigModel, Seq<char>>(config@),
                Err(Error::MissingArg(name)) => config_of(
                    arg_texts(args@),
                    match setting {
                        Some(value) => Some(value@),
                        None => None,
                    },
                ) == Err::<ConfigModel, Seq<char>>(name@),
                Err(_) => false,
            },
    {
        if args.len() < 2 {
            return Err(Error::MissingArg("query"));
        }
        if args.len() < 3 {
            return Err(Error::MissingArg("filename"));
        }
        let case_insensitive = match setting {
            Some(value) => is_affirmative(value),
            None => false,
        };
        Ok(Config { query: args[1].clone(), filename: args[2].clone(), case_insensitive })
    }

    /// The name of the file to search in.
    pub fn filename(&self) -> (name: &str)
        ensures
            name@ == self@.filename,
    {
        self.filename.as_str()
    }

    /// What to look for.
    pub fn query(&self) -> (query: &str)
        ensures
            query@ == self@.query,
    {
        self.query.as_str()
    }

    /// Whether the case of letters is set aside.
    pub fn case_insensitive(&self) -> (b: bool)
        ensures
            b == self@.case_insensitive,
    {
        self.case_insensitive
    }
}

/// The lines that a search finds in `contents`, or that it finds none.
pub open spec fn run_result(config: ConfigModel, contents: Seq<char>) -> Result<
    Seq<Seq<char>>,
    Error,
> {
    let found = if config.case_insensitive {
        search_case_insensitive_result(config.query, contents)
    } else {
        search_result(config.query, contents)
    };
    if found.len() > 0 {
        Ok(found)
    } else {
        Err(Error::NoResults)
    }
}

/// Searches `contents` as `cfg` says. A search that finds no line fails.
pub fn find_lines<'a>(cfg: &Config, contents: &'a str) -> (r: Result<Vec<&'a str>, Error>)
    ensures
        match r {
            Ok(found) => run_result(cfg@, contents@) == Ok::<Seq<Seq<char>>, Error>(texts(found@)),
            Err(e) => run_result(cfg@, contents@) == Err::<Seq<Seq<char>>, Error>(e),
        },
{
    let found = if cfg.case_insensitive() {
        search_case_insensitive(cfg.query(), contents)
    } else {
        search(cfg.query(), contents)
    };
    if found.len() > 0 {
        Ok(found)
    } else {
        Err(Error::NoResults)
    }
}

} // verus!
