//! Card queries, the options of the slash commands, and where a query is
//! searched.
use vstd::prelude::*;
use crate::game::{Difficulty, GuessOptions, PlayOptions, SET_ABBR_CHAR_LIMIT};
use crate::normalise::{normalise, spec_normalise};
use crate::text::{char_count, push_str, str_eq, to_owned_string};

verus! {

/// Why the options of a command could not be read.
#[derive(Clone, Debug, PartialEq)]
pub struct ParseError {
    message: String,
}

impl ParseError {
    pub closed spec fn spec_message(&self) -> Seq<char> {
        self.message@
    }

    pub fn new(message: &str) -> (r: ParseError)
        ensures
            r.spec_message() == message@,
    {
        ParseError { message: to_owned_string(message) }
    }

    pub fn message(&self) -> (r: &str)
        ensures
            r@ == self.spec_message(),
    {
        self.message.as_str()
    }
}

/// The value given to a command option: text, or anything else.
#[derive(Clone, Debug, PartialEq)]
pub enum OptionValue {
    Text(String),
    Other,
}

/// A card query: the name searched for, and optionally the set (by code or
/// by name) or the artist it is restricted to.
#[derive(Clone, Debug, PartialEq)]
pub struct QueryParams {
    name: String,
    artist: Option<String>,
    set_code: Option<String>,
    set_name: Option<String>,
}

pub open spec fn opt_view(o: Option<String>) -> Option<Seq<char>> {
    match o {
        Some(s) => Some(s@),
        None => None,
    }
}

pub open spec fn opt_normalised(o: Option<String>) -> Option<Seq<char>> {
    match o {
        Some(s) => Some(spec_normalise(s@)),
        None => None,
    }
}

fn normalise_opt(o: Option<String>) -> (r: Option<String>)
    ensures
        opt_view(r) == opt_normalised(o),
{
    match o {
        Some(s) => Some(normalise(s.as_str())),
        None => None,
    }
}

impl QueryParams {
    pub closed spec fn spec_name(&self) -> Seq<char> {
        self.name@
    }

    pub closed spec fn spec_artist(&self) -> Option<Seq<char>> {
        opt_view(self.artist)
    }

    pub closed spec fn spec_set_code(&self) -> Option<Seq<char>> {
        opt_view(self.set_code)
    }

    pub closed spec fn spec_set_name(&self) -> Option<Seq<char>> {
        opt_view(self.set_name)
    }

    /// A query from what a user typed: the card name and the set name are
    /// normalised, the set code and the artist are kept as given.
    pub fn new(
        artist: Option<String>,
        name: String,
        set_code: Option<String>,
        set_name: Option<String>,
    ) -> (r: QueryParams)
        ensures
            r.spec_name() == spec_normalise(name@),
            r.spec_artist() == opt_view(artist),
            r.spec_set_code() == opt_view(set_code),
            r.spec_set_name() == opt_normalised(set_name),
    {
        QueryParams {
            name: normalise(name.as_str()),
            artist,
            set_code,
            set_name: normalise_opt(set_name),
        }
    }

    /// A query whose parts are taken as they are.
    pub fn from_test(
        name: String,
        artist: Option<String>,
        set_name: Option<String>,
        set_code: Option<String>,
    ) -> (r: QueryParams)
        ensures
            r.spec_name() == name@,
            r.spec_artist() == opt_view(artist),
            r.spec_set_code() == opt_view(set_code),
            r.spec_set_name() == opt_view(set_name),
    {
        QueryParams { name, artist, set_code, set_name }
    }

    /// A query from a card reference in a message: its name, the set
    /// (a code when shorter than `SET_ABBR_CHAR_LIMIT` characters, else a
    /// name) and the artist.
    pub fn from_reference(name: &str, set: Option<&str>, artist: Option<&str>) -> (r: QueryParams)
        ensures
            r.spec_name() == spec_normalise(name@),
            r.spec_artist() == (match artist {
                Some(a) => Some(a@),
                None => None,
            }),
            r.spec_set_code() == (match set {
                Some(s) => if s@.len() < SET_ABBR_CHAR_LIMIT {
                    Some(s@)
                } else {
                    None
                },
                None => None,
            }),
            r.spec_set_name() == (match set {
                Some(s) => if s@.len() < SET_ABBR_CHAR_LIMIT {
                    None
                } else {
                    Some(spec_normalise(s@))
                },
                None => None,
            }),
    {
        let artist = match artist {
            Some(a) => Some(to_owned_string(a)),
            None => None,
        };
        let (set_code, set_name) = match set {
            Some(s) => if char_count(s) < SET_ABBR_CHAR_LIMIT {
                (Some(to_owned_string(s)), None)
            } else {
                (None, Some(to_owned_string(s)))
            },
            None => (None, None),
        };
        QueryParams::new(artist, to_owned_string(name), set_code, set_name)
    }

    pub fn name(&self) -> (r: &String)
        ensures
            r@ == self.spec_name(),
    {
        &self.name
    }

    pub fn artist(&self) -> (r: Option<&String>)
        ensures
            match r {
                Some(a) => self.spec_artist() == Some(a@),
                None => self.spec_artist() is None,
            },
    {
        match &self.artist {
            Some(a) => Some(a),
            None => None,
        }
    }

    pub fn set_code(&self) -> (r: Option<&String>)
        ensures
            match r {
                Some(a) => self.spec_set_code() == Some(a@),
                None => self.spec_set_code() is None,
            },
    {
        match &self.set_code {
            Some(a) => Some(a),
            None => None,
        }
    }

    pub fn set_name(&self) -> (r: Option<&String>)
        ensures
            match r {
                Some(a) => self.spec_set_name() == Some(a@),
                None => self.spec_set_name() is None,
            },
    {
        match &self.set_name {
            Some(a) => Some(a),
            None => None,
        }
    }
}

/// Where a query is searched, first that applies: in the set of the given
/// code, in the set of the given name, among the works of the given artist,
/// or among all distinct cards.
#[derive(Clone, Debug, PartialEq)]
pub enum SearchRoute {
    SetCode(String),
    SetName(String),
    Artist(String),
    Distinct,
}

pub fn search_route(query: &QueryParams) -> (r: SearchRoute)
    ensures
        query.spec_set_code() matches Some(c) ==> (r matches SearchRoute::SetCode(x) && x@ == c),
        query.spec_set_code() is None ==> (query.spec_set_name() matches Some(n) ==> (
        r matches SearchRoute::SetName(x) && x@ == n)),
        query.spec_set_code() is None && query.spec_set_name() is None ==> (
        query.spec_artist() matches Some(a) ==> (r matches SearchRoute::Artist(x) && x@ == a)),
        query.spec_set_code() is None && query.spec_set_name() is None
            && query.spec_artist() is None ==> r is Distinct,
{
    if let Some(code) = query.set_code() {
        SearchRoute::SetCode(code.clone())
    } else if let Some(name) = query.set_name() {
        SearchRoute::SetName(name.clone())
    } else if let Some(artist) = query.artist() {
        SearchRoute::Artist(artist.clone())
    } else {
        SearchRoute::Distinct
    }
}

// ------------------------------------------------------------ command options

/// What reading the options of the play command up to the `n`th gives: the
/// set and the difficulty so far (medium unless chosen), or the first
/// error. A later option of the same name overrides an earlier one; options
/// of other names are ignored.
pub open spec fn play_fold(opts: Seq<(String, OptionValue)>, n: int) -> Result<
    (Option<Seq<char>>, Difficulty),
    Seq<char>,
>
    decreases n,
{
    if n <= 0 {
        Ok((None, Difficulty::Medium))
    } else {
        match play_fold(opts, n - 1) {
            Err(e) => Err(e),
            Ok((set, d)) => {
                let (name, value) = opts[n - 1];
                if name@ == "set"@ {
                    match value {
                        OptionValue::Text(s) => Ok((Some(s@), d)),
                        OptionValue::Other => Err("set ResolvedValue was not a string"@),
                    }
                } else if name@ == "difficulty"@ {
                    match value {
                        OptionValue::Text(s) => if s@ == "Easy"@ {
                            Ok((set, Difficulty::Easy))
                        } else if s@ == "Medium"@ {
                            Ok((set, Difficulty::Medium))
                        } else if s@ == "Hard"@ {
                            Ok((set, Difficulty::Hard))
                        } else {
                            Err("Could not parse "@ + s@ + " into difficulty"@)
                        },
                        OptionValue::Other => Err("difficulty ResolvedValue was not a string"@),
                    }
                } else {
                    Ok((set, d))
                }
            },
        }
    }
}

/// The options of the play command (see `play_fold`).
pub fn resolve_play_options(options: Vec<(String, OptionValue)>) -> (r: Result<PlayOptions, ParseError>)
    ensures
        match play_fold(options@, options@.len() as int) {
            Ok((set, d)) => r matches Ok(p) && opt_view(p.spec_set()) == set
                && p.spec_difficulty() == d,
            Err(e) => r matches Err(err) && err.spec_message() == e,
        },
{
    let mut set: Option<String> = None;
    let mut difficulty = Difficulty::Medium;
    let n = options.len();
    let mut i: usize = 0;
    while i < n
        invariant
            i <= n,
            n == options@.len(),
            play_fold(options@, i as int) == Ok::<(Option<Seq<char>>, Difficulty), Seq<char>>(
                (opt_view(set), difficulty),
            ),
        decreases n - i,
    {
        let (name, value) = &options[i];
        if str_eq(name.as_str(), "set") {
            match value {
                OptionValue::Text(s) => {
                    set = Some(s.clone());
                },
                OptionValue::Other => {
                    proof {
                        lemma_play_fold_err_sticks(options@, i + 1, n as int);
                    }
                    return Err(ParseError::new("set ResolvedValue was not a string"));
                },
            }
        } else if str_eq(name.as_str(), "difficulty") {
            match value {
                OptionValue::Text(s) => {
                    match Difficulty::from_name(s.as_str()) {
                        Some(d) => {
                            difficulty = d;
                        },
                        None => {
                            let mut m = to_owned_string("Could not parse ");
                            push_str(&mut m, s.as_str());
                            push_str(&mut m, " into difficulty");
                            proof {
                                assert(play_fold(options@, i + 1) == Err::<
                                    (Option<Seq<char>>, Difficulty),
                                    Seq<char>,
                                >(m@));
                                lemma_play_fold_err_sticks(options@, i + 1, n as int);
                            }
                            return Err(ParseError { message: m });
                        },
                    }
                },
                OptionValue::Other => {
                    proof {
                        lemma_play_fold_err_sticks(options@, i + 1, n as int);
                    }
                    return Err(ParseError::new("difficulty ResolvedValue was not a string"));
                },
            }
        }
        i += 1;
    }
    Ok(PlayOptions::new(set, difficulty))
}

/// A game is medium unless a difficulty is chosen: when no option is named
/// "difficulty", the options read give the medium difficulty.
pub proof fn lemma_play_default_medium(opts: Seq<(String, OptionValue)>, n: int)
    requires
        0 <= n <= opts.len(),
        forall|k: int| 0 <= k < n ==> (#[trigger] opts[k]).0@ != "difficulty"@,
    ensures
        play_fold(opts, n) matches Ok((_, d)) ==> d == Difficulty::Medium,
    decreases n,
{
    if n > 0 {
        lemma_play_default_medium(opts, n - 1);
    }
}

/// The last option named "difficulty" decides the difficulty: when the
/// options are read without error and the last such option holds a text,
/// the game's difficulty is the one named by that text ("Easy", "Medium" or
/// "Hard").
pub proof fn lemma_play_last_difficulty(opts: Seq<(String, OptionValue)>, k: int, s: String)
    requires
        0 <= k < opts.len(),
        opts[k].0@ == "difficulty"@,
        opts[k].1 == OptionValue::Text(s),
        forall|j: int| k < j < opts.len() ==> (#[trigger] opts[j]).0@ != "difficulty"@,
    ensures
        play_fold(opts, opts.len() as int) matches Ok((_, d)) ==> d.spec_name() == s@,
{
    lemma_play_difficulty_kept(opts, k, s, opts.len() as int);
}

proof fn lemma_play_difficulty_kept(opts: Seq<(String, OptionValue)>, k: int, s: String, n: int)
    requires
        0 <= k < n <= opts.len(),
        opts[k].0@ == "difficulty"@,
        opts[k].1 == OptionValue::Text(s),
        forall|j: int| k < j < opts.len() ==> (#[trigger] opts[j]).0@ != "difficulty"@,
    ensures
        play_fold(opts, n) matches Ok((_, d)) ==> d.spec_name() == s@,
    decreases n,
{
    reveal_strlit("Easy");
    reveal_strlit("Medium");
    reveal_strlit("Hard");
    reveal_strlit("set");
    reveal_strlit("difficulty");
    assert("set"@ != "difficulty"@) by {
        assert("set"@.len() != "difficulty"@.len());
    }
    if n > k + 1 {
        lemma_play_difficulty_kept(opts, k, s, n - 1);
        assert(opts[n - 1].0@ != "difficulty"@);
    }
}

/// The last option named "set" decides the set: when the options are read
/// without error and the last such option holds a text, the game's set is
/// that text.
pub proof fn lemma_play_last_set(opts: Seq<(String, OptionValue)>, k: int, s: String)
    requires
        0 <= k < opts.len(),
        opts[k].0@ == "set"@,
        opts[k].1 == OptionValue::Text(s),
        forall|j: int| k < j < opts.len() ==> (#[trigger] opts[j]).0@ != "set"@,
    ensures
        play_fold(opts, opts.len() as int) matches Ok((set, _)) ==> set == Some(s@),
{
    lemma_play_set_kept(opts, k, s, opts.len() as int);
}

proof fn lemma_play_set_kept(opts: Seq<(String, OptionValue)>, k: int, s: String, n: int)
    requires
        0 <= k < n <= opts.len(),
        opts[k].0@ == "set"@,
        opts[k].1 == OptionValue::Text(s),
        forall|j: int| k < j < opts.len() ==> (#[trigger] opts[j]).0@ != "set"@,
    ensures
        play_fold(opts, n) matches Ok((set, _)) ==> set == Some(s@),
    decreases n,
{
    if n > k + 1 {
        lemma_play_set_kept(opts, k, s, n - 1);
        assert(opts[n - 1].0@ != "set"@);
    }
}

/// An option that cannot be read makes the whole reading fail: a "set" or
/// "difficulty" option whose value is not text, or a "difficulty" option
/// whose text names no difficulty.
pub proof fn lemma_play_bad_option_fails(opts: Seq<(String, OptionValue)>, k: int)
    requires
        0 <= k < opts.len(),
        ({
            let (name, value) = opts[k];
            ||| (name@ == "set"@ || name@ == "difficulty"@) && value is Other
            ||| name@ == "difficulty"@ && (value matches OptionValue::Text(s) && s@ != "Easy"@
                && s@ != "Medium"@ && s@ != "Hard"@)
        }),
    ensures
        play_fold(opts, opts.len() as int) is Err,
{
    reveal_strlit("set");
    reveal_strlit("difficulty");
    assert("set"@ != "difficulty"@) by {
        assert("set"@.len() != "difficulty"@.len());
    }
    assert(play_fold(opts, k + 1) is Err);
    lemma_play_fold_err_sticks(opts, k + 1, opts.len() as int);
}

proof fn lemma_play_fold_err_sticks(opts: Seq<(String, OptionValue)>, i: int, n: int)
    requires
        0 < i <= n,
        play_fold(opts, i) is Err,
    ensures
        play_fold(opts, n) == play_fold(opts, i),
    decreases n - i,
{
    if i < n {
        lemma_play_fold_err_sticks(opts, i, n - 1);
    }
}

/// The fields of a search query read so far: card name, set name, set code
/// and artist.
pub type QueryFields = (Option<Seq<char>>, Option<Seq<char>>, Option<Seq<char>>, Option<Seq<char>>);

/// What reading the options of the search command up to the `n`th gives: a
/// set shorter than `SET_ABBR_CHAR_LIMIT` characters is a code, a longer one
/// a name; a later option overrides an earlier one of the same field; the
/// first value that is not text is an error.
pub open spec fn query_fold(opts: Seq<(String, OptionValue)>, n: int) -> Result<QueryFields, Seq<char>>
    decreases n,
{
    if n <= 0 {
        Ok((None, None, None, None))
    } else {
        match query_fold(opts, n - 1) {
            Err(e) => Err(e),
            Ok((card, set_name, set_code, artist)) => {
                let (name, value) = opts[n - 1];
                if name@ == "name"@ {
                    match value {
                        OptionValue::Text(s) => Ok((Some(s@), set_name, set_code, artist)),
                        OptionValue::Other => Err("Name was not a string"@),
                    }
                } else if name@ == "set"@ {
                    match value {
                        OptionValue::Text(s) => if s@.len() < SET_ABBR_CHAR_LIMIT {
                            Ok((card, set_name, Some(s@), artist))
                        } else {
                            Ok((card, Some(s@), set_code, artist))
                        },
                        OptionValue::Other => Err("Name was not a string"@),
                    }
                } else if name@ == "artist"@ {
                    match value {
                        OptionValue::Text(s) => Ok((card, set_name, set_code, Some(s@))),
                        OptionValue::Other => Err("Artist was not a string"@),
                    }
                } else {
                    Ok((card, set_name, set_code, artist))
                }
            },
        }
    }
}

proof fn lemma_query_fold_err_sticks(opts: Seq<(String, OptionValue)>, i: int, n: int)
    requires
        0 < i <= n,
        query_fold(opts, i) is Err,
    ensures
        query_fold(opts, n) == query_fold(opts, i),
    decreases n - i,
{
    if i < n {
        lemma_query_fold_err_sticks(opts, i, n - 1);
    }
}

/// The options of the search command: the read fields (see `query_fold`)
/// made into a query by `QueryParams::new`, or an error when no name was
/// given.
pub fn resolve_query_params(options: Vec<(String, OptionValue)>) -> (r: Result<QueryParams, ParseError>)
    ensures
        match query_fold(options@, options@.len() as int) {
            Err(e) => r matches Err(err) && err.spec_message() == e,
            Ok((None, _, _, _)) => r matches Err(err) && err.spec_message()
                == "No name found in query params"@,
            Ok((Some(card), set_name, set_code, artist)) => r matches Ok(q) && q.spec_name()
                == spec_normalise(card) && q.spec_artist() == artist && q.spec_set_code()
                == set_code && q.spec_set_name() == (match set_name {
                Some(s) => Some(spec_normalise(s)),
                None => None,
            }),
        },
{
    let mut card_name: Option<String> = None;
    let mut set_name: Option<String> = None;
    let mut set_code: Option<String> = None;
    let mut artist: Option<String> = None;
    let n = options.len();
    let mut i: usize = 0;
    while i < n
        invariant
            i <= n,
            n == options@.len(),
            query_fold(options@, i as int) == Ok::<QueryFields, Seq<char>>(
                (opt_view(card_name), opt_view(set_name), opt_view(set_code), opt_view(artist)),
            ),
        decreases n - i,
    {
        let (name, value) = &options[i];
        if str_eq(name.as_str(), "name") {
            match value {
                OptionValue::Text(s) => {
                    card_name = Some(s.clone());
                },
                OptionValue::Other => {
                    proof {
                        lemma_query_fold_err_sticks(options@, i + 1, n as int);
                    }
                    return Err(ParseError::new("Name was not a string"));
                },
            }
        } else if str_eq(name.as_str(), "set") {
            match value {
                OptionValue::Text(s) => {
                    if char_count(s.as_str()) < SET_ABBR_CHAR_LIMIT {
                        set_code = Some(s.clone());
                    } else {
                        set_name = Some(s.clone());
                    }
                },
                OptionValue::Other => {
                    proof {
                        lemma_query_fold_err_sticks(options@, i + 1, n as int);
                    }
                    return Err(ParseError::new("Name was not a string"));
                },
            }
        } else if str_eq(name.as_str(), "artist") {
            match value {
                OptionValue::Text(s) => {
                    artist = Some(s.clone());
                },
                OptionValue::Other => {
                    proof {
                        lemma_query_fold_err_sticks(options@, i + 1, n as int);
                    }
                    return Err(ParseError::new("Artist was not a string"));
                },
            }
        }
        i += 1;
    }
    match card_name {
        None => Err(ParseError::new("No name found in query params")),
        Some(name) => Ok(QueryParams::new(artist, name, set_code, set_name)),
    }
}

/// The options of the guess command: the text of the first option, whatever
/// its name.
pub fn resolve_guess_options(options: Vec<(String, OptionValue)>) -> (r: Result<GuessOptions, ParseError>)
    ensures
        options@.len() == 0 ==> (r matches Err(e) && e.spec_message() == "Could not get first option"@),
        options@.len() > 0 ==> match options@[0].1 {
            OptionValue::Text(s) => r matches Ok(g) && g.spec_guess() == s@,
            OptionValue::Other => r matches Err(e) && e.spec_message()
                == "ResolvedValue was not a string"@,
        },
{
    if options.len() == 0 {
        return Err(ParseError::new("Could not get first option"));
    }
    match &options[0].1 {
        OptionValue::Text(s) => Ok(GuessOptions::new(s.clone())),
        OptionValue::Other => Err(ParseError::new("ResolvedValue was not a string")),
    }
}

// ------------------------------------------------------------ message references

/// The card references that the pattern `[[name | set=... | artist=...]]`
/// finds in a message, in order: the name, the set and the artist as the
/// pattern's groups capture them.
pub uninterp spec fn spec_card_references(msg: Seq<char>) -> Seq<(Seq<char>, Option<Seq<char>>, Option<Seq<char>>)>;

pub open spec fn reference_view(r: (String, Option<String>, Option<String>)) -> (Seq<char>, Option<Seq<char>>, Option<Seq<char>>) {
    (r.0@, opt_view(r.1), opt_view(r.2))
}

/// `regex::Regex::captures_iter` over a message of the card query pattern
/// (case-insensitive: `[[`, the name, taken lazily, an optional
/// `| set = ...`, an optional `| artist = ...`, and `]]`), each
/// match given by its groups 1 (name), 4 (set) and 7 (artist). The claim:
/// the result depends on the message's characters alone.
#[verifier::external_body]
fn card_references(msg: &str) -> (r: Vec<(String, Option<String>, Option<String>)>)
    ensures
        r@.map_values(|c: (String, Option<String>, Option<String>)| reference_view(c))
            == spec_card_references(msg@),
{
    let re = regex::Regex::new(
        r"(?i)\[\[(.*?)(:?(?:\s)*\|(?:\s)*(:?set(?:\s)*=(?:\s)*(.*?)?)?)?(:?(?:\s)*\|(?:\s)*(:?artist(?:\s)*=(?:\s)*(.*?)?)?)?]]",
    ).expect("the pattern is valid");
    re.captures_iter(msg).map(|c| (
        c[1].to_string(),
        c.get(4).map(|m| m.as_str().to_string()),
        c.get(7).map(|m| m.as_str().to_string()),
    )).collect()
}

/// The query of one reference (see `QueryParams::from_reference`).
pub open spec fn reference_query(
    c: (Seq<char>, Option<Seq<char>>, Option<Seq<char>>),
    q: QueryParams,
) -> bool {
    &&& q.spec_name() == spec_normalise(c.0)
    &&& q.spec_artist() == c.2
    &&& q.spec_set_code() == (match c.1 {
        Some(s) => if s.len() < SET_ABBR_CHAR_LIMIT {
            Some(s)
        } else {
            None
        },
        None => None,
    })
    &&& q.spec_set_name() == (match c.1 {
        Some(s) => if s.len() < SET_ABBR_CHAR_LIMIT {
            None
        } else {
            Some(spec_normalise(s))
        },
        None => None,
    })
}

/// The queries of the card references in a message, in order.
pub fn message_queries(msg: &str) -> (r: Vec<QueryParams>)
    ensures
        r@.len() == spec_card_references(msg@).len(),
        forall|i: int|
            0 <= i < r@.len() ==> reference_query(spec_card_references(msg@)[i], #[trigger] r@[i]),
{
    let refs = card_references(msg);
    let ghost caps = spec_card_references(msg@);
    assert(refs@.len() == caps.len()) by {
        assert(refs@.map_values(|c: (String, Option<String>, Option<String>)| reference_view(c)).len() == refs@.len());
    }
    let mut out: Vec<QueryParams> = Vec::new();
    let mut i: usize = 0;
    while i < refs.len()
        invariant
            i <= refs@.len(),
            refs@.len() == caps.len(),
            caps == refs@.map_values(|c: (String, Option<String>, Option<String>)| reference_view(c)),
            out@.len() == i,
            forall|k: int| 0 <= k < i ==> reference_query(caps[k], #[trigger] out@[k]),
        decreases refs@.len() - i,
    {
        let (name, set, artist) = &refs[i];
        let set_ref = match set {
            Some(s) => Some(s.as_str()),
            None => None,
        };
        let artist_ref = match artist {
            Some(a) => Some(a.as_str()),
            None => None,
        };
        let q = QueryParams::from_reference(name.as_str(), set_ref, artist_ref);
        assert(caps[i as int] == reference_view(refs@[i as int]));
        out.push(q);
        i += 1;
    }
    out
}

} // verus!
