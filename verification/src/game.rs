//! The card guessing game: difficulty, the state of a game in a channel,
//! how a guess is judged and what the players are told.
use vstd::prelude::*;
use vstd::string::StringSliceAdditionalSpecFns;
use crate::card::Card;
use crate::embed::{create_embed, create_game_embed, reveal_stage, spec_card_embed, spec_game_embed, EmbedContent};
use crate::fuzzy::{jaro_winkler_ascii_bitmask, jaro_winkler_spec, score_gt, MAX_FUZZY_LEN};
use crate::normalise::{normalise, spec_normalise};
use crate::text::{str_eq, char_count, decimal, push_decimal, push_str, to_owned_string, utf8};

verus! {

/// How hard a game is.
#[derive(Clone, Copy, Debug, PartialEq, Eq, Structural)]
pub enum Difficulty {
    Easy,
    Medium,
    Hard,
}

impl Difficulty {
    /// The name a difficulty is shown and chosen by.
    pub open spec fn spec_name(self) -> Seq<char> {
        match self {
            Difficulty::Easy => "Easy"@,
            Difficulty::Medium => "Medium"@,
            Difficulty::Hard => "Hard"@,
        }
    }

    /// Number of wrong guesses after which each further clue is revealed.
    pub open spec fn spec_multiplier(self) -> usize {
        match self {
            Difficulty::Hard => 3,
            Difficulty::Medium => 2,
            Difficulty::Easy => 1,
        }
    }

    /// Number of guesses a game allows.
    pub open spec fn spec_max_guesses(self) -> usize {
        match self {
            Difficulty::Hard => 4,
            Difficulty::Medium => 6,
            Difficulty::Easy => 8,
        }
    }

    /// The name of the difficulty, as it is displayed.
    pub fn to_string(&self) -> (r: String)
        ensures
            r@ == self.spec_name(),
    {
        match self {
            Difficulty::Easy => to_owned_string("Easy"),
            Difficulty::Medium => to_owned_string("Medium"),
            Difficulty::Hard => to_owned_string("Hard"),
        }
    }

    /// The difficulty of a name, or `None` for any other text.
    pub fn from_name(name: &str) -> (r: Option<Difficulty>)
        ensures
            r == (if name@ == "Easy"@ {
                Some(Difficulty::Easy)
            } else if name@ == "Medium"@ {
                Some(Difficulty::Medium)
            } else if name@ == "Hard"@ {
                Some(Difficulty::Hard)
            } else {
                None
            }),
    {
        if crate::text::str_eq(name, "Easy") {
            Some(Difficulty::Easy)
        } else if crate::text::str_eq(name, "Medium") {
            Some(Difficulty::Medium)
        } else if crate::text::str_eq(name, "Hard") {
            Some(Difficulty::Hard)
        } else {
            None
        }
    }
}

/// The game being played in one channel: the card to guess, the
/// difficulty and how many guesses have been made.
#[derive(Clone, Debug)]
pub struct GameState {
    card: Card,
    difficulty: Difficulty,
    guess_number: usize,
}

impl GameState {
    pub closed spec fn spec_card(&self) -> Card {
        self.card
    }

    pub closed spec fn spec_difficulty(&self) -> Difficulty {
        self.difficulty
    }

    pub closed spec fn spec_guesses(&self) -> usize {
        self.guess_number
    }

    /// A new game on `card` with no guess made yet.
    pub fn from(card: Card, difficulty: Difficulty) -> (r: GameState)
        ensures
            r.spec_card() == card,
            r.spec_difficulty() == difficulty,
            r.spec_guesses() == 0,
    {
        GameState { card, difficulty, guess_number: 0 }
    }

    /// A game rebuilt from its parts, as it was stored.
    pub fn from_parts(card: Card, difficulty: Difficulty, guess_number: usize) -> (r: GameState)
        ensures
            r.spec_card() == card,
            r.spec_difficulty() == difficulty,
            r.spec_guesses() == guess_number,
    {
        GameState { card, difficulty, guess_number }
    }

    /// The parts of a game, to be stored.
    pub fn into_parts(self) -> (r: (Card, Difficulty, usize))
        ensures
            r == (self.spec_card(), self.spec_difficulty(), self.spec_guesses()),
    {
        (self.card, self.difficulty, self.guess_number)
    }

    pub fn multiplier(&self) -> (r: usize)
        ensures
            r == self.spec_difficulty().spec_multiplier(),
    {
        match self.difficulty {
            Difficulty::Hard => 3,
            Difficulty::Medium => 2,
            Difficulty::Easy => 1,
        }
    }

    pub fn guesses(&self) -> (r: usize)
        ensures
            r == self.spec_guesses(),
    {
        self.guess_number
    }

    pub fn max_guesses(&self) -> (r: usize)
        ensures
            r == self.spec_difficulty().spec_max_guesses(),
    {
        match self.difficulty {
            Difficulty::Hard => 4,
            Difficulty::Medium => 6,
            Difficulty::Easy => 8,
        }
    }

    pub fn difficulty(&self) -> (r: &Difficulty)
        ensures
            *r == self.spec_difficulty(),
    {
        &self.difficulty
    }

    pub fn card(&self) -> (r: &Card)
        ensures
            *r == self.spec_card(),
    {
        &self.card
    }

    pub fn number_of_guesses(&self) -> (r: usize)
        ensures
            r == self.spec_guesses(),
    {
        self.guess_number
    }

    /// The embed of the card to guess as far as this game has revealed it.
    pub fn to_embed(&self) -> (r: EmbedContent)
        ensures
            spec_game_embed(
                self.spec_card(),
                reveal_stage(
                    self.spec_difficulty().spec_multiplier() as int,
                    self.spec_guesses() as int,
                ),
                r,
            ),
    {
        create_game_embed(&self.card, self.multiplier(), self.guess_number)
    }

    /// The embed of the card in full, once the game is over.
    pub fn convert_to_embed(self) -> (r: EmbedContent)
        ensures
            spec_card_embed(self.spec_card(), r),
    {
        create_embed(&self.card)
    }

    /// Counts one more guess; the card and the difficulty stay.
    pub fn add_guess(&mut self)
        requires
            old(self).spec_guesses() < usize::MAX,
        ensures
            final(self).spec_guesses() == old(self).spec_guesses() + 1,
            final(self).spec_card() == old(self).spec_card(),
            final(self).spec_difficulty() == old(self).spec_difficulty(),
    {
        self.guess_number = self.guess_number + 1;
    }
}

/// A guess names the card when its normal form is the card's normalised
/// name, or else scores at least three quarters against it, both being
/// short enough to be scored.
pub open spec fn spec_guess_correct(guess: Seq<char>, name: Seq<char>) -> bool {
    let g = spec_normalise(guess);
    ||| g == name
    ||| {
        &&& utf8(g).len() <= MAX_FUZZY_LEN
        &&& utf8(name).len() <= MAX_FUZZY_LEN
        &&& !score_gt((3, 4), jaro_winkler_spec(utf8(g), utf8(name)))
    }
}

/// Whether `guess` names the card (see `spec_guess_correct`).
pub fn is_correct_guess(guess: &str, card: &Card) -> (r: bool)
    ensures
        r == spec_guess_correct(guess@, card.front_normalised_name@),
{
    let g = normalise(guess);
    let name = card.front_normalised_name.as_str();
    if str_eq(g.as_str(), name) {
        return true;
    }
    if g.as_str().as_bytes().len() > MAX_FUZZY_LEN || name.as_bytes().len() > MAX_FUZZY_LEN {
        return false;
    }
    let s = jaro_winkler_ascii_bitmask(g.as_str(), name);
    proof {
        assert(0 <= s.num * 4 <= 4 * 0x100_0000_0000_0000) by (nonlinear_arith)
            requires
                s.num <= 0x100_0000_0000_0000,
        ;
    }
    s.num * 4 >= 3 * s.den
}

/// What follows a guess in a channel.
pub enum GuessPlan {
    /// No game is being played: the player is told so.
    NoGame,
    /// The card was named: the players are told of the win and the game ends.
    Won(GameState),
    /// The last allowed guess was wrong: the players are told of the loss
    /// and the game ends.
    Lost(GameState),
    /// A wrong guess with guesses left: the game is stored with the guess
    /// counted and the players are shown the next clue.
    Wrong(GameState, String),
}

/// The game after one more guess.
pub open spec fn counted(s: GameState, t: GameState) -> bool {
    &&& t.spec_card() == s.spec_card()
    &&& t.spec_difficulty() == s.spec_difficulty()
    &&& t.spec_guesses() == s.spec_guesses() + 1
}

/// Decides what follows `guess` when the channel's game is `fetched`: the
/// guess is counted; a correct guess wins; otherwise the game is lost once
/// the count reaches the allowed number of guesses, and goes on before.
pub fn plan_guess(fetched: Option<GameState>, guess: String) -> (r: GuessPlan)
    requires
        fetched matches Some(s) ==> s.spec_guesses() < usize::MAX,
    ensures
        fetched is None <==> r is NoGame,
        fetched matches Some(s) ==> {
            let correct = spec_guess_correct(guess@, s.spec_card().front_normalised_name@);
            let lost = s.spec_guesses() + 1 >= s.spec_difficulty().spec_max_guesses();
            &&& correct ==> (r matches GuessPlan::Won(t) && counted(s, t))
            &&& !correct && lost ==> (r matches GuessPlan::Lost(t) && counted(s, t))
            &&& !correct && !lost ==> (r matches GuessPlan::Wrong(t, g) && counted(s, t) && g
                == guess)
        },
        r matches GuessPlan::Wrong(t, _) ==> t.spec_guesses()
            < t.spec_difficulty().spec_max_guesses(),
{
    match fetched {
        None => GuessPlan::NoGame,
        Some(mut state) => {
            state.add_guess();
            if is_correct_guess(guess.as_str(), state.card()) {
                GuessPlan::Won(state)
            } else if state.number_of_guesses() >= state.max_guesses() {
                GuessPlan::Lost(state)
            } else {
                GuessPlan::Wrong(state, guess)
            }
        },
    }
}

/// A guess whose normal form is the card's normalised name always wins.
pub proof fn lemma_exact_guess_wins(guess: Seq<char>, name: Seq<char>)
    requires
        spec_normalise(guess) == name,
    ensures
        spec_guess_correct(guess, name),
{
}

/// Whatever the difficulty, a wrong guess made before the game is over
/// reveals a clue: after `multiplier` guesses, fewer than the game allows,
/// the mana cost and colour are shown.
pub proof fn lemma_every_difficulty_reveals(d: Difficulty)
    ensures
        1 <= d.spec_multiplier() < d.spec_max_guesses(),
        reveal_stage(d.spec_multiplier() as int, d.spec_multiplier() as int) >= 1,
{
}

/// A guess is judged by its normal form alone: two guesses with the same
/// normal form are both right or both wrong.
pub proof fn lemma_guess_judged_by_normal_form(g1: Seq<char>, g2: Seq<char>, name: Seq<char>)
    requires
        spec_normalise(g1) == spec_normalise(g2),
    ensures
        spec_guess_correct(g1, name) == spec_guess_correct(g2, name),
{
}

/// A guess whose normal form is not the name itself wins exactly when the
/// Jaro-Winkler score of its normal form against the card's normalised name
/// is at least three quarters.
pub proof fn lemma_guess_score(guess: Seq<char>, name: Seq<char>)
    requires
        spec_normalise(guess) != name,
        utf8(spec_normalise(guess)).len() <= MAX_FUZZY_LEN,
        utf8(name).len() <= MAX_FUZZY_LEN,
    ensures
        spec_guess_correct(guess, name) <==> 4 * jaro_winkler_spec(
            utf8(spec_normalise(guess)),
            utf8(name),
        ).0 >= 3 * jaro_winkler_spec(utf8(spec_normalise(guess)), utf8(name)).1,
{
}

/// The announcement of a new game names its difficulty, and names the set
/// the card is from for every difficulty but Hard.
pub proof fn lemma_new_game_names_set(d: Difficulty, set_name: Seq<char>)
    ensures
        d != Difficulty::Hard ==> spec_new_game_message(d, set_name) == "Difficulty is set to `"@
            + d.spec_name() + "`. This card is from `"@ + set_name + "`"@,
        d == Difficulty::Hard ==> spec_new_game_message(d, set_name) == "Difficulty is set to `"@
            + d.spec_name() + "`."@,
{
}

/// "guesses" for more than one, else "guess".
pub open spec fn plural(n: nat) -> Seq<char> {
    if n > 1 {
        "guesses"@
    } else {
        "guess"@
    }
}

pub fn guess_plural(n: usize) -> (r: &'static str)
    ensures
        r@ == plural(n as nat),
{
    if n > 1 {
        "guesses"
    } else {
        "guess"
    }
}

/// What follows the winner's mention: " has won after N guess(es)!".
pub open spec fn spec_win_message(n: nat) -> Seq<char> {
    " has won after "@ + decimal(n) + " "@ + plural(n) + "!"@
}

pub fn win_message(state: &GameState) -> (r: String)
    ensures
        r@ == spec_win_message(state.spec_guesses() as nat),
{
    let n = state.number_of_guesses();
    let mut s = to_owned_string(" has won after ");
    push_decimal(&mut s, n);
    push_str(&mut s, " ");
    push_str(&mut s, guess_plural(n));
    push_str(&mut s, "!");
    s
}

/// "You have all failed after N guess(es)!".
pub open spec fn spec_failed_message(n: nat) -> Seq<char> {
    "You have all failed after "@ + decimal(n) + " "@ + plural(n) + "!"@
}

pub fn failed_message(state: &GameState) -> (r: String)
    ensures
        r@ == spec_failed_message(state.spec_guesses() as nat),
{
    let n = state.number_of_guesses();
    let mut s = to_owned_string("You have all failed after ");
    push_decimal(&mut s, n);
    push_str(&mut s, " ");
    push_str(&mut s, guess_plural(n));
    push_str(&mut s, "!");
    s
}

/// "'GUESS' was not the correct card. You have N guess(es) remaining",
/// with N the guesses left.
pub open spec fn spec_wrong_guess_message(guess: Seq<char>, remaining: nat) -> Seq<char> {
    "'"@ + guess + "' was not the correct card. You have "@ + decimal(remaining) + " "@ + plural(
        remaining,
    ) + " remaining"@
}

pub fn wrong_guess_message(state: &GameState, guess: &str) -> (r: String)
    requires
        state.spec_guesses() <= state.spec_difficulty().spec_max_guesses(),
    ensures
        r@ == spec_wrong_guess_message(
            guess@,
            (state.spec_difficulty().spec_max_guesses() - state.spec_guesses()) as nat,
        ),
{
    let remaining = state.max_guesses() - state.number_of_guesses();
    let mut s = to_owned_string("'");
    push_str(&mut s, guess);
    push_str(&mut s, "' was not the correct card. You have ");
    push_decimal(&mut s, remaining);
    push_str(&mut s, " ");
    push_str(&mut s, guess_plural(remaining));
    push_str(&mut s, " remaining");
    s
}

/// The announcement of a new game: its difficulty, and but for hard games
/// the set the card is from.
pub open spec fn spec_new_game_message(d: Difficulty, set_name: Seq<char>) -> Seq<char> {
    match d {
        Difficulty::Hard => "Difficulty is set to `"@ + d.spec_name() + "`."@,
        _ => "Difficulty is set to `"@ + d.spec_name() + "`. This card is from `"@ + set_name
            + "`"@,
    }
}

pub fn new_game_message(state: &GameState) -> (r: String)
    ensures
        r@ == spec_new_game_message(state.spec_difficulty(), state.spec_card().set_name@),
{
    let d = state.difficulty();
    let mut s = to_owned_string("Difficulty is set to `");
    let name = d.to_string();
    push_str(&mut s, name.as_str());
    match d {
        Difficulty::Hard => {
            push_str(&mut s, "`.");
        },
        _ => {
            push_str(&mut s, "`. This card is from `");
            push_str(&mut s, state.card().set_name());
            push_str(&mut s, "`");
        },
    }
    s
}

/// "Could not find set 'SET'".
pub fn set_not_found_message(set_name: &str) -> (r: String)
    ensures
        r@ == "Could not find set '"@ + set_name@ + "'"@,
{
    let mut s = to_owned_string("Could not find set '");
    push_str(&mut s, set_name);
    push_str(&mut s, "'");
    s
}

/// A set given by the players is looked up by its abbreviation when it is
/// shorter than this many characters, and by its name otherwise.
pub const SET_ABBR_CHAR_LIMIT: usize = 5;

/// How a set given by the players is looked up.
#[derive(Clone, Debug, PartialEq)]
pub enum SetLookup {
    /// By its abbreviation, as given.
    Abbreviation(String),
    /// By the closest set name to the normal form of what was given.
    Name(String),
}

pub open spec fn spec_set_lookup(set: Seq<char>, r: SetLookup) -> bool {
    if set.len() < SET_ABBR_CHAR_LIMIT {
        r matches SetLookup::Abbreviation(a) && a@ == set
    } else {
        r matches SetLookup::Name(n) && n@ == spec_normalise(set)
    }
}

/// How the set `set_name` is looked up (see `spec_set_lookup`).
pub fn set_lookup(set_name: &str) -> (r: SetLookup)
    ensures
        spec_set_lookup(set_name@, r),
{
    if char_count(set_name) < SET_ABBR_CHAR_LIMIT {
        SetLookup::Abbreviation(to_owned_string(set_name))
    } else {
        SetLookup::Name(normalise(set_name))
    }
}

/// The options of a new game: the set to draw the card from, if any, and
/// the difficulty.
pub struct PlayOptions {
    set: Option<String>,
    difficulty: Difficulty,
}

impl PlayOptions {
    pub closed spec fn spec_set(&self) -> Option<String> {
        self.set
    }

    pub closed spec fn spec_difficulty(&self) -> Difficulty {
        self.difficulty
    }

    pub fn new(set: Option<String>, difficulty: Difficulty) -> (r: PlayOptions)
        ensures
            r.spec_set() == set,
            r.spec_difficulty() == difficulty,
    {
        PlayOptions { set, difficulty }
    }

    pub fn set(&self) -> (r: &Option<String>)
        ensures
            *r == self.spec_set(),
    {
        &self.set
    }

    pub fn difficulty(&self) -> (r: Difficulty)
        ensures
            r == self.spec_difficulty(),
    {
        self.difficulty
    }

    /// How the requested set is looked up, if one was requested.
    pub fn set_lookup(&self) -> (r: Option<SetLookup>)
        ensures
            self.spec_set() is None <==> r is None,
            self.spec_set() matches Some(s) ==> (r matches Some(l) && spec_set_lookup(s@, l)),
    {
        match &self.set {
            None => None,
            Some(s) => Some(set_lookup(s.as_str())),
        }
    }
}

/// The options of a guess: the name guessed.
pub struct GuessOptions {
    guess: String,
}

impl GuessOptions {
    pub closed spec fn spec_guess(&self) -> Seq<char> {
        self.guess@
    }

    pub fn new(guess: String) -> (r: GuessOptions)
        ensures
            r.spec_guess() == guess@,
    {
        GuessOptions { guess }
    }

    pub fn guess(&self) -> (r: &String)
        ensures
            r@ == self.spec_guess(),
    {
        &self.guess
    }

    pub fn into_guess(self) -> (r: String)
        ensures
            r@ == self.spec_guess(),
    {
        self.guess
    }
}

/// The bot: where images, cards and games are kept.
pub struct App<IS, CS, C> {
    pub image_store: IS,
    pub card_store: CS,
    pub cache: C,
}

impl<IS, CS, C> App<IS, CS, C> {
    pub fn new(image_store: IS, card_store: CS, cache: C) -> (r: Self)
        ensures
            r.image_store == image_store,
            r.card_store == card_store,
            r.cache == cache,
    {
        App { image_store, card_store, cache }
    }
}

} // verus!
