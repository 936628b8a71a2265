//! What the bot shows of a card: the full card, and the game card whose
//! clues are revealed as the guesses go wrong.
use vstd::prelude::*;
use crate::card::{uuid_text, uuid_to_string, Card};
use crate::colours::{colour_num, get_colour_identity, joined, Rgb};
use crate::emoji::{italicise_reminder_text, replace_symbols, spec_italicise, spec_replace_symbols};
use crate::text::{push_str, to_owned_string};

verus! {

/// The parts of a message embed.
#[derive(Clone, Debug, PartialEq)]
pub struct EmbedContent {
    /// Name of the attached image the embed shows.
    pub attachment: String,
    pub url: Option<String>,
    pub title: String,
    pub description: String,
    pub colour: Option<Rgb>,
    pub footer: String,
}

pub open spec fn rgb_of(ids: Seq<String>) -> (u8, u8, u8) {
    colour_num(joined(ids))
}

/// The power and toughness ("0" when missing), else the loyalty, else the
/// defence, after a blank line; nothing when the card has none of them.
pub open spec fn card_stats(c: Card) -> Seq<char> {
    match c.front_power {
        Some(p) => "\n\n"@ + p@ + "/"@ + match c.front_toughness {
            Some(t) => t@,
            None => "0"@,
        },
        None => match c.front_loyalty {
            Some(l) => "\n\n"@ + l@,
            None => match c.front_defence {
                Some(d) => "\n\n"@ + d@,
                None => Seq::empty(),
            },
        },
    }
}

/// The type line, a blank line, the rules text with its symbols as emoji
/// and its reminder text in italics, and the stats.
pub open spec fn rules_text(c: Card) -> Seq<char> {
    c.front_type_line@ + "\n\n"@ + spec_italicise(spec_replace_symbols(c.front_oracle_text@))
        + card_stats(c)
}

/// The footer that credits the artist.
pub open spec fn artist_footer(c: Card) -> Seq<char> {
    "\u{1F58C}\u{FE0F} - "@ + c.artist@
}

/// The stats of a card (see `card_stats`).
pub fn stats(card: &Card) -> (r: String)
    ensures
        r@ == card_stats(*card),
{
    match &card.front_power {
        Some(p) => {
            let mut s = to_owned_string("\n\n");
            push_str(&mut s, p.as_str());
            push_str(&mut s, "/");
            match &card.front_toughness {
                Some(t) => push_str(&mut s, t.as_str()),
                None => push_str(&mut s, "0"),
            }
            s
        },
        None => match &card.front_loyalty {
            Some(l) => {
                let mut s = to_owned_string("\n\n");
                push_str(&mut s, l.as_str());
                s
            },
            None => match &card.front_defence {
                Some(d) => {
                    let mut s = to_owned_string("\n\n");
                    push_str(&mut s, d.as_str());
                    s
                },
                None => String::new(),
            },
        },
    }
}

/// The rules text of a card (see `rules_text`).
pub fn card_rules_text(card: &Card) -> (r: String)
    ensures
        r@ == rules_text(*card),
{
    let with_emoji = replace_symbols(card.front_oracle_text.as_str());
    let oracle = italicise_reminder_text(with_emoji.as_str());
    let mut s = to_owned_string(card.front_type_line.as_str());
    push_str(&mut s, "\n\n");
    push_str(&mut s, oracle.as_str());
    let st = stats(card);
    push_str(&mut s, st.as_str());
    s
}

fn artist_credit(card: &Card) -> (r: String)
    ensures
        r@ == artist_footer(*card),
{
    let mut s = to_owned_string("\u{1F58C}\u{FE0F} - ");
    push_str(&mut s, card.artist.as_str());
    s
}

fn png_name(id: u128) -> (r: String)
    ensures
        r@ == uuid_text(id) + ".png"@,
{
    let mut s = uuid_to_string(id);
    push_str(&mut s, ".png");
    s
}

/// The embed of a card shown in full.
pub open spec fn spec_card_embed(c: Card, e: EmbedContent) -> bool {
    &&& e.attachment@ == uuid_text(c.front_image_id) + ".png"@
    &&& e.url matches Some(u) && u@ == c.front_scryfall_url@
    &&& e.title@ == c.front_name@ + "        "@ + spec_replace_symbols(c.front_mana_cost@)
    &&& e.description@ == rules_text(c)
    &&& e.colour matches Some(rgb) && (rgb.red, rgb.green, rgb.blue) == rgb_of(
        c.front_colour_identity@,
    )
    &&& e.footer@ == artist_footer(c)
}

/// The embed of a card shown in full: its image, its link, its name and
/// mana cost, its rules text, its colour and its artist.
pub fn create_embed(card: &Card) -> (r: EmbedContent)
    ensures
        spec_card_embed(*card, r),
{
    let description = card_rules_text(card);
    let mana = replace_symbols(card.front_mana_cost.as_str());
    let mut title = to_owned_string(card.front_name.as_str());
    push_str(&mut title, "        ");
    push_str(&mut title, mana.as_str());
    EmbedContent {
        attachment: png_name(card.front_image_id),
        url: Some(card.front_scryfall_url.clone()),
        title,
        description,
        colour: Some(get_colour_identity(&card.front_colour_identity)),
        footer: artist_credit(card),
    }
}

/// How much of the card the game shows after `guesses` guesses: nothing
/// (0) at first, the mana cost and colour (1) from `multiplier` guesses on,
/// and the rules text too (2) from twice that on.
pub open spec fn reveal_stage(multiplier: int, guesses: int) -> int {
    if guesses >= 2 * multiplier {
        2
    } else if guesses >= multiplier {
        1
    } else {
        0
    }
}

/// The embed of the card to guess at a reveal stage.
pub open spec fn spec_game_embed(c: Card, stage: int, e: EmbedContent) -> bool {
    &&& e.attachment@ == uuid_text(
        match c.front_illustration_id {
            Some(id) => id,
            None => 0,
        },
    ) + ".png"@
    &&& e.url is None
    &&& e.title@ == (if stage >= 1 {
        "????        "@ + spec_replace_symbols(c.front_mana_cost@)
    } else {
        "????"@
    })
    &&& e.description@ == (if stage >= 2 {
        rules_text(c)
    } else {
        "????"@
    })
    &&& (stage >= 1 ==> (e.colour matches Some(rgb) && (rgb.red, rgb.green, rgb.blue) == rgb_of(
        c.front_colour_identity@,
    )))
    &&& (stage < 1 ==> e.colour is None)
    &&& e.footer@ == artist_footer(c)
}

/// The embed of the card to guess: its illustration and its artist, with
/// the mana cost and colour, then the rules text, revealed as the guesses
/// go by (see `reveal_stage`).
pub fn create_game_embed(card: &Card, multiplier: usize, guesses: usize) -> (r: EmbedContent)
    requires
        multiplier <= usize::MAX / 2,
    ensures
        spec_game_embed(*card, reveal_stage(multiplier as int, guesses as int), r),
{
    let illustration = match card.front_illustration_id {
        Some(id) => id,
        None => 0,
    };
    let mut title = to_owned_string("????");
    let mut description = to_owned_string("????");
    let mut colour: Option<Rgb> = None;
    if guesses >= multiplier {
        let mana = replace_symbols(card.front_mana_cost.as_str());
        title = to_owned_string("????        ");
        push_str(&mut title, mana.as_str());
        colour = Some(get_colour_identity(&card.front_colour_identity));
    }
    if guesses >= multiplier * 2 {
        description = card_rules_text(card);
    }
    EmbedContent {
        attachment: png_name(illustration),
        url: None,
        title,
        description,
        colour,
        footer: artist_credit(card),
    }
}

/// The game embed never gives the card away: its title is `????`, or
/// `????` with the mana cost once that is revealed, so the card's name never
/// stands in it; it links nowhere and shows the illustration, not the card.
pub proof fn lemma_game_embed_hides_card(c: Card, stage: int, e: EmbedContent)
    requires
        spec_game_embed(c, stage, e),
    ensures
        e.title@ == "????"@ || e.title@ == "????        "@ + spec_replace_symbols(c.front_mana_cost@),
        e.title@.len() >= 4 && e.title@.subrange(0, 4) == "????"@,
        e.url is None,
        stage < 2 ==> e.description@ == "????"@,
        stage < 1 ==> e.title@ == "????"@ && e.colour is None,
        e.attachment@ == uuid_text(
            match c.front_illustration_id {
                Some(id) => id,
                None => 0,
            },
        ) + ".png"@,
{
    reveal_strlit("????");
    reveal_strlit("????        ");
    if e.title@ != "????"@ {
        assert(e.title@.subrange(0, 4) =~= "????"@);
    }
}

/// The more guesses have gone wrong, the more of the card is shown: the
/// reveal stage never goes down as the guesses go up.
pub proof fn lemma_reveal_monotone(multiplier: int, g1: int, g2: int)
    requires
        0 <= multiplier,
        g1 <= g2,
    ensures
        reveal_stage(multiplier, g1) <= reveal_stage(multiplier, g2),
{
}

} // verus!
