//! The interactive parts of a card message: the printings dropdown, the
//! flip button, and what a click on one of them asks for; and the result of
//! a search that they are built from.
use vstd::prelude::*;
use vstd::string::StrSliceExecFns;
use crate::card::{uuid_text, uuid_to_string, Card, Printing};
use crate::images::Images;
use crate::text::{char_count, push_str, str_eq, to_owned_string};

verus! {

/// Discord shows at most this many options in a dropdown.
pub const DROPDOWN_LIMIT: usize = 25;

/// Custom id of the printings dropdown.
pub fn pick_print_id() -> (r: &'static str)
    ensures
        r@ == "pick-print-id"@,
{
    "pick-print-id"
}

/// Prefix of the custom id of a flip button, followed by the id of the
/// card's other face.
pub fn flip_prefix() -> (r: &'static str)
    ensures
        r@ == "flip:"@,
{
    "flip:"
}

/// The options of the printings dropdown, each the set's name and the
/// printed card's id: the first `DROPDOWN_LIMIT` printings, and no dropdown
/// unless there is more than one printing.
pub fn set_dropdown_options(sets: &Option<Vec<Printing>>) -> (r: Option<Vec<(String, String)>>)
    ensures
        match sets {
            Some(v) => if v@.len() > 1 {
                r matches Some(opts) && opts@.len() == (if v@.len() < DROPDOWN_LIMIT {
                    v@.len()
                } else {
                    DROPDOWN_LIMIT as nat
                }) && forall|i: int|
                    0 <= i < opts@.len() ==> (#[trigger] opts@[i]).0@ == v@[i].spec_name()
                        && opts@[i].1@ == uuid_text(v@[i].spec_card_id())
            } else {
                r is None
            },
            None => r is None,
        },
{
    match sets {
        None => None,
        Some(v) => {
            if v.len() <= 1 {
                return None;
            }
            let n = if v.len() < DROPDOWN_LIMIT {
                v.len()
            } else {
                DROPDOWN_LIMIT
            };
            let mut opts: Vec<(String, String)> = Vec::new();
            let mut i: usize = 0;
            while i < n
                invariant
                    i <= n,
                    n <= v@.len(),
                    opts@.len() == i,
                    forall|k: int|
                        0 <= k < i ==> (#[trigger] opts@[k]).0@ == v@[k].spec_name() && opts@[k].1@
                            == uuid_text(v@[k].spec_card_id()),
                decreases n - i,
            {
                let name = v[i].name().clone();
                let id = uuid_to_string(*v[i].card_id());
                opts.push((name, id));
                i += 1;
            }
            Some(opts)
        },
    }
}

/// The custom id of the flip button of a card with another face.
pub fn flip_button_id(card: &Card) -> (r: Option<String>)
    ensures
        match card.back_id {
            Some(id) => r matches Some(s) && s@ == "flip:"@ + uuid_text(id),
            None => r is None,
        },
{
    match card.back_id() {
        None => None,
        Some(id) => {
            let mut s = to_owned_string(flip_prefix());
            let text = uuid_to_string(*id);
            push_str(&mut s, text.as_str());
            Some(s)
        },
    }
}

/// What a click on a component asks for.
#[derive(Clone, Debug, PartialEq)]
pub enum ComponentAction {
    /// A printing was picked in the dropdown.
    PickPrint,
    /// The flip button was pressed: the text after the prefix names the face.
    Flip(String),
    /// Anything else.
    Ignore,
}

/// The action of a component by its custom id.
pub fn component_action(custom_id: &str) -> (r: ComponentAction)
    ensures
        custom_id@ == "pick-print-id"@ ==> r is PickPrint,
        custom_id@ != "pick-print-id"@ && custom_id@.len() >= 5 && custom_id@.subrange(0, 5)
            == "flip:"@ ==> (r matches ComponentAction::Flip(rest) && rest@ == custom_id@.subrange(
            5,
            custom_id@.len() as int,
        )),
        custom_id@ != "pick-print-id"@ && !(custom_id@.len() >= 5 && custom_id@.subrange(0, 5)
            == "flip:"@) ==> r is Ignore,
{
    if str_eq(custom_id, pick_print_id()) {
        return ComponentAction::PickPrint;
    }
    let n = char_count(custom_id);
    if n >= 5 {
        let head = custom_id.substring_char(0, 5);
        if str_eq(head, flip_prefix()) {
            let rest = custom_id.substring_char(5, n);
            return ComponentAction::Flip(to_owned_string(rest));
        }
    }
    ComponentAction::Ignore
}

/// What `uuid::Uuid::parse_str` makes of a text: the UUID's 128-bit value,
/// or `None` when the text is not a UUID.
pub uninterp spec fn spec_parse_uuid(text: Seq<char>) -> Option<u128>;

/// `uuid::Uuid::parse_str`, the parsed UUID taken as its 128-bit value and a
/// parse error as `None`. The claim: the result depends on the text's
/// characters alone.
#[verifier::external_body]
fn parse_uuid(text: &str) -> (r: Option<u128>)
    ensures
        r == spec_parse_uuid(text@),
{
    match uuid::Uuid::parse_str(text) {
        Ok(u) => Some(u.as_u128()),
        Err(_) => None,
    }
}

/// The id of the card a component asks for: the printing picked in the
/// dropdown (`picked`, the first value chosen), or the face named after the
/// flip prefix; `None` for any other component or a text that is not a
/// UUID.
pub fn component_card_id(custom_id: &str, picked: Option<String>) -> (r: Option<u128>)
    ensures
        custom_id@ == "pick-print-id"@ ==> r == (match picked {
            Some(v) => spec_parse_uuid(v@),
            None => None,
        }),
        custom_id@ != "pick-print-id"@ && custom_id@.len() >= 5 && custom_id@.subrange(0, 5)
            == "flip:"@ ==> r == spec_parse_uuid(custom_id@.subrange(5, custom_id@.len() as int)),
        custom_id@ != "pick-print-id"@ && !(custom_id@.len() >= 5 && custom_id@.subrange(0, 5)
            == "flip:"@) ==> r is None,
{
    match component_action(custom_id) {
        ComponentAction::PickPrint => match picked {
            Some(v) => parse_uuid(v.as_str()),
            None => None,
        },
        ComponentAction::Flip(rest) => parse_uuid(rest.as_str()),
        ComponentAction::Ignore => None,
    }
}

/// A found card with its images, and optionally its printings and cards
/// with similar names.
pub struct SearchResultDto {
    card: Card,
    image: Images,
    printings: Option<Vec<Printing>>,
    similar_cards: Option<Vec<Card>>,
}

impl SearchResultDto {
    pub closed spec fn spec_card(&self) -> Card {
        self.card
    }

    pub closed spec fn spec_printings(&self) -> Option<Vec<Printing>> {
        self.printings
    }

    pub closed spec fn spec_similar_cards(&self) -> Option<Vec<Card>> {
        self.similar_cards
    }

    pub closed spec fn spec_image(&self) -> Images {
        self.image
    }

    pub fn new(card: Card, image: Images) -> (r: SearchResultDto)
        ensures
            r.spec_card() == card,
            r.spec_image() == image,
            r.spec_printings() is None,
            r.spec_similar_cards() is None,
    {
        SearchResultDto { card, image, printings: None, similar_cards: None }
    }

    pub fn add_printings(self, set: Option<Vec<Printing>>) -> (r: SearchResultDto)
        ensures
            r.spec_card() == self.spec_card(),
            r.spec_image() == self.spec_image(),
            r.spec_printings() == set,
            r.spec_similar_cards() == self.spec_similar_cards(),
    {
        SearchResultDto { printings: set, ..self }
    }

    pub fn add_similar_cards(self, set: Vec<Card>) -> (r: SearchResultDto)
        ensures
            r.spec_card() == self.spec_card(),
            r.spec_image() == self.spec_image(),
            r.spec_printings() == self.spec_printings(),
            r.spec_similar_cards() == Some(set),
    {
        SearchResultDto { similar_cards: Some(set), ..self }
    }

    pub fn image(&self) -> (r: &Images)
        ensures
            *r == self.spec_image(),
    {
        &self.image
    }

    pub fn card(&self) -> (r: &Card)
        ensures
            *r == self.spec_card(),
    {
        &self.card
    }

    pub fn printings(&self) -> (r: Option<&Vec<Printing>>)
        ensures
            match self.spec_printings() {
                Some(p) => r == Some(&p),
                None => r is None,
            },
    {
        match &self.printings {
            Some(p) => Some(p),
            None => None,
        }
    }

    pub fn similar_cards(&self) -> (r: Option<&Vec<Card>>)
        ensures
            match self.spec_similar_cards() {
                Some(p) => r == Some(&p),
                None => r is None,
            },
    {
        match &self.similar_cards {
            Some(p) => Some(p),
            None => None,
        }
    }

    /// The parts of the result.
    pub fn into_parts(self) -> (r: (Card, Images, Option<Vec<Printing>>, Option<Vec<Card>>))
        ensures
            r == (self.spec_card(), self.spec_image(), self.spec_printings(), self.spec_similar_cards()),
    {
        (self.card, self.image, self.printings, self.similar_cards)
    }
}

} // verus!
