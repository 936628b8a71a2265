//! Cards, printings and the text of their identifiers.
use vstd::prelude::*;
use crate::fuzzy::{EqualsTarget, ToBytes};
use crate::text::{push_char, str_eq, utf8};

verus! {

/// A card face as the card store returns it. Identifiers are UUIDs held as
/// their 128-bit value.
#[derive(Clone, Debug, PartialEq)]
pub struct Card {
    pub front_name: String,
    pub front_normalised_name: String,
    pub front_oracle_id: u128,
    pub front_scryfall_url: String,
    pub front_image_id: u128,
    pub front_illustration_id: Option<u128>,
    pub front_mana_cost: String,
    pub front_colour_identity: Vec<String>,
    pub front_power: Option<String>,
    pub front_toughness: Option<String>,
    pub front_loyalty: Option<String>,
    pub front_defence: Option<String>,
    pub front_type_line: String,
    pub front_oracle_text: String,
    pub back_id: Option<u128>,
    pub artist: String,
    pub set_name: String,
}

impl Card {
    pub fn front_oracle_id(&self) -> (r: &u128)
        ensures
            *r == self.front_oracle_id,
    {
        &self.front_oracle_id
    }

    pub fn back_id(&self) -> (r: Option<&u128>)
        ensures
            r == (match self.back_id {
                Some(id) => Some(&id),
                None => None,
            }),
    {
        match &self.back_id {
            Some(id) => Some(id),
            None => None,
        }
    }

    /// The image shown for the card: that of its front.
    pub fn image_id(&self) -> (r: &u128)
        ensures
            *r == self.front_image_id,
    {
        &self.front_image_id
    }

    pub fn front_image_id(&self) -> (r: &u128)
        ensures
            *r == self.front_image_id,
    {
        &self.front_image_id
    }

    pub fn front_illustration_id(&self) -> (r: Option<&u128>)
        ensures
            r == (match self.front_illustration_id {
                Some(id) => Some(&id),
                None => None,
            }),
    {
        match &self.front_illustration_id {
            Some(id) => Some(id),
            None => None,
        }
    }

    /// The illustration shown in the guessing game: that of the front.
    pub fn illustration_ids(&self) -> (r: Option<&u128>)
        ensures
            r == (match self.front_illustration_id {
                Some(id) => Some(&id),
                None => None,
            }),
    {
        self.front_illustration_id()
    }

    pub fn set_name(&self) -> (r: &str)
        ensures
            r@ == self.set_name@,
    {
        self.set_name.as_str()
    }
}

/// A card is compared by the bytes of its printed name.
impl ToBytes for Card {
    open spec fn spec_to_bytes(&self) -> Seq<u8> {
        utf8(self.front_name@)
    }

    fn to_bytes(&self) -> (r: Vec<u8>) {
        vstd::slice::slice_to_vec(self.front_name.as_str().as_bytes())
    }
}

/// A card is exactly what was asked for when the query equals its
/// normalised name.
impl EqualsTarget for Card {
    open spec fn spec_equals_target(&self, target: Seq<char>) -> bool {
        target == self.front_normalised_name@
    }

    fn equals_target(&self, target: &str) -> (r: bool) {
        str_eq(target, self.front_normalised_name.as_str())
    }
}

/// One printing of a card: the printed card's id and the set's name.
#[derive(Clone, Debug, PartialEq)]
pub struct Printing {
    card_id: u128,
    name: String,
}

impl Printing {
    pub fn new(card_id: u128, name: String) -> (r: Printing)
        ensures
            r.spec_card_id() == card_id,
            r.spec_name() == name@,
    {
        Printing { card_id, name }
    }

    pub closed spec fn spec_card_id(&self) -> u128 {
        self.card_id
    }

    pub closed spec fn spec_name(&self) -> Seq<char> {
        self.name@
    }

    pub fn card_id(&self) -> (r: &u128)
        ensures
            *r == self.spec_card_id(),
    {
        &self.card_id
    }

    pub fn name(&self) -> (r: &String)
        ensures
            r@ == self.spec_name(),
    {
        &self.name
    }
}

/// The lower-case hexadecimal digit of `d < 16`.
pub open spec fn hex_char(d: nat) -> char {
    if d < 10 {
        (d + 48) as char
    } else {
        (d + 87) as char
    }
}

/// The last `n` hexadecimal digits of `v`, most significant first.
pub open spec fn hex_digits(v: nat, n: nat) -> Seq<char>
    decreases n,
{
    if n == 0 {
        Seq::empty()
    } else {
        hex_digits(v / 16, (n - 1) as nat).push(hex_char(v % 16))
    }
}

/// A UUID in its hyphenated lower-case form: 32 hexadecimal digits in
/// groups of 8, 4, 4, 4 and 12.
pub open spec fn uuid_text(id: u128) -> Seq<char> {
    let h = hex_digits(id as nat, 32);
    h.subrange(0, 8) + seq!['-'] + h.subrange(8, 12) + seq!['-'] + h.subrange(12, 16) + seq!['-']
        + h.subrange(16, 20) + seq!['-'] + h.subrange(20, 32)
}

fn hex_digit(d: u128) -> (c: char)
    requires
        d < 16,
    ensures
        c == hex_char(d as nat),
{
    if d == 0 {
        '0'
    } else if d == 1 {
        '1'
    } else if d == 2 {
        '2'
    } else if d == 3 {
        '3'
    } else if d == 4 {
        '4'
    } else if d == 5 {
        '5'
    } else if d == 6 {
        '6'
    } else if d == 7 {
        '7'
    } else if d == 8 {
        '8'
    } else if d == 9 {
        '9'
    } else if d == 10 {
        'a'
    } else if d == 11 {
        'b'
    } else if d == 12 {
        'c'
    } else if d == 13 {
        'd'
    } else if d == 14 {
        'e'
    } else {
        'f'
    }
}

/// The hexadecimal digits of `id`, all 32 of them.
fn hex32(id: u128) -> (r: Vec<char>)
    ensures
        r@ == hex_digits(id as nat, 32),
{
    let ghost h = hex_digits(id as nat, 32);
    proof {
        lemma_hex_digits_len(id as nat, 32);
        assert(h =~= h + h.subrange(32, 32));
    }
    let mut digits: Vec<char> = Vec::new();
    let mut z: usize = 0;
    while z < 32
        invariant
            z <= 32,
            digits@.len() == z,
        decreases 32 - z,
    {
        digits.push('0');
        z += 1;
    }
    let mut v = id;
    let mut k: usize = 0;
    while k < 32
        invariant
            k <= 32,
            digits@.len() == 32,
            h.len() == 32,
            h == hex_digits(id as nat, 32),
            forall|j: int| 32 - k <= j < 32 ==> #[trigger] digits@[j] == h[j],
            h == hex_digits(v as nat, (32 - k) as nat) + h.subrange(32 - k, 32),
        decreases 32 - k,
    {
        let ghost n = (32 - k) as nat;
        proof {
            lemma_hex_digits_len(v as nat, n);
            lemma_hex_digits_len((v / 16) as nat, (n - 1) as nat);
            let low = hex_digits((v / 16) as nat, (n - 1) as nat);
            assert(hex_digits(v as nat, n) == low.push(hex_char((v % 16) as nat)));
            assert(h[31 - k] == hex_char((v % 16) as nat));
            assert(h =~= low + h.subrange(31 - k, 32));
        }
        digits.set(31 - k, hex_digit(v % 16));
        v = v / 16;
        k += 1;
    }
    assert(digits@ =~= h);
    digits
}

proof fn lemma_hex_digits_len(v: nat, n: nat)
    ensures
        hex_digits(v, n).len() == n,
    decreases n,
{
    if n > 0 {
        lemma_hex_digits_len(v / 16, (n - 1) as nat);
    }
}

/// The hyphenated lower-case text of a UUID, as the `uuid` crate prints it.
pub fn uuid_to_string(id: u128) -> (r: String)
    ensures
        r@ == uuid_text(id),
{
    proof {
        lemma_hex_digits_len(id as nat, 32);
    }
    let digits = hex32(id);
    let mut s = String::new();
    let mut i: usize = 0;
    while i < 32
        invariant
            i <= 32,
            digits@ == hex_digits(id as nat, 32),
            digits@.len() == 32,
            s@ == uuid_prefix(digits@, i as int),
        decreases 32 - i,
    {
        if i == 8 || i == 12 || i == 16 || i == 20 {
            push_char(&mut s, '-');
        }
        push_char(&mut s, digits[i]);
        i += 1;
    }
    proof {
        lemma_uuid_prefix(digits@);
    }
    s
}

/// The first `i` digits of the UUID text with its hyphens.
spec fn uuid_prefix(h: Seq<char>, i: int) -> Seq<char>
    decreases i,
{
    if i <= 0 {
        Seq::empty()
    } else if i == 9 || i == 13 || i == 17 || i == 21 {
        uuid_prefix(h, i - 1).push('-').push(h[i - 1])
    } else {
        uuid_prefix(h, i - 1).push(h[i - 1])
    }
}

proof fn lemma_uuid_prefix(h: Seq<char>)
    requires
        h.len() == 32,
    ensures
        uuid_prefix(h, 32) == h.subrange(0, 8) + seq!['-'] + h.subrange(8, 12) + seq!['-']
            + h.subrange(12, 16) + seq!['-'] + h.subrange(16, 20) + seq!['-'] + h.subrange(20, 32),
{
    reveal_with_fuel(uuid_prefix, 33);
    assert(uuid_prefix(h, 32) =~= h.subrange(0, 8) + seq!['-'] + h.subrange(8, 12) + seq!['-']
        + h.subrange(12, 16) + seq!['-'] + h.subrange(16, 20) + seq!['-'] + h.subrange(20, 32));
}

} // verus!
