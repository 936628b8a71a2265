//! The embed colour of a card from its colour identity.
use vstd::prelude::*;
use crate::text::{push_str, str_eq};

verus! {

/// A colour as its red, green and blue components.
#[derive(Clone, Copy, Debug, PartialEq, Eq)]
pub struct Rgb {
    pub red: u8,
    pub green: u8,
    pub blue: u8,
}

impl Rgb {
    pub fn r(&self) -> (v: u8)
        ensures
            v == self.red,
    {
        self.red
    }

    pub fn g(&self) -> (v: u8)
        ensures
            v == self.green,
    {
        self.green
    }

    pub fn b(&self) -> (v: u8)
        ensures
            v == self.blue,
    {
        self.blue
    }
}

/// The colour of a joined colour identity: one colour per mono-coloured,
/// two-colour and three-colour identity written in alphabetical order,
/// white for all five, grey for none, and gold for any other.
pub open spec fn colour_num(c: Seq<char>) -> (u8, u8, u8) {
    if c == "R"@ {
        (0xDC, 0x14, 0x3C)
    } else if c == "G"@ {
        (0x22, 0x8B, 0x22)
    } else if c == "U"@ {
        (0x04, 0x92, 0xC2)
    } else if c == "W"@ {
        (0xF0, 0xE6, 0xD2)
    } else if c == "B"@ {
        (0x16, 0x0D, 0x08)
    } else if c == "UW"@ {
        (0x95, 0xB9, 0xDB)
    } else if c == "BU"@ {
        (0x05, 0x01, 0x4A)
    } else if c == "BR"@ {
        (0x46, 0x00, 0x00)
    } else if c == "GR"@ {
        (0x89, 0x51, 0x29)
    } else if c == "GW"@ {
        (0x98, 0xC3, 0x77)
    } else if c == "BW"@ {
        (0x44, 0x44, 0x44)
    } else if c == "RU"@ {
        (0x9D, 0x00, 0xFF)
    } else if c == "BG"@ {
        (0x06, 0x40, 0x2B)
    } else if c == "RW"@ {
        (0xD9, 0x54, 0x4D)
    } else if c == "GU"@ {
        (0x00, 0xB3, 0xB3)
    } else if c == "BUW"@ {
        (0x36, 0x55, 0x63)
    } else if c == "BRU"@ {
        (0x34, 0x15, 0x39)
    } else if c == "BGR"@ {
        (0x50, 0x37, 0x30)
    } else if c == "GRW"@ {
        (0xE5, 0x9B, 0x5A)
    } else if c == "GUW"@ {
        (0x81, 0xFF, 0xFF)
    } else if c == "BGW"@ {
        (0x74, 0x93, 0x6A)
    } else if c == "RUW"@ {
        (0xF9, 0x48, 0xED)
    } else if c == "BGU"@ {
        (0x00, 0x41, 0x41)
    } else if c == "BRW"@ {
        (0xA0, 0x6E, 0x69)
    } else if c == "GRU"@ {
        (0x8F, 0x79, 0xA1)
    } else if c == "BGRUW"@ {
        (0xFF, 0xFF, 0xFF)
    } else if c == ""@ {
        (0xA9, 0xA9, 0xA9)
    } else {
        (0xF9, 0xC7, 0x4F)
    }
}

/// The colour of a joined colour identity (see `colour_num`).
pub fn get_colour_num(colour: &str) -> (r: (u8, u8, u8))
    ensures
        r == colour_num(colour@),
{
    if str_eq(colour, "R") {
        (0xDC, 0x14, 0x3C)
    } else if str_eq(colour, "G") {
        (0x22, 0x8B, 0x22)
    } else if str_eq(colour, "U") {
        (0x04, 0x92, 0xC2)
    } else if str_eq(colour, "W") {
        (0xF0, 0xE6, 0xD2)
    } else if str_eq(colour, "B") {
        (0x16, 0x0D, 0x08)
    } else if str_eq(colour, "UW") {
        (0x95, 0xB9, 0xDB)
    } else if str_eq(colour, "BU") {
        (0x05, 0x01, 0x4A)
    } else if str_eq(colour, "BR") {
        (0x46, 0x00, 0x00)
    } else if str_eq(colour, "GR") {
        (0x89, 0x51, 0x29)
    } else if str_eq(colour, "GW") {
        (0x98, 0xC3, 0x77)
    } else if str_eq(colour, "BW") {
        (0x44, 0x44, 0x44)
    } else if str_eq(colour, "RU") {
        (0x9D, 0x00, 0xFF)
    } else if str_eq(colour, "BG") {
        (0x06, 0x40, 0x2B)
    } else if str_eq(colour, "RW") {
        (0xD9, 0x54, 0x4D)
    } else if str_eq(colour, "GU") {
        (0x00, 0xB3, 0xB3)
    } else if str_eq(colour, "BUW") {
        (0x36, 0x55, 0x63)
    } else if str_eq(colour, "BRU") {
        (0x34, 0x15, 0x39)
    } else if str_eq(colour, "BGR") {
        (0x50, 0x37, 0x30)
    } else if str_eq(colour, "GRW") {
        (0xE5, 0x9B, 0x5A)
    } else if str_eq(colour, "GUW") {
        (0x81, 0xFF, 0xFF)
    } else if str_eq(colour, "BGW") {
        (0x74, 0x93, 0x6A)
    } else if str_eq(colour, "RUW") {
        (0xF9, 0x48, 0xED)
    } else if str_eq(colour, "BGU") {
        (0x00, 0x41, 0x41)
    } else if str_eq(colour, "BRW") {
        (0xA0, 0x6E, 0x69)
    } else if str_eq(colour, "GRU") {
        (0x8F, 0x79, 0xA1)
    } else if str_eq(colour, "BGRUW") {
        (0xFF, 0xFF, 0xFF)
    } else if str_eq(colour, "") {
        (0xA9, 0xA9, 0xA9)
    } else {
        (0xF9, 0xC7, 0x4F)
    }
}

/// The colour letters of an identity written one after another.
pub open spec fn joined(ids: Seq<String>) -> Seq<char>
    decreases ids.len(),
{
    if ids.len() == 0 {
        Seq::empty()
    } else {
        joined(ids.drop_last()) + ids.last()@
    }
}

/// The embed colour of a card with colour identity `colour_id`: the
/// colour of its letters joined in the order given.
pub fn get_colour_identity(colour_id: &Vec<String>) -> (r: Rgb)
    ensures
        (r.red, r.green, r.blue) == colour_num(joined(colour_id@)),
{
    let mut joined_ids = String::new();
    let mut i: usize = 0;
    while i < colour_id.len()
        invariant
            i <= colour_id@.len(),
            joined_ids@ == joined(colour_id@.subrange(0, i as int)),
        decreases colour_id@.len() - i,
    {
        push_str(&mut joined_ids, colour_id[i].as_str());
        assert(colour_id@.subrange(0, i as int + 1).drop_last() =~= colour_id@.subrange(0, i as int));
        i += 1;
    }
    assert(colour_id@.subrange(0, colour_id@.len() as int) =~= colour_id@);
    let (red, green, blue) = get_colour_num(joined_ids.as_str());
    Rgb { red, green, blue }
}

} // verus!
