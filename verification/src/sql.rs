//! The queries on the per-set and per-artist tables of the card store.
use vstd::prelude::*;
use vstd::string::StrSliceExecFns;
use crate::text::{push_char, push_str, to_owned_string};

verus! {

/// Every space replaced by an underscore, as in the table names.
pub open spec fn underscored(s: Seq<char>) -> Seq<char> {
    s.map_values(|c: char| if c == ' ' { '_' } else { c })
}

/// `s` with every space replaced by an underscore.
pub fn replace_spaces(s: &str) -> (r: String)
    ensures
        r@ == underscored(s@),
{
    let n = s.unicode_len();
    let mut out = String::new();
    let mut i: usize = 0;
    while i < n
        invariant
            i <= n,
            n == s@.len(),
            out@ =~= underscored(s@.subrange(0, i as int)),
        decreases n - i,
    {
        let c = s.get_char(i);
        push_char(
            &mut out,
            if c == ' ' {
                '_'
            } else {
                c
            },
        );
        assert(s@.subrange(0, i as int + 1) =~= s@.subrange(0, i as int).push(c));
        i += 1;
    }
    assert(s@.subrange(0, n as int) =~= s@);
    out
}

/// The cards of a table whose normalised name is similar to the query
/// (`$1`).
pub open spec fn similar_in_table(prefix: Seq<char>, name: Seq<char>) -> Seq<char> {
    "select * from "@ + prefix + underscored(name)
        + " where word_similarity(front_normalised_name, $1) > 0.50;"@
}

fn similar_query(prefix: &str, name: &str) -> (r: String)
    ensures
        r@ == similar_in_table(prefix@, name@),
{
    let mut q = to_owned_string("select * from ");
    push_str(&mut q, prefix);
    let table = replace_spaces(name);
    push_str(&mut q, table.as_str());
    push_str(&mut q, " where word_similarity(front_normalised_name, $1) > 0.50;");
    q
}

/// The search of a card in the table of a set.
pub fn search_set_query(set_name: &str) -> (r: String)
    ensures
        r@ == similar_in_table("set_"@, set_name@),
{
    similar_query("set_", set_name)
}

/// The search of a card in the table of an artist.
pub fn search_artist_query(artist: &str) -> (r: String)
    ensures
        r@ == similar_in_table("artist_"@, artist@),
{
    similar_query("artist_", artist)
}

/// A random card with an illustration from the table of a set.
pub fn random_card_from_set_query(set_name: &str) -> (r: String)
    ensures
        r@ == "select * from set_"@ + underscored(set_name@)
            + " where front_illustration_id is not null order by random() limit 1;"@,
{
    let mut q = to_owned_string("select * from set_");
    let table = replace_spaces(set_name);
    push_str(&mut q, table.as_str());
    push_str(&mut q, " where front_illustration_id is not null order by random() limit 1;");
    q
}

} // verus!
