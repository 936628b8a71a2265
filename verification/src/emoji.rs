//! Mana and other symbols shown as the bot's custom emoji.
use vstd::prelude::*;
use crate::text::{str_eq, to_owned_string};

verus! {

/// The emoji that stands for a symbol such as `{T}` or `{2/W}`; any other
/// text stands for itself.
pub open spec fn emoji_of(sym: Seq<char>) -> Seq<char> {
    if sym == "{T}"@ {
        "<:tap:1341154606524403804>"@
    } else if sym == "{G}"@ {
        "<:G_:1345438564242165920>"@
    } else if sym == "{Q}"@ {
        "<:Q_:1345438796866392165>"@
    } else if sym == "{E}"@ {
        "<:E_:1345438529609531502>"@
    } else if sym == "{P}"@ {
        "<:P_:1345440710085709914>"@
    } else if sym == "{PW}"@ {
        "<:PW:1345440736929120318>"@
    } else if sym == "{CHAOS}"@ {
        "<:CHAOS:1345440488161017997>"@
    } else if sym == "{A}"@ {
        "<:A_:1345440412441116693>"@
    } else if sym == "{TK}"@ {
        "<:TK:1346103090968793150>"@
    } else if sym == "{X}"@ {
        "<:X_:1345704187551547392>"@
    } else if sym == "{Y}"@ {
        "<:Y_:1346103088972300398>"@
    } else if sym == "{Z}"@ {
        "<:Z_:1345440514337406988>"@
    } else if sym == "{0}"@ {
        "<:0_:1345437656942645308>"@
    } else if sym == "{\u{c2}\u{bd}}"@ {
        "<:1_2:1346103097059180556>"@
    } else if sym == "{1}"@ {
        "<:1_:1345437700534304798>"@
    } else if sym == "{2}"@ {
        "<:2_:1345437748453965916>"@
    } else if sym == "{3}"@ {
        "<:3_:1345437898631286815>"@
    } else if sym == "{4}"@ {
        "<:4_:1345437928624488478>"@
    } else if sym == "{5}"@ {
        "<:5_:1345437962367930429>"@
    } else if sym == "{6}"@ {
        "<:6_:1345437996123684884>"@
    } else if sym == "{7}"@ {
        "<:7_:1345438032504950877>"@
    } else if sym == "{8}"@ {
        "<:8_:1345438064079667271>"@
    } else if sym == "{9}"@ {
        "<:9_:1345438095415443558>"@
    } else if sym == "{10}"@ {
        "<:10:1345438121688436838>"@
    } else if sym == "{11}"@ {
        "<:11:1345438143641288765>"@
    } else if sym == "{12}"@ {
        "<:12:1345438162410799177>"@
    } else if sym == "{13}"@ {
        "<:13:1345438183265009714>"@
    } else if sym == "{14}"@ {
        "<:14:1345438202474926201>"@
    } else if sym == "{15}"@ {
        "<:15:1345438222078967872>"@
    } else if sym == "{16}"@ {
        "<:16:1345440302285979669>"@
    } else if sym == "{17}"@ {
        "<:17:1345440324952133673>"@
    } else if sym == "{18}"@ {
        "<:18:1345440347010105454>"@
    } else if sym == "{19}"@ {
        "<:19:1345440370670178405>"@
    } else if sym == "{20}"@ {
        "<:20:1345440391239045120>"@
    } else if sym == "{100}"@ {
        "<:100_:1346103101207089153>"@
    } else if sym == "{1000000}"@ {
        "<:1000000:1346103099508523119>"@
    } else if sym == "{\u{e2}\u{2c6}\u{17e}}"@ {
        "<:infinite:1346103098267009117>"@
    } else if sym == "{W/U}"@ {
        "<:WU:1345702950651035658>"@
    } else if sym == "{W/B}"@ {
        "<:WB:1345702946121191444>"@
    } else if sym == "{B/R}"@ {
        "<:BR:1345702940480114749>"@
    } else if sym == "{B/G}"@ {
        "<:BG:1345702935706730526>"@
    } else if sym == "{U/B}"@ {
        "<:UB:1345439329278890097>"@
    } else if sym == "{U/R}"@ {
        "<:UR:1345439405136941187>"@
    } else if sym == "{R/G}"@ {
        "<:RG:1345438831737966694>"@
    } else if sym == "{R/W}"@ {
        "<:RW:1345438965162835999>"@
    } else if sym == "{G/W}"@ {
        "<:GW:1345438678306132029>"@
    } else if sym == "{G/U}"@ {
        "<:GU:1345438620185530488>"@
    } else if sym == "{B/G/P}"@ {
        "<:BGP:1345702936856236062>"@
    } else if sym == "{B/R/P}"@ {
        "<:BRP:1345702942044327936>"@
    } else if sym == "{G/U/P}"@ {
        "<:GUP:1345438650879574158>"@
    } else if sym == "{G/W/P}"@ {
        "<:GWP:1345438712489578626>"@
    } else if sym == "{R/G/P}"@ {
        "<:RGP:1345438898771202201>"@
    } else if sym == "{R/W/P}"@ {
        "<:RWP:1345439000072294581>"@
    } else if sym == "{U/B/P}"@ {
        "<:UBP:1345439361071583333>"@
    } else if sym == "{U/R/P}"@ {
        "<:URP:1345702944997376081>"@
    } else if sym == "{W/B/P}"@ {
        "<:WBP:1345702947228745771>"@
    } else if sym == "{W/U/P}"@ {
        "<:WUP:1345702953452834836>"@
    } else if sym == "{C/W}"@ {
        "<:CW:1345705665418756187>"@
    } else if sym == "{C/U}"@ {
        "<:CU:1345438494918705226>"@
    } else if sym == "{C/B}"@ {
        "<:CB:1345705955521859676>"@
    } else if sym == "{C/R}"@ {
        "<:CR:1345438462328836200>"@
    } else if sym == "{C/G}"@ {
        "<:CG:1345706079820058624>"@
    } else if sym == "{2/W}"@ {
        "<:2W:1345437870554615840>"@
    } else if sym == "{2/U}"@ {
        "<:2U:1345437843564007506>"@
    } else if sym == "{2/B}"@ {
        "<:2B:1345437778250567742>"@
    } else if sym == "{2/R}"@ {
        "<:2R:1345437820637941832>"@
    } else if sym == "{2/G}"@ {
        "<:2G:1345437799494713455>"@
    } else if sym == "{H}"@ {
        "<:H_:1345440568158715944>"@
    } else if sym == "{W/P}"@ {
        "<:WP:1345703065872764939>"@
    } else if sym == "{U/P}"@ {
        "<:UP:1345439290267537590>"@
    } else if sym == "{B/P}"@ {
        "<:BP:1345702938131300423>"@
    } else if sym == "{R/P}"@ {
        "<:RP:1345438934158807110>"@
    } else if sym == "{G/P}"@ {
        "<:GP:1345438592872349819>"@
    } else if sym == "{C/P}"@ {
        "<:CP:1345702943554535525>"@
    } else if sym == "{HW}"@ {
        "<:HW:1345440643110928485>"@
    } else if sym == "{HR}"@ {
        "<:HR:1345440614073761882>"@
    } else if sym == "{W}"@ {
        "<:W_:1345439215546269776>"@
    } else if sym == "{U}"@ {
        "<:U_:1345439182209683568>"@
    } else if sym == "{B}"@ {
        "<:B_:1345438265351602350>"@
    } else if sym == "{R}"@ {
        "<:R_:1345438424160800892>"@
    } else if sym == "{C}"@ {
        "<:C_:1345438302806999161>"@
    } else if sym == "{S}"@ {
        "<:S_:1345439116061311110>"@
    } else if sym == "{L}"@ {
        "<:L_:1345440671821074553>"@
    } else if sym == "{D}"@ {
        "<:D_:1346103094655717428>"@
    } else {
        sym
    }
}

/// The emoji of one symbol (see `emoji_of`).
pub fn add_emoji(symbol: &str) -> (r: String)
    ensures
        r@ == emoji_of(symbol@),
{
    if str_eq(symbol, "{T}") {
        to_owned_string("<:tap:1341154606524403804>")
    } else if str_eq(symbol, "{G}") {
        to_owned_string("<:G_:1345438564242165920>")
    } else if str_eq(symbol, "{Q}") {
        to_owned_string("<:Q_:1345438796866392165>")
    } else if str_eq(symbol, "{E}") {
        to_owned_string("<:E_:1345438529609531502>")
    } else if str_eq(symbol, "{P}") {
        to_owned_string("<:P_:1345440710085709914>")
    } else if str_eq(symbol, "{PW}") {
        to_owned_string("<:PW:1345440736929120318>")
    } else if str_eq(symbol, "{CHAOS}") {
        to_owned_string("<:CHAOS:1345440488161017997>")
    } else if str_eq(symbol, "{A}") {
        to_owned_string("<:A_:1345440412441116693>")
    } else if str_eq(symbol, "{TK}") {
        to_owned_string("<:TK:1346103090968793150>")
    } else if str_eq(symbol, "{X}") {
        to_owned_string("<:X_:1345704187551547392>")
    } else if str_eq(symbol, "{Y}") {
        to_owned_string("<:Y_:1346103088972300398>")
    } else if str_eq(symbol, "{Z}") {
        to_owned_string("<:Z_:1345440514337406988>")
    } else if str_eq(symbol, "{0}") {
        to_owned_string("<:0_:1345437656942645308>")
    } else if str_eq(symbol, "{\u{c2}\u{bd}}") {
        to_owned_string("<:1_2:1346103097059180556>")
    } else if str_eq(symbol, "{1}") {
        to_owned_string("<:1_:1345437700534304798>")
    } else if str_eq(symbol, "{2}") {
        to_owned_string("<:2_:1345437748453965916>")
    } else if str_eq(symbol, "{3}") {
        to_owned_string("<:3_:1345437898631286815>")
    } else if str_eq(symbol, "{4}") {
        to_owned_string("<:4_:1345437928624488478>")
    } else if str_eq(symbol, "{5}") {
        to_owned_string("<:5_:1345437962367930429>")
    } else if str_eq(symbol, "{6}") {
        to_owned_string("<:6_:1345437996123684884>")
    } else if str_eq(symbol, "{7}") {
        to_owned_string("<:7_:1345438032504950877>")
    } else if str_eq(symbol, "{8}") {
        to_owned_string("<:8_:1345438064079667271>")
    } else if str_eq(symbol, "{9}") {
        to_owned_string("<:9_:1345438095415443558>")
    } else if str_eq(symbol, "{10}") {
        to_owned_string("<:10:1345438121688436838>")
    } else if str_eq(symbol, "{11}") {
        to_owned_string("<:11:1345438143641288765>")
    } else if str_eq(symbol, "{12}") {
        to_owned_string("<:12:1345438162410799177>")
    } else if str_eq(symbol, "{13}") {
        to_owned_string("<:13:1345438183265009714>")
    } else if str_eq(symbol, "{14}") {
        to_owned_string("<:14:1345438202474926201>")
    } else if str_eq(symbol, "{15}") {
        to_owned_string("<:15:1345438222078967872>")
    } else if str_eq(symbol, "{16}") {
        to_owned_string("<:16:1345440302285979669>")
    } else if str_eq(symbol, "{17}") {
        to_owned_string("<:17:1345440324952133673>")
    } else if str_eq(symbol, "{18}") {
        to_owned_string("<:18:1345440347010105454>")
    } else if str_eq(symbol, "{19}") {
        to_owned_string("<:19:1345440370670178405>")
    } else if str_eq(symbol, "{20}") {
        to_owned_string("<:20:1345440391239045120>")
    } else if str_eq(symbol, "{100}") {
        to_owned_string("<:100_:1346103101207089153>")
    } else if str_eq(symbol, "{1000000}") {
        to_owned_string("<:1000000:1346103099508523119>")
    } else if str_eq(symbol, "{\u{e2}\u{2c6}\u{17e}}") {
        to_owned_string("<:infinite:1346103098267009117>")
    } else if str_eq(symbol, "{W/U}") {
        to_owned_string("<:WU:1345702950651035658>")
    } else if str_eq(symbol, "{W/B}") {
        to_owned_string("<:WB:1345702946121191444>")
    } else if str_eq(symbol, "{B/R}") {
        to_owned_string("<:BR:1345702940480114749>")
    } else if str_eq(symbol, "{B/G}") {
        to_owned_string("<:BG:1345702935706730526>")
    } else if str_eq(symbol, "{U/B}") {
        to_owned_string("<:UB:1345439329278890097>")
    } else if str_eq(symbol, "{U/R}") {
        to_owned_string("<:UR:1345439405136941187>")
    } else if str_eq(symbol, "{R/G}") {
        to_owned_string("<:RG:1345438831737966694>")
    } else if str_eq(symbol, "{R/W}") {
        to_owned_string("<:RW:1345438965162835999>")
    } else if str_eq(symbol, "{G/W}") {
        to_owned_string("<:GW:1345438678306132029>")
    } else if str_eq(symbol, "{G/U}") {
        to_owned_string("<:GU:1345438620185530488>")
    } else if str_eq(symbol, "{B/G/P}") {
        to_owned_string("<:BGP:1345702936856236062>")
    } else if str_eq(symbol, "{B/R/P}") {
        to_owned_string("<:BRP:1345702942044327936>")
    } else if str_eq(symbol, "{G/U/P}") {
        to_owned_string("<:GUP:1345438650879574158>")
    } else if str_eq(symbol, "{G/W/P}") {
        to_owned_string("<:GWP:1345438712489578626>")
    } else if str_eq(symbol, "{R/G/P}") {
        to_owned_string("<:RGP:1345438898771202201>")
    } else if str_eq(symbol, "{R/W/P}") {
        to_owned_string("<:RWP:1345439000072294581>")
    } else if str_eq(symbol, "{U/B/P}") {
        to_owned_string("<:UBP:1345439361071583333>")
    } else if str_eq(symbol, "{U/R/P}") {
        to_owned_string("<:URP:1345702944997376081>")
    } else if str_eq(symbol, "{W/B/P}") {
        to_owned_string("<:WBP:1345702947228745771>")
    } else if str_eq(symbol, "{W/U/P}") {
        to_owned_string("<:WUP:1345702953452834836>")
    } else if str_eq(symbol, "{C/W}") {
        to_owned_string("<:CW:1345705665418756187>")
    } else if str_eq(symbol, "{C/U}") {
        to_owned_string("<:CU:1345438494918705226>")
    } else if str_eq(symbol, "{C/B}") {
        to_owned_string("<:CB:1345705955521859676>")
    } else if str_eq(symbol, "{C/R}") {
        to_owned_string("<:CR:1345438462328836200>")
    } else if str_eq(symbol, "{C/G}") {
        to_owned_string("<:CG:1345706079820058624>")
    } else if str_eq(symbol, "{2/W}") {
        to_owned_string("<:2W:1345437870554615840>")
    } else if str_eq(symbol, "{2/U}") {
        to_owned_string("<:2U:1345437843564007506>")
    } else if str_eq(symbol, "{2/B}") {
        to_owned_string("<:2B:1345437778250567742>")
    } else if str_eq(symbol, "{2/R}") {
        to_owned_string("<:2R:1345437820637941832>")
    } else if str_eq(symbol, "{2/G}") {
        to_owned_string("<:2G:1345437799494713455>")
    } else if str_eq(symbol, "{H}") {
        to_owned_string("<:H_:1345440568158715944>")
    } else if str_eq(symbol, "{W/P}") {
        to_owned_string("<:WP:1345703065872764939>")
    } else if str_eq(symbol, "{U/P}") {
        to_owned_string("<:UP:1345439290267537590>")
    } else if str_eq(symbol, "{B/P}") {
        to_owned_string("<:BP:1345702938131300423>")
    } else if str_eq(symbol, "{R/P}") {
        to_owned_string("<:RP:1345438934158807110>")
    } else if str_eq(symbol, "{G/P}") {
        to_owned_string("<:GP:1345438592872349819>")
    } else if str_eq(symbol, "{C/P}") {
        to_owned_string("<:CP:1345702943554535525>")
    } else if str_eq(symbol, "{HW}") {
        to_owned_string("<:HW:1345440643110928485>")
    } else if str_eq(symbol, "{HR}") {
        to_owned_string("<:HR:1345440614073761882>")
    } else if str_eq(symbol, "{W}") {
        to_owned_string("<:W_:1345439215546269776>")
    } else if str_eq(symbol, "{U}") {
        to_owned_string("<:U_:1345439182209683568>")
    } else if str_eq(symbol, "{B}") {
        to_owned_string("<:B_:1345438265351602350>")
    } else if str_eq(symbol, "{R}") {
        to_owned_string("<:R_:1345438424160800892>")
    } else if str_eq(symbol, "{C}") {
        to_owned_string("<:C_:1345438302806999161>")
    } else if str_eq(symbol, "{S}") {
        to_owned_string("<:S_:1345439116061311110>")
    } else if str_eq(symbol, "{L}") {
        to_owned_string("<:L_:1345440671821074553>")
    } else if str_eq(symbol, "{D}") {
        to_owned_string("<:D_:1346103094655717428>")
    } else {
        to_owned_string(symbol)
    }
}

/// The alternatives of the symbol pattern, in the pattern's order.
pub open spec fn symbol_alternatives() -> Seq<Seq<char>> {
    seq![
        "{T}"@,
        "{Q}"@,
        "{E}"@,
        "{P}"@,
        "{PW}"@,
        "{CHAOS}"@,
        "{A}"@,
        "{TK}"@,
        "{X}"@,
        "{Y}"@,
        "{Z}"@,
        "{0}"@,
        "{\u{c2}\u{bd}}"@,
        "{1}"@,
        "{2}"@,
        "{3}"@,
        "{4}"@,
        "{5}"@,
        "{6}"@,
        "{7}"@,
        "{8}"@,
        "{9}"@,
        "{10}"@,
        "{11}"@,
        "{12}"@,
        "{13}"@,
        "{14}"@,
        "{15}"@,
        "{16}"@,
        "{17}"@,
        "{18}"@,
        "{19}"@,
        "{20}"@,
        "{100}"@,
        "{1000000}"@,
        "{\u{e2}\u{2c6}\u{17e}}"@,
        "{W/U}"@,
        "{W/B}"@,
        "{B/R}"@,
        "{B/G}"@,
        "{U/B}"@,
        "{U/R}"@,
        "{R/G}"@,
        "{R/W}"@,
        "{G/W}"@,
        "{G/U}"@,
        "{B/G/P}"@,
        "{B/R/P}"@,
        "{G/U/P}"@,
        "{G/W/P}"@,
        "{R/G/P}"@,
        "{R/W/P}"@,
        "{U/B/P}"@,
        "{U/R/P}"@,
        "{W/B/P}"@,
        "{W/U/P}"@,
        "{C/W}"@,
        "{C/U}"@,
        "{C/B}"@,
        "{C/R}"@,
        "{C/G}"@,
        "{2/W}"@,
        "{2/U}"@,
        "{2/B}"@,
        "{2/R}"@,
        "{2/G}"@,
        "{H}"@,
        "{W/P}"@,
        "{U/P}"@,
        "{B/P}"@,
        "{R/P}"@,
        "{G/P}"@,
        "{C/P}"@,
        "{HW}"@,
        "{HR}"@,
        "{W}"@,
        "{U}"@,
        "{B}"@,
        "{R}"@,
        "{G}"@,
        "{C}"@,
        "{S}"@,
        "{L}"@,
        "{D}"@
    ]
}

/// The first of `alts[k..]` that `text` starts with, if any.
pub open spec fn first_symbol_from(text: Seq<char>, alts: Seq<Seq<char>>, k: int) -> Option<
    Seq<char>,
>
    decreases alts.len() - k,
{
    if k < 0 || k >= alts.len() {
        None
    } else if 0 < alts[k].len() <= text.len() && text.subrange(0, alts[k].len() as int) == alts[k] {
        Some(alts[k])
    } else {
        first_symbol_from(text, alts, k + 1)
    }
}

/// What the symbol pattern's replacement makes of a text: scanning from the
/// left, where the text continues with an alternative of the pattern (the
/// first one in the pattern's order), that symbol is replaced by its emoji
/// (`emoji_of`) and the scan goes on after it; elsewhere one character is
/// kept.
pub open spec fn spec_replace_symbols(text: Seq<char>) -> Seq<char>
    decreases text.len(),
{
    if text.len() == 0 {
        Seq::empty()
    } else {
        match first_symbol_from(text, symbol_alternatives(), 0) {
            Some(sym) => if 0 < sym.len() <= text.len() {
                emoji_of(sym) + spec_replace_symbols(text.subrange(sym.len() as int, text.len() as int))
            } else {
                seq![text[0]] + spec_replace_symbols(text.subrange(1, text.len() as int))
            },
            None => seq![text[0]] + spec_replace_symbols(text.subrange(1, text.len() as int)),
        }
    }
}

/// The first index at or after `i` that holds a line break, or the length
/// of the text.
pub open spec fn line_end(t: Seq<char>, i: int) -> int
    decreases t.len() - i,
{
    if i < 0 || i >= t.len() {
        t.len() as int
    } else if t[i] == '\n' {
        i
    } else {
        line_end(t, i + 1)
    }
}

/// The last index in `lo..hi` that holds `)`, or `lo - 1` when none does.
pub open spec fn last_close(t: Seq<char>, lo: int, hi: int) -> int
    decreases hi - lo,
{
    if hi <= lo {
        lo - 1
    } else if 0 <= hi - 1 < t.len() && t[hi - 1] == ')' {
        hi - 1
    } else {
        last_close(t, lo, hi - 1)
    }
}

/// What the replacement of `\((.+)\)` by `(*$1*)` makes of a text: scanning
/// from the left, an opening parenthesis followed on the same line by at
/// least one character and a closing one is matched as far as the last
/// closing parenthesis of that line, and its inside is put between `(*` and
/// `*)`; the scan goes on after it. Elsewhere one character is kept.
pub open spec fn spec_italicise(t: Seq<char>) -> Seq<char>
    decreases t.len(),
{
    if t.len() == 0 {
        Seq::empty()
    } else {
        let j = last_close(t, 2, line_end(t, 1));
        if t[0] == '(' && 2 <= j < t.len() {
            "(*"@ + t.subrange(1, j) + "*)"@ + spec_italicise(t.subrange(j + 1, t.len() as int))
        } else {
            seq![t[0]] + spec_italicise(t.subrange(1, t.len() as int))
        }
    }
}

/// Every symbol that the symbol pattern matches has a custom emoji of its
/// own: the replacement is an emoji reference (it begins with `<:`), never
/// the symbol itself.
pub proof fn lemma_every_symbol_has_emoji()
    ensures
        forall|k: int|
            #![trigger symbol_alternatives()[k]]
            0 <= k < symbol_alternatives().len() ==> emoji_of(symbol_alternatives()[k]).len() >= 2
                && emoji_of(symbol_alternatives()[k]).subrange(0, 2) == "<:"@
                && emoji_of(symbol_alternatives()[k]) != symbol_alternatives()[k],
{
    reveal_strlit("<:");
    reveal_strlit("<:tap:1341154606524403804>");
    assert("<:tap:1341154606524403804>"@.len() >= 2 && "<:tap:1341154606524403804>"@[0] == '<' && "<:tap:1341154606524403804>"@[1] == ':');
    reveal_strlit("<:G_:1345438564242165920>");
    assert("<:G_:1345438564242165920>"@.len() >= 2 && "<:G_:1345438564242165920>"@[0] == '<' && "<:G_:1345438564242165920>"@[1] == ':');
    reveal_strlit("<:Q_:1345438796866392165>");
    assert("<:Q_:1345438796866392165>"@.len() >= 2 && "<:Q_:1345438796866392165>"@[0] == '<' && "<:Q_:1345438796866392165>"@[1] == ':');
    reveal_strlit("<:E_:1345438529609531502>");
    assert("<:E_:1345438529609531502>"@.len() >= 2 && "<:E_:1345438529609531502>"@[0] == '<' && "<:E_:1345438529609531502>"@[1] == ':');
    reveal_strlit("<:P_:1345440710085709914>");
    assert("<:P_:1345440710085709914>"@.len() >= 2 && "<:P_:1345440710085709914>"@[0] == '<' && "<:P_:1345440710085709914>"@[1] == ':');
    reveal_strlit("<:PW:1345440736929120318>");
    assert("<:PW:1345440736929120318>"@.len() >= 2 && "<:PW:1345440736929120318>"@[0] == '<' && "<:PW:1345440736929120318>"@[1] == ':');
    reveal_strlit("<:CHAOS:1345440488161017997>");
    assert("<:CHAOS:1345440488161017997>"@.len() >= 2 && "<:CHAOS:1345440488161017997>"@[0] == '<' && "<:CHAOS:1345440488161017997>"@[1] == ':');
    reveal_strlit("<:A_:1345440412441116693>");
    assert("<:A_:1345440412441116693>"@.len() >= 2 && "<:A_:1345440412441116693>"@[0] == '<' && "<:A_:1345440412441116693>"@[1] == ':');
    reveal_strlit("<:TK:1346103090968793150>");
    assert("<:TK:1346103090968793150>"@.len() >= 2 && "<:TK:1346103090968793150>"@[0] == '<' && "<:TK:1346103090968793150>"@[1] == ':');
    reveal_strlit("<:X_:1345704187551547392>");
    assert("<:X_:1345704187551547392>"@.len() >= 2 && "<:X_:1345704187551547392>"@[0] == '<' && "<:X_:1345704187551547392>"@[1] == ':');
    reveal_strlit("<:Y_:1346103088972300398>");
    assert("<:Y_:1346103088972300398>"@.len() >= 2 && "<:Y_:1346103088972300398>"@[0] == '<' && "<:Y_:1346103088972300398>"@[1] == ':');
    reveal_strlit("<:Z_:1345440514337406988>");
    assert("<:Z_:1345440514337406988>"@.len() >= 2 && "<:Z_:1345440514337406988>"@[0] == '<' && "<:Z_:1345440514337406988>"@[1] == ':');
    reveal_strlit("<:0_:1345437656942645308>");
    assert("<:0_:1345437656942645308>"@.len() >= 2 && "<:0_:1345437656942645308>"@[0] == '<' && "<:0_:1345437656942645308>"@[1] == ':');
    reveal_strlit("<:1_2:1346103097059180556>");
    assert("<:1_2:1346103097059180556>"@.len() >= 2 && "<:1_2:1346103097059180556>"@[0] == '<' && "<:1_2:1346103097059180556>"@[1] == ':');
    reveal_strlit("<:1_:1345437700534304798>");
    assert("<:1_:1345437700534304798>"@.len() >= 2 && "<:1_:1345437700534304798>"@[0] == '<' && "<:1_:1345437700534304798>"@[1] == ':');
    reveal_strlit("<:2_:1345437748453965916>");
    assert("<:2_:1345437748453965916>"@.len() >= 2 && "<:2_:1345437748453965916>"@[0] == '<' && "<:2_:1345437748453965916>"@[1] == ':');
    reveal_strlit("<:3_:1345437898631286815>");
    assert("<:3_:1345437898631286815>"@.len() >= 2 && "<:3_:1345437898631286815>"@[0] == '<' && "<:3_:1345437898631286815>"@[1] == ':');
    reveal_strlit("<:4_:1345437928624488478>");
    assert("<:4_:1345437928624488478>"@.len() >= 2 && "<:4_:1345437928624488478>"@[0] == '<' && "<:4_:1345437928624488478>"@[1] == ':');
    reveal_strlit("<:5_:1345437962367930429>");
    assert("<:5_:1345437962367930429>"@.len() >= 2 && "<:5_:1345437962367930429>"@[0] == '<' && "<:5_:1345437962367930429>"@[1] == ':');
    reveal_strlit("<:6_:1345437996123684884>");
    assert("<:6_:1345437996123684884>"@.len() >= 2 && "<:6_:1345437996123684884>"@[0] == '<' && "<:6_:1345437996123684884>"@[1] == ':');
    reveal_strlit("<:7_:1345438032504950877>");
    assert("<:7_:1345438032504950877>"@.len() >= 2 && "<:7_:1345438032504950877>"@[0] == '<' && "<:7_:1345438032504950877>"@[1] == ':');
    reveal_strlit("<:8_:1345438064079667271>");
    assert("<:8_:1345438064079667271>"@.len() >= 2 && "<:8_:1345438064079667271>"@[0] == '<' && "<:8_:1345438064079667271>"@[1] == ':');
    reveal_strlit("<:9_:1345438095415443558>");
    assert("<:9_:1345438095415443558>"@.len() >= 2 && "<:9_:1345438095415443558>"@[0] == '<' && "<:9_:1345438095415443558>"@[1] == ':');
    reveal_strlit("<:10:1345438121688436838>");
    assert("<:10:1345438121688436838>"@.len() >= 2 && "<:10:1345438121688436838>"@[0] == '<' && "<:10:1345438121688436838>"@[1] == ':');
    reveal_strlit("<:11:1345438143641288765>");
    assert("<:11:1345438143641288765>"@.len() >= 2 && "<:11:1345438143641288765>"@[0] == '<' && "<:11:1345438143641288765>"@[1] == ':');
    reveal_strlit("<:12:1345438162410799177>");
    assert("<:12:1345438162410799177>"@.len() >= 2 && "<:12:1345438162410799177>"@[0] == '<' && "<:12:1345438162410799177>"@[1] == ':');
    reveal_strlit("<:13:1345438183265009714>");
    assert("<:13:1345438183265009714>"@.len() >= 2 && "<:13:1345438183265009714>"@[0] == '<' && "<:13:1345438183265009714>"@[1] == ':');
    reveal_strlit("<:14:1345438202474926201>");
    assert("<:14:1345438202474926201>"@.len() >= 2 && "<:14:1345438202474926201>"@[0] == '<' && "<:14:1345438202474926201>"@[1] == ':');
    reveal_strlit("<:15:1345438222078967872>");
    assert("<:15:1345438222078967872>"@.len() >= 2 && "<:15:1345438222078967872>"@[0] == '<' && "<:15:1345438222078967872>"@[1] == ':');
    reveal_strlit("<:16:1345440302285979669>");
    assert("<:16:1345440302285979669>"@.len() >= 2 && "<:16:1345440302285979669>"@[0] == '<' && "<:16:1345440302285979669>"@[1] == ':');
    reveal_strlit("<:17:1345440324952133673>");
    assert("<:17:1345440324952133673>"@.len() >= 2 && "<:17:1345440324952133673>"@[0] == '<' && "<:17:1345440324952133673>"@[1] == ':');
    reveal_strlit("<:18:1345440347010105454>");
    assert("<:18:1345440347010105454>"@.len() >= 2 && "<:18:1345440347010105454>"@[0] == '<' && "<:18:1345440347010105454>"@[1] == ':');
    reveal_strlit("<:19:1345440370670178405>");
    assert("<:19:1345440370670178405>"@.len() >= 2 && "<:19:1345440370670178405>"@[0] == '<' && "<:19:1345440370670178405>"@[1] == ':');
    reveal_strlit("<:20:1345440391239045120>");
    assert("<:20:1345440391239045120>"@.len() >= 2 && "<:20:1345440391239045120>"@[0] == '<' && "<:20:1345440391239045120>"@[1] == ':');
    reveal_strlit("<:100_:1346103101207089153>");
    assert("<:100_:1346103101207089153>"@.len() >= 2 && "<:100_:1346103101207089153>"@[0] == '<' && "<:100_:1346103101207089153>"@[1] == ':');
    reveal_strlit("<:1000000:1346103099508523119>");
    assert("<:1000000:1346103099508523119>"@.len() >= 2 && "<:1000000:1346103099508523119>"@[0] == '<' && "<:1000000:1346103099508523119>"@[1] == ':');
    reveal_strlit("<:infinite:1346103098267009117>");
    assert("<:infinite:1346103098267009117>"@.len() >= 2 && "<:infinite:1346103098267009117>"@[0] == '<' && "<:infinite:1346103098267009117>"@[1] == ':');
    reveal_strlit("<:WU:1345702950651035658>");
    assert("<:WU:1345702950651035658>"@.len() >= 2 && "<:WU:1345702950651035658>"@[0] == '<' && "<:WU:1345702950651035658>"@[1] == ':');
    reveal_strlit("<:WB:1345702946121191444>");
    assert("<:WB:1345702946121191444>"@.len() >= 2 && "<:WB:1345702946121191444>"@[0] == '<' && "<:WB:1345702946121191444>"@[1] == ':');
    reveal_strlit("<:BR:1345702940480114749>");
    assert("<:BR:1345702940480114749>"@.len() >= 2 && "<:BR:1345702940480114749>"@[0] == '<' && "<:BR:1345702940480114749>"@[1] == ':');
    reveal_strlit("<:BG:1345702935706730526>");
    assert("<:BG:1345702935706730526>"@.len() >= 2 && "<:BG:1345702935706730526>"@[0] == '<' && "<:BG:1345702935706730526>"@[1] == ':');
    reveal_strlit("<:UB:1345439329278890097>");
    assert("<:UB:1345439329278890097>"@.len() >= 2 && "<:UB:1345439329278890097>"@[0] == '<' && "<:UB:1345439329278890097>"@[1] == ':');
    reveal_strlit("<:UR:1345439405136941187>");
    assert("<:UR:1345439405136941187>"@.len() >= 2 && "<:UR:1345439405136941187>"@[0] == '<' && "<:UR:1345439405136941187>"@[1] == ':');
    reveal_strlit("<:RG:1345438831737966694>");
    assert("<:RG:1345438831737966694>"@.len() >= 2 && "<:RG:1345438831737966694>"@[0] == '<' && "<:RG:1345438831737966694>"@[1] == ':');
    reveal_strlit("<:RW:1345438965162835999>");
    assert("<:RW:1345438965162835999>"@.len() >= 2 && "<:RW:1345438965162835999>"@[0] == '<' && "<:RW:1345438965162835999>"@[1] == ':');
    reveal_strlit("<:GW:1345438678306132029>");
    assert("<:GW:1345438678306132029>"@.len() >= 2 && "<:GW:1345438678306132029>"@[0] == '<' && "<:GW:1345438678306132029>"@[1] == ':');
    reveal_strlit("<:GU:1345438620185530488>");
    assert("<:GU:1345438620185530488>"@.len() >= 2 && "<:GU:1345438620185530488>"@[0] == '<' && "<:GU:1345438620185530488>"@[1] == ':');
    reveal_strlit("<:BGP:1345702936856236062>");
    assert("<:BGP:1345702936856236062>"@.len() >= 2 && "<:BGP:1345702936856236062>"@[0] == '<' && "<:BGP:1345702936856236062>"@[1] == ':');
    reveal_strlit("<:BRP:1345702942044327936>");
    assert("<:BRP:1345702942044327936>"@.len() >= 2 && "<:BRP:1345702942044327936>"@[0] == '<' && "<:BRP:1345702942044327936>"@[1] == ':');
    reveal_strlit("<:GUP:1345438650879574158>");
    assert("<:GUP:1345438650879574158>"@.len() >= 2 && "<:GUP:1345438650879574158>"@[0] == '<' && "<:GUP:1345438650879574158>"@[1] == ':');
    reveal_strlit("<:GWP:1345438712489578626>");
    assert("<:GWP:1345438712489578626>"@.len() >= 2 && "<:GWP:1345438712489578626>"@[0] == '<' && "<:GWP:1345438712489578626>"@[1] == ':');
    reveal_strlit("<:RGP:1345438898771202201>");
    assert("<:RGP:1345438898771202201>"@.len() >= 2 && "<:RGP:1345438898771202201>"@[0] == '<' && "<:RGP:1345438898771202201>"@[1] == ':');
    reveal_strlit("<:RWP:1345439000072294581>");
    assert("<:RWP:1345439000072294581>"@.len() >= 2 && "<:RWP:1345439000072294581>"@[0] == '<' && "<:RWP:1345439000072294581>"@[1] == ':');
    reveal_strlit("<:UBP:1345439361071583333>");
    assert("<:UBP:1345439361071583333>"@.len() >= 2 && "<:UBP:1345439361071583333>"@[0] == '<' && "<:UBP:1345439361071583333>"@[1] == ':');
    reveal_strlit("<:URP:1345702944997376081>");
    assert("<:URP:1345702944997376081>"@.len() >= 2 && "<:URP:1345702944997376081>"@[0] == '<' && "<:URP:1345702944997376081>"@[1] == ':');
    reveal_strlit("<:WBP:1345702947228745771>");
    assert("<:WBP:1345702947228745771>"@.len() >= 2 && "<:WBP:1345702947228745771>"@[0] == '<' && "<:WBP:1345702947228745771>"@[1] == ':');
    reveal_strlit("<:WUP:1345702953452834836>");
    assert("<:WUP:1345702953452834836>"@.len() >= 2 && "<:WUP:1345702953452834836>"@[0] == '<' && "<:WUP:1345702953452834836>"@[1] == ':');
    reveal_strlit("<:CW:1345705665418756187>");
    assert("<:CW:1345705665418756187>"@.len() >= 2 && "<:CW:1345705665418756187>"@[0] == '<' && "<:CW:1345705665418756187>"@[1] == ':');
    reveal_strlit("<:CU:1345438494918705226>");
    assert("<:CU:1345438494918705226>"@.len() >= 2 && "<:CU:1345438494918705226>"@[0] == '<' && "<:CU:1345438494918705226>"@[1] == ':');
    reveal_strlit("<:CB:1345705955521859676>");
    assert("<:CB:1345705955521859676>"@.len() >= 2 && "<:CB:1345705955521859676>"@[0] == '<' && "<:CB:1345705955521859676>"@[1] == ':');
    reveal_strlit("<:CR:1345438462328836200>");
    assert("<:CR:1345438462328836200>"@.len() >= 2 && "<:CR:1345438462328836200>"@[0] == '<' && "<:CR:1345438462328836200>"@[1] == ':');
    reveal_strlit("<:CG:1345706079820058624>");
    assert("<:CG:1345706079820058624>"@.len() >= 2 && "<:CG:1345706079820058624>"@[0] == '<' && "<:CG:1345706079820058624>"@[1] == ':');
    reveal_strlit("<:2W:1345437870554615840>");
    assert("<:2W:1345437870554615840>"@.len() >= 2 && "<:2W:1345437870554615840>"@[0] == '<' && "<:2W:1345437870554615840>"@[1] == ':');
    reveal_strlit("<:2U:1345437843564007506>");
    assert("<:2U:1345437843564007506>"@.len() >= 2 && "<:2U:1345437843564007506>"@[0] == '<' && "<:2U:1345437843564007506>"@[1] == ':');
    reveal_strlit("<:2B:1345437778250567742>");
    assert("<:2B:1345437778250567742>"@.len() >= 2 && "<:2B:1345437778250567742>"@[0] == '<' && "<:2B:1345437778250567742>"@[1] == ':');
    reveal_strlit("<:2R:1345437820637941832>");
    assert("<:2R:1345437820637941832>"@.len() >= 2 && "<:2R:1345437820637941832>"@[0] == '<' && "<:2R:1345437820637941832>"@[1] == ':');
    reveal_strlit("<:2G:1345437799494713455>");
    assert("<:2G:1345437799494713455>"@.len() >= 2 && "<:2G:1345437799494713455>"@[0] == '<' && "<:2G:1345437799494713455>"@[1] == ':');
    reveal_strlit("<:H_:1345440568158715944>");
    assert("<:H_:1345440568158715944>"@.len() >= 2 && "<:H_:1345440568158715944>"@[0] == '<' && "<:H_:1345440568158715944>"@[1] == ':');
    reveal_strlit("<:WP:1345703065872764939>");
    assert("<:WP:1345703065872764939>"@.len() >= 2 && "<:WP:1345703065872764939>"@[0] == '<' && "<:WP:1345703065872764939>"@[1] == ':');
    reveal_strlit("<:UP:1345439290267537590>");
    assert("<:UP:1345439290267537590>"@.len() >= 2 && "<:UP:1345439290267537590>"@[0] == '<' && "<:UP:1345439290267537590>"@[1] == ':');
    reveal_strlit("<:BP:1345702938131300423>");
    assert("<:BP:1345702938131300423>"@.len() >= 2 && "<:BP:1345702938131300423>"@[0] == '<' && "<:BP:1345702938131300423>"@[1] == ':');
    reveal_strlit("<:RP:1345438934158807110>");
    assert("<:RP:1345438934158807110>"@.len() >= 2 && "<:RP:1345438934158807110>"@[0] == '<' && "<:RP:1345438934158807110>"@[1] == ':');
    reveal_strlit("<:GP:1345438592872349819>");
    assert("<:GP:1345438592872349819>"@.len() >= 2 && "<:GP:1345438592872349819>"@[0] == '<' && "<:GP:1345438592872349819>"@[1] == ':');
    reveal_strlit("<:CP:1345702943554535525>");
    assert("<:CP:1345702943554535525>"@.len() >= 2 && "<:CP:1345702943554535525>"@[0] == '<' && "<:CP:1345702943554535525>"@[1] == ':');
    reveal_strlit("<:HW:1345440643110928485>");
    assert("<:HW:1345440643110928485>"@.len() >= 2 && "<:HW:1345440643110928485>"@[0] == '<' && "<:HW:1345440643110928485>"@[1] == ':');
    reveal_strlit("<:HR:1345440614073761882>");
    assert("<:HR:1345440614073761882>"@.len() >= 2 && "<:HR:1345440614073761882>"@[0] == '<' && "<:HR:1345440614073761882>"@[1] == ':');
    reveal_strlit("<:W_:1345439215546269776>");
    assert("<:W_:1345439215546269776>"@.len() >= 2 && "<:W_:1345439215546269776>"@[0] == '<' && "<:W_:1345439215546269776>"@[1] == ':');
    reveal_strlit("<:U_:1345439182209683568>");
    assert("<:U_:1345439182209683568>"@.len() >= 2 && "<:U_:1345439182209683568>"@[0] == '<' && "<:U_:1345439182209683568>"@[1] == ':');
    reveal_strlit("<:B_:1345438265351602350>");
    assert("<:B_:1345438265351602350>"@.len() >= 2 && "<:B_:1345438265351602350>"@[0] == '<' && "<:B_:1345438265351602350>"@[1] == ':');
    reveal_strlit("<:R_:1345438424160800892>");
    assert("<:R_:1345438424160800892>"@.len() >= 2 && "<:R_:1345438424160800892>"@[0] == '<' && "<:R_:1345438424160800892>"@[1] == ':');
    reveal_strlit("<:C_:1345438302806999161>");
    assert("<:C_:1345438302806999161>"@.len() >= 2 && "<:C_:1345438302806999161>"@[0] == '<' && "<:C_:1345438302806999161>"@[1] == ':');
    reveal_strlit("<:S_:1345439116061311110>");
    assert("<:S_:1345439116061311110>"@.len() >= 2 && "<:S_:1345439116061311110>"@[0] == '<' && "<:S_:1345439116061311110>"@[1] == ':');
    reveal_strlit("<:L_:1345440671821074553>");
    assert("<:L_:1345440671821074553>"@.len() >= 2 && "<:L_:1345440671821074553>"@[0] == '<' && "<:L_:1345440671821074553>"@[1] == ':');
    reveal_strlit("<:D_:1346103094655717428>");
    assert("<:D_:1346103094655717428>"@.len() >= 2 && "<:D_:1346103094655717428>"@[0] == '<' && "<:D_:1346103094655717428>"@[1] == ':');
    let alts = symbol_alternatives();
    assert forall|k: int| #![trigger alts[k]] 0 <= k < alts.len() implies emoji_of(alts[k]).len()
        >= 2 && emoji_of(alts[k]).subrange(0, 2) == "<:"@ && emoji_of(alts[k]) != alts[k] by {
        if k == 0 {
            reveal_strlit("{T}");
            assert(alts[0] == "{T}"@ && "{T}"@[0] == '{');
        } else if k == 1 {
            reveal_strlit("{Q}");
            assert(alts[1] == "{Q}"@ && "{Q}"@[0] == '{');
        } else if k == 2 {
            reveal_strlit("{E}");
            assert(alts[2] == "{E}"@ && "{E}"@[0] == '{');
        } else if k == 3 {
            reveal_strlit("{P}");
            assert(alts[3] == "{P}"@ && "{P}"@[0] == '{');
        } else if k == 4 {
            reveal_strlit("{PW}");
            assert(alts[4] == "{PW}"@ && "{PW}"@[0] == '{');
        } else if k == 5 {
            reveal_strlit("{CHAOS}");
            assert(alts[5] == "{CHAOS}"@ && "{CHAOS}"@[0] == '{');
        } else if k == 6 {
            reveal_strlit("{A}");
            assert(alts[6] == "{A}"@ && "{A}"@[0] == '{');
        } else if k == 7 {
            reveal_strlit("{TK}");
            assert(alts[7] == "{TK}"@ && "{TK}"@[0] == '{');
        } else if k == 8 {
            reveal_strlit("{X}");
            assert(alts[8] == "{X}"@ && "{X}"@[0] == '{');
        } else if k == 9 {
            reveal_strlit("{Y}");
            assert(alts[9] == "{Y}"@ && "{Y}"@[0] == '{');
        } else if k == 10 {
            reveal_strlit("{Z}");
            assert(alts[10] == "{Z}"@ && "{Z}"@[0] == '{');
        } else if k == 11 {
            reveal_strlit("{0}");
            assert(alts[11] == "{0}"@ && "{0}"@[0] == '{');
        } else if k == 12 {
            reveal_strlit("{\u{c2}\u{bd}}");
            assert(alts[12] == "{\u{c2}\u{bd}}"@ && "{\u{c2}\u{bd}}"@[0] == '{');
        } else if k == 13 {
            reveal_strlit("{1}");
            assert(alts[13] == "{1}"@ && "{1}"@[0] == '{');
        } else if k == 14 {
            reveal_strlit("{2}");
            assert(alts[14] == "{2}"@ && "{2}"@[0] == '{');
        } else if k == 15 {
            reveal_strlit("{3}");
            assert(alts[15] == "{3}"@ && "{3}"@[0] == '{');
        } else if k == 16 {
            reveal_strlit("{4}");
            assert(alts[16] == "{4}"@ && "{4}"@[0] == '{');
        } else if k == 17 {
            reveal_strlit("{5}");
            assert(alts[17] == "{5}"@ && "{5}"@[0] == '{');
        } else if k == 18 {
            reveal_strlit("{6}");
            assert(alts[18] == "{6}"@ && "{6}"@[0] == '{');
        } else if k == 19 {
            reveal_strlit("{7}");
            assert(alts[19] == "{7}"@ && "{7}"@[0] == '{');
        } else if k == 20 {
            reveal_strlit("{8}");
            assert(alts[20] == "{8}"@ && "{8}"@[0] == '{');
        } else if k == 21 {
            reveal_strlit("{9}");
            assert(alts[21] == "{9}"@ && "{9}"@[0] == '{');
        } else if k == 22 {
            reveal_strlit("{10}");
            assert(alts[22] == "{10}"@ && "{10}"@[0] == '{');
        } else if k == 23 {
            reveal_strlit("{11}");
            assert(alts[23] == "{11}"@ && "{11}"@[0] == '{');
        } else if k == 24 {
            reveal_strlit("{12}");
            assert(alts[24] == "{12}"@ && "{12}"@[0] == '{');
        } else if k == 25 {
            reveal_strlit("{13}");
            assert(alts[25] == "{13}"@ && "{13}"@[0] == '{');
        } else if k == 26 {
            reveal_strlit("{14}");
            assert(alts[26] == "{14}"@ && "{14}"@[0] == '{');
        } else if k == 27 {
            reveal_strlit("{15}");
            assert(alts[27] == "{15}"@ && "{15}"@[0] == '{');
        } else if k == 28 {
            reveal_strlit("{16}");
            assert(alts[28] == "{16}"@ && "{16}"@[0] == '{');
        } else if k == 29 {
            reveal_strlit("{17}");
            assert(alts[29] == "{17}"@ && "{17}"@[0] == '{');
        } else if k == 30 {
            reveal_strlit("{18}");
            assert(alts[30] == "{18}"@ && "{18}"@[0] == '{');
        } else if k == 31 {
            reveal_strlit("{19}");
            assert(alts[31] == "{19}"@ && "{19}"@[0] == '{');
        } else if k == 32 {
            reveal_strlit("{20}");
            assert(alts[32] == "{20}"@ && "{20}"@[0] == '{');
        } else if k == 33 {
            reveal_strlit("{100}");
            assert(alts[33] == "{100}"@ && "{100}"@[0] == '{');
        } else if k == 34 {
            reveal_strlit("{1000000}");
            assert(alts[34] == "{1000000}"@ && "{1000000}"@[0] == '{');
        } else if k == 35 {
            reveal_strlit("{\u{e2}\u{2c6}\u{17e}}");
            assert(alts[35] == "{\u{e2}\u{2c6}\u{17e}}"@ && "{\u{e2}\u{2c6}\u{17e}}"@[0] == '{');
        } else if k == 36 {
            reveal_strlit("{W/U}");
            assert(alts[36] == "{W/U}"@ && "{W/U}"@[0] == '{');
        } else if k == 37 {
            reveal_strlit("{W/B}");
            assert(alts[37] == "{W/B}"@ && "{W/B}"@[0] == '{');
        } else if k == 38 {
            reveal_strlit("{B/R}");
            assert(alts[38] == "{B/R}"@ && "{B/R}"@[0] == '{');
        } else if k == 39 {
            reveal_strlit("{B/G}");
            assert(alts[39] == "{B/G}"@ && "{B/G}"@[0] == '{');
        } else if k == 40 {
            reveal_strlit("{U/B}");
            assert(alts[40] == "{U/B}"@ && "{U/B}"@[0] == '{');
        } else if k == 41 {
            reveal_strlit("{U/R}");
            assert(alts[41] == "{U/R}"@ && "{U/R}"@[0] == '{');
        } else if k == 42 {
            reveal_strlit("{R/G}");
            assert(alts[42] == "{R/G}"@ && "{R/G}"@[0] == '{');
        } else if k == 43 {
            reveal_strlit("{R/W}");
            assert(alts[43] == "{R/W}"@ && "{R/W}"@[0] == '{');
        } else if k == 44 {
            reveal_strlit("{G/W}");
            assert(alts[44] == "{G/W}"@ && "{G/W}"@[0] == '{');
        } else if k == 45 {
            reveal_strlit("{G/U}");
            assert(alts[45] == "{G/U}"@ && "{G/U}"@[0] == '{');
        } else if k == 46 {
            reveal_strlit("{B/G/P}");
            assert(alts[46] == "{B/G/P}"@ && "{B/G/P}"@[0] == '{');
        } else if k == 47 {
            reveal_strlit("{B/R/P}");
            assert(alts[47] == "{B/R/P}"@ && "{B/R/P}"@[0] == '{');
        } else if k == 48 {
            reveal_strlit("{G/U/P}");
            assert(alts[48] == "{G/U/P}"@ && "{G/U/P}"@[0] == '{');
        } else if k == 49 {
            reveal_strlit("{G/W/P}");
            assert(alts[49] == "{G/W/P}"@ && "{G/W/P}"@[0] == '{');
        } else if k == 50 {
            reveal_strlit("{R/G/P}");
            assert(alts[50] == "{R/G/P}"@ && "{R/G/P}"@[0] == '{');
        } else if k == 51 {
            reveal_strlit("{R/W/P}");
            assert(alts[51] == "{R/W/P}"@ && "{R/W/P}"@[0] == '{');
        } else if k == 52 {
            reveal_strlit("{U/B/P}");
            assert(alts[52] == "{U/B/P}"@ && "{U/B/P}"@[0] == '{');
        } else if k == 53 {
            reveal_strlit("{U/R/P}");
            assert(alts[53] == "{U/R/P}"@ && "{U/R/P}"@[0] == '{');
        } else if k == 54 {
            reveal_strlit("{W/B/P}");
            assert(alts[54] == "{W/B/P}"@ && "{W/B/P}"@[0] == '{');
        } else if k == 55 {
            reveal_strlit("{W/U/P}");
            assert(alts[55] == "{W/U/P}"@ && "{W/U/P}"@[0] == '{');
        } else if k == 56 {
            reveal_strlit("{C/W}");
            assert(alts[56] == "{C/W}"@ && "{C/W}"@[0] == '{');
        } else if k == 57 {
            reveal_strlit("{C/U}");
            assert(alts[57] == "{C/U}"@ && "{C/U}"@[0] == '{');
        } else if k == 58 {
            reveal_strlit("{C/B}");
            assert(alts[58] == "{C/B}"@ && "{C/B}"@[0] == '{');
        } else if k == 59 {
            reveal_strlit("{C/R}");
            assert(alts[59] == "{C/R}"@ && "{C/R}"@[0] == '{');
        } else if k == 60 {
            reveal_strlit("{C/G}");
            assert(alts[60] == "{C/G}"@ && "{C/G}"@[0] == '{');
        } else if k == 61 {
            reveal_strlit("{2/W}");
            assert(alts[61] == "{2/W}"@ && "{2/W}"@[0] == '{');
        } else if k == 62 {
            reveal_strlit("{2/U}");
            assert(alts[62] == "{2/U}"@ && "{2/U}"@[0] == '{');
        } else if k == 63 {
            reveal_strlit("{2/B}");
            assert(alts[63] == "{2/B}"@ && "{2/B}"@[0] == '{');
        } else if k == 64 {
            reveal_strlit("{2/R}");
            assert(alts[64] == "{2/R}"@ && "{2/R}"@[0] == '{');
        } else if k == 65 {
            reveal_strlit("{2/G}");
            assert(alts[65] == "{2/G}"@ && "{2/G}"@[0] == '{');
        } else if k == 66 {
            reveal_strlit("{H}");
            assert(alts[66] == "{H}"@ && "{H}"@[0] == '{');
        } else if k == 67 {
            reveal_strlit("{W/P}");
            assert(alts[67] == "{W/P}"@ && "{W/P}"@[0] == '{');
        } else if k == 68 {
            reveal_strlit("{U/P}");
            assert(alts[68] == "{U/P}"@ && "{U/P}"@[0] == '{');
        } else if k == 69 {
            reveal_strlit("{B/P}");
            assert(alts[69] == "{B/P}"@ && "{B/P}"@[0] == '{');
        } else if k == 70 {
            reveal_strlit("{R/P}");
            assert(alts[70] == "{R/P}"@ && "{R/P}"@[0] == '{');
        } else if k == 71 {
            reveal_strlit("{G/P}");
            assert(alts[71] == "{G/P}"@ && "{G/P}"@[0] == '{');
        } else if k == 72 {
            reveal_strlit("{C/P}");
            assert(alts[72] == "{C/P}"@ && "{C/P}"@[0] == '{');
        } else if k == 73 {
            reveal_strlit("{HW}");
            assert(alts[73] == "{HW}"@ && "{HW}"@[0] == '{');
        } else if k == 74 {
            reveal_strlit("{HR}");
            assert(alts[74] == "{HR}"@ && "{HR}"@[0] == '{');
        } else if k == 75 {
            reveal_strlit("{W}");
            assert(alts[75] == "{W}"@ && "{W}"@[0] == '{');
        } else if k == 76 {
            reveal_strlit("{U}");
            assert(alts[76] == "{U}"@ && "{U}"@[0] == '{');
        } else if k == 77 {
            reveal_strlit("{B}");
            assert(alts[77] == "{B}"@ && "{B}"@[0] == '{');
        } else if k == 78 {
            reveal_strlit("{R}");
            assert(alts[78] == "{R}"@ && "{R}"@[0] == '{');
        } else if k == 79 {
            reveal_strlit("{G}");
            assert(alts[79] == "{G}"@ && "{G}"@[0] == '{');
        } else if k == 80 {
            reveal_strlit("{C}");
            assert(alts[80] == "{C}"@ && "{C}"@[0] == '{');
        } else if k == 81 {
            reveal_strlit("{S}");
            assert(alts[81] == "{S}"@ && "{S}"@[0] == '{');
        } else if k == 82 {
            reveal_strlit("{L}");
            assert(alts[82] == "{L}"@ && "{L}"@[0] == '{');
        } else if k == 83 {
            reveal_strlit("{D}");
            assert(alts[83] == "{D}"@ && "{D}"@[0] == '{');
        }
        let y = emoji_of(alts[k]);
        assert(y.len() >= 2 && y[0] == '<' && y[1] == ':');
        assert(y.subrange(0, 2) =~= "<:"@);
        assert(y[0] != alts[k][0]);
    }
}

/// `regex::Regex::replace_all` of the symbol pattern (the alternation of
/// `symbol_alternatives`) over `text`, each match replaced by `add_emoji` of
/// it. The claim: leftmost-first, non-overlapping replacement as
/// `spec_replace_symbols` states it.
#[verifier::external_body]
pub(crate) fn replace_symbols(text: &str) -> (r: String)
    ensures
        r@ == spec_replace_symbols(text@),
{
    let re = regex::Regex::new(
        r"(\{T}|\{Q}|\{E}|\{P}|\{PW}|\{CHAOS}|\{A}|\{TK}|\{X}|\{Y}|\{Z}|\{0}|\{\x{c2}\x{bd}}|\{1}|\{2}|\{3}|\{4}|\{5}|\{6}|\{7}|\{8}|\{9}|\{10}|\{11}|\{12}|\{13}|\{14}|\{15}|\{16}|\{17}|\{18}|\{19}|\{20}|\{100}|\{1000000}|\{\x{e2}\x{2c6}\x{17e}}|\{W/U}|\{W/B}|\{B/R}|\{B/G}|\{U/B}|\{U/R}|\{R/G}|\{R/W}|\{G/W}|\{G/U}|\{B/G/P}|\{B/R/P}|\{G/U/P}|\{G/W/P}|\{R/G/P}|\{R/W/P}|\{U/B/P}|\{U/R/P}|\{W/B/P}|\{W/U/P}|\{C/W}|\{C/U}|\{C/B}|\{C/R}|\{C/G}|\{2/W}|\{2/U}|\{2/B}|\{2/R}|\{2/G}|\{H}|\{W/P}|\{U/P}|\{B/P}|\{R/P}|\{G/P}|\{C/P}|\{HW}|\{HR}|\{W}|\{U}|\{B}|\{R}|\{G}|\{C}|\{S}|\{L}|\{D})",
    ).expect("the pattern is valid");
    re.replace_all(text, |cap: &regex::Captures| add_emoji(&cap[0])).into_owned()
}

/// `regex::Regex::replace_all` of `\((.+)\)` by `(*$1*)` over `text`: the
/// reminder text in parentheses is put in italics. The claim: leftmost,
/// greedy, non-overlapping replacement, `.` matching any character but a
/// line break, as `spec_italicise` states it.
#[verifier::external_body]
pub fn italicise_reminder_text(text: &str) -> (r: String)
    ensures
        r@ == spec_italicise(text@),
{
    let re = regex::Regex::new(r"\((.+)\)").expect("the pattern is valid");
    re.replace_all(text, "(*$1*)").into_owned()
}

} // verus!
