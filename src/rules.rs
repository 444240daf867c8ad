//! The grammar that decides, token by token, how tokens group into words.
use vstd::prelude::*;
use crate::parser::PreparedToken;
use crate::tags::{str_eq, PosTag};

verus! {

/// The coarse part of speech of a word.
#[derive(Clone, Copy, Debug, PartialEq, Eq, Structural)]
pub enum PartOfSpeech {
    Noun,
    ProperNoun,
    Pronoun,
    Adjective,
    Adverb,
    Determiner,
    Preposition,
    Postposition,
    Verb,
    Suffix,
    Prefix,
    Conjunction,
    Interjection,
    Number,
    Unknown,
    Symbol,
    Other,
}

/// The grammatical role that some verb-forming rules give a new word.
#[derive(Clone, Copy, Debug, PartialEq, Eq, Structural)]
pub enum Grammar {
    Auxiliary,
    Nominal,
}

/// What the grammar decides for one token.
#[derive(Clone, Copy, Debug, PartialEq, Eq, Structural)]
pub struct Rule {
    /// The coarse part of speech; `None` where no rule applies.
    pub pos: Option<PartOfSpeech>,
    /// The role given to a word that this token starts.
    pub grammar: Option<Grammar>,
    /// Fold the following token into the word that this token starts.
    pub consume_lookahead: bool,
    /// Fold this token into the last word, where there is one.
    pub attach_to_previous: bool,
    /// When attaching, extend the word's lemma with the token's lemma.
    pub also_extend_lemma: bool,
    /// When attaching, give the word this token's part of speech.
    pub override_pos: bool,
}

pub open spec fn plain(pos: PartOfSpeech) -> Rule {
    Rule {
        pos: Some(pos),
        grammar: None,
        consume_lookahead: false,
        attach_to_previous: false,
        also_extend_lemma: false,
        override_pos: false,
    }
}

pub open spec fn unresolved() -> Rule {
    Rule { pos: None, ..plain(PartOfSpeech::Unknown) }
}

pub open spec fn attaching(pos: PartOfSpeech) -> Rule {
    Rule { attach_to_previous: true, ..plain(pos) }
}

pub open spec fn consuming(pos: PartOfSpeech) -> Rule {
    Rule { consume_lookahead: true, ..plain(pos) }
}

/// The particle "に".
pub open spec fn is_particle_ni(t: PreparedToken) -> bool {
    t.pos == PosTag::Joshi && t.literal@ == "に"@
}

/// An adjectival-stem noun: its class and extent are settled by the token
/// that follows it, so it cannot end the input.
pub open spec fn is_adjectival_stem(t: PreparedToken) -> bool {
    t.pos == PosTag::Meishi && (t.pos2 == PosTag::Keiyoudoushigokan || ((t.pos2
        == PosTag::Hijiritsu || t.pos2 == PosTag::Tokushu) && t.pos3 == PosTag::Keiyoudoushigokan))
}

/// Nouns whose class depends on the token that follows: adverbial nouns, nouns
/// that connect to suru, and adjectival stems. An adjectival stem with no
/// following token asks for one all the same.
pub open spec fn stem_noun_rule(t: PreparedToken, next: Option<PreparedToken>) -> Rule {
    match next {
        Some(n) => if n.inflection_type == PosTag::SahenSuru {
            consuming(PartOfSpeech::Verb)
        } else if n.inflection_type == PosTag::TokushuDa {
            Rule {
                consume_lookahead: n.inflection_form == PosTag::Taigensetsuzoku,
                ..plain(PartOfSpeech::Adjective)
            }
        } else if n.inflection_type == PosTag::TokushuNai {
            consuming(PartOfSpeech::Adjective)
        } else if is_particle_ni(n) {
            plain(PartOfSpeech::Adverb)
        } else {
            plain(PartOfSpeech::Noun)
        },
        None => if t.pos2 == PosTag::Keiyoudoushigokan {
            consuming(PartOfSpeech::Adjective)
        } else {
            plain(PartOfSpeech::Noun)
        },
    }
}

/// Dependent and special nouns, by their third level and the following token.
/// An adjectival stem with no following token asks for one all the same.
pub open spec fn dependent_noun_rule(t: PreparedToken, next: Option<PreparedToken>) -> Rule {
    match next {
        Some(n) => if t.pos3 == PosTag::Fukushikanou {
            if is_particle_ni(n) {
                consuming(PartOfSpeech::Adverb)
            } else {
                plain(PartOfSpeech::Noun)
            }
        } else if t.pos3 == PosTag::Jodoushigokan {
            if n.inflection_type == PosTag::TokushuDa {
                Rule {
                    grammar: Some(Grammar::Auxiliary),
                    consume_lookahead: n.inflection_form == PosTag::Taigensetsuzoku,
                    ..plain(PartOfSpeech::Verb)
                }
            } else if n.pos == PosTag::Joshi && n.pos2 == PosTag::Fukushika {
                consuming(PartOfSpeech::Adverb)
            } else {
                plain(PartOfSpeech::Noun)
            }
        } else if t.pos3 == PosTag::Keiyoudoushigokan {
            Rule {
                consume_lookahead: (n.inflection_type == PosTag::TokushuDa && n.inflection_form
                    == PosTag::Taigensetsuzoku) || n.pos2 == PosTag::Rentaika,
                ..plain(PartOfSpeech::Adjective)
            }
        } else {
            plain(PartOfSpeech::Noun)
        },
        None => if t.pos3 == PosTag::Keiyoudoushigokan {
            consuming(PartOfSpeech::Adjective)
        } else {
            plain(PartOfSpeech::Noun)
        },
    }
}

/// Noun suffixes: a person-name suffix stands alone, "さ" turns the word into
/// a noun, any other suffix extends the word and its lemma.
pub open spec fn suffix_rule(t: PreparedToken) -> Rule {
    if t.pos3 == PosTag::Jinmei {
        plain(PartOfSpeech::Suffix)
    } else if t.pos3 == PosTag::Tokushu && t.lemma@ == "さ"@ {
        Rule { override_pos: true, ..attaching(PartOfSpeech::Noun) }
    } else {
        Rule { also_extend_lemma: true, ..attaching(PartOfSpeech::Noun) }
    }
}

pub open spec fn noun_rule(t: PreparedToken, next: Option<PreparedToken>, last_is_number: bool) -> Rule {
    match t.pos2 {
        PosTag::KoyuuMeishi => plain(PartOfSpeech::ProperNoun),
        PosTag::DaiMeishi => plain(PartOfSpeech::Pronoun),
        PosTag::Fukushikanou | PosTag::Sahensetsuzoku | PosTag::Keiyoudoushigokan
        | PosTag::Naikeiyoushigokan => stem_noun_rule(t, next),
        PosTag::Hijiritsu | PosTag::Tokushu => dependent_noun_rule(t, next),
        PosTag::Kazu => if last_is_number {
            Rule { also_extend_lemma: true, ..attaching(PartOfSpeech::Number) }
        } else {
            plain(PartOfSpeech::Number)
        },
        PosTag::Setsubi => suffix_rule(t),
        PosTag::Setsuzokushiteki => plain(PartOfSpeech::Conjunction),
        PosTag::Doushihijiritsuteki => Rule {
            grammar: Some(Grammar::Nominal),
            ..plain(PartOfSpeech::Verb)
        },
        _ => plain(PartOfSpeech::Noun),
    }
}

/// The inflection types of auxiliaries that fuse with the word before them.
pub open spec fn is_fusing_inflection(it: PosTag) -> bool {
    it == PosTag::TokushuTa || it == PosTag::TokushuNai || it == PosTag::TokushuTai || it
        == PosTag::TokushuMasu || it == PosTag::TokushuNu
}

pub open spec fn auxiliary_rule(t: PreparedToken, prev: Option<PreparedToken>) -> Rule {
    let after_binding = match prev {
        Some(p) => p.pos2 == PosTag::Kakarijoshi,
        None => false,
    };
    if is_fusing_inflection(t.inflection_type) && !after_binding {
        attaching(PartOfSpeech::Postposition)
    } else if t.inflection_type == PosTag::Fuhenkagata && t.lemma@ == "ん"@ {
        attaching(PartOfSpeech::Postposition)
    } else if (t.inflection_type == PosTag::TokushuDa || t.inflection_type == PosTag::TokushuDesu)
        && t.literal@ != "な"@ {
        plain(PartOfSpeech::Verb)
    } else {
        plain(PartOfSpeech::Postposition)
    }
}

pub open spec fn verb_rule(t: PreparedToken) -> Rule {
    if t.pos2 == PosTag::Setsubi || (t.pos2 == PosTag::Hijiritsu && t.inflection_form
        != PosTag::MeireiI) {
        attaching(PartOfSpeech::Verb)
    } else {
        plain(PartOfSpeech::Verb)
    }
}

pub open spec fn particle_rule(t: PreparedToken) -> Rule {
    if t.pos2 == PosTag::Setsuzokujoshi && (t.literal@ == "て"@ || t.literal@ == "で"@
        || t.literal@ == "ば"@) {
        attaching(PartOfSpeech::Postposition)
    } else {
        plain(PartOfSpeech::Postposition)
    }
}

/// The rule for token `t`, given the token before it, the token after it, and
/// whether the last word built so far is a number.
pub open spec fn rule_for(
    t: PreparedToken,
    prev: Option<PreparedToken>,
    next: Option<PreparedToken>,
    last_is_number: bool,
) -> Rule {
    match t.pos {
        PosTag::Meishi => noun_rule(t, next, last_is_number),
        PosTag::Settoushi => plain(PartOfSpeech::Prefix),
        PosTag::JoDoushi => auxiliary_rule(t, prev),
        PosTag::Doushi => verb_rule(t),
        PosTag::Keiyoushi => plain(PartOfSpeech::Adjective),
        PosTag::Joshi => particle_rule(t),
        PosTag::Rentaishi => plain(PartOfSpeech::Determiner),
        PosTag::Setsuzokushi => plain(PartOfSpeech::Conjunction),
        PosTag::Fukushi => plain(PartOfSpeech::Adverb),
        PosTag::Kigou => plain(PartOfSpeech::Symbol),
        PosTag::Firaa | PosTag::Kandoushi => plain(PartOfSpeech::Interjection),
        PosTag::Sonota => plain(PartOfSpeech::Other),
        _ => unresolved(),
    }
}

/// The token before position `i`, if any.
pub open spec fn prev_of(tokens: Seq<PreparedToken>, i: int) -> Option<PreparedToken> {
    if 0 < i <= tokens.len() {
        Some(tokens[i - 1])
    } else {
        None
    }
}

/// The token after position `i`, if any.
pub open spec fn next_of(tokens: Seq<PreparedToken>, i: int) -> Option<PreparedToken> {
    if 0 <= i && i + 1 < tokens.len() {
        Some(tokens[i + 1])
    } else {
        None
    }
}

/// The rule for the token at position `i` of `tokens`.
pub open spec fn rule_at(tokens: Seq<PreparedToken>, i: int, last_is_number: bool) -> Rule {
    rule_for(tokens[i], prev_of(tokens, i), next_of(tokens, i), last_is_number)
}

/// The token behind an optional reference.
pub open spec fn deref_opt(o: Option<&PreparedToken>) -> Option<PreparedToken> {
    match o {
        Some(t) => Some(*t),
        None => None,
    }
}

fn make_plain(pos: PartOfSpeech) -> (r: Rule)
    ensures
        r == plain(pos),
{
    Rule {
        pos: Some(pos),
        grammar: None,
        consume_lookahead: false,
        attach_to_previous: false,
        also_extend_lemma: false,
        override_pos: false,
    }
}

fn make_attaching(pos: PartOfSpeech) -> (r: Rule)
    ensures
        r == attaching(pos),
{
    Rule { attach_to_previous: true, ..make_plain(pos) }
}

fn make_consuming(pos: PartOfSpeech) -> (r: Rule)
    ensures
        r == consuming(pos),
{
    Rule { consume_lookahead: true, ..make_plain(pos) }
}

fn particle_ni(t: &PreparedToken) -> (r: bool)
    ensures
        r == is_particle_ni(*t),
{
    t.pos == PosTag::Joshi && str_eq(t.literal.as_str(), "に")
}

fn decide_stem_noun(t: &PreparedToken, next: Option<&PreparedToken>) -> (r: Rule)
    ensures
        r == stem_noun_rule(*t, deref_opt(next)),
{
    match next {
        Some(n) => if n.inflection_type == PosTag::SahenSuru {
            make_consuming(PartOfSpeech::Verb)
        } else if n.inflection_type == PosTag::TokushuDa {
            Rule {
                consume_lookahead: n.inflection_form == PosTag::Taigensetsuzoku,
                ..make_plain(PartOfSpeech::Adjective)
            }
        } else if n.inflection_type == PosTag::TokushuNai {
            make_consuming(PartOfSpeech::Adjective)
        } else if particle_ni(n) {
            make_plain(PartOfSpeech::Adverb)
        } else {
            make_plain(PartOfSpeech::Noun)
        },
        None => if t.pos2 == PosTag::Keiyoudoushigokan {
            make_consuming(PartOfSpeech::Adjective)
        } else {
            make_plain(PartOfSpeech::Noun)
        },
    }
}

fn decide_dependent_noun(t: &PreparedToken, next: Option<&PreparedToken>) -> (r: Rule)
    ensures
        r == dependent_noun_rule(*t, deref_opt(next)),
{
    match next {
        Some(n) => if t.pos3 == PosTag::Fukushikanou {
            if particle_ni(n) {
                make_consuming(PartOfSpeech::Adverb)
            } else {
                make_plain(PartOfSpeech::Noun)
            }
        } else if t.pos3 == PosTag::Jodoushigokan {
            if n.inflection_type == PosTag::TokushuDa {
                Rule {
                    grammar: Some(Grammar::Auxiliary),
                    consume_lookahead: n.inflection_form == PosTag::Taigensetsuzoku,
                    ..make_plain(PartOfSpeech::Verb)
                }
            } else if n.pos == PosTag::Joshi && n.pos2 == PosTag::Fukushika {
                make_consuming(PartOfSpeech::Adverb)
            } else {
                make_plain(PartOfSpeech::Noun)
            }
        } else if t.pos3 == PosTag::Keiyoudoushigokan {
            Rule {
                consume_lookahead: (n.inflection_type == PosTag::TokushuDa && n.inflection_form
                    == PosTag::Taigensetsuzoku) || n.pos2 == PosTag::Rentaika,
                ..make_plain(PartOfSpeech::Adjective)
            }
        } else {
            make_plain(PartOfSpeech::Noun)
        },
        None => if t.pos3 == PosTag::Keiyoudoushigokan {
            make_consuming(PartOfSpeech::Adjective)
        } else {
            make_plain(PartOfSpeech::Noun)
        },
    }
}

fn decide_suffix(t: &PreparedToken) -> (r: Rule)
    ensures
        r == suffix_rule(*t),
{
    if t.pos3 == PosTag::Jinmei {
        make_plain(PartOfSpeech::Suffix)
    } else if t.pos3 == PosTag::Tokushu && str_eq(t.lemma.as_str(), "さ") {
        Rule { override_pos: true, ..make_attaching(PartOfSpeech::Noun) }
    } else {
        Rule { also_extend_lemma: true, ..make_attaching(PartOfSpeech::Noun) }
    }
}

fn decide_noun(t: &PreparedToken, next: Option<&PreparedToken>, last_is_number: bool) -> (r: Rule)
    ensures
        r == noun_rule(*t, deref_opt(next), last_is_number),
{
    match t.pos2 {
        PosTag::KoyuuMeishi => make_plain(PartOfSpeech::ProperNoun),
        PosTag::DaiMeishi => make_plain(PartOfSpeech::Pronoun),
        PosTag::Fukushikanou | PosTag::Sahensetsuzoku | PosTag::Keiyoudoushigokan
        | PosTag::Naikeiyoushigokan => decide_stem_noun(t, next),
        PosTag::Hijiritsu | PosTag::Tokushu => decide_dependent_noun(t, next),
        PosTag::Kazu => if last_is_number {
            Rule { also_extend_lemma: true, ..make_attaching(PartOfSpeech::Number) }
        } else {
            make_plain(PartOfSpeech::Number)
        },
        PosTag::Setsubi => decide_suffix(t),
        PosTag::Setsuzokushiteki => make_plain(PartOfSpeech::Conjunction),
        PosTag::Doushihijiritsuteki => Rule {
            grammar: Some(Grammar::Nominal),
            ..make_plain(PartOfSpeech::Verb)
        },
        _ => make_plain(PartOfSpeech::Noun),
    }
}

fn decide_auxiliary(t: &PreparedToken, prev: Option<&PreparedToken>) -> (r: Rule)
    ensures
        r == auxiliary_rule(*t, deref_opt(prev)),
{
    let after_binding = match prev {
        Some(p) => p.pos2 == PosTag::Kakarijoshi,
        None => false,
    };
    let it = t.inflection_type;
    let fusing = it == PosTag::TokushuTa || it == PosTag::TokushuNai || it == PosTag::TokushuTai
        || it == PosTag::TokushuMasu || it == PosTag::TokushuNu;
    if fusing && !after_binding {
        make_attaching(PartOfSpeech::Postposition)
    } else if it == PosTag::Fuhenkagata && str_eq(t.lemma.as_str(), "ん") {
        make_attaching(PartOfSpeech::Postposition)
    } else if (it == PosTag::TokushuDa || it == PosTag::TokushuDesu) && !str_eq(
        t.literal.as_str(),
        "な",
    ) {
        make_plain(PartOfSpeech::Verb)
    } else {
        make_plain(PartOfSpeech::Postposition)
    }
}

fn decide_verb(t: &PreparedToken) -> (r: Rule)
    ensures
        r == verb_rule(*t),
{
    if t.pos2 == PosTag::Setsubi || (t.pos2 == PosTag::Hijiritsu && t.inflection_form
        != PosTag::MeireiI) {
        make_attaching(PartOfSpeech::Verb)
    } else {
        make_plain(PartOfSpeech::Verb)
    }
}

fn decide_particle(t: &PreparedToken) -> (r: Rule)
    ensures
        r == particle_rule(*t),
{
    let lit = t.literal.as_str();
    if t.pos2 == PosTag::Setsuzokujoshi && (str_eq(lit, "て") || str_eq(lit, "で") || str_eq(
        lit,
        "ば",
    )) {
        make_attaching(PartOfSpeech::Postposition)
    } else {
        make_plain(PartOfSpeech::Postposition)
    }
}

/// Looks up the rule for the token at position `i`.
pub fn decide(tokens: &Vec<PreparedToken>, i: usize, last_is_number: bool) -> (r: Rule)
    requires
        i < tokens@.len(),
    ensures
        r == rule_at(tokens@, i as int, last_is_number),
{
    let t = &tokens[i];
    let prev = if i > 0 { Some(&tokens[i - 1]) } else { None };
    let next = if i < tokens.len() - 1 { Some(&tokens[i + 1]) } else { None };
    assert(deref_opt(prev) == prev_of(tokens@, i as int));
    assert(deref_opt(next) == next_of(tokens@, i as int));
    match t.pos {
        PosTag::Meishi => decide_noun(t, next, last_is_number),
        PosTag::Settoushi => make_plain(PartOfSpeech::Prefix),
        PosTag::JoDoushi => decide_auxiliary(t, prev),
        PosTag::Doushi => decide_verb(t),
        PosTag::Keiyoushi => make_plain(PartOfSpeech::Adjective),
        PosTag::Joshi => decide_particle(t),
        PosTag::Rentaishi => make_plain(PartOfSpeech::Determiner),
        PosTag::Setsuzokushi => make_plain(PartOfSpeech::Conjunction),
        PosTag::Fukushi => make_plain(PartOfSpeech::Adverb),
        PosTag::Kigou => make_plain(PartOfSpeech::Symbol),
        PosTag::Firaa | PosTag::Kandoushi => make_plain(PartOfSpeech::Interjection),
        PosTag::Sonota => make_plain(PartOfSpeech::Other),
        _ => Rule { pos: None, ..make_plain(PartOfSpeech::Unknown) },
    }
}

} // verus!
