//! Facts about the grouping of tokens into words, proved over the
//! specification that `parse_into_words` meets.
use vstd::prelude::*;
use crate::parser::{feature_failure, reads_as, split_fields, MIN_FIELDS, ParseFailure, PreparedToken, RawToken};
use crate::rules::{consuming, is_adjectival_stem, is_fusing_inflection, next_of, rule_at, PartOfSpeech};
use crate::tags::{tag_of, PosTag};
use crate::words::{aggregate, aggregate_from, append_to, last_is_number, new_word, AggregationFailure, WordView};

verus! {

/// The literals of `ts`, concatenated in order.
pub open spec fn literals(ts: Seq<PreparedToken>) -> Seq<char>
    decreases ts.len(),
{
    if ts.len() == 0 {
        Seq::empty()
    } else {
        literals(ts.drop_last()) + ts.last().literal@
    }
}

/// The readings of `ts`, concatenated in order.
pub open spec fn readings(ts: Seq<PreparedToken>) -> Seq<char>
    decreases ts.len(),
{
    if ts.len() == 0 {
        Seq::empty()
    } else {
        readings(ts.drop_last()) + ts.last().reading@
    }
}

/// The transcriptions of `ts`, concatenated in order.
pub open spec fn transcriptions(ts: Seq<PreparedToken>) -> Seq<char>
    decreases ts.len(),
{
    if ts.len() == 0 {
        Seq::empty()
    } else {
        transcriptions(ts.drop_last()) + ts.last().hatsuon@
    }
}

/// The surfaces of `ws`, concatenated in order.
pub open spec fn surfaces(ws: Seq<WordView>) -> Seq<char>
    decreases ws.len(),
{
    if ws.len() == 0 {
        Seq::empty()
    } else {
        surfaces(ws.drop_last()) + ws.last().word
    }
}

/// The tokens of `ws`, one word after the other.
pub open spec fn constituents(ws: Seq<WordView>) -> Seq<PreparedToken>
    decreases ws.len(),
{
    if ws.len() == 0 {
        Seq::empty()
    } else {
        constituents(ws.drop_last()) + ws.last().tokens
    }
}

/// A word holds at least one token, its surface, reading and transcription
/// are those of its tokens, concatenated, and its lemma begins with the lemma
/// of its first token.
pub open spec fn word_well_formed(w: WordView) -> bool {
    &&& w.tokens.len() > 0
    &&& w.tokens[0].lemma@.len() <= w.lemma.len()
    &&& w.lemma.subrange(0, w.tokens[0].lemma@.len() as int) == w.tokens[0].lemma@
    &&& w.word == literals(w.tokens)
    &&& w.reading == readings(w.tokens)
    &&& w.transcription == transcriptions(w.tokens)
}

pub open spec fn all_well_formed(ws: Seq<WordView>) -> bool {
    forall|k: int| 0 <= k < ws.len() ==> word_well_formed(#[trigger] ws[k])
}

proof fn lemma_new_word_well_formed(t: PreparedToken, w: WordView)
    requires
        w.tokens == seq![t],
        w.word == t.literal@,
        w.lemma == t.lemma@,
        w.reading == t.reading@,
        w.transcription == t.hatsuon@,
    ensures
        word_well_formed(w),
{
    assert(w.tokens.drop_last() =~= Seq::<PreparedToken>::empty());
    assert(w.tokens.last() == t);
    assert(w.tokens[0] == t);
    assert(w.lemma.subrange(0, t.lemma@.len() as int) =~= t.lemma@);
    assert(literals(Seq::<PreparedToken>::empty()) == Seq::<char>::empty());
    assert(readings(Seq::<PreparedToken>::empty()) == Seq::<char>::empty());
    assert(transcriptions(Seq::<PreparedToken>::empty()) == Seq::<char>::empty());
    assert(w.word =~= Seq::<char>::empty() + t.literal@);
    assert(w.reading =~= Seq::<char>::empty() + t.reading@);
    assert(w.transcription =~= Seq::<char>::empty() + t.hatsuon@);
}

proof fn lemma_append_well_formed(w: WordView, t: PreparedToken, also_extend_lemma: bool)
    requires
        word_well_formed(w),
    ensures
        word_well_formed(append_to(w, t, also_extend_lemma)),
{
    let v = append_to(w, t, also_extend_lemma);
    assert(v.tokens.drop_last() =~= w.tokens);
    assert(v.tokens[0] == w.tokens[0]);
    assert(v.lemma.subrange(0, w.tokens[0].lemma@.len() as int) =~= w.lemma.subrange(
        0,
        w.tokens[0].lemma@.len() as int,
    ));
}

proof fn lemma_literals_concat(a: Seq<PreparedToken>, b: Seq<PreparedToken>)
    ensures
        literals(a + b) == literals(a) + literals(b),
    decreases b.len(),
{
    if b.len() == 0 {
        assert(a + b =~= a);
        assert(literals(a) + literals(b) =~= literals(a));
    } else {
        lemma_literals_concat(a, b.drop_last());
        assert((a + b).drop_last() =~= a + b.drop_last());
        assert(literals(a) + literals(b) =~= literals(a) + literals(b.drop_last()) + b.last().literal@);
    }
}

proof fn lemma_aggregate_from_covers(tokens: Seq<PreparedToken>, i: int, words: Seq<WordView>)
    requires
        0 <= i <= tokens.len(),
        constituents(words) == tokens.subrange(0, i),
        all_well_formed(words),
    ensures
        aggregate_from(tokens, i, words) is Ok ==> {
            let ws = aggregate_from(tokens, i, words)->Ok_0;
            constituents(ws) == tokens && all_well_formed(ws)
        },
    decreases tokens.len() - i,
{
    if i == tokens.len() {
        assert(tokens.subrange(0, i) =~= tokens);
        return;
    }
    let t = tokens[i];
    let r = crate::rules::rule_at(tokens, i, crate::words::last_is_number(words));
    match r.pos {
        None => {},
        Some(pos) => if r.attach_to_previous && words.len() > 0 {
            let last = words.last();
            let joined0 = append_to(last, t, r.also_extend_lemma);
            let joined = if r.override_pos {
                WordView { part_of_speech: pos, ..joined0 }
            } else {
                joined0
            };
            let next = words.update(words.len() - 1, joined);
            lemma_append_well_formed(last, t, r.also_extend_lemma);
            assert(next.drop_last() =~= words.drop_last());
            assert(constituents(words) == constituents(words.drop_last()) + last.tokens);
            assert(next.last() == joined);
            assert(joined.tokens == last.tokens.push(t));
            assert(constituents(next) == constituents(next.drop_last()) + joined.tokens);
            assert(tokens.subrange(0, i + 1) =~= tokens.subrange(0, i).push(t));
            assert(constituents(next) =~= tokens.subrange(0, i + 1));
            assert(all_well_formed(next));
            lemma_aggregate_from_covers(tokens, i + 1, next);
        } else if r.consume_lookahead {
            if i + 1 < tokens.len() {
                let w0 = new_word(t, pos, r.grammar);
                lemma_new_word_well_formed(t, w0);
                let w = append_to(w0, tokens[i + 1], false);
                lemma_append_well_formed(w0, tokens[i + 1], false);
                let next = words.push(w);
                assert(next.drop_last() =~= words);
                assert(constituents(next) =~= tokens.subrange(0, i + 2));
                assert(all_well_formed(next));
                lemma_aggregate_from_covers(tokens, i + 2, next);
            }
        } else {
            let w = new_word(t, pos, r.grammar);
            lemma_new_word_well_formed(t, w);
            let next = words.push(w);
            assert(next.drop_last() =~= words);
            assert(constituents(next) =~= tokens.subrange(0, i + 1));
            assert(all_well_formed(next));
            lemma_aggregate_from_covers(tokens, i + 1, next);
        },
    }
}

/// Every token lands in exactly one word: read one word after the other, the
/// words' tokens are the input tokens, in order, none dropped and none
/// repeated. Each word is non-empty, and its surface, reading and
/// transcription are those of its tokens, concatenated.
pub proof fn lemma_total_coverage(tokens: Seq<PreparedToken>)
    ensures
        aggregate(tokens) is Ok ==> {
            let ws = aggregate(tokens)->Ok_0;
            &&& constituents(ws) == tokens
            &&& constituents(ws).len() == tokens.len()
            &&& all_well_formed(ws)
        },
{
    assert(tokens.subrange(0, 0) =~= constituents(Seq::<WordView>::empty()));
    lemma_aggregate_from_covers(tokens, 0, Seq::empty());
}

proof fn lemma_surfaces_are_literals(ws: Seq<WordView>)
    requires
        all_well_formed(ws),
    ensures
        surfaces(ws) == literals(constituents(ws)),
    decreases ws.len(),
{
    if ws.len() > 0 {
        assert(all_well_formed(ws.drop_last()));
        lemma_surfaces_are_literals(ws.drop_last());
        lemma_literals_concat(constituents(ws.drop_last()), ws.last().tokens);
        assert(word_well_formed(ws[ws.len() - 1]));
    }
}

/// The surfaces of the words, concatenated in order, are the literals of the
/// input tokens, concatenated in order.
pub proof fn lemma_surface_round_trip(tokens: Seq<PreparedToken>)
    ensures
        aggregate(tokens) is Ok ==> surfaces(aggregate(tokens)->Ok_0) == literals(tokens),
{
    lemma_total_coverage(tokens);
    if aggregate(tokens) is Ok {
        lemma_surfaces_are_literals(aggregate(tokens)->Ok_0);
    }
}

/// A numeral noun.
pub open spec fn is_numeral(t: PreparedToken) -> bool {
    t.pos == PosTag::Meishi && t.pos2 == PosTag::Kazu
}

/// Two consecutive numerals end up in one Number word, with their surfaces and
/// their lemmas appended: the first joins the last word if that is a number and
/// starts a Number word otherwise, and the second joins it.
pub proof fn lemma_numeral_chaining(tokens: Seq<PreparedToken>, i: int, words: Seq<WordView>)
    requires
        0 <= i,
        i + 1 < tokens.len(),
        is_numeral(tokens[i]),
        is_numeral(tokens[i + 1]),
    ensures
        aggregate_from(tokens, i, words) == aggregate_from(
            tokens,
            i + 2,
            if last_is_number(words) {
                words.update(
                    words.len() - 1,
                    append_to(append_to(words.last(), tokens[i], true), tokens[i + 1], true),
                )
            } else {
                words.push(append_to(new_word(tokens[i], PartOfSpeech::Number, None), tokens[i + 1], true))
            },
        ),
{
    let a = tokens[i];
    let b = tokens[i + 1];
    let after_a = if last_is_number(words) {
        words.update(words.len() - 1, append_to(words.last(), a, true))
    } else {
        words.push(new_word(a, PartOfSpeech::Number, None))
    };
    assert(aggregate_from(tokens, i, words) == aggregate_from(tokens, i + 1, after_a));
    assert(last_is_number(after_a));
    assert(after_a.len() > 0);
    if last_is_number(words) {
        assert(after_a.update(after_a.len() - 1, append_to(after_a.last(), b, true)) =~= words.update(
            words.len() - 1,
            append_to(append_to(words.last(), a, true), b, true),
        ));
    } else {
        assert(after_a.update(after_a.len() - 1, append_to(after_a.last(), b, true)) =~= words.push(
            append_to(new_word(a, PartOfSpeech::Number, None), b, true),
        ));
    }
}

/// Two numerals alone make a single Number word whose surface and lemma are
/// the two literals and the two lemmas, concatenated.
pub proof fn lemma_two_numerals(a: PreparedToken, b: PreparedToken)
    requires
        is_numeral(a),
        is_numeral(b),
    ensures
        aggregate(seq![a, b]) == Ok::<_, (AggregationFailure, int)>(
            seq![append_to(new_word(a, PartOfSpeech::Number, None), b, true)],
        ),
        append_to(new_word(a, PartOfSpeech::Number, None), b, true).word == a.literal@ + b.literal@,
        append_to(new_word(a, PartOfSpeech::Number, None), b, true).lemma == a.lemma@ + b.lemma@,
{
    let tokens = seq![a, b];
    lemma_numeral_chaining(tokens, 0, Seq::empty());
    assert(Seq::<WordView>::empty().push(append_to(new_word(a, PartOfSpeech::Number, None), b, true))
        =~= seq![append_to(new_word(a, PartOfSpeech::Number, None), b, true)]);
}

/// A verb that starts a word, followed by an auxiliary of the past, negative,
/// desiderative or polite kind, makes one Verb word: the auxiliary's literal,
/// reading and transcription are appended and the lemma stays the verb's.
pub proof fn lemma_auxiliary_fusion(tokens: Seq<PreparedToken>, i: int, words: Seq<WordView>)
    requires
        0 <= i,
        i + 1 < tokens.len(),
        tokens[i].pos == PosTag::Doushi,
        tokens[i].pos2 != PosTag::Setsubi,
        tokens[i].pos2 != PosTag::Kakarijoshi,
        !(tokens[i].pos2 == PosTag::Hijiritsu && tokens[i].inflection_form != PosTag::MeireiI),
        tokens[i + 1].pos == PosTag::JoDoushi,
        is_fusing_inflection(tokens[i + 1].inflection_type),
    ensures
        aggregate_from(tokens, i, words) == aggregate_from(
            tokens,
            i + 2,
            words.push(append_to(new_word(tokens[i], PartOfSpeech::Verb, None), tokens[i + 1], false)),
        ),
{
    let v = tokens[i];
    let after_v = words.push(new_word(v, PartOfSpeech::Verb, None));
    assert(aggregate_from(tokens, i, words) == aggregate_from(tokens, i + 1, after_v));
    assert(after_v.update(after_v.len() - 1, append_to(after_v.last(), tokens[i + 1], false))
        =~= words.push(append_to(new_word(v, PartOfSpeech::Verb, None), tokens[i + 1], false)));
}

/// A noun suffix that is neither a person-name suffix nor the nominalizing
/// "さ" joins the last word: its literal, reading, transcription and lemma are
/// appended, and the word keeps its part of speech.
pub proof fn lemma_suffix_extends_lemma(tokens: Seq<PreparedToken>, i: int, words: Seq<WordView>)
    requires
        0 <= i < tokens.len(),
        tokens[i].pos == PosTag::Meishi,
        tokens[i].pos2 == PosTag::Setsubi,
        tokens[i].pos3 != PosTag::Jinmei,
        !(tokens[i].pos3 == PosTag::Tokushu && tokens[i].lemma@ == "さ"@),
        words.len() > 0,
    ensures
        aggregate_from(tokens, i, words) == aggregate_from(
            tokens,
            i + 1,
            words.update(words.len() - 1, append_to(words.last(), tokens[i], true)),
        ),
        append_to(words.last(), tokens[i], true).lemma == words.last().lemma + tokens[i].lemma@,
        append_to(words.last(), tokens[i], true).part_of_speech == words.last().part_of_speech,
{
}

/// If the rule of the last token asks for the following token, grouping fails
/// with a missing lookahead at that token rather than reading past the end.
pub proof fn lemma_lookahead_at_end(tokens: Seq<PreparedToken>, words: Seq<WordView>)
    requires
        tokens.len() > 0,
        rule_at(tokens, tokens.len() - 1, last_is_number(words)).pos is Some,
        rule_at(tokens, tokens.len() - 1, last_is_number(words)).consume_lookahead,
        !(rule_at(tokens, tokens.len() - 1, last_is_number(words)).attach_to_previous && words.len() > 0),
    ensures
        aggregate_from(tokens, tokens.len() - 1, words) == Err::<Seq<WordView>, _>(
            (AggregationFailure::MissingLookaheadToken, tokens.len() - 1),
        ),
{
}

/// An adjectival-stem noun that the walk reaches as the last token fails with
/// a missing lookahead at that token, whatever words came before it: it is
/// neither dropped nor left as a word cut short.
pub proof fn lemma_adjectival_stem_at_end(tokens: Seq<PreparedToken>, words: Seq<WordView>)
    requires
        tokens.len() > 0,
        is_adjectival_stem(tokens.last()),
    ensures
        aggregate_from(tokens, tokens.len() - 1, words) == Err::<Seq<WordView>, _>(
            (AggregationFailure::MissingLookaheadToken, tokens.len() - 1),
        ),
{
    let r = rule_at(tokens, tokens.len() - 1, last_is_number(words));
    assert(next_of(tokens, tokens.len() - 1) is None);
    assert(r == consuming(PartOfSpeech::Adjective));
    lemma_lookahead_at_end(tokens, words);
}

/// An adjectival-stem noun alone fails with a missing lookahead.
pub proof fn lemma_lone_adjectival_stem(t: PreparedToken)
    requires
        is_adjectival_stem(t),
    ensures
        aggregate(seq![t]) == Err::<Seq<WordView>, _>((AggregationFailure::MissingLookaheadToken, 0int)),
{
    lemma_adjectival_stem_at_end(seq![t], Seq::empty());
}

/// The grouping is a function of the tokens alone.
pub proof fn lemma_aggregate_deterministic(a: Seq<PreparedToken>, b: Seq<PreparedToken>)
    requires
        a == b,
    ensures
        aggregate(a) == aggregate(b),
{
}

/// Reading a morpheme leaves no choice: two tokens read from the same morpheme
/// agree in every field.
pub proof fn lemma_reading_deterministic(raw: RawToken, t1: PreparedToken, t2: PreparedToken)
    requires
        reads_as(raw, t1),
        reads_as(raw, t2),
    ensures
        t1.literal@ == t2.literal@,
        t1.pos == t2.pos,
        t1.pos2 == t2.pos2,
        t1.pos3 == t2.pos3,
        t1.pos4 == t2.pos4,
        t1.inflection_type == t2.inflection_type,
        t1.inflection_form == t2.inflection_form,
        t1.lemma@ == t2.lemma@,
        t1.reading@ == t2.reading@,
        t1.hatsuon@ == t2.hatsuon@,
{
}

/// A feature string with fewer than six fields is malformed; one whose first
/// field is the wildcard or a label outside the schema has no primary part of
/// speech.
pub proof fn lemma_primary_pos_rejection(feature: Seq<char>)
    ensures
        split_fields(feature).len() < MIN_FIELDS ==> feature_failure(feature) == Some(
            ParseFailure::MalformedFeature,
        ),
        split_fields(feature).len() >= MIN_FIELDS && (tag_of(split_fields(feature)[0]) == PosTag::Unset
            || tag_of(split_fields(feature)[0]) == PosTag::Unknown) ==> feature_failure(feature)
            == Some(ParseFailure::UnrecognizedPrimaryPos),
{
}

} // verus!
