//! Folds a token sequence into words.
use vstd::prelude::*;
use crate::parser::PreparedToken;
use crate::rules::{decide, rule_at, Grammar, PartOfSpeech};

verus! {

/// A word: one or more consecutive tokens.
#[derive(Debug)]
pub struct Word {
    /// The concatenated literals of the tokens.
    pub word: String,
    /// The dictionary form.
    pub lemma: String,
    pub part_of_speech: PartOfSpeech,
    pub tokens: Vec<PreparedToken>,
    pub extra: WordExtra,
}

/// The phonetic fields of a word and its grammatical role.
#[derive(Debug)]
pub struct WordExtra {
    /// The concatenated readings of the tokens.
    pub reading: String,
    /// The concatenated transcriptions of the tokens.
    pub transcription: String,
    pub grammar: Option<Grammar>,
}

/// The mathematical value of a `Word`.
pub struct WordView {
    pub word: Seq<char>,
    pub lemma: Seq<char>,
    pub part_of_speech: PartOfSpeech,
    pub tokens: Seq<PreparedToken>,
    pub reading: Seq<char>,
    pub transcription: Seq<char>,
    pub grammar: Option<Grammar>,
}

impl View for Word {
    type V = WordView;

    open spec fn view(&self) -> WordView {
        WordView {
            word: self.word@,
            lemma: self.lemma@,
            part_of_speech: self.part_of_speech,
            tokens: self.tokens@,
            reading: self.extra.reading@,
            transcription: self.extra.transcription@,
            grammar: self.extra.grammar,
        }
    }
}

/// Why a token sequence could not be grouped into words.
#[derive(Clone, Copy, Debug, PartialEq, Eq, Structural)]
pub enum AggregationFailure {
    /// No rule gives the token a part of speech.
    UnresolvedPartOfSpeech,
    /// The token's rule takes the following token, and there is none.
    MissingLookaheadToken,
}

/// A failure of `parse_into_words`, with the literal of the token at fault.
#[derive(Debug)]
pub struct AggregationError {
    pub kind: AggregationFailure,
    pub surface: String,
}

pub open spec fn views(ws: Seq<Word>) -> Seq<WordView> {
    ws.map_values(|w: Word| w@)
}

/// The word that token `t` starts.
pub open spec fn new_word(t: PreparedToken, pos: PartOfSpeech, grammar: Option<Grammar>) -> WordView {
    WordView {
        word: t.literal@,
        lemma: t.lemma@,
        part_of_speech: pos,
        tokens: seq![t],
        reading: t.reading@,
        transcription: t.hatsuon@,
        grammar,
    }
}

/// `w` with token `t` folded in at its end.
pub open spec fn append_to(w: WordView, t: PreparedToken, also_extend_lemma: bool) -> WordView {
    WordView {
        word: w.word + t.literal@,
        lemma: if also_extend_lemma { w.lemma + t.lemma@ } else { w.lemma },
        tokens: w.tokens.push(t),
        reading: w.reading + t.reading@,
        transcription: w.transcription + t.hatsuon@,
        ..w
    }
}

pub open spec fn last_is_number(words: Seq<WordView>) -> bool {
    words.len() > 0 && words.last().part_of_speech == PartOfSpeech::Number
}

/// The words built from position `i` of `tokens` on, when `words` have been
/// built so far; or the failure and the position of the token at fault.
pub open spec fn aggregate_from(tokens: Seq<PreparedToken>, i: int, words: Seq<WordView>) -> Result<
    Seq<WordView>,
    (AggregationFailure, int),
>
    decreases tokens.len() - i,
{
    if i < 0 || i >= tokens.len() {
        Ok(words)
    } else {
        let t = tokens[i];
        let r = rule_at(tokens, i, last_is_number(words));
        match r.pos {
            None => Err((AggregationFailure::UnresolvedPartOfSpeech, i)),
            Some(pos) => if r.attach_to_previous && words.len() > 0 {
                let joined = append_to(words.last(), t, r.also_extend_lemma);
                let joined = if r.override_pos {
                    WordView { part_of_speech: pos, ..joined }
                } else {
                    joined
                };
                aggregate_from(tokens, i + 1, words.update(words.len() - 1, joined))
            } else if r.consume_lookahead {
                if i + 1 < tokens.len() {
                    let w = append_to(new_word(t, pos, r.grammar), tokens[i + 1], false);
                    aggregate_from(tokens, i + 2, words.push(w))
                } else {
                    Err((AggregationFailure::MissingLookaheadToken, i))
                }
            } else {
                aggregate_from(tokens, i + 1, words.push(new_word(t, pos, r.grammar)))
            },
        }
    }
}

/// The words built from the whole of `tokens`.
pub open spec fn aggregate(tokens: Seq<PreparedToken>) -> Result<Seq<WordView>, (AggregationFailure, int)> {
    aggregate_from(tokens, 0, Seq::empty())
}

/// A field-by-field copy of a token.
pub fn copy_token(t: &PreparedToken) -> (r: PreparedToken)
    ensures
        r == *t,
{
    PreparedToken {
        literal: t.literal.clone(),
        pos: t.pos,
        pos2: t.pos2,
        pos3: t.pos3,
        pos4: t.pos4,
        inflection_type: t.inflection_type,
        inflection_form: t.inflection_form,
        lemma: t.lemma.clone(),
        reading: t.reading.clone(),
        hatsuon: t.hatsuon.clone(),
    }
}

fn start_word(t: &PreparedToken, pos: PartOfSpeech, grammar: Option<Grammar>) -> (w: Word)
    ensures
        w@ == new_word(*t, pos, grammar),
{
    let mut tokens: Vec<PreparedToken> = Vec::new();
    tokens.push(copy_token(t));
    let w = Word {
        word: t.literal.clone(),
        lemma: t.lemma.clone(),
        part_of_speech: pos,
        tokens,
        extra: WordExtra {
            reading: t.reading.clone(),
            transcription: t.hatsuon.clone(),
            grammar,
        },
    };
    assert(w@.tokens =~= seq![*t]);
    w
}

fn append_token(w: &mut Word, t: &PreparedToken, also_extend_lemma: bool)
    ensures
        final(w)@ == append_to(old(w)@, *t, also_extend_lemma),
{
    w.word.append(t.literal.as_str());
    if also_extend_lemma {
        w.lemma.append(t.lemma.as_str());
    }
    w.extra.reading.append(t.reading.as_str());
    w.extra.transcription.append(t.hatsuon.as_str());
    w.tokens.push(copy_token(t));
}

/// Groups `tokens` into words, left to right, with one token of lookahead.
/// Fails at the first token that no rule gives a part of speech, or whose rule
/// takes a following token that is not there, naming its literal.
pub fn parse_into_words(tokens: Vec<PreparedToken>) -> (r: Result<Vec<Word>, AggregationError>)
    ensures
        match r {
            Ok(ws) => aggregate(tokens@) == Ok::<_, (AggregationFailure, int)>(views(ws@)),
            Err(e) => {
                &&& aggregate(tokens@) is Err
                &&& e.kind == aggregate(tokens@)->Err_0.0
                &&& e.surface@ == tokens@[aggregate(tokens@)->Err_0.1].literal@
            },
        },
{
    let n = tokens.len();
    let mut words: Vec<Word> = Vec::new();
    let mut i: usize = 0;
    assert(views(words@) =~= Seq::<WordView>::empty());
    while i < n
        invariant
            n == tokens@.len(),
            i <= n,
            aggregate_from(tokens@, i as int, views(words@)) == aggregate(tokens@),
        decreases n - i,
    {
        let ghost ws = views(words@);
        let last_number = words.len() > 0 && words[words.len() - 1].part_of_speech
            == PartOfSpeech::Number;
        assert(last_number == last_is_number(ws));
        let rule = decide(&tokens, i, last_number);
        let t = &tokens[i];
        match rule.pos {
            None => {
                return Err(
                    AggregationError {
                        kind: AggregationFailure::UnresolvedPartOfSpeech,
                        surface: t.literal.clone(),
                    },
                );
            },
            Some(pos) => {
                if rule.attach_to_previous && words.len() > 0 {
                    let mut last = words.pop().unwrap();
                    append_token(&mut last, t, rule.also_extend_lemma);
                    if rule.override_pos {
                        last.part_of_speech = pos;
                    }
                    words.push(last);
                    assert(views(words@) =~= ws.update(
                        ws.len() - 1,
                        if rule.override_pos {
                            WordView { part_of_speech: pos, ..append_to(ws.last(), *t, rule.also_extend_lemma) }
                        } else {
                            append_to(ws.last(), *t, rule.also_extend_lemma)
                        },
                    ));
                    i = i + 1;
                } else {
                    let mut w = start_word(t, pos, rule.grammar);
                    if rule.consume_lookahead {
                        if i < n - 1 {
                            append_token(&mut w, &tokens[i + 1], false);
                            words.push(w);
                            assert(views(words@) =~= ws.push(
                                append_to(new_word(*t, pos, rule.grammar), tokens@[i + 1], false),
                            ));
                            i = i + 2;
                        } else {
                            return Err(
                                AggregationError {
                                    kind: AggregationFailure::MissingLookaheadToken,
                                    surface: t.literal.clone(),
                                },
                            );
                        }
                    } else {
                        words.push(w);
                        assert(views(words@) =~= ws.push(new_word(*t, pos, rule.grammar)));
                        i = i + 1;
                    }
                }
            },
        }
    }
    Ok(words)
}

} // verus!
