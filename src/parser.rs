//! Turns raw morphemes into typed tokens.
use vstd::prelude::*;
use crate::tags::{pos_tag_from, tag_of, PosTag};

verus! {

/// A morpheme as the analyzer hands it over: its surface form and its comma
/// separated feature string.
pub struct RawToken {
    pub surface: String,
    pub feature: String,
}

/// A morpheme with its feature string read into tags and text fields.
#[derive(Clone, Debug)]
pub struct PreparedToken {
    pub literal: String,
    pub pos: PosTag,
    pub pos2: PosTag,
    pub pos3: PosTag,
    pub pos4: PosTag,
    pub inflection_type: PosTag,
    pub inflection_form: PosTag,
    pub lemma: String,
    pub reading: String,
    pub hatsuon: String,
}

/// Why a raw morpheme could not be read.
#[derive(Clone, Copy, Debug, PartialEq, Eq, Structural)]
pub enum ParseFailure {
    /// The feature string has fewer than six fields.
    MalformedFeature,
    /// The first field is the wildcard or a label outside the schema.
    UnrecognizedPrimaryPos,
}

/// A failure of `prepare_tokens`, with the surface form of the morpheme at fault.
#[derive(Debug)]
pub struct ParseError {
    pub kind: ParseFailure,
    pub surface: String,
}

/// The number of fields that a feature string must hold.
pub const MIN_FIELDS: usize = 6;

/// The fields of `s` between its commas, from left to right.
pub open spec fn split_fields(s: Seq<char>) -> Seq<Seq<char>>
    decreases s.len(),
{
    if s.len() == 0 {
        seq![Seq::empty()]
    } else {
        let f = split_fields(s.drop_last());
        if s.last() == ',' {
            f.push(Seq::empty())
        } else {
            f.update(f.len() - 1, f.last().push(s.last()))
        }
    }
}

/// Field `k` of `fields`, or the empty text where there is none.
pub open spec fn field_or_empty(fields: Seq<Seq<char>>, k: int) -> Seq<char> {
    if k < fields.len() {
        fields[k]
    } else {
        Seq::empty()
    }
}

/// What is wrong with a feature string, if anything.
pub open spec fn feature_failure(feature: Seq<char>) -> Option<ParseFailure> {
    let f = split_fields(feature);
    if f.len() < MIN_FIELDS {
        Some(ParseFailure::MalformedFeature)
    } else if tag_of(f[0]) == PosTag::Unset || tag_of(f[0]) == PosTag::Unknown {
        Some(ParseFailure::UnrecognizedPrimaryPos)
    } else {
        None
    }
}

/// `t` is the token read from the morpheme `raw`: the six tags are those of the
/// first six fields, and lemma, reading and transcription are fields six to
/// eight, empty where absent.
pub open spec fn reads_as(raw: RawToken, t: PreparedToken) -> bool {
    let f = split_fields(raw.feature@);
    &&& t.literal@ == raw.surface@
    &&& t.pos == tag_of(f[0])
    &&& t.pos2 == tag_of(f[1])
    &&& t.pos3 == tag_of(f[2])
    &&& t.pos4 == tag_of(f[3])
    &&& t.inflection_type == tag_of(f[4])
    &&& t.inflection_form == tag_of(f[5])
    &&& t.lemma@ == field_or_empty(f, 6)
    &&& t.reading@ == field_or_empty(f, 7)
    &&& t.hatsuon@ == field_or_empty(f, 8)
}

/// A field list is never empty.
pub proof fn lemma_split_fields_nonempty(s: Seq<char>)
    ensures
        split_fields(s).len() >= 1,
    decreases s.len(),
{
    if s.len() > 0 {
        lemma_split_fields_nonempty(s.drop_last());
    }
}

/// Splits `s` at each comma.
pub fn split_commas(s: &str) -> (r: Vec<String>)
    ensures
        r@.map_values(|x: String| x@) == split_fields(s@),
{
    let n = s.unicode_len();
    let mut fields: Vec<String> = Vec::new();
    let mut start: usize = 0;
    let mut i: usize = 0;
    assert(s@.subrange(0, 0) =~= Seq::<char>::empty());
    assert(fields@.map_values(|x: String| x@).push(s@.subrange(0, 0)) =~= seq![Seq::<char>::empty()]);
    while i < n
        invariant
            n == s@.len(),
            start <= i <= n,
            fields@.map_values(|x: String| x@).push(s@.subrange(start as int, i as int))
                == split_fields(s@.subrange(0, i as int)),
        decreases n - i,
    {
        let ghost prev = s@.subrange(0, i as int);
        assert(s@.subrange(0, i + 1).drop_last() =~= prev);
        assert(s@.subrange(0, i + 1).last() == s@[i as int]);
        proof {
            lemma_split_fields_nonempty(prev);
        }
        let ghost before = fields@.map_values(|x: String| x@);
        if s.get_char(i) == ',' {
            let piece = s.substring_char(start, i);
            fields.push(String::from_str(piece));
            assert(fields@.map_values(|x: String| x@) =~= before.push(s@.subrange(start as int, i as int)));
            assert(s@.subrange(i + 1, i + 1) =~= Seq::<char>::empty());
            assert(fields@.map_values(|x: String| x@).push(s@.subrange(i + 1, i + 1))
                =~= split_fields(s@.subrange(0, i + 1)));
            start = i + 1;
        } else {
            assert(s@.subrange(start as int, i + 1) =~= s@.subrange(start as int, i as int).push(s@[i as int]));
            assert(fields@.map_values(|x: String| x@).push(s@.subrange(start as int, i + 1))
                =~= split_fields(s@.subrange(0, i + 1)));
        }
        i = i + 1;
    }
    let ghost before = fields@.map_values(|x: String| x@);
    let piece = s.substring_char(start, n);
    fields.push(String::from_str(piece));
    assert(fields@.map_values(|x: String| x@) =~= before.push(s@.subrange(start as int, n as int)));
    assert(s@.subrange(0, n as int) =~= s@);
    assert(fields@.map_values(|x: String| x@) =~= split_fields(s@));
    fields
}

/// Reads one raw morpheme into a token.
pub fn prepare_token(raw: &RawToken) -> (r: Result<PreparedToken, ParseError>)
    ensures
        match r {
            Ok(t) => feature_failure(raw.feature@) is None && reads_as(*raw, t),
            Err(e) => feature_failure(raw.feature@) == Some(e.kind) && e.surface@ == raw.surface@,
        },
{
    let fields = split_commas(raw.feature.as_str());
    let ghost f = split_fields(raw.feature@);
    assert(forall|k: int| 0 <= k < fields@.len() ==> fields@[k]@ == f[k]);
    if fields.len() < MIN_FIELDS {
        return Err(ParseError { kind: ParseFailure::MalformedFeature, surface: raw.surface.clone() });
    }
    let pos = pos_tag_from(fields[0].as_str());
    if pos == PosTag::Unset || pos == PosTag::Unknown {
        return Err(ParseError { kind: ParseFailure::UnrecognizedPrimaryPos, surface: raw.surface.clone() });
    }
    let lemma = if fields.len() > 6 { fields[6].clone() } else { String::new() };
    let reading = if fields.len() > 7 { fields[7].clone() } else { String::new() };
    let hatsuon = if fields.len() > 8 { fields[8].clone() } else { String::new() };
    Ok(PreparedToken {
        literal: raw.surface.clone(),
        pos,
        pos2: pos_tag_from(fields[1].as_str()),
        pos3: pos_tag_from(fields[2].as_str()),
        pos4: pos_tag_from(fields[3].as_str()),
        inflection_type: pos_tag_from(fields[4].as_str()),
        inflection_form: pos_tag_from(fields[5].as_str()),
        lemma,
        reading,
        hatsuon,
    })
}

/// Reads every raw morpheme, in order. Fails on the first morpheme that cannot
/// be read, naming its surface form.
pub fn prepare_tokens(raw_tokens: Vec<RawToken>) -> (r: Result<Vec<PreparedToken>, ParseError>)
    ensures
        match r {
            Ok(ts) => {
                &&& forall|k: int| 0 <= k < raw_tokens@.len() ==> (#[trigger] feature_failure(raw_tokens@[k].feature@)) is None
                &&& ts@.len() == raw_tokens@.len()
                &&& forall|k: int| 0 <= k < ts@.len() ==> reads_as(raw_tokens@[k], #[trigger] ts@[k])
            },
            Err(e) => exists|k: int| {
                &&& 0 <= k < raw_tokens@.len()
                &&& forall|j: int| 0 <= j < k ==> (#[trigger] feature_failure(raw_tokens@[j].feature@)) is None
                &&& feature_failure(raw_tokens@[k].feature@) == Some(e.kind)
                &&& e.surface@ == raw_tokens@[k].surface@
            },
        },
{
    let mut tokens: Vec<PreparedToken> = Vec::new();
    let mut i: usize = 0;
    while i < raw_tokens.len()
        invariant
            i <= raw_tokens@.len(),
            tokens@.len() == i,
            forall|k: int| 0 <= k < i ==> (#[trigger] feature_failure(raw_tokens@[k].feature@)) is None,
            forall|k: int| 0 <= k < i ==> reads_as(raw_tokens@[k], #[trigger] tokens@[k]),
        decreases raw_tokens@.len() - i,
    {
        match prepare_token(&raw_tokens[i]) {
            Ok(t) => {
                tokens.push(t);
            },
            Err(e) => {
                assert(feature_failure(raw_tokens@[i as int].feature@) == Some(e.kind));
                return Err(e);
            },
        }
        i = i + 1;
    }
    Ok(tokens)
}

} // verus!
