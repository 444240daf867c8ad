use kotoba::{
    parse_into_words, prepare_tokens, AggregationFailure, Grammar, ParseFailure, PartOfSpeech,
    PosTag, PreparedToken, RawToken, Word,
};

fn raw(surface: &str, feature: &str) -> RawToken {
    RawToken { surface: surface.to_string(), feature: feature.to_string() }
}

fn tokens(items: &[(&str, &str)]) -> Vec<PreparedToken> {
    let raws = items.iter().map(|(s, f)| raw(s, f)).collect();
    prepare_tokens(raws).unwrap()
}

fn words(items: &[(&str, &str)]) -> Vec<Word> {
    parse_into_words(tokens(items)).unwrap()
}

fn surfaces(ws: &[Word]) -> Vec<String> {
    ws.iter().map(|w| w.word.clone()).collect()
}

const NEKO: (&str, &str) = ("猫", "名詞,一般,*,*,*,*,猫,ネコ,ネコ");
const TABE: (&str, &str) = ("食べ", "動詞,自立,*,*,一段,連用形,食べる,タベ,タベ");
const TA: (&str, &str) = ("た", "助動詞,*,*,*,特殊・タ,基本形,た,タ,タ");

#[test]
fn reads_all_fields_of_a_feature_string() {
    let t = tokens(&[NEKO]);
    assert_eq!(t.len(), 1);
    assert_eq!(t[0].literal, "猫");
    assert_eq!(t[0].pos, PosTag::Meishi);
    assert_eq!(t[0].pos2, PosTag::Unknown);
    assert_eq!(t[0].pos3, PosTag::Unset);
    assert_eq!(t[0].inflection_type, PosTag::Unset);
    assert_eq!(t[0].lemma, "猫");
    assert_eq!(t[0].reading, "ネコ");
    assert_eq!(t[0].hatsuon, "ネコ");
}

#[test]
fn six_fields_leave_the_text_fields_empty() {
    let t = tokens(&[("x", "記号,一般,*,*,*,*")]);
    assert_eq!(t[0].pos, PosTag::Kigou);
    assert_eq!(t[0].lemma, "");
    assert_eq!(t[0].reading, "");
    assert_eq!(t[0].hatsuon, "");
}

#[test]
fn inflection_labels_are_read() {
    let t = tokens(&[TABE, TA]);
    assert_eq!(t[0].inflection_type, PosTag::Unknown);
    assert_eq!(t[1].pos, PosTag::JoDoushi);
    assert_eq!(t[1].inflection_type, PosTag::TokushuTa);
}

#[test]
fn too_few_fields_is_malformed() {
    let e = prepare_tokens(vec![raw("猫", "名詞,一般,*,*,*")]).unwrap_err();
    assert_eq!(e.kind, ParseFailure::MalformedFeature);
    assert_eq!(e.surface, "猫");
}

#[test]
fn empty_feature_is_malformed() {
    let e = prepare_tokens(vec![raw("a", "")]).unwrap_err();
    assert_eq!(e.kind, ParseFailure::MalformedFeature);
}

#[test]
fn wildcard_primary_is_rejected() {
    let e = prepare_tokens(vec![raw("?", "*,*,*,*,*,*")]).unwrap_err();
    assert_eq!(e.kind, ParseFailure::UnrecognizedPrimaryPos);
    assert_eq!(e.surface, "?");
}

#[test]
fn unknown_primary_is_rejected() {
    let e = prepare_tokens(vec![raw("?", "未知語,*,*,*,*,*")]).unwrap_err();
    assert_eq!(e.kind, ParseFailure::UnrecognizedPrimaryPos);
}

#[test]
fn first_bad_morpheme_is_named() {
    let e = prepare_tokens(vec![
        raw("猫", NEKO.1),
        raw("b", "名詞"),
        raw("c", "*,*,*,*,*,*"),
    ])
    .unwrap_err();
    assert_eq!(e.kind, ParseFailure::MalformedFeature);
    assert_eq!(e.surface, "b");
}

#[test]
fn empty_input_gives_no_words() {
    assert_eq!(prepare_tokens(vec![]).unwrap().len(), 0);
    assert_eq!(parse_into_words(vec![]).unwrap().len(), 0);
}

#[test]
fn numerals_chain_into_one_number() {
    let ws = words(&[("3", "名詞,数,*,*,*,*,3,サン,サン"), ("000", "名詞,数,*,*,*,*,000,ゼロゼロゼロ,ゼロゼロゼロ")]);
    assert_eq!(ws.len(), 1);
    assert_eq!(ws[0].word, "3000");
    assert_eq!(ws[0].lemma, "3000");
    assert_eq!(ws[0].part_of_speech, PartOfSpeech::Number);
    assert_eq!(ws[0].tokens.len(), 2);
    assert_eq!(ws[0].extra.reading, "サンゼロゼロゼロ");
}

#[test]
fn counter_suffix_joins_the_number() {
    let ws = words(&[
        ("3000", "名詞,数,*,*,*,*,3000,サンゼン,サンゼン"),
        ("人", "名詞,接尾,助数詞,*,*,*,人,ニン,ニン"),
    ]);
    assert_eq!(surfaces(&ws), vec!["3000人"]);
    assert_eq!(ws[0].lemma, "3000人");
    assert_eq!(ws[0].part_of_speech, PartOfSpeech::Number);
}

#[test]
fn verb_fuses_with_past_auxiliary() {
    let ws = words(&[TABE, TA]);
    assert_eq!(ws.len(), 1);
    assert_eq!(ws[0].word, "食べた");
    assert_eq!(ws[0].lemma, "食べる");
    assert_eq!(ws[0].part_of_speech, PartOfSpeech::Verb);
    assert_eq!(ws[0].extra.reading, "タベタ");
    assert_eq!(ws[0].extra.transcription, "タベタ");
}

#[test]
fn verb_fuses_with_polite_and_negative_auxiliaries() {
    let ws = words(&[
        ("食べ", "動詞,自立,*,*,一段,連用形,食べる,タベ,タベ"),
        ("ませ", "助動詞,*,*,*,特殊・マス,未然形,ます,マセ,マセ"),
        ("ん", "助動詞,*,*,*,不変化型,基本形,ん,ン,ン"),
    ]);
    assert_eq!(surfaces(&ws), vec!["食べません"]);
    assert_eq!(ws[0].lemma, "食べる");
}

#[test]
fn auxiliary_after_binding_particle_stands_alone() {
    let ws = words(&[
        ("猫", NEKO.1),
        ("は", "助詞,係助詞,*,*,*,*,は,ハ,ワ"),
        ("ない", "助動詞,*,*,*,特殊・ナイ,基本形,ない,ナイ,ナイ"),
    ]);
    assert_eq!(surfaces(&ws), vec!["猫", "は", "ない"]);
    assert_eq!(ws[2].part_of_speech, PartOfSpeech::Postposition);
}

#[test]
fn copula_is_a_verb_unless_na() {
    let ws = words(&[("猫", NEKO.1), ("だ", "助動詞,*,*,*,特殊・ダ,基本形,だ,ダ,ダ")]);
    assert_eq!(ws[1].part_of_speech, PartOfSpeech::Verb);
    let ws = words(&[("猫", NEKO.1), ("な", "助動詞,*,*,*,特殊・ダ,体言接続,だ,ナ,ナ")]);
    assert_eq!(ws[1].part_of_speech, PartOfSpeech::Postposition);
}

#[test]
fn suffix_extends_surface_and_lemma() {
    let ws = words(&[
        ("学生", "名詞,一般,*,*,*,*,学生,ガクセイ,ガクセイ"),
        ("たち", "名詞,接尾,一般,*,*,*,たち,タチ,タチ"),
    ]);
    assert_eq!(ws.len(), 1);
    assert_eq!(ws[0].word, "学生たち");
    assert_eq!(ws[0].lemma, "学生たち");
    assert_eq!(ws[0].extra.reading, "ガクセイタチ");
    assert_eq!(ws[0].part_of_speech, PartOfSpeech::Noun);
}

#[test]
fn person_name_suffix_is_its_own_word() {
    let ws = words(&[
        ("田中", "名詞,固有名詞,人名,姓,*,*,田中,タナカ,タナカ"),
        ("さん", "名詞,接尾,人名,*,*,*,さん,サン,サン"),
    ]);
    assert_eq!(surfaces(&ws), vec!["田中", "さん"]);
    assert_eq!(ws[0].part_of_speech, PartOfSpeech::ProperNoun);
    assert_eq!(ws[1].part_of_speech, PartOfSpeech::Suffix);
}

#[test]
fn sa_suffix_turns_the_word_into_a_noun() {
    let ws = words(&[
        ("高", "形容詞,自立,*,*,形容詞・アウオ段,ガル接続,高い,タカ,タカ"),
        ("さ", "名詞,接尾,特殊,*,*,*,さ,サ,サ"),
    ]);
    assert_eq!(ws.len(), 1);
    assert_eq!(ws[0].word, "高さ");
    assert_eq!(ws[0].lemma, "高い");
    assert_eq!(ws[0].part_of_speech, PartOfSpeech::Noun);
}

#[test]
fn sahen_noun_takes_suru() {
    let ws = words(&[
        ("勉強", "名詞,サ変接続,*,*,*,*,勉強,ベンキョウ,ベンキョー"),
        ("する", "動詞,自立,*,*,サ変・スル,基本形,する,スル,スル"),
    ]);
    assert_eq!(ws.len(), 1);
    assert_eq!(ws[0].word, "勉強する");
    assert_eq!(ws[0].lemma, "勉強");
    assert_eq!(ws[0].part_of_speech, PartOfSpeech::Verb);
    assert_eq!(ws[0].extra.transcription, "ベンキョースル");
}

#[test]
fn adjectival_stem_takes_adnominal_na() {
    let ws = words(&[
        ("静か", "名詞,形容動詞語幹,*,*,*,*,静か,シズカ,シズカ"),
        ("な", "助動詞,*,*,*,特殊・ダ,体言接続,だ,ナ,ナ"),
        ("猫", NEKO.1),
    ]);
    assert_eq!(surfaces(&ws), vec!["静かな", "猫"]);
    assert_eq!(ws[0].lemma, "静か");
    assert_eq!(ws[0].part_of_speech, PartOfSpeech::Adjective);
}

#[test]
fn adjectival_stem_before_da_is_adjective_without_taking_it() {
    let ws = words(&[
        ("静か", "名詞,形容動詞語幹,*,*,*,*,静か,シズカ,シズカ"),
        ("だ", "助動詞,*,*,*,特殊・ダ,基本形,だ,ダ,ダ"),
    ]);
    assert_eq!(surfaces(&ws), vec!["静か", "だ"]);
    assert_eq!(ws[0].part_of_speech, PartOfSpeech::Adjective);
}

#[test]
fn adverbial_noun_before_ni_is_adverb() {
    let ws = words(&[
        ("一緒", "名詞,副詞可能,*,*,*,*,一緒,イッショ,イッショ"),
        ("に", "助詞,格助詞,一般,*,*,*,に,ニ,ニ"),
    ]);
    assert_eq!(surfaces(&ws), vec!["一緒", "に"]);
    assert_eq!(ws[0].part_of_speech, PartOfSpeech::Adverb);
}

#[test]
fn auxiliary_stem_with_copula_is_auxiliary_verb() {
    let ws = words(&[
        ("よう", "名詞,非自立,助動詞語幹,*,*,*,よう,ヨウ,ヨー"),
        ("な", "助動詞,*,*,*,特殊・ダ,体言接続,だ,ナ,ナ"),
    ]);
    assert_eq!(surfaces(&ws), vec!["ような"]);
    assert_eq!(ws[0].part_of_speech, PartOfSpeech::Verb);
    assert_eq!(ws[0].extra.grammar, Some(Grammar::Auxiliary));
}

#[test]
fn dependent_adverbial_noun_takes_ni() {
    let ws = words(&[
        ("ため", "名詞,非自立,副詞可能,*,*,*,ため,タメ,タメ"),
        ("に", "助詞,格助詞,一般,*,*,*,に,ニ,ニ"),
    ]);
    assert_eq!(surfaces(&ws), vec!["ために"]);
    assert_eq!(ws[0].part_of_speech, PartOfSpeech::Adverb);
}

#[test]
fn adjectival_stem_at_end_misses_its_lookahead() {
    let t = tokens(&[("静か", "名詞,形容動詞語幹,*,*,*,*,静か,シズカ,シズカ")]);
    let e = parse_into_words(t).unwrap_err();
    assert_eq!(e.kind, AggregationFailure::MissingLookaheadToken);
    assert_eq!(e.surface, "静か");
    let t = tokens(&[NEKO, ("よう", "名詞,非自立,形容動詞語幹,*,*,*,よう,ヨウ,ヨー")]);
    let e = parse_into_words(t).unwrap_err();
    assert_eq!(e.kind, AggregationFailure::MissingLookaheadToken);
    assert_eq!(e.surface, "よう");
}

#[test]
fn other_stem_nouns_at_end_stand_alone() {
    let ws = words(&[("勉強", "名詞,サ変接続,*,*,*,*,勉強,ベンキョウ,ベンキョー")]);
    assert_eq!(surfaces(&ws), vec!["勉強"]);
    assert_eq!(ws[0].part_of_speech, PartOfSpeech::Noun);
}

#[test]
fn te_particle_joins_the_verb() {
    let ws = words(&[TABE, ("て", "助詞,接続助詞,*,*,*,*,て,テ,テ")]);
    assert_eq!(surfaces(&ws), vec!["食べて"]);
    assert_eq!(ws[0].part_of_speech, PartOfSpeech::Verb);
}

#[test]
fn dependent_verb_joins_unless_imperative() {
    let ws = words(&[TABE, ("て", "助詞,接続助詞,*,*,*,*,て,テ,テ"), ("いる", "動詞,非自立,*,*,一段,基本形,いる,イル,イル")]);
    assert_eq!(surfaces(&ws), vec!["食べている"]);
    let ws = words(&[TABE, ("て", "助詞,接続助詞,*,*,*,*,て,テ,テ"), ("い", "動詞,非自立,*,*,一段,命令ｉ,いる,イ,イ")]);
    assert_eq!(surfaces(&ws), vec!["食べて", "い"]);
}

#[test]
fn attaching_token_first_starts_a_word() {
    let ws = words(&[TA]);
    assert_eq!(surfaces(&ws), vec!["た"]);
    assert_eq!(ws[0].part_of_speech, PartOfSpeech::Postposition);
}

#[test]
fn simple_categories() {
    let ws = words(&[
        ("お", "接頭詞,名詞接続,*,*,*,*,お,オ,オ"),
        ("この", "連体詞,*,*,*,*,*,この,コノ,コノ"),
        ("しかし", "接続詞,*,*,*,*,*,しかし,シカシ,シカシ"),
        ("とても", "副詞,助詞類接続,*,*,*,*,とても,トテモ,トテモ"),
        ("。", "記号,句点,*,*,*,*,。,。,。"),
        ("えー", "フィラー,*,*,*,*,*,えー,エー,エー"),
        ("ああ", "感動詞,*,*,*,*,*,ああ,アア,アー"),
        ("x", "その他,間投,*,*,*,*,x,x,x"),
        ("高い", "形容詞,自立,*,*,形容詞・アウオ段,基本形,高い,タカイ,タカイ"),
        ("彼", "名詞,代名詞,一般,*,*,*,彼,カレ,カレ"),
    ]);
    let pos: Vec<PartOfSpeech> = ws.iter().map(|w| w.part_of_speech).collect();
    assert_eq!(
        pos,
        vec![
            PartOfSpeech::Prefix,
            PartOfSpeech::Determiner,
            PartOfSpeech::Conjunction,
            PartOfSpeech::Adverb,
            PartOfSpeech::Symbol,
            PartOfSpeech::Interjection,
            PartOfSpeech::Interjection,
            PartOfSpeech::Other,
            PartOfSpeech::Adjective,
            PartOfSpeech::Pronoun,
        ]
    );
}

#[test]
fn unresolved_primary_fails_naming_the_token() {
    let t = tokens(&[NEKO, ("変", "固有名詞,*,*,*,*,*,変,ヘン,ヘン")]);
    let e = parse_into_words(t).unwrap_err();
    assert_eq!(e.kind, AggregationFailure::UnresolvedPartOfSpeech);
    assert_eq!(e.surface, "変");
}

#[test]
fn sentence_round_trips_and_covers_every_token() {
    let items = [
        ("子ども", "名詞,一般,*,*,*,*,子ども,コドモ,コドモ"),
        ("が", "助詞,格助詞,一般,*,*,*,が,ガ,ガ"),
        ("3000", "名詞,数,*,*,*,*,3000,サンゼン,サンゼン"),
        ("人", "名詞,接尾,助数詞,*,*,*,人,ニン,ニン"),
        ("を", "助詞,格助詞,一般,*,*,*,を,ヲ,ヲ"),
        ("超える", "動詞,自立,*,*,一段,基本形,超える,コエル,コエル"),
        ("勉強", "名詞,サ変接続,*,*,*,*,勉強,ベンキョウ,ベンキョー"),
        ("し", "動詞,自立,*,*,サ変・スル,連用形,する,シ,シ"),
        ("まし", "助動詞,*,*,*,特殊・マス,連用形,ます,マシ,マシ"),
        ("た", "助動詞,*,*,*,特殊・タ,基本形,た,タ,タ"),
        ("。", "記号,句点,*,*,*,*,。,。,。"),
    ];
    let input = tokens(&items);
    let n = input.len();
    let literal: String = input.iter().map(|t| t.literal.clone()).collect();
    let ws = parse_into_words(input).unwrap();
    let surface: String = ws.iter().map(|w| w.word.clone()).collect();
    assert_eq!(surface, literal);
    assert_eq!(ws.iter().map(|w| w.tokens.len()).sum::<usize>(), n);
    assert_eq!(surfaces(&ws), vec!["子ども", "が", "3000人", "を", "超える", "勉強しました", "。"]);
}

#[test]
fn same_input_gives_same_output() {
    let items = [NEKO, TABE, TA];
    let a = words(&items);
    let b = words(&items);
    assert_eq!(surfaces(&a), surfaces(&b));
    assert_eq!(
        a.iter().map(|w| (w.lemma.clone(), w.part_of_speech)).collect::<Vec<_>>(),
        b.iter().map(|w| (w.lemma.clone(), w.part_of_speech)).collect::<Vec<_>>()
    );
}
