//! The part-of-speech and inflection labels of the dictionary's feature schema.
use vstd::prelude::*;

verus! {

/// One label of the feature schema: a part of speech at some level, an
/// inflection type or an inflection form.
#[derive(Clone, Copy, Debug, PartialEq, Eq, Structural)]
pub enum PosTag {
    Meishi,
    KoyuuMeishi,
    DaiMeishi,
    JoDoushi,
    Kazu,
    Joshi,
    Settoushi,
    Doushi,
    Kigou,
    Firaa,
    Sonota,
    Kandoushi,
    Rentaishi,
    Setsuzokushi,
    Fukushi,
    Setsuzokujoshi,
    Keiyoushi,
    Hijiritsu,
    Fukushikanou,
    Sahensetsuzoku,
    Keiyoudoushigokan,
    Naikeiyoushigokan,
    Jodoushigokan,
    Fukushika,
    Taigensetsuzoku,
    Rentaika,
    Tokushu,
    Setsubi,
    Setsuzokushiteki,
    Doushihijiritsuteki,
    SahenSuru,
    TokushuTa,
    TokushuNai,
    TokushuTai,
    TokushuDesu,
    TokushuDa,
    TokushuMasu,
    TokushuNu,
    Fuhenkagata,
    Jinmei,
    MeireiI,
    Kakarijoshi,
    /// The wildcard field `*`.
    Unset,
    /// A label outside the schema.
    Unknown,
}

/// Character-wise equality of two string slices.
pub fn str_eq(a: &str, b: &str) -> (r: bool)
    ensures
        r == (a@ == b@),
{
    let n = a.unicode_len();
    if n != b.unicode_len() {
        return false;
    }
    let mut i: usize = 0;
    while i < n
        invariant
            n == a@.len(),
            n == b@.len(),
            i <= n,
            a@.subrange(0, i as int) == b@.subrange(0, i as int),
        decreases n - i,
    {
        if a.get_char(i) != b.get_char(i) {
            assert(a@[i as int] != b@[i as int]);
            return false;
        }
        assert(a@.subrange(0, i + 1) =~= a@.subrange(0, i as int).push(a@[i as int]));
        assert(b@.subrange(0, i + 1) =~= b@.subrange(0, i as int).push(b@[i as int]));
        i = i + 1;
    }
    assert(a@ =~= a@.subrange(0, n as int));
    assert(b@ =~= b@.subrange(0, n as int));
    true
}

/// The tag that a label of the feature schema stands for.
pub open spec fn tag_of(label: Seq<char>) -> PosTag {
    if label == "名詞"@ { PosTag::Meishi }
    else if label == "固有名詞"@ { PosTag::KoyuuMeishi }
    else if label == "代名詞"@ { PosTag::DaiMeishi }
    else if label == "助動詞"@ { PosTag::JoDoushi }
    else if label == "数"@ { PosTag::Kazu }
    else if label == "助詞"@ { PosTag::Joshi }
    else if label == "接頭詞"@ { PosTag::Settoushi }
    else if label == "動詞"@ { PosTag::Doushi }
    else if label == "記号"@ { PosTag::Kigou }
    else if label == "フィラー"@ { PosTag::Firaa }
    else if label == "その他"@ { PosTag::Sonota }
    else if label == "感動詞"@ { PosTag::Kandoushi }
    else if label == "連体詞"@ { PosTag::Rentaishi }
    else if label == "接続詞"@ { PosTag::Setsuzokushi }
    else if label == "副詞"@ { PosTag::Fukushi }
    else if label == "接続助詞"@ { PosTag::Setsuzokujoshi }
    else if label == "形容詞"@ { PosTag::Keiyoushi }
    else if label == "非自立"@ { PosTag::Hijiritsu }
    else if label == "副詞可能"@ { PosTag::Fukushikanou }
    else if label == "サ変接続"@ { PosTag::Sahensetsuzoku }
    else if label == "形容動詞語幹"@ { PosTag::Keiyoudoushigokan }
    else if label == "ナイ形容詞語幹"@ { PosTag::Naikeiyoushigokan }
    else if label == "助動詞語幹"@ { PosTag::Jodoushigokan }
    else if label == "副詞化"@ { PosTag::Fukushika }
    else if label == "体言接続"@ { PosTag::Taigensetsuzoku }
    else if label == "連体化"@ { PosTag::Rentaika }
    else if label == "特殊"@ { PosTag::Tokushu }
    else if label == "接尾"@ { PosTag::Setsubi }
    else if label == "接続詞的"@ { PosTag::Setsuzokushiteki }
    else if label == "動詞非自立的"@ { PosTag::Doushihijiritsuteki }
    else if label == "サ変・スル"@ { PosTag::SahenSuru }
    else if label == "特殊・タ"@ { PosTag::TokushuTa }
    else if label == "特殊・ナイ"@ { PosTag::TokushuNai }
    else if label == "特殊・タイ"@ { PosTag::TokushuTai }
    else if label == "特殊・デス"@ { PosTag::TokushuDesu }
    else if label == "特殊・ダ"@ { PosTag::TokushuDa }
    else if label == "特殊・マス"@ { PosTag::TokushuMasu }
    else if label == "特殊・ヌ"@ { PosTag::TokushuNu }
    else if label == "不変化型"@ { PosTag::Fuhenkagata }
    else if label == "人名"@ { PosTag::Jinmei }
    else if label == "命令ｉ"@ { PosTag::MeireiI }
    else if label == "係助詞"@ { PosTag::Kakarijoshi }
    else if label == "*"@ { PosTag::Unset }
    else { PosTag::Unknown }
}

/// Maps a label of the feature schema to its tag; `*` gives `Unset` and any
/// other label outside the schema gives `Unknown`.
pub fn pos_tag_from(label: &str) -> (t: PosTag)
    ensures
        t == tag_of(label@),
{
    if str_eq(label, "名詞") {
        PosTag::Meishi
    } else if str_eq(label, "固有名詞") {
        PosTag::KoyuuMeishi
    } else if str_eq(label, "代名詞") {
        PosTag::DaiMeishi
    } else if str_eq(label, "助動詞") {
        PosTag::JoDoushi
    } else if str_eq(label, "数") {
        PosTag::Kazu
    } else if str_eq(label, "助詞") {
        PosTag::Joshi
    } else if str_eq(label, "接頭詞") {
        PosTag::Settoushi
    } else if str_eq(label, "動詞") {
        PosTag::Doushi
    } else if str_eq(label, "記号") {
        PosTag::Kigou
    } else if str_eq(label, "フィラー") {
        PosTag::Firaa
    } else if str_eq(label, "その他") {
        PosTag::Sonota
    } else if str_eq(label, "感動詞") {
        PosTag::Kandoushi
    } else if str_eq(label, "連体詞") {
        PosTag::Rentaishi
    } else if str_eq(label, "接続詞") {
        PosTag::Setsuzokushi
    } else if str_eq(label, "副詞") {
        PosTag::Fukushi
    } else if str_eq(label, "接続助詞") {
        PosTag::Setsuzokujoshi
    } else if str_eq(label, "形容詞") {
        PosTag::Keiyoushi
    } else if str_eq(label, "非自立") {
        PosTag::Hijiritsu
    } else if str_eq(label, "副詞可能") {
        PosTag::Fukushikanou
    } else if str_eq(label, "サ変接続") {
        PosTag::Sahensetsuzoku
    } else if str_eq(label, "形容動詞語幹") {
        PosTag::Keiyoudoushigokan
    } else if str_eq(label, "ナイ形容詞語幹") {
        PosTag::Naikeiyoushigokan
    } else if str_eq(label, "助動詞語幹") {
        PosTag::Jodoushigokan
    } else if str_eq(label, "副詞化") {
        PosTag::Fukushika
    } else if str_eq(label, "体言接続") {
        PosTag::Taigensetsuzoku
    } else if str_eq(label, "連体化") {
        PosTag::Rentaika
    } else if str_eq(label, "特殊") {
        PosTag::Tokushu
    } else if str_eq(label, "接尾") {
        PosTag::Setsubi
    } else if str_eq(label, "接続詞的") {
        PosTag::Setsuzokushiteki
    } else if str_eq(label, "動詞非自立的") {
        PosTag::Doushihijiritsuteki
    } else if str_eq(label, "サ変・スル") {
        PosTag::SahenSuru
    } else if str_eq(label, "特殊・タ") {
        PosTag::TokushuTa
    } else if str_eq(label, "特殊・ナイ") {
        PosTag::TokushuNai
    } else if str_eq(label, "特殊・タイ") {
        PosTag::TokushuTai
    } else if str_eq(label, "特殊・デス") {
        PosTag::TokushuDesu
    } else if str_eq(label, "特殊・ダ") {
        PosTag::TokushuDa
    } else if str_eq(label, "特殊・マス") {
        PosTag::TokushuMasu
    } else if str_eq(label, "特殊・ヌ") {
        PosTag::TokushuNu
    } else if str_eq(label, "不変化型") {
        PosTag::Fuhenkagata
    } else if str_eq(label, "人名") {
        PosTag::Jinmei
    } else if str_eq(label, "命令ｉ") {
        PosTag::MeireiI
    } else if str_eq(label, "係助詞") {
        PosTag::Kakarijoshi
    } else if str_eq(label, "*") {
        PosTag::Unset
    } else {
        PosTag::Unknown
    }
}

} // verus!
