use bunsetsu::analysis::{describe_tokens, BunsetsuError, WordInfo};
use bunsetsu::segment::split_tokens_into_bunsetsu;
use bunsetsu::token::TokenInfo;

fn tok(text: &str, features: &[&str]) -> TokenInfo {
    TokenInfo {
        text: text.to_string(),
        features: features.iter().map(|s| s.to_string()).collect(),
    }
}

fn sentence_tokens() -> Vec<TokenInfo> {
    vec![
        tok("人間", &["名詞", "一般", "*", "*", "*", "*", "人間", "ニンゲン", "ニンゲン"]),
        tok("は", &["助詞", "係助詞", "*", "*", "*", "*", "は", "ハ", "ワ"]),
        tok("文章", &["名詞", "一般", "*", "*", "*", "*", "文章", "ブンショウ", "ブンショー"]),
        tok("を", &["助詞", "格助詞", "一般", "*", "*", "*", "を", "ヲ", "ヲ"]),
        tok("読む", &["動詞", "自立", "*", "*", "五段・マ行", "基本形", "読む", "ヨム", "ヨム"]),
        tok("時", &["名詞", "非自立", "副詞可能", "*", "*", "*", "時", "トキ", "トキ"]),
        tok("、", &["記号", "読点", "*", "*", "*", "*", "、", "、", "、"]),
        tok("滑らか", &["名詞", "形容動詞語幹", "*", "*", "*", "*", "滑らか", "ナメラカ", "ナメラカ"]),
        tok("に", &["助詞", "副詞化", "*", "*", "*", "*", "に", "ニ", "ニ"]),
        tok("文字", &["名詞", "一般", "*", "*", "*", "*", "文字", "モジ", "モジ"]),
        tok("を", &["助詞", "格助詞", "一般", "*", "*", "*", "を", "ヲ", "ヲ"]),
        tok("読ん", &["動詞", "自立", "*", "*", "五段・マ行", "連用タ接続", "読む", "ヨン", "ヨン"]),
        tok("で", &["助詞", "接続助詞", "*", "*", "*", "*", "で", "デ", "デ"]),
        tok("いる", &["動詞", "非自立", "*", "*", "一段", "基本形", "いる", "イル", "イル"]),
        tok("訳", &["名詞", "非自立", "一般", "*", "*", "*", "訳", "ワケ", "ワケ"]),
        tok("で", &["助動詞", "*", "*", "*", "特殊・ダ", "連用形", "だ", "デ", "デ"]),
        tok("は", &["助詞", "係助詞", "*", "*", "*", "*", "は", "ハ", "ワ"]),
        tok("なく", &["形容詞", "自立", "*", "*", "形容詞・アウオ段", "連用テ接続", "ない", "ナク", "ナク"]),
        tok("、", &["記号", "読点", "*", "*", "*", "*", "、", "、", "、"]),
        tok("「", &["記号", "括弧開", "*", "*", "*", "*", "「", "「", "「"]),
        tok("１", &["名詞", "数", "*", "*", "*", "*", "１", "イチ", "イチ"]),
        tok("点", &["名詞", "接尾", "助数詞", "*", "*", "*", "点", "テン", "テン"]),
        tok("を", &["助詞", "格助詞", "一般", "*", "*", "*", "を", "ヲ", "ヲ"]),
        tok("見つめる", &["動詞", "自立", "*", "*", "一段", "基本形", "見つめる", "ミツメル", "ミツメル"]),
        tok("」", &["記号", "括弧閉", "*", "*", "*", "*", "」", "」", "」"]),
        tok("と", &["助詞", "格助詞", "引用", "*", "*", "*", "と", "ト", "ト"]),
        tok("いう", &["動詞", "自立", "*", "*", "五段・ワ行促音便", "基本形", "いう", "イウ", "イウ"]),
        tok("事", &["名詞", "非自立", "一般", "*", "*", "*", "事", "コト", "コト"]),
        tok("と", &["助詞", "並立助詞", "*", "*", "*", "*", "と", "ト", "ト"]),
        tok("「", &["記号", "括弧開", "*", "*", "*", "*", "「", "「", "「"]),
        tok("高速", &["名詞", "一般", "*", "*", "*", "*", "高速", "コウソク", "コーソク"]),
        tok("に", &["助詞", "格助詞", "一般", "*", "*", "*", "に", "ニ", "ニ"]),
        tok("視線", &["名詞", "一般", "*", "*", "*", "*", "視線", "シセン", "シセン"]),
        tok("を", &["助詞", "格助詞", "一般", "*", "*", "*", "を", "ヲ", "ヲ"]),
        tok("移動", &["名詞", "サ変接続", "*", "*", "*", "*", "移動", "イドウ", "イドー"]),
        tok("する", &["動詞", "自立", "*", "*", "サ変・スル", "基本形", "する", "スル", "スル"]),
        tok("」", &["記号", "括弧閉", "*", "*", "*", "*", "」", "」", "」"]),
        tok("と", &["助詞", "格助詞", "引用", "*", "*", "*", "と", "ト", "ト"]),
        tok("いう", &["動詞", "自立", "*", "*", "五段・ワ行促音便", "基本形", "いう", "イウ", "イウ"]),
        tok("事", &["名詞", "非自立", "一般", "*", "*", "*", "事", "コト", "コト"]),
        tok("を", &["助詞", "格助詞", "一般", "*", "*", "*", "を", "ヲ", "ヲ"]),
        tok("繰り返し", &["動詞", "自立", "*", "*", "五段・サ行", "連用形", "繰り返す", "クリカエシ", "クリカエシ"]),
        tok("て", &["助詞", "接続助詞", "*", "*", "*", "*", "て", "テ", "テ"]),
        tok("い", &["動詞", "非自立", "*", "*", "一段", "連用形", "いる", "イ", "イ"]),
        tok("ます", &["助動詞", "*", "*", "*", "特殊・マス", "基本形", "ます", "マス", "マス"]),
        tok("。", &["記号", "句点", "*", "*", "*", "*", "。", "。", "。"]),
    ]
}

const SENTENCE: &str = "人間は文章を読む時、滑らかに文字を読んでいる訳ではなく、「１点を見つめる」という事と「高速に視線を移動する」という事を繰り返しています。";

#[test]
fn test_bunsetsu_split() {
    let text = SENTENCE.to_string();
    let tokens = sentence_tokens();
    assert_eq!(tokens.iter().map(|t| t.text.as_str()).collect::<String>(), text);
    let bunsetsu = split_tokens_into_bunsetsu(&tokens);

    let shown: String = bunsetsu.iter().map(|b| format!("{} / ", b)).collect();
    println!("{}", shown);

    assert!(!bunsetsu.is_empty());
}

#[test]
fn sentence_phrases_rebuild_the_text() {
    let tokens = sentence_tokens();
    let phrases = split_tokens_into_bunsetsu(&tokens);
    assert_eq!(phrases.concat(), SENTENCE);
    assert!(phrases.len() >= 1 && phrases.len() <= tokens.len());
    assert!(phrases.iter().all(|p| !p.is_empty()));
}

#[test]
fn sentence_phrases_exact() {
    let phrases = split_tokens_into_bunsetsu(&sentence_tokens());
    let expected = vec![
        "人間は", "文章を", "読む", "時、", "滑らかに", "文字を", "読んでいる", "訳で", "は",
        "なく、", "「１点を", "見つめる", "」", "という", "事と", "「高速に", "視線を",
        "移動する", "」", "という", "事を", "繰り返し", "ています", "。",
    ];
    assert_eq!(phrases, expected);
}

#[test]
fn particle_attachment_scenario() {
    let tokens = vec![
        tok("猫", &["名詞", "一般"]),
        tok("が", &["助詞", "格助詞", "一般"]),
        tok("走る", &["動詞", "自立", "*", "*", "五段・ラ行", "基本形", "走る"]),
        tok("。", &["記号", "句点"]),
    ];
    assert_eq!(split_tokens_into_bunsetsu(&tokens), vec!["猫が", "走る", "。"]);
}

#[test]
fn quotation_to_scenario() {
    let tokens = vec![
        tok("」", &["記号", "括弧閉"]),
        tok("と", &["助詞", "格助詞", "引用", "*", "*", "*", "と"]),
        tok("いう", &["動詞", "自立", "*", "*", "五段・ワ行促音便", "基本形", "言う"]),
        tok("事", &["名詞", "非自立", "一般"]),
    ];
    assert_eq!(split_tokens_into_bunsetsu(&tokens), vec!["」", "という", "事"]);
}

#[test]
fn brackets_scenario() {
    let tokens = vec![
        tok("（", &["記号", "括弧開"]),
        tok("例", &["名詞", "一般"]),
        tok("）", &["記号", "括弧閉"]),
    ];
    assert_eq!(split_tokens_into_bunsetsu(&tokens), vec!["（例）"]);
    let mut more = tokens;
    more.push(tok("猫", &["名詞", "一般"]));
    assert_eq!(split_tokens_into_bunsetsu(&more), vec!["（例）", "猫"]);
}

#[test]
fn compound_verb_continuation_scenario() {
    let tokens = vec![
        tok("本", &["名詞", "一般"]),
        tok("を", &["助詞", "格助詞", "一般"]),
        tok("読ん", &["動詞", "自立", "*", "*", "五段・マ行", "連用タ接続", "読む"]),
        tok("で", &["助詞", "接続助詞", "*", "*", "*", "*", "で"]),
        tok("いる", &["動詞", "非自立", "*", "*", "一段", "基本形", "いる"]),
    ];
    assert_eq!(split_tokens_into_bunsetsu(&tokens), vec!["本を", "読んでいる"]);
}

#[test]
fn particle_run_scenario() {
    let tokens = vec![
        tok("犬", &["名詞", "一般"]),
        tok("か", &["助詞", "副助詞／並立助詞／終助詞"]),
        tok("も", &["助詞", "係助詞"]),
        tok("猫", &["名詞", "一般"]),
    ];
    assert_eq!(split_tokens_into_bunsetsu(&tokens), vec!["犬かも", "猫"]);
}

#[test]
fn no_tokens_no_phrases() {
    assert!(split_tokens_into_bunsetsu(&Vec::new()).is_empty());
}

#[test]
fn single_token_one_phrase() {
    assert_eq!(split_tokens_into_bunsetsu(&vec![tok("猫", &["名詞"])]), vec!["猫"]);
}

#[test]
fn empty_surfaces_yield_no_phrase() {
    let tokens = vec![tok("", &["接続詞"]), tok("", &["接続詞"])];
    assert!(split_tokens_into_bunsetsu(&tokens).is_empty());
}

#[test]
fn every_boundary_splits() {
    let tokens = vec![
        tok("しかし", &["接続詞"]),
        tok("ああ", &["感動詞"]),
        tok("、", &["記号", "読点"]),
        tok("猫", &["名詞"]),
    ];
    assert_eq!(split_tokens_into_bunsetsu(&tokens), vec!["しかし", "ああ", "、", "猫"]);
}

#[test]
fn error_message_has_prefix() {
    let e = BunsetsuError("辞書がありません".to_string());
    assert_eq!(e.message(), "文節解析エラー: 辞書がありません");
}

#[test]
fn word_info_from_full_token() {
    let t = tok("読む", &["動詞", "自立", "*", "*", "五段・マ行", "基本形", "読む", "ヨム", "ヨム"]);
    let w = WordInfo::from_token(&t);
    assert_eq!(w.surface, "読む");
    assert_eq!(w.pos, "動詞");
    assert_eq!(w.pos_detail.as_deref(), Some("自立"));
    assert_eq!(w.pronunciation.as_deref(), Some("ヨム"));
}

#[test]
fn word_info_from_short_token() {
    let w = WordInfo::from_token(&tok("ｘ", &[]));
    assert_eq!(w.surface, "ｘ");
    assert_eq!(w.pos, "");
    assert_eq!(w.pos_detail, None);
    assert_eq!(w.pronunciation, None);
}

#[test]
fn describe_tokens_keeps_order() {
    let ws = describe_tokens(&vec![tok("猫", &["名詞", "一般"]), tok("が", &["助詞", "格助詞"])]);
    assert_eq!(ws.len(), 2);
    assert_eq!(ws[0].surface, "猫");
    assert_eq!(ws[1].pos, "助詞");
    assert_eq!(ws[1].pos_detail.as_deref(), Some("格助詞"));
}
