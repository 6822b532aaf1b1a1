use vstd::prelude::*;

use crate::text::{opt_str_eq, opt_view, str_eq};

verus! {

/// Major part-of-speech categories that the boundary rules distinguish.
#[derive(Clone, Copy, Debug, PartialEq, Eq, Structural)]
pub enum PartOfSpeech {
    Symbol,
    Particle,
    Verb,
    Adjective,
    AdjectivalNoun,
    Auxiliary,
    Conjunction,
    Interjection,
    Prefix,
    Noun,
    Suffix,
    Adverb,
    Adnominal,
    Other,
}

/// The category named by a major part-of-speech label.
pub open spec fn pos_kind(s: Seq<char>) -> PartOfSpeech {
    if s == "記号"@ {
        PartOfSpeech::Symbol
    } else if s == "助詞"@ {
        PartOfSpeech::Particle
    } else if s == "動詞"@ {
        PartOfSpeech::Verb
    } else if s == "形容詞"@ {
        PartOfSpeech::Adjective
    } else if s == "形容動詞"@ {
        PartOfSpeech::AdjectivalNoun
    } else if s == "助動詞"@ {
        PartOfSpeech::Auxiliary
    } else if s == "接続詞"@ {
        PartOfSpeech::Conjunction
    } else if s == "感動詞"@ {
        PartOfSpeech::Interjection
    } else if s == "接頭詞"@ {
        PartOfSpeech::Prefix
    } else if s == "名詞"@ {
        PartOfSpeech::Noun
    } else if s == "接尾詞"@ {
        PartOfSpeech::Suffix
    } else if s == "副詞"@ {
        PartOfSpeech::Adverb
    } else if s == "連体詞"@ {
        PartOfSpeech::Adnominal
    } else {
        PartOfSpeech::Other
    }
}

/// The category of a major part-of-speech label.
pub fn classify_pos(s: &str) -> (r: PartOfSpeech)
    ensures
        r == pos_kind(s@),
{
    if str_eq(s, "記号") {
        PartOfSpeech::Symbol
    } else if str_eq(s, "助詞") {
        PartOfSpeech::Particle
    } else if str_eq(s, "動詞") {
        PartOfSpeech::Verb
    } else if str_eq(s, "形容詞") {
        PartOfSpeech::Adjective
    } else if str_eq(s, "形容動詞") {
        PartOfSpeech::AdjectivalNoun
    } else if str_eq(s, "助動詞") {
        PartOfSpeech::Auxiliary
    } else if str_eq(s, "接続詞") {
        PartOfSpeech::Conjunction
    } else if str_eq(s, "感動詞") {
        PartOfSpeech::Interjection
    } else if str_eq(s, "接頭詞") {
        PartOfSpeech::Prefix
    } else if str_eq(s, "名詞") {
        PartOfSpeech::Noun
    } else if str_eq(s, "接尾詞") {
        PartOfSpeech::Suffix
    } else if str_eq(s, "副詞") {
        PartOfSpeech::Adverb
    } else if str_eq(s, "連体詞") {
        PartOfSpeech::Adnominal
    } else {
        PartOfSpeech::Other
    }
}

/// Subtypes of particles, as given by the first part-of-speech detail.
#[derive(Clone, Copy, Debug, PartialEq, Eq, Structural)]
pub enum ParticleKind {
    Case,
    BindingOrAdverbial,
    Conjunctive,
    SentenceFinal,
    Nominalizer,
    Coordinating,
    Other,
}

/// The subtype named by a particle's first detail.
pub open spec fn particle_kind(d: Option<Seq<char>>) -> ParticleKind {
    if d == Some("格助詞"@) {
        ParticleKind::Case
    } else if d == Some("係助詞"@) || d == Some("副助詞"@) {
        ParticleKind::BindingOrAdverbial
    } else if d == Some("接続助詞"@) {
        ParticleKind::Conjunctive
    } else if d == Some("終助詞"@) {
        ParticleKind::SentenceFinal
    } else if d == Some("連体化"@) {
        ParticleKind::Nominalizer
    } else if d == Some("並立助詞"@) {
        ParticleKind::Coordinating
    } else {
        ParticleKind::Other
    }
}

/// The subtype of a particle, from its first detail.
pub fn classify_particle(d: Option<&str>) -> (r: ParticleKind)
    ensures
        r == particle_kind(opt_view(d)),
{
    if opt_str_eq(d, "格助詞") {
        ParticleKind::Case
    } else if opt_str_eq(d, "係助詞") || opt_str_eq(d, "副助詞") {
        ParticleKind::BindingOrAdverbial
    } else if opt_str_eq(d, "接続助詞") {
        ParticleKind::Conjunctive
    } else if opt_str_eq(d, "終助詞") {
        ParticleKind::SentenceFinal
    } else if opt_str_eq(d, "連体化") {
        ParticleKind::Nominalizer
    } else if opt_str_eq(d, "並立助詞") {
        ParticleKind::Coordinating
    } else {
        ParticleKind::Other
    }
}

/// Conjugation forms of predicates that the boundary rules distinguish.
#[derive(Clone, Copy, Debug, PartialEq, Eq, Structural)]
pub enum ConjugationForm {
    Terminal,
    Attributive,
    Continuative,
    Conditional,
    Imperative,
    Other,
}

/// The form named by a conjugation form feature.
pub open spec fn conjugation_kind(f: Option<Seq<char>>) -> ConjugationForm {
    if f == Some("終止形"@) || f == Some("基本形"@) {
        ConjugationForm::Terminal
    } else if f == Some("連体形"@) {
        ConjugationForm::Attributive
    } else if f == Some("連用形"@) {
        ConjugationForm::Continuative
    } else if f == Some("仮定形"@) {
        ConjugationForm::Conditional
    } else if f == Some("命令形"@) {
        ConjugationForm::Imperative
    } else {
        ConjugationForm::Other
    }
}

/// The form of a predicate, from its conjugation form feature.
pub fn classify_conjugation(f: Option<&str>) -> (r: ConjugationForm)
    ensures
        r == conjugation_kind(opt_view(f)),
{
    if opt_str_eq(f, "終止形") || opt_str_eq(f, "基本形") {
        ConjugationForm::Terminal
    } else if opt_str_eq(f, "連体形") {
        ConjugationForm::Attributive
    } else if opt_str_eq(f, "連用形") {
        ConjugationForm::Continuative
    } else if opt_str_eq(f, "仮定形") {
        ConjugationForm::Conditional
    } else if opt_str_eq(f, "命令形") {
        ConjugationForm::Imperative
    } else {
        ConjugationForm::Other
    }
}

/// Auxiliary verbs grouped by their surface text.
#[derive(Clone, Copy, Debug, PartialEq, Eq, Structural)]
pub enum AuxiliaryKind {
    Existential,
    Negation,
    Desiderative,
    PassiveCausative,
    Other,
}

/// The group of an auxiliary verb with surface text `s`.
pub open spec fn auxiliary_kind(s: Seq<char>) -> AuxiliaryKind {
    if s == "いる"@ || s == "ある"@ || s == "おる"@ {
        AuxiliaryKind::Existential
    } else if s == "ない"@ || s == "ぬ"@ || s == "ん"@ {
        AuxiliaryKind::Negation
    } else if s == "たい"@ || s == "たがる"@ {
        AuxiliaryKind::Desiderative
    } else if s == "れる"@ || s == "られる"@ || s == "せる"@ || s == "させる"@ {
        AuxiliaryKind::PassiveCausative
    } else {
        AuxiliaryKind::Other
    }
}

/// The group of an auxiliary verb, from its surface text.
pub fn classify_auxiliary(s: &str) -> (r: AuxiliaryKind)
    ensures
        r == auxiliary_kind(s@),
{
    if str_eq(s, "いる") || str_eq(s, "ある") || str_eq(s, "おる") {
        AuxiliaryKind::Existential
    } else if str_eq(s, "ない") || str_eq(s, "ぬ") || str_eq(s, "ん") {
        AuxiliaryKind::Negation
    } else if str_eq(s, "たい") || str_eq(s, "たがる") {
        AuxiliaryKind::Desiderative
    } else if str_eq(s, "れる") || str_eq(s, "られる") || str_eq(s, "せる") || str_eq(s, "させる") {
        AuxiliaryKind::PassiveCausative
    } else {
        AuxiliaryKind::Other
    }
}

/// Symbols grouped by the boundary they force.
#[derive(Clone, Copy, Debug, PartialEq, Eq, Structural)]
pub enum SymbolKind {
    Punctuation,
    Closing,
    Opening,
    Other,
}

/// The group of a symbol with surface text `s`.
pub open spec fn symbol_kind(s: Seq<char>) -> SymbolKind {
    if s == "、"@ || s == "。"@ || s == "！"@ || s == "？"@ || s == "…"@ {
        SymbolKind::Punctuation
    } else if s == "」"@ || s == "』"@ || s == "）"@ || s == "】"@ {
        SymbolKind::Closing
    } else if s == "「"@ || s == "『"@ || s == "（"@ || s == "【"@ {
        SymbolKind::Opening
    } else {
        SymbolKind::Other
    }
}

/// The group of a symbol, from its surface text.
pub fn classify_symbol(s: &str) -> (r: SymbolKind)
    ensures
        r == symbol_kind(s@),
{
    if str_eq(s, "、") || str_eq(s, "。") || str_eq(s, "！") || str_eq(s, "？") || str_eq(s, "…") {
        SymbolKind::Punctuation
    } else if str_eq(s, "」") || str_eq(s, "』") || str_eq(s, "）") || str_eq(s, "】") {
        SymbolKind::Closing
    } else if str_eq(s, "「") || str_eq(s, "『") || str_eq(s, "（") || str_eq(s, "【") {
        SymbolKind::Opening
    } else {
        SymbolKind::Other
    }
}

/// Base forms of the verbs that a quotative "と" attaches to.
pub open spec fn is_quotation_verb(b: Option<Seq<char>>) -> bool {
    b == Some("いう"@) || b == Some("言う"@) || b == Some("思う"@) || b == Some("考える"@)
        || b == Some("する"@) || b == Some("なる"@)
}

/// Whether a base form is one a quotative "と" attaches to.
pub fn quotation_verb(b: Option<&str>) -> (r: bool)
    ensures
        r == is_quotation_verb(opt_view(b)),
{
    opt_str_eq(b, "いう") || opt_str_eq(b, "言う") || opt_str_eq(b, "思う") || opt_str_eq(b, "考える")
        || opt_str_eq(b, "する") || opt_str_eq(b, "なる")
}

} // verus!
