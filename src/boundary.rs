use vstd::prelude::*;

use crate::category::{
    auxiliary_kind, classify_auxiliary, classify_conjugation, classify_particle, classify_pos,
    classify_symbol, conjugation_kind, is_quotation_verb, particle_kind, pos_kind,
    quotation_verb, symbol_kind, AuxiliaryKind, ConjugationForm, ParticleKind, PartOfSpeech,
    SymbolKind,
};
use crate::text::{opt_str_eq, str_eq};
use crate::token::{base_form_of, conjugation_form_of, detail_1, pos_of, TokenInfo, TokenModel};

verus! {

/// Whether the first character of `s` is one of で, か, の (true for an empty `s`).
pub open spec fn opens_clause_particle(s: Seq<char>) -> bool {
    s.len() == 0 || s[0] == 'で' || s[0] == 'か' || s[0] == 'の'
}

/// Boundary after a particle, by its subtype and, within some subtypes, its text.
pub open spec fn particle_boundary(cur: TokenModel, next: TokenModel) -> bool {
    let np = pos_kind(pos_of(next));
    match particle_kind(detail_1(cur)) {
        ParticleKind::Case => {
            if cur.surface == "の"@ {
                np == PartOfSpeech::Verb || np == PartOfSpeech::Adjective
                    || np == PartOfSpeech::AdjectivalNoun || np == PartOfSpeech::Auxiliary
            } else if cur.surface == "と"@ {
                !is_quotation_verb(base_form_of(next))
            } else {
                true
            }
        },
        ParticleKind::BindingOrAdverbial => true,
        ParticleKind::Conjunctive => {
            if cur.surface == "て"@ || cur.surface == "で"@ {
                if np == PartOfSpeech::Auxiliary {
                    false
                } else if np == PartOfSpeech::Verb {
                    detail_1(next) != Some("非自立"@)
                } else {
                    true
                }
            } else {
                true
            }
        },
        ParticleKind::SentenceFinal => true,
        ParticleKind::Nominalizer => false,
        ParticleKind::Coordinating => true,
        ParticleKind::Other => !(np == PartOfSpeech::Particle || np == PartOfSpeech::Auxiliary),
    }
}

/// Boundary after a verb, adjective or adjectival noun, by its conjugation form.
pub open spec fn conjugation_boundary(cur: TokenModel, next: TokenModel) -> bool {
    let np = pos_kind(pos_of(next));
    match conjugation_kind(conjugation_form_of(cur)) {
        ConjugationForm::Terminal => !(np == PartOfSpeech::Auxiliary || np == PartOfSpeech::Particle),
        ConjugationForm::Attributive => false,
        ConjugationForm::Continuative => {
            if np == PartOfSpeech::Auxiliary {
                false
            } else if np == PartOfSpeech::Verb {
                detail_1(next) != Some("非自立"@)
            } else {
                true
            }
        },
        ConjugationForm::Conditional => np == PartOfSpeech::Particle,
        ConjugationForm::Imperative => true,
        ConjugationForm::Other => false,
    }
}

/// Boundary after an auxiliary verb, by its surface text.
pub open spec fn auxiliary_boundary(cur: TokenModel, next: TokenModel) -> bool {
    let np = pos_kind(pos_of(next));
    match auxiliary_kind(cur.surface) {
        AuxiliaryKind::Negation => {
            if np == PartOfSpeech::Particle {
                opens_clause_particle(next.surface)
            } else {
                np == PartOfSpeech::Symbol
            }
        },
        AuxiliaryKind::PassiveCausative => np != PartOfSpeech::Auxiliary,
        _ => np == PartOfSpeech::Particle || np == PartOfSpeech::Symbol,
    }
}

/// Boundary after a noun: only a proper noun followed by an independent noun splits.
pub open spec fn noun_boundary(cur: TokenModel, next: TokenModel) -> bool {
    let np = pos_kind(pos_of(next));
    if np == PartOfSpeech::Noun {
        detail_1(cur) == Some("固有名詞"@) && !(detail_1(next) == Some("接尾"@) || detail_1(
            next,
        ) == Some("非自立"@))
    } else {
        false
    }
}

/// Whether a phrase boundary falls between `cur` and the token `next` after it.
pub open spec fn boundary(cur: TokenModel, next: TokenModel) -> bool {
    let cp = pos_kind(pos_of(cur));
    let np = pos_kind(pos_of(next));
    if cp == PartOfSpeech::Symbol && symbol_kind(cur.surface) != SymbolKind::Other {
        symbol_kind(cur.surface) != SymbolKind::Opening
    } else {
        match cp {
            PartOfSpeech::Particle => particle_boundary(cur, next),
            PartOfSpeech::Verb | PartOfSpeech::Adjective | PartOfSpeech::AdjectivalNoun => {
                conjugation_boundary(cur, next)
            },
            PartOfSpeech::Auxiliary => auxiliary_boundary(cur, next),
            PartOfSpeech::Conjunction | PartOfSpeech::Interjection => true,
            PartOfSpeech::Noun => noun_boundary(cur, next),
            PartOfSpeech::Adverb => np != PartOfSpeech::Particle,
            _ => false,
        }
    }
}

/// Boundary after a particle.
pub fn check_particle_boundary(current: &TokenInfo, next: &TokenInfo) -> (r: bool)
    ensures
        r == particle_boundary(current@, next@),
{
    let np = classify_pos(next.pos());
    let text = current.text.as_str();
    match classify_particle(current.pos_detail_1()) {
        ParticleKind::Case => {
            if str_eq(text, "の") {
                np == PartOfSpeech::Verb || np == PartOfSpeech::Adjective || np
                    == PartOfSpeech::AdjectivalNoun || np == PartOfSpeech::Auxiliary
            } else if str_eq(text, "と") {
                !quotation_verb(next.base_form())
            } else {
                true
            }
        },
        ParticleKind::BindingOrAdverbial => true,
        ParticleKind::Conjunctive => {
            if str_eq(text, "て") || str_eq(text, "で") {
                if np == PartOfSpeech::Auxiliary {
                    false
                } else if np == PartOfSpeech::Verb {
                    !opt_str_eq(next.pos_detail_1(), "非自立")
                } else {
                    true
                }
            } else {
                true
            }
        },
        ParticleKind::SentenceFinal => true,
        ParticleKind::Nominalizer => false,
        ParticleKind::Coordinating => true,
        ParticleKind::Other => !(np == PartOfSpeech::Particle || np == PartOfSpeech::Auxiliary),
    }
}

/// Boundary after a verb, adjective or adjectival noun.
pub fn check_conjugation_boundary(current: &TokenInfo, next: &TokenInfo) -> (r: bool)
    ensures
        r == conjugation_boundary(current@, next@),
{
    let np = classify_pos(next.pos());
    match classify_conjugation(current.conjugation_form()) {
        ConjugationForm::Terminal => !(np == PartOfSpeech::Auxiliary || np == PartOfSpeech::Particle),
        ConjugationForm::Attributive => false,
        ConjugationForm::Continuative => {
            if np == PartOfSpeech::Auxiliary {
                false
            } else if np == PartOfSpeech::Verb {
                !opt_str_eq(next.pos_detail_1(), "非自立")
            } else {
                true
            }
        },
        ConjugationForm::Conditional => np == PartOfSpeech::Particle,
        ConjugationForm::Imperative => true,
        ConjugationForm::Other => false,
    }
}

/// Boundary after an auxiliary verb.
pub fn check_auxiliary_boundary(current: &TokenInfo, next: &TokenInfo) -> (r: bool)
    ensures
        r == auxiliary_boundary(current@, next@),
{
    let np = classify_pos(next.pos());
    match classify_auxiliary(current.text.as_str()) {
        AuxiliaryKind::Negation => {
            if np == PartOfSpeech::Particle {
                let s = next.text.as_str();
                if s.unicode_len() == 0 {
                    true
                } else {
                    let c = s.get_char(0);
                    c == 'で' || c == 'か' || c == 'の'
                }
            } else {
                np == PartOfSpeech::Symbol
            }
        },
        AuxiliaryKind::PassiveCausative => np != PartOfSpeech::Auxiliary,
        _ => np == PartOfSpeech::Particle || np == PartOfSpeech::Symbol,
    }
}

/// Boundary after a noun.
pub fn check_noun_boundary(current: &TokenInfo, next: &TokenInfo) -> (r: bool)
    ensures
        r == noun_boundary(current@, next@),
{
    let np = classify_pos(next.pos());
    if np == PartOfSpeech::Noun {
        let nd = next.pos_detail_1();
        opt_str_eq(current.pos_detail_1(), "固有名詞") && !(opt_str_eq(nd, "接尾") || opt_str_eq(
            nd,
            "非自立",
        ))
    } else {
        false
    }
}

/// Whether a phrase boundary falls between `current` and `next`.
pub fn is_bunsetsu_boundary(current: &TokenInfo, next: &TokenInfo) -> (r: bool)
    ensures
        r == boundary(current@, next@),
{
    let cp = classify_pos(current.pos());
    if cp == PartOfSpeech::Symbol {
        let sk = classify_symbol(current.text.as_str());
        if sk != SymbolKind::Other {
            return sk != SymbolKind::Opening;
        }
    }
    match cp {
        PartOfSpeech::Particle => check_particle_boundary(current, next),
        PartOfSpeech::Verb | PartOfSpeech::Adjective | PartOfSpeech::AdjectivalNoun => {
            check_conjugation_boundary(current, next)
        },
        PartOfSpeech::Auxiliary => check_auxiliary_boundary(current, next),
        PartOfSpeech::Conjunction | PartOfSpeech::Interjection => true,
        PartOfSpeech::Noun => check_noun_boundary(current, next),
        PartOfSpeech::Adverb => classify_pos(next.pos()) != PartOfSpeech::Particle,
        _ => false,
    }
}

} // verus!
