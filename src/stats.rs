use vstd::prelude::*;

use lindera::tokenizer::Tokenizer;

use crate::analysis::{tokenize, analysis_failed, BunsetsuError};
use crate::segment::models;
use crate::text::opt_str_eq;
use crate::token::{feature, TokenInfo, TokenModel};

verus! {

/// How many of the tokens have `label` as their major part of speech.
pub open spec fn count_pos(ts: Seq<TokenModel>, label: Seq<char>) -> nat
    decreases ts.len(),
{
    if ts.len() == 0 {
        0
    } else {
        count_pos(ts.drop_last(), label) + if feature(ts.last(), 0) == Some(label) {
            1nat
        } else {
            0nat
        }
    }
}

/// Counts of characters, tokens and a few parts of speech in a text.
#[derive(Clone, Copy, Debug, PartialEq, Eq, Structural)]
pub struct TextStats {
    pub char_count: usize,
    pub token_count: usize,
    pub noun_count: usize,
    pub verb_count: usize,
    pub adj_count: usize,
    pub particle_count: usize,
}

/// The statistics of `text`, given its tokens.
pub fn text_stats(text: &str, tokens: &Vec<TokenInfo>) -> (r: TextStats)
    ensures
        r.char_count == text@.len(),
        r.token_count == tokens@.len(),
        r.noun_count == count_pos(models(tokens@), "名詞"@),
        r.verb_count == count_pos(models(tokens@), "動詞"@),
        r.adj_count == count_pos(models(tokens@), "形容詞"@),
        r.particle_count == count_pos(models(tokens@), "助詞"@),
{
    let ghost ts = models(tokens@);
    let mut nouns: usize = 0;
    let mut verbs: usize = 0;
    let mut adjs: usize = 0;
    let mut particles: usize = 0;
    let n = tokens.len();
    let mut i: usize = 0;
    while i < n
        invariant
            n == tokens@.len(),
            ts == models(tokens@),
            i <= n,
            nouns == count_pos(ts.take(i as int), "名詞"@),
            verbs == count_pos(ts.take(i as int), "動詞"@),
            adjs == count_pos(ts.take(i as int), "形容詞"@),
            particles == count_pos(ts.take(i as int), "助詞"@),
            nouns <= i && verbs <= i && adjs <= i && particles <= i,
        decreases n - i,
    {
        proof {
            assert(ts.take(i + 1).drop_last() =~= ts.take(i as int));
            assert(ts.take(i + 1).last() == tokens@[i as int]@);
        }
        let pos = if tokens[i].features.len() > 0 {
            Some(tokens[i].features[0].as_str())
        } else {
            None
        };
        if opt_str_eq(pos, "名詞") {
            nouns = nouns + 1;
        }
        if opt_str_eq(pos, "動詞") {
            verbs = verbs + 1;
        }
        if opt_str_eq(pos, "形容詞") {
            adjs = adjs + 1;
        }
        if opt_str_eq(pos, "助詞") {
            particles = particles + 1;
        }
        i = i + 1;
    }
    proof {
        assert(ts.take(n as int) =~= ts);
    }
    TextStats {
        char_count: text.unicode_len(),
        token_count: n,
        noun_count: nouns,
        verb_count: verbs,
        adj_count: adjs,
        particle_count: particles,
    }
}

/// The statistics of `text` with the tokens that `tokenizer` gives for it.
pub fn analyze_text_stats(tokenizer: &Tokenizer, text: String) -> (r: Result<TextStats, BunsetsuError>)
    ensures
        r matches Ok(s) ==> s.char_count == text@.len() && exists|ts: Seq<TokenInfo>|
            s == text_stats_of(text@, #[trigger] models(ts)),
{
    match tokenize(tokenizer, text.as_str()) {
        Ok(tokens) => {
            let s = text_stats(text.as_str(), &tokens);
            proof {
                assert(s == text_stats_of(text@, models(tokens@)));
            }
            Ok(s)
        },
        Err(e) => Err(analysis_failed(&e)),
    }
}

/// The statistics of a text with the given tokens.
pub open spec fn text_stats_of(text: Seq<char>, ts: Seq<TokenModel>) -> TextStats {
    TextStats {
        char_count: text.len() as usize,
        token_count: ts.len() as usize,
        noun_count: count_pos(ts, "名詞"@) as usize,
        verb_count: count_pos(ts, "動詞"@) as usize,
        adj_count: count_pos(ts, "形容詞"@) as usize,
        particle_count: count_pos(ts, "助詞"@) as usize,
    }
}

} // verus!
