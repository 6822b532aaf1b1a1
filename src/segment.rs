use vstd::prelude::*;

use crate::boundary::{boundary, is_bunsetsu_boundary};
use crate::token::{TokenInfo, TokenModel};

verus! {

/// The models of a sequence of tokens.
pub open spec fn models(ts: Seq<TokenInfo>) -> Seq<TokenModel> {
    ts.map_values(|t: TokenInfo| t@)
}

/// The character sequences held by a sequence of strings.
pub open spec fn texts(v: Seq<String>) -> Seq<Seq<char>> {
    v.map_values(|s: String| s@)
}

/// The surface texts of the tokens, concatenated in order.
pub open spec fn surfaces(ts: Seq<TokenModel>) -> Seq<char>
    decreases ts.len(),
{
    if ts.len() == 0 {
        Seq::empty()
    } else {
        surfaces(ts.drop_last()) + ts.last().surface
    }
}

/// The phrases, concatenated in order.
pub open spec fn joined(ps: Seq<Seq<char>>) -> Seq<char>
    decreases ps.len(),
{
    if ps.len() == 0 {
        Seq::empty()
    } else {
        joined(ps.drop_last()) + ps.last()
    }
}

/// The phrases emitted and the pending text once the first `i` tokens are read:
/// each token's text joins the pending text, which becomes a phrase when a
/// boundary follows the token.
pub open spec fn assemble(ts: Seq<TokenModel>, i: nat) -> (Seq<Seq<char>>, Seq<char>)
    decreases i,
{
    if i == 0 {
        (Seq::empty(), Seq::empty())
    } else {
        let prev = assemble(ts, (i - 1) as nat);
        let pending = prev.1 + ts[i - 1].surface;
        if i < ts.len() && boundary(ts[i - 1], ts[i as int]) && pending.len() > 0 {
            (prev.0.push(pending), Seq::empty())
        } else {
            (prev.0, pending)
        }
    }
}

/// The phrases of a token sequence: those emitted at boundaries, then the
/// pending text if any is left.
pub open spec fn phrases(ts: Seq<TokenModel>) -> Seq<Seq<char>> {
    let last = assemble(ts, ts.len());
    if last.1.len() > 0 {
        last.0.push(last.1)
    } else {
        last.0
    }
}

/// Every token has a non-empty surface text, as the analyzer produces them.
pub open spec fn surfaces_nonempty(ts: Seq<TokenModel>) -> bool {
    forall|k: int| 0 <= k < ts.len() ==> #[trigger] ts[k].surface.len() > 0
}

/// Splits a token sequence into phrases.
pub fn split_tokens_into_bunsetsu(tokens: &Vec<TokenInfo>) -> (r: Vec<String>)
    ensures
        texts(r@) == phrases(models(tokens@)),
{
    let ghost ts = models(tokens@);
    let mut out: Vec<String> = Vec::new();
    let mut current = String::new();
    let n = tokens.len();
    let mut i: usize = 0;
    while i < n
        invariant
            n == tokens@.len(),
            ts == models(tokens@),
            i <= n,
            texts(out@) == assemble(ts, i as nat).0,
            current@ == assemble(ts, i as nat).1,
        decreases n - i,
    {
        let info = &tokens[i];
        current.append(info.text.as_str());
        let mut emit = false;
        if i + 1 < n {
            emit = is_bunsetsu_boundary(info, &tokens[i + 1]) && !current.as_str().is_empty();
        }
        proof {
            assert(ts[i as int] == info@);
        }
        if emit {
            proof {
                assert(ts[i + 1] == tokens@[i + 1]@);
            }
            out.push(current);
            current = String::new();
            proof {
                assert(texts(out@) =~= assemble(ts, (i + 1) as nat).0);
            }
        }
        i = i + 1;
    }
    if !current.as_str().is_empty() {
        out.push(current);
        proof {
            assert(texts(out@) =~= phrases(ts));
        }
    }
    out
}

proof fn lemma_joined_push(ps: Seq<Seq<char>>, x: Seq<char>)
    ensures
        joined(ps.push(x)) == joined(ps) + x,
{
    assert(ps.push(x).drop_last() =~= ps);
}

proof fn lemma_surfaces_take(ts: Seq<TokenModel>, i: int)
    requires
        0 < i <= ts.len(),
    ensures
        surfaces(ts.take(i)) == surfaces(ts.take(i - 1)) + ts[i - 1].surface,
{
    assert(ts.take(i).drop_last() =~= ts.take(i - 1));
}

proof fn lemma_assemble_lossless(ts: Seq<TokenModel>, i: nat)
    requires
        i <= ts.len(),
    ensures
        joined(assemble(ts, i).0) + assemble(ts, i).1 == surfaces(ts.take(i as int)),
    decreases i,
{
    if i == 0 {
        assert(ts.take(0) =~= Seq::<TokenModel>::empty());
        assert(joined(Seq::<Seq<char>>::empty()) + Seq::<char>::empty() =~= Seq::<char>::empty());
    } else {
        let prev = assemble(ts, (i - 1) as nat);
        lemma_assemble_lossless(ts, (i - 1) as nat);
        lemma_surfaces_take(ts, i as int);
        let pending = prev.1 + ts[i - 1].surface;
        lemma_joined_push(prev.0, pending);
        assert(joined(prev.0) + pending =~= joined(prev.0) + prev.1 + ts[i - 1].surface);
        assert(joined(prev.0.push(pending)) + Seq::<char>::empty() =~= joined(prev.0) + pending);
    }
}

/// Concatenating the phrases in order gives back the concatenated surface
/// texts of all tokens: splitting loses and adds no text.
pub proof fn lemma_phrases_lossless(ts: Seq<TokenModel>)
    ensures
        joined(phrases(ts)) == surfaces(ts),
{
    lemma_assemble_lossless(ts, ts.len());
    assert(ts.take(ts.len() as int) =~= ts);
    let last = assemble(ts, ts.len());
    if last.1.len() > 0 {
        lemma_joined_push(last.0, last.1);
    } else {
        assert(joined(last.0) + last.1 =~= joined(last.0));
    }
}

proof fn lemma_assemble_count(ts: Seq<TokenModel>, i: nat)
    requires
        i <= ts.len(),
    ensures
        assemble(ts, i).0.len() + (if assemble(ts, i).1.len() > 0 { 1int } else { 0int }) <= i,
        surfaces_nonempty(ts) && i > 0 ==> assemble(ts, i).0.len() > 0 || assemble(ts, i).1.len()
            > 0,
    decreases i,
{
    if i > 0 {
        lemma_assemble_count(ts, (i - 1) as nat);
        if surfaces_nonempty(ts) {
            assert(ts[i - 1].surface.len() > 0);
        }
    }
}

/// The number of phrases is at most the number of tokens, is zero for no
/// tokens, and, when every token has a non-empty surface text, is zero only
/// for no tokens.
pub proof fn lemma_phrase_count(ts: Seq<TokenModel>)
    ensures
        phrases(ts).len() <= ts.len(),
        ts.len() == 0 ==> phrases(ts).len() == 0,
        surfaces_nonempty(ts) ==> (phrases(ts).len() == 0 <==> ts.len() == 0),
{
    lemma_assemble_count(ts, ts.len());
}

/// The boundary decision depends on the two tokens' contents alone: equal
/// pairs are always classified alike, wherever they stand.
pub proof fn lemma_boundary_pure(c1: TokenInfo, n1: TokenInfo, c2: TokenInfo, n2: TokenInfo)
    requires
        c1@ == c2@,
        n1@ == n2@,
    ensures
        boundary(c1@, n1@) == boundary(c2@, n2@),
{
}

} // verus!
