use vstd::prelude::*;

use lindera::error::LinderaError;
use lindera::tokenizer::Tokenizer;

use crate::segment::{models, phrases, split_tokens_into_bunsetsu, texts};
use crate::text::opt_view;
use crate::token::{feature, detail_1, pronunciation_of, TokenInfo, TokenModel};

verus! {

#[verifier::external_type_specification]
#[verifier::external_body]
pub struct ExTokenizer(Tokenizer);

#[verifier::external_type_specification]
#[verifier::external_body]
pub struct ExLinderaError(LinderaError);

/// Relies on lindera's `Tokenizer::tokenize` to split `text` into tokens, and on
/// `Token::details` for each token's feature vector. What they hold depends on
/// the tokenizer's dictionary, so nothing is stated of them.
#[verifier::external_body]
pub(crate) fn tokenize(tokenizer: &Tokenizer, text: &str) -> (r: Result<Vec<TokenInfo>, LinderaError>) {
    let mut tokens = tokenizer.tokenize(text)?;
    Ok(tokens.iter_mut().map(|t| TokenInfo {
        text: t.text.to_string(),
        features: t.details().iter().map(|s| s.to_string()).collect(),
    }).collect())
}

/// Relies on the `Display` impl of lindera's `LinderaError` for its message.
#[verifier::external_body]
fn lindera_error_message(e: &LinderaError) -> (r: String) {
    e.to_string()
}

/// The one error of text analysis: the tokenizer failed, with its description.
#[derive(Debug)]
pub struct BunsetsuError(pub String);

impl BunsetsuError {
    /// The message shown to a user.
    pub fn message(&self) -> (r: String)
        ensures
            r@ == "文節解析エラー: "@ + self.0@,
    {
        let mut s = String::from_str("文節解析エラー: ");
        s.append(self.0.as_str());
        s
    }
}

/// The library error for a tokenizer failure, with its message.
pub(crate) fn analysis_failed(e: &LinderaError) -> BunsetsuError {
    BunsetsuError(lindera_error_message(e))
}

/// Splits `text` into phrases with the tokens that `tokenizer` gives for it.
/// An empty text has no phrases.
pub fn split_text_into_bunsetsu(tokenizer: &Tokenizer, text: String) -> (r: Result<
    Vec<String>,
    BunsetsuError,
>)
    ensures
        text@.len() == 0 ==> (r matches Ok(v) && v@.len() == 0),
        r matches Ok(v) ==> exists|ts: Seq<TokenInfo>| texts(v@) == phrases(#[trigger] models(ts)),
{
    if text.as_str().is_empty() {
        let v: Vec<String> = Vec::new();
        proof {
            let none = Seq::<TokenInfo>::empty();
            assert(models(none) =~= Seq::<TokenModel>::empty());
            assert(texts(v@) =~= phrases(models(none)));
        }
        return Ok(v);
    }
    match tokenize(tokenizer, text.as_str()) {
        Ok(tokens) => {
            let v = split_tokens_into_bunsetsu(&tokens);
            proof {
                assert(texts(v@) == phrases(models(tokens@)));
            }
            Ok(v)
        },
        Err(e) => Err(analysis_failed(&e)),
    }
}

/// A token as shown to a user: its text, part of speech, first detail and
/// pronunciation.
#[derive(Debug)]
pub struct WordInfo {
    pub surface: String,
    pub pos: String,
    pub pos_detail: Option<String>,
    pub pronunciation: Option<String>,
}

/// The view of an optional string.
pub open spec fn opt_string_view(o: Option<String>) -> Option<Seq<char>> {
    match o {
        Some(s) => Some(s@),
        None => None,
    }
}

/// Whether `w` describes the token `t`; a missing part of speech is empty.
pub open spec fn describes(w: WordInfo, t: TokenModel) -> bool {
    &&& w.surface@ == t.surface
    &&& w.pos@ == match feature(t, 0) {
        Some(p) => p,
        None => Seq::empty(),
    }
    &&& opt_string_view(w.pos_detail) == detail_1(t)
    &&& opt_string_view(w.pronunciation) == pronunciation_of(t)
}

/// An owned copy of an optional string slice.
fn owned(o: Option<&str>) -> (r: Option<String>)
    ensures
        opt_string_view(r) == opt_view(o),
{
    match o {
        Some(s) => Some(String::from_str(s)),
        None => None,
    }
}

impl WordInfo {
    /// Describes one token.
    pub fn from_token(t: &TokenInfo) -> (r: WordInfo)
        ensures
            describes(r, t@),
    {
        let pos = if t.features.len() > 0 {
            t.features[0].clone()
        } else {
            String::new()
        };
        WordInfo {
            surface: t.text.clone(),
            pos,
            pos_detail: owned(t.pos_detail_1()),
            pronunciation: owned(t.pronunciation()),
        }
    }
}

/// Describes each token, in order.
pub fn describe_tokens(tokens: &Vec<TokenInfo>) -> (r: Vec<WordInfo>)
    ensures
        r@.len() == tokens@.len(),
        forall|k: int| 0 <= k < r@.len() ==> describes(#[trigger] r@[k], tokens@[k]@),
{
    let mut out: Vec<WordInfo> = Vec::new();
    let mut i: usize = 0;
    while i < tokens.len()
        invariant
            i <= tokens@.len(),
            out@.len() == i,
            forall|k: int| 0 <= k < i ==> describes(#[trigger] out@[k], tokens@[k]@),
        decreases tokens@.len() - i,
    {
        out.push(WordInfo::from_token(&tokens[i]));
        i = i + 1;
    }
    out
}

/// Describes each token that `tokenizer` gives for `text`.
pub fn analyze_text(tokenizer: &Tokenizer, text: String) -> (r: Result<Vec<WordInfo>, BunsetsuError>)
    ensures
        r matches Ok(v) ==> exists|ts: Seq<TokenInfo>|
            #![trigger ts.len()]
            v@.len() == ts.len() && forall|k: int|
                0 <= k < v@.len() ==> describes(#[trigger] v@[k], ts[k]@),
{
    match tokenize(tokenizer, text.as_str()) {
        Ok(tokens) => {
            let v = describe_tokens(&tokens);
            proof {
                assert(v@.len() == tokens@.len());
            }
            Ok(v)
        },
        Err(e) => Err(analysis_failed(&e)),
    }
}

} // verus!
