use vstd::prelude::*;

use crate::text::opt_view;

verus! {

/// One token of the morphological analyzer: its surface text and its feature
/// vector (part of speech, its details, conjugation, base form, reading, ...).
pub struct TokenInfo {
    pub text: String,
    pub features: Vec<String>,
}

/// The mathematical model of a token.
pub ghost struct TokenModel {
    pub surface: Seq<char>,
    pub features: Seq<Seq<char>>,
}

impl View for TokenInfo {
    type V = TokenModel;

    open spec fn view(&self) -> TokenModel {
        TokenModel { surface: self.text@, features: self.features@.map_values(|f: String| f@) }
    }
}

/// The feature at position `i`, if the vector is long enough.
pub open spec fn feature(t: TokenModel, i: int) -> Option<Seq<char>> {
    if 0 <= i < t.features.len() {
        Some(t.features[i])
    } else {
        None
    }
}

/// The major part of speech, or the "unknown word" sentinel when absent.
pub open spec fn pos_of(t: TokenModel) -> Seq<char> {
    match feature(t, 0) {
        Some(p) => p,
        None => "未知語"@,
    }
}

/// Named positions of the feature vector: 1 and 2 are part-of-speech details,
/// 4 and 5 the conjugation type and form, 6 the base form, 7 the reading and
/// 8 the pronunciation.
pub open spec fn detail_1(t: TokenModel) -> Option<Seq<char>> {
    feature(t, 1)
}

pub open spec fn detail_2(t: TokenModel) -> Option<Seq<char>> {
    feature(t, 2)
}

pub open spec fn conjugation_type_of(t: TokenModel) -> Option<Seq<char>> {
    feature(t, 4)
}

pub open spec fn conjugation_form_of(t: TokenModel) -> Option<Seq<char>> {
    feature(t, 5)
}

pub open spec fn base_form_of(t: TokenModel) -> Option<Seq<char>> {
    feature(t, 6)
}

pub open spec fn reading_of(t: TokenModel) -> Option<Seq<char>> {
    feature(t, 7)
}

pub open spec fn pronunciation_of(t: TokenModel) -> Option<Seq<char>> {
    feature(t, 8)
}

impl TokenInfo {
    /// The feature at position `i`, if present.
    fn feature_at(&self, i: usize) -> (r: Option<&str>)
        ensures
            opt_view(r) == feature(self@, i as int),
    {
        if i < self.features.len() {
            Some(self.features[i].as_str())
        } else {
            None
        }
    }

    /// The major part of speech, or "未知語" when the features are empty.
    pub fn pos(&self) -> (r: &str)
        ensures
            r@ == pos_of(self@),
    {
        if self.features.len() > 0 {
            self.features[0].as_str()
        } else {
            "未知語"
        }
    }

    /// The first part-of-speech detail, if present.
    pub fn pos_detail_1(&self) -> (r: Option<&str>)
        ensures
            opt_view(r) == detail_1(self@),
    {
        self.feature_at(1)
    }

    /// The second part-of-speech detail, if present.
    pub fn pos_detail_2(&self) -> (r: Option<&str>)
        ensures
            opt_view(r) == detail_2(self@),
    {
        self.feature_at(2)
    }

    /// The conjugation form, if present.
    pub fn conjugation_form(&self) -> (r: Option<&str>)
        ensures
            opt_view(r) == conjugation_form_of(self@),
    {
        self.feature_at(5)
    }

    /// The conjugation type, if present.
    pub fn conjugation_type(&self) -> (r: Option<&str>)
        ensures
            opt_view(r) == conjugation_type_of(self@),
    {
        self.feature_at(4)
    }

    /// The dictionary base form, if present.
    pub fn base_form(&self) -> (r: Option<&str>)
        ensures
            opt_view(r) == base_form_of(self@),
    {
        self.feature_at(6)
    }

    /// The reading, if present.
    pub fn reading(&self) -> (r: Option<&str>)
        ensures
            opt_view(r) == reading_of(self@),
    {
        self.feature_at(7)
    }

    /// The pronunciation, if present.
    pub fn pronunciation(&self) -> (r: Option<&str>)
        ensures
            opt_view(r) == pronunciation_of(self@),
    {
        self.feature_at(8)
    }
}

} // verus!
