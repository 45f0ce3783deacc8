//! Grammatical plural categories and the classifier that assigns them.

use vstd::prelude::*;

verus! {

/// The six grammatical categories a plural rule can assign to a number.
#[derive(Clone, Copy, Debug, PartialEq, Eq, Structural)]
pub enum PluralCategory {
    Zero,
    One,
    Two,
    Few,
    Many,
    Other,
}

/// The category the English-style cardinal rule assigns to `value`:
/// exactly one maps to `One`, everything else to `Other`.
pub open spec fn spec_english_cardinal(value: i64) -> PluralCategory {
    if value == 1 {
        PluralCategory::One
    } else {
        PluralCategory::Other
    }
}

/// English-style cardinal rule: exactly one maps to `One`, everything else
/// to `Other`. Stands in for a full per-locale plural-rule table.
pub fn english_cardinal_classifier(value: i64) -> (c: PluralCategory)
    ensures
        c == spec_english_cardinal(value),
{
    if value == 1 {
        PluralCategory::One
    } else {
        PluralCategory::Other
    }
}

/// A pluggable plural rule, stored as a first-class value in a
/// `PluralFormat` so that another locale's rule can be substituted without
/// touching the selection algorithm. New locales are added as new variants.
#[derive(Clone, Copy, Debug, PartialEq, Eq, Structural)]
pub enum PluralClassifier {
    EnglishCardinal,
}

impl PluralClassifier {
    /// The category this classifier assigns to `value`.
    pub open spec fn spec_classify(self, value: i64) -> PluralCategory {
        match self {
            PluralClassifier::EnglishCardinal => spec_english_cardinal(value),
        }
    }

    /// Classify `value` into a grammatical category.
    pub fn classify(&self, value: i64) -> (c: PluralCategory)
        ensures
            c == self.spec_classify(value),
    {
        match self {
            PluralClassifier::EnglishCardinal => english_cardinal_classifier(value),
        }
    }
}

} // verus!
