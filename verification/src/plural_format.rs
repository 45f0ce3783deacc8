//! Formatting a numeric value taking pluralization rules into account.

use vstd::prelude::*;
use crate::category::{PluralCategory, PluralClassifier};
use crate::message::Message;

verus! {

/// First override registered for the exact value `n`, if any.
pub open spec fn spec_lookup_literal(literals: Seq<(i64, Message)>, n: i64) -> Option<Message>
    decreases literals.len(),
{
    if literals.len() == 0 {
        None::<Message>
    } else if literals[0].0 == n {
        Some(literals[0].1)
    } else {
        spec_lookup_literal(literals.drop_first(), n)
    }
}

/// Classifies a numeric argument into a grammatical category (or matches an
/// exact literal override) and delegates rendering to the chosen sub-message.
#[derive(Debug)]
pub struct PluralFormat {
    /// The name of the variable whose value should be formatted.
    pub variable_name: String,
    /// The plural rule used when no literal override matches.
    pub classifier: PluralClassifier,
    /// Exact-match overrides, checked against the offset-adjusted value
    /// before classification; the newest entry for a value wins.
    pub literals: Vec<(i64, Message)>,
    /// Subtracted from the argument's value before literal lookup and before
    /// classification.
    pub offset: i64,
    pub zero: Option<Message>,
    pub one: Option<Message>,
    pub two: Option<Message>,
    pub few: Option<Message>,
    pub many: Option<Message>,
    /// The mandatory fallback; unset categories fall back to it.
    pub other: Message,
}

impl PluralFormat {
    /// The sub-message configured for category `c`, or `other` where unset.
    pub open spec fn spec_category_message(self, c: PluralCategory) -> Message {
        match c {
            PluralCategory::Zero => match self.zero {
                Some(m) => m,
                None => self.other,
            },
            PluralCategory::One => match self.one {
                Some(m) => m,
                None => self.other,
            },
            PluralCategory::Two => match self.two {
                Some(m) => m,
                None => self.other,
            },
            PluralCategory::Few => match self.few {
                Some(m) => m,
                None => self.other,
            },
            PluralCategory::Many => match self.many {
                Some(m) => m,
                None => self.other,
            },
            PluralCategory::Other => self.other,
        }
    }

    /// The sub-message selected for the offset-adjusted value `adjusted`:
    /// a literal override where one is registered, else the classified
    /// category's message.
    pub open spec fn spec_lookup_message(self, adjusted: i64) -> Message {
        match spec_lookup_literal(self.literals@, adjusted) {
            Some(m) => m,
            None => self.spec_category_message(self.classifier.spec_classify(adjusted)),
        }
    }

    /// The offset-adjusted value for a raw argument `v` (two's-complement
    /// wrap-around where the subtraction leaves the `i64` range).
    pub open spec fn spec_adjust(self, v: i64) -> i64 {
        vstd::wrapping::i64_specs::wrapping_sub(v, self.offset)
    }

    /// The sub-message selection makes for the raw argument value `v`.
    pub open spec fn spec_choice(self, v: i64) -> Message {
        self.spec_lookup_message(self.spec_adjust(v))
    }

    /// Constructs a format over `variable_name` with only the mandatory
    /// `other` fallback populated and the English cardinal rule.
    pub fn new(variable_name: &str, other: Message) -> (f: PluralFormat)
        ensures
            f.variable_name@ == variable_name@,
            f.classifier == PluralClassifier::EnglishCardinal,
            f.literals@ == Seq::<(i64, Message)>::empty(),
            f.offset == 0,
            f.zero is None,
            f.one is None,
            f.two is None,
            f.few is None,
            f.many is None,
            f.other == other,
    {
        PluralFormat {
            variable_name: variable_name.to_owned(),
            classifier: PluralClassifier::EnglishCardinal,
            literals: Vec::new(),
            offset: 0,
            zero: None,
            one: None,
            two: None,
            few: None,
            many: None,
            other,
        }
    }

    /// Registers `message` as the override for the exact (offset-adjusted)
    /// value `literal`, shadowing any older override for that value.
    pub fn literal(&mut self, literal: i64, message: Message)
        ensures
            final(self).literals@ == seq![(literal, message)] + old(self).literals@,
            spec_lookup_literal(final(self).literals@, literal) == Some(message),
            forall|k: i64|
                k != literal ==> spec_lookup_literal(final(self).literals@, k)
                    == spec_lookup_literal(old(self).literals@, k),
            final(self).variable_name == old(self).variable_name,
            final(self).classifier == old(self).classifier,
            final(self).offset == old(self).offset,
            final(self).zero == old(self).zero,
            final(self).one == old(self).one,
            final(self).two == old(self).two,
            final(self).few == old(self).few,
            final(self).many == old(self).many,
            final(self).other == old(self).other,
    {
        self.literals.insert(0, (literal, message));
        proof {
            assert(self.literals@ =~= seq![(literal, message)] + old(self).literals@);
            assert(self.literals@.drop_first() =~= old(self).literals@);
        }
    }

    /// Sets the `offset` subtracted from the argument's value before literal
    /// lookup and before classification.
    pub fn offset(&mut self, offset: i64)
        ensures
            final(self).offset == offset,
            final(self).variable_name == old(self).variable_name,
            final(self).classifier == old(self).classifier,
            final(self).literals == old(self).literals,
            final(self).zero == old(self).zero,
            final(self).one == old(self).one,
            final(self).two == old(self).two,
            final(self).few == old(self).few,
            final(self).many == old(self).many,
            final(self).other == old(self).other,
    {
        self.offset = offset;
    }

    /// Sets the `message` for `PluralCategory::Zero`.
    pub fn zero(&mut self, message: Message)
        ensures
            final(self).zero == Some(message),
            final(self).variable_name == old(self).variable_name,
            final(self).classifier == old(self).classifier,
            final(self).literals == old(self).literals,
            final(self).offset == old(self).offset,
            final(self).one == old(self).one,
            final(self).two == old(self).two,
            final(self).few == old(self).few,
            final(self).many == old(self).many,
            final(self).other == old(self).other,
    {
        self.zero = Some(message);
    }

    /// Sets the `message` for `PluralCategory::One`.
    pub fn one(&mut self, message: Message)
        ensures
            final(self).one == Some(message),
            final(self).variable_name == old(self).variable_name,
            final(self).classifier == old(self).classifier,
            final(self).literals == old(self).literals,
            final(self).offset == old(self).offset,
            final(self).zero == old(self).zero,
            final(self).two == old(self).two,
            final(self).few == old(self).few,
            final(self).many == old(self).many,
            final(self).other == old(self).other,
    {
        self.one = Some(message);
    }

    /// Sets the `message` for `PluralCategory::Two`.
    pub fn two(&mut self, message: Message)
        ensures
            final(self).two == Some(message),
            final(self).variable_name == old(self).variable_name,
            final(self).classifier == old(self).classifier,
            final(self).literals == old(self).literals,
            final(self).offset == old(self).offset,
            final(self).zero == old(self).zero,
            final(self).one == old(self).one,
            final(self).few == old(self).few,
            final(self).many == old(self).many,
            final(self).other == old(self).other,
    {
        self.two = Some(message);
    }

    /// Sets the `message` for `PluralCategory::Few`.
    pub fn few(&mut self, message: Message)
        ensures
            final(self).few == Some(message),
            final(self).variable_name == old(self).variable_name,
            final(self).classifier == old(self).classifier,
            final(self).literals == old(self).literals,
            final(self).offset == old(self).offset,
            final(self).zero == old(self).zero,
            final(self).one == old(self).one,
            final(self).two == old(self).two,
            final(self).many == old(self).many,
            final(self).other == old(self).other,
    {
        self.few = Some(message);
    }

    /// Sets the `message` for `PluralCategory::Many`.
    pub fn many(&mut self, message: Message)
        ensures
            final(self).many == Some(message),
            final(self).variable_name == old(self).variable_name,
            final(self).classifier == old(self).classifier,
            final(self).literals == old(self).literals,
            final(self).offset == old(self).offset,
            final(self).zero == old(self).zero,
            final(self).one == old(self).one,
            final(self).two == old(self).two,
            final(self).few == old(self).few,
            final(self).other == old(self).other,
    {
        self.many = Some(message);
    }

    /// Given a value already adjusted by the `offset`, determines which
    /// `Message` to use. Total: every value selects some message.
    pub fn lookup_message(&self, offset_value: i64) -> (m: &Message)
        ensures
            *m == self.spec_lookup_message(offset_value),
    {
        let n = self.literals.len();
        proof {
            assert(self.literals@.subrange(0, n as int) =~= self.literals@);
        }
        let mut i: usize = 0;
        while i < n
            invariant
                i <= n,
                n == self.literals@.len(),
                spec_lookup_literal(self.literals@, offset_value) == spec_lookup_literal(
                    self.literals@.subrange(i as int, n as int),
                    offset_value,
                ),
            decreases n - i,
        {
            proof {
                assert(self.literals@.subrange(i as int, n as int)[0] == self.literals@[i as int]);
                assert(self.literals@.subrange(i as int, n as int).drop_first() =~= self
                    .literals@
                    .subrange(i as int + 1, n as int));
            }
            if self.literals[i].0 == offset_value {
                return &self.literals[i].1;
            }
            i += 1;
        }
        let category = self.classifier.classify(offset_value);
        match category {
            PluralCategory::Zero => match &self.zero {
                Some(m) => m,
                None => &self.other,
            },
            PluralCategory::One => match &self.one {
                Some(m) => m,
                None => &self.other,
            },
            PluralCategory::Two => match &self.two {
                Some(m) => m,
                None => &self.other,
            },
            PluralCategory::Few => match &self.few {
                Some(m) => m,
                None => &self.other,
            },
            PluralCategory::Many => match &self.many {
                Some(m) => m,
                None => &self.other,
            },
            PluralCategory::Other => &self.other,
        }
    }
}

/// A registered literal override always wins: whenever the offset-adjusted
/// value `n == v - offset` has an override, selection with the raw argument
/// `v` yields that override's message, regardless of what category the
/// classifier would assign.
pub proof fn lemma_literal_override_wins(f: PluralFormat, v: i64, n: i64)
    requires
        n == v - f.offset,
        spec_lookup_literal(f.literals@, n) is Some,
    ensures
        f.spec_choice(v) == spec_lookup_literal(f.literals@, n)->Some_0,
{
    assert(f.spec_adjust(v) == n);
}

/// Without a literal override, selection yields the classified category's
/// configured message, or `other` where that category is unset; with every
/// category unset, it always yields `other`.
pub proof fn lemma_category_selection(f: PluralFormat, v: i64, n: i64)
    requires
        n == v - f.offset,
        spec_lookup_literal(f.literals@, n) is None,
    ensures
        f.spec_choice(v) == f.spec_category_message(f.classifier.spec_classify(n)),
        (f.zero is None && f.one is None && f.two is None && f.few is None && f.many is None)
            ==> f.spec_choice(v) == f.other,
{
    assert(f.spec_adjust(v) == n);
}

/// Selection is total: whatever the argument value, the chosen message is
/// one reachable from the format's own configuration — a registered literal
/// override, a configured category message, or the mandatory `other`.
pub proof fn lemma_plural_selection_total(f: PluralFormat, v: i64)
    ensures
        ({
            let m = f.spec_choice(v);
            m == f.other || f.zero == Some(m) || f.one == Some(m) || f.two == Some(m) || f.few
                == Some(m) || f.many == Some(m) || spec_lookup_literal(
                f.literals@,
                f.spec_adjust(v),
            ) == Some(m)
        }),
{
}

} // verus!
