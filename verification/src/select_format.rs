//! Selecting a message by exact string match on a value.

use vstd::prelude::*;
use crate::message::Message;

verus! {

/// First mapping in `mappings` whose key reads as `key`, if any.
pub open spec fn spec_lookup_mapping(mappings: Seq<(String, Message)>, key: Seq<char>) -> Option<
    Message,
>
    decreases mappings.len(),
{
    if mappings.len() == 0 {
        None::<Message>
    } else if mappings[0].0@ == key {
        Some(mappings[0].1)
    } else {
        spec_lookup_mapping(mappings.drop_first(), key)
    }
}

/// Maps a string argument to a sub-message by exact match, with a mandatory
/// default fallback, and delegates rendering to the chosen sub-message.
#[derive(Debug)]
pub struct SelectFormat {
    /// The name of the variable whose value should be formatted.
    pub variable_name: String,
    /// Exact string mappings; the newest entry for a key wins.
    pub mappings: Vec<(String, Message)>,
    /// The message to use if no mapping matches the variable's value.
    pub default_message: Message,
}

impl SelectFormat {
    /// The sub-message selection makes for the key `key`: its mapping where
    /// one is registered, else the default.
    pub open spec fn spec_choice(self, key: Seq<char>) -> Message {
        match spec_lookup_mapping(self.mappings@, key) {
            Some(m) => m,
            None => self.default_message,
        }
    }

    /// Constructs a format over `variable_name` with only the mandatory
    /// default populated.
    pub fn new(variable_name: &str, default_message: Message) -> (f: SelectFormat)
        ensures
            f.variable_name@ == variable_name@,
            f.mappings@ == Seq::<(String, Message)>::empty(),
            f.default_message == default_message,
    {
        SelectFormat { variable_name: variable_name.to_owned(), mappings: Vec::new(), default_message }
    }

    /// Maps the exact value `value` to `message`, shadowing any older mapping
    /// of the same value.
    pub fn map(&mut self, value: &str, message: Message)
        ensures
            final(self).mappings@.len() == old(self).mappings@.len() + 1,
            final(self).mappings@[0].0@ == value@,
            final(self).mappings@[0].1 == message,
            final(self).mappings@.drop_first() == old(self).mappings@,
            spec_lookup_mapping(final(self).mappings@, value@) == Some(message),
            forall|k: Seq<char>|
                k != value@ ==> spec_lookup_mapping(final(self).mappings@, k)
                    == spec_lookup_mapping(old(self).mappings@, k),
            final(self).variable_name == old(self).variable_name,
            final(self).default_message == old(self).default_message,
    {
        self.mappings.insert(0, (value.to_owned(), message));
        proof {
            assert(self.mappings@.drop_first() =~= old(self).mappings@);
        }
    }

    /// Given a value, determines which `Message` to use: the exact mapping
    /// where one is registered, else the default. Total: every value —
    /// including the empty string and near-miss keys — selects some message.
    pub fn lookup_message(&self, value: &str) -> (m: &Message)
        ensures
            *m == self.spec_choice(value@),
    {
        let key: String = value.to_owned();
        let n = self.mappings.len();
        proof {
            assert(self.mappings@.subrange(0, n as int) =~= self.mappings@);
        }
        let mut i: usize = 0;
        while i < n
            invariant
                i <= n,
                n == self.mappings@.len(),
                key@ == value@,
                spec_lookup_mapping(self.mappings@, value@) == spec_lookup_mapping(
                    self.mappings@.subrange(i as int, n as int),
                    value@,
                ),
            decreases n - i,
        {
            proof {
                assert(self.mappings@.subrange(i as int, n as int)[0] == self.mappings@[i as int]);
                assert(self.mappings@.subrange(i as int, n as int).drop_first() =~= self
                    .mappings@
                    .subrange(i as int + 1, n as int));
            }
            if self.mappings[i].0 == key {
                return &self.mappings[i].1;
            }
            i += 1;
        }
        &self.default_message
    }
}

/// Exact-match selection: a mapped key yields its registered message, and
/// any unmapped key — including the empty string — yields the default.
pub proof fn lemma_select_exact_match(f: SelectFormat, key: Seq<char>)
    ensures
        spec_lookup_mapping(f.mappings@, key) matches Some(m) ==> f.spec_choice(key) == m,
        spec_lookup_mapping(f.mappings@, key) is None ==> f.spec_choice(key)
            == f.default_message,
{
}

/// Selection is total: whatever the key, the chosen message is one reachable
/// from the format's own configuration — a registered mapping or the
/// mandatory default.
pub proof fn lemma_select_selection_total(f: SelectFormat, key: Seq<char>)
    ensures
        f.spec_choice(key) == f.default_message || spec_lookup_mapping(f.mappings@, key) == Some(
            f.spec_choice(key),
        ),
{
}

} // verus!
