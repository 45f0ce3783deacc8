//! Runtime values and the named-argument map a render call reads.

use vstd::prelude::*;

verus! {

/// The runtime data a template can reference: numeric or string.
#[derive(Debug)]
pub enum Value {
    Number(i64),
    Str(String),
}

/// A named argument carrying a `Value`.
#[derive(Debug)]
pub struct Arg {
    pub name: String,
    pub value: Value,
}

impl Arg {
    /// The value this argument carries.
    pub fn value(&self) -> (v: &Value)
        ensures
            *v == self.value,
    {
        &self.value
    }
}

/// First binding in `entries` whose name reads as `name`, if any.
pub open spec fn spec_args_get(entries: Seq<Arg>, name: Seq<char>) -> Option<Arg>
    decreases entries.len(),
{
    if entries.len() == 0 {
        None::<Arg>
    } else if entries[0].name@ == name {
        Some(entries[0])
    } else {
        spec_args_get(entries.drop_first(), name)
    }
}

/// The value bound to `name`, read through an optional argument set.
pub open spec fn spec_opt_value(args: Option<Args>, name: Seq<char>) -> Option<Value> {
    match args {
        Some(a) => match spec_args_get(a.entries@, name) {
            Some(entry) => Some(entry.value),
            None => None::<Value>,
        },
        None => None::<Value>,
    }
}

/// An immutable mapping from variable name to a named value, looked up by
/// name during rendering. Built once per top-level render call and read-only
/// from a format part's perspective; the newest binding for a name wins.
#[derive(Debug)]
pub struct Args {
    pub entries: Vec<Arg>,
}

impl Args {
    /// The binding `get` returns for `name`, if any.
    pub open spec fn spec_get(self, name: Seq<char>) -> Option<Arg> {
        spec_args_get(self.entries@, name)
    }

    /// An empty argument set.
    pub fn new() -> (a: Args)
        ensures
            a.entries@ == Seq::<Arg>::empty(),
    {
        Args { entries: Vec::new() }
    }

    /// Adds a binding of `name` to `value`; it shadows any older binding of
    /// the same name.
    pub fn arg(self, name: &str, value: Value) -> (a: Args)
        ensures
            a.entries@.len() == self.entries@.len() + 1,
            a.entries@[0].name@ == name@,
            a.entries@[0].value == value,
            a.entries@.drop_first() == self.entries@,
            a.spec_get(name@) == Some(a.entries@[0]),
            forall|k: Seq<char>| k != name@ ==> a.spec_get(k) == self.spec_get(k),
    {
        let mut entries = self.entries;
        entries.insert(0, Arg { name: name.to_owned(), value });
        proof {
            assert(entries@.drop_first() =~= self.entries@);
        }
        Args { entries }
    }

    /// Looks `name` up; a missing variable is a valid outcome, not a crash.
    pub fn get(&self, name: &str) -> (r: Option<&Arg>)
        ensures
            match r {
                Some(a) => self.spec_get(name@) == Some(*a),
                None => self.spec_get(name@) is None,
            },
    {
        let key: String = name.to_owned();
        let n = self.entries.len();
        proof {
            assert(self.entries@.subrange(0, n as int) =~= self.entries@);
        }
        let mut i: usize = 0;
        while i < n
            invariant
                i <= n,
                n == self.entries@.len(),
                key@ == name@,
                spec_args_get(self.entries@, name@) == spec_args_get(
                    self.entries@.subrange(i as int, n as int),
                    name@,
                ),
            decreases n - i,
        {
            proof {
                assert(self.entries@.subrange(i as int, n as int)[0] == self.entries@[i as int]);
                assert(self.entries@.subrange(i as int, n as int).drop_first() =~= self
                    .entries@
                    .subrange(i as int + 1, n as int));
            }
            if self.entries[i].name == key {
                return Some(&self.entries[i]);
            }
            i += 1;
        }
        None
    }
}

/// A one-entry argument set binding `name` to `value`.
pub fn arg(name: &str, value: Value) -> (a: Args)
    ensures
        a.entries@.len() == 1,
        a.entries@[0].name@ == name@,
        a.entries@[0].value == value,
{
    Args::new().arg(name, value)
}

} // verus!
