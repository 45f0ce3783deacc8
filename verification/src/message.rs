//! Messages, message parts, and the recursive rendering algorithm.

use vstd::prelude::*;
use vstd::string::StringExecFns;
use crate::args::{Args, Value, spec_opt_value};
use crate::context::Context;
use crate::decimal::{spec_int_decimal, write_i64_decimal};
use crate::plural_format::{PluralFormat, spec_lookup_literal};
use crate::select_format::{SelectFormat, spec_lookup_mapping};

verus! {

/// The single error kind rendering surfaces: the requested argument is
/// missing, or its runtime type does not match what the format part requires
/// (including a placeholder reference with no enclosing plural selection).
#[derive(Clone, Copy, Debug, PartialEq, Eq, Structural)]
pub struct FormatError;

/// Anything that can render itself given a context, an output sink and
/// optional arguments: literal text, a placeholder for the number matched by
/// the nearest enclosing plural format, or a nested format part.
#[derive(Debug)]
pub enum MessagePart {
    /// Literal text, emitted as it stands.
    Text(String),
    /// Emits the offset-adjusted number selected by the nearest enclosing
    /// plural format.
    Placeholder,
    /// A nested plural format.
    Plural(PluralFormat),
    /// A nested select format.
    Select(SelectFormat),
}

/// An ordered sequence of message parts; rendering a message renders each
/// part in sequence into the output sink, short-circuiting on the first
/// error (text already written remains in the sink).
#[derive(Debug)]
pub struct Message {
    pub parts: Vec<MessagePart>,
}

/// The argument set an optional borrowed argument parameter stands for.
pub open spec fn spec_deref_args(args: Option<&Args>) -> Option<Args> {
    match args {
        Some(a) => Some(*a),
        None => None::<Args>,
    }
}

/// What rendering `m` appends to the sink, and whether it succeeds. On
/// failure the first component is the text written before the failure.
pub open spec fn spec_render_message(m: Message, ctx: Context, args: Option<Args>) -> (
    Seq<char>,
    bool,
)
    decreases m,
{
    spec_render_parts(m.parts@, ctx, args)
}

/// Renders the parts in order, short-circuiting on the first failure.
pub open spec fn spec_render_parts(parts: Seq<MessagePart>, ctx: Context, args: Option<Args>) -> (
    Seq<char>,
    bool,
)
    decreases parts,
{
    if parts.len() == 0 {
        (Seq::<char>::empty(), true)
    } else {
        let head = spec_render_part(parts[0], ctx, args);
        if !head.1 {
            (head.0, false)
        } else {
            let rest = spec_render_parts(parts.drop_first(), ctx, args);
            (head.0 + rest.0, rest.1)
        }
    }
}

/// What rendering one part appends, and whether it succeeds.
pub open spec fn spec_render_part(part: MessagePart, ctx: Context, args: Option<Args>) -> (
    Seq<char>,
    bool,
)
    decreases part,
{
    match part {
        MessagePart::Text(s) => (s@, true),
        MessagePart::Placeholder => match ctx.placeholder_value {
            Some(n) => (spec_int_decimal(n as int), true),
            None => (Seq::<char>::empty(), false),
        },
        MessagePart::Plural(f) => spec_render_plural(f, ctx, args),
        MessagePart::Select(f) => spec_render_select(f, ctx, args),
    }
}

/// Rendering a plural format: requires the named argument to be numeric;
/// the chosen sub-message renders with a derived context whose placeholder
/// is the offset-adjusted value, and with the same arguments.
pub open spec fn spec_render_plural(f: PluralFormat, ctx: Context, args: Option<Args>) -> (
    Seq<char>,
    bool,
)
    decreases f,
{
    match spec_opt_value(args, f.variable_name@) {
        Some(Value::Number(v)) => {
            proof {
                lemma_plural_choice_smaller(f, v);
            }
            spec_render_message(
                f.spec_choice(v),
                Context { placeholder_value: Some(f.spec_adjust(v)) },
                args,
            )
        },
        _ => (Seq::<char>::empty(), false),
    }
}

/// Rendering a select format: requires the named argument to be a string;
/// the chosen sub-message renders with the same context passed in (only
/// plural selection alters placeholder state) and the same arguments.
pub open spec fn spec_render_select(f: SelectFormat, ctx: Context, args: Option<Args>) -> (
    Seq<char>,
    bool,
)
    decreases f,
{
    match spec_opt_value(args, f.variable_name@) {
        Some(Value::Str(s)) => {
            proof {
                lemma_select_choice_smaller(f, s@);
            }
            spec_render_message(f.spec_choice(s@), ctx, args)
        },
        _ => (Seq::<char>::empty(), false),
    }
}

/// A message found by literal-override lookup is part of the literal table.
proof fn lemma_literal_lookup_smaller(literals: Seq<(i64, Message)>, n: i64)
    ensures
        spec_lookup_literal(literals, n) matches Some(m) ==> decreases_to!(literals => m),
    decreases literals.len(),
{
    if literals.len() > 0 {
        if literals[0].0 == n {
            assert(decreases_to!(literals => literals[0]));
            assert(decreases_to!(literals[0] => literals[0].1));
        } else {
            lemma_literal_lookup_smaller(literals.drop_first(), n);
            assert(decreases_to!(literals => literals.drop_first()));
        }
    }
}

/// A message found by mapping lookup is part of the mapping table.
proof fn lemma_mapping_lookup_smaller(mappings: Seq<(String, Message)>, key: Seq<char>)
    ensures
        spec_lookup_mapping(mappings, key) matches Some(m) ==> decreases_to!(mappings => m),
    decreases mappings.len(),
{
    if mappings.len() > 0 {
        if mappings[0].0@ == key {
            assert(decreases_to!(mappings => mappings[0]));
            assert(decreases_to!(mappings[0] => mappings[0].1));
        } else {
            lemma_mapping_lookup_smaller(mappings.drop_first(), key);
            assert(decreases_to!(mappings => mappings.drop_first()));
        }
    }
}

/// The sub-message a plural format selects is part of the format itself.
pub proof fn lemma_plural_choice_smaller(f: PluralFormat, v: i64)
    ensures
        decreases_to!(f => f.spec_choice(v)),
{
    let n = f.spec_adjust(v);
    match spec_lookup_literal(f.literals@, n) {
        Some(m) => {
            lemma_literal_lookup_smaller(f.literals@, n);
            assert(decreases_to!(f => f.literals));
            assert(decreases_to!(f.literals => f.literals@));
        },
        None => {
            assert(decreases_to!(f => f.other));
            assert(decreases_to!(f => f.zero));
            assert(decreases_to!(f => f.one));
            assert(decreases_to!(f => f.two));
            assert(decreases_to!(f => f.few));
            assert(decreases_to!(f => f.many));
            match f.spec_category_message(f.classifier.spec_classify(n)) {
                m => {
                    if f.zero == Some(m) || f.one == Some(m) || f.two == Some(m) || f.few == Some(
                        m,
                    ) || f.many == Some(m) {
                        assert(decreases_to!(f.zero => m) || decreases_to!(f.one => m)
                            || decreases_to!(f.two => m) || decreases_to!(f.few => m)
                            || decreases_to!(f.many => m)) by {
                            if f.zero == Some(m) {
                                assert(decreases_to!(f.zero => f.zero->0));
                            } else if f.one == Some(m) {
                                assert(decreases_to!(f.one => f.one->0));
                            } else if f.two == Some(m) {
                                assert(decreases_to!(f.two => f.two->0));
                            } else if f.few == Some(m) {
                                assert(decreases_to!(f.few => f.few->0));
                            } else {
                                assert(decreases_to!(f.many => f.many->0));
                            }
                        }
                    }
                },
            }
        },
    }
}

/// The sub-message a select format selects is part of the format itself.
pub proof fn lemma_select_choice_smaller(f: SelectFormat, key: Seq<char>)
    ensures
        decreases_to!(f => f.spec_choice(key)),
{
    match spec_lookup_mapping(f.mappings@, key) {
        Some(m) => {
            lemma_mapping_lookup_smaller(f.mappings@, key);
            assert(decreases_to!(f => f.mappings));
            assert(decreases_to!(f.mappings => f.mappings@));
        },
        None => {
            assert(decreases_to!(f => f.default_message));
        },
    }
}

impl Message {
    /// A message made of the given parts.
    pub fn new(parts: Vec<MessagePart>) -> (m: Message)
        ensures
            m.parts == parts,
    {
        Message { parts }
    }

    /// A one-part message holding only the literal text `s`.
    pub fn text(s: &str) -> (m: Message)
        ensures
            m.parts@.len() == 1,
            m.parts@[0] is Text,
            m.parts@[0]->Text_0@ == s@,
    {
        Message { parts: vec![MessagePart::Text(s.to_owned())] }
    }

    /// Renders each part in sequence into `out`, short-circuiting on the
    /// first error; text already written remains in the sink.
    pub fn write_message(&self, ctx: &Context, out: &mut String, args: Option<&Args>) -> (r:
        Result<(), FormatError>)
        ensures
            ({
                let (s, ok) = spec_render_message(*self, *ctx, spec_deref_args(args));
                final(out)@ == old(out)@ + s && (r is Ok <==> ok)
            }),
        decreases *self,
    {
        let ghost whole = spec_render_parts(self.parts@, *ctx, spec_deref_args(args));
        let ghost len = self.parts@.len() as int;
        let ghost mut written: Seq<char> = Seq::<char>::empty();
        proof {
            assert(out@ =~= old(out)@ + written);
            assert(self.parts@.subrange(0, len) =~= self.parts@);
        }
        let n = self.parts.len();
        let mut i: usize = 0;
        while i < n
            invariant
                i <= n,
                n == self.parts@.len(),
                len == self.parts@.len() as int,
                whole == spec_render_parts(self.parts@, *ctx, spec_deref_args(args)),
                out@ == old(out)@ + written,
                ({
                    let rest = spec_render_parts(
                        self.parts@.subrange(i as int, len),
                        *ctx,
                        spec_deref_args(args),
                    );
                    whole == (written + rest.0, rest.1)
                }),
            decreases n - i,
        {
            let ghost rest = spec_render_parts(
                self.parts@.subrange(i as int, len),
                *ctx,
                spec_deref_args(args),
            );
            proof {
                assert(self.parts@.subrange(i as int, len)[0] == self.parts@[i as int]);
                assert(self.parts@.subrange(i as int, len).drop_first() =~= self.parts@.subrange(
                    i as int + 1,
                    len,
                ));
                assert(decreases_to!(*self => self.parts));
                assert(decreases_to!(self.parts => self.parts@));
                assert(decreases_to!(self.parts@ => self.parts@[i as int]));
            }
            let part_result = self.parts[i].apply_format(ctx, out, args);
            let ghost head = spec_render_part(self.parts@[i as int], *ctx, spec_deref_args(args));
            match part_result {
                Ok(_) => {
                    proof {
                        written = written + head.0;
                        let next = spec_render_parts(
                            self.parts@.subrange(i as int + 1, len),
                            *ctx,
                            spec_deref_args(args),
                        );
                        assert(rest.0 =~= head.0 + next.0);
                        assert(whole.0 =~= written + next.0);
                    }
                },
                Err(e) => {
                    proof {
                        assert(!head.1);
                        assert(rest == (head.0, false));
                        assert(whole.0 =~= written + head.0);
                        assert(out@ =~= old(out)@ + whole.0);
                    }
                    return Err(e);
                },
            }
            i += 1;
        }
        proof {
            let rest = spec_render_parts(
                self.parts@.subrange(len, len),
                *ctx,
                spec_deref_args(args),
            );
            assert(self.parts@.subrange(len, len) =~= Seq::<MessagePart>::empty());
            assert(rest.0 =~= Seq::<char>::empty());
            assert(whole.0 =~= written);
            assert(out@ =~= old(out)@ + whole.0);
        }
        Ok(())
    }
}

impl MessagePart {
    /// Renders this part into `out` given the context and optional
    /// arguments, producing a rendering error or success.
    pub fn apply_format(&self, ctx: &Context, out: &mut String, args: Option<&Args>) -> (r: Result<
        (),
        FormatError,
    >)
        ensures
            ({
                let (s, ok) = spec_render_part(*self, *ctx, spec_deref_args(args));
                final(out)@ == old(out)@ + s && (r is Ok <==> ok)
            }),
        decreases *self,
    {
        match self {
            MessagePart::Text(s) => {
                out.append(s.as_str());
                Ok(())
            },
            MessagePart::Placeholder => match ctx.placeholder_value {
                Some(n) => {
                    write_i64_decimal(n, out);
                    Ok(())
                },
                None => {
                    proof {
                        assert(out@ =~= old(out)@ + Seq::<char>::empty());
                    }
                    Err(FormatError)
                },
            },
            MessagePart::Plural(f) => {
                proof {
                    assert(decreases_to!(*self => *f));
                }
                f.apply_format(ctx, out, args)
            },
            MessagePart::Select(f) => {
                proof {
                    assert(decreases_to!(*self => *f));
                }
                f.apply_format(ctx, out, args)
            },
        }
    }
}

impl PluralFormat {
    /// Resolves the named argument, which must be numeric; selects the
    /// sub-message for the offset-adjusted value and renders it with a
    /// derived context carrying that value as the placeholder, and with the
    /// same arguments. A missing or non-numeric argument is a rendering
    /// error, never a silent coercion.
    pub fn apply_format(&self, ctx: &Context, out: &mut String, args: Option<&Args>) -> (r: Result<
        (),
        FormatError,
    >)
        ensures
            ({
                let (s, ok) = spec_render_plural(*self, *ctx, spec_deref_args(args));
                final(out)@ == old(out)@ + s && (r is Ok <==> ok)
            }),
        decreases *self,
    {
        let entry = match args {
            Some(a) => a.get(self.variable_name.as_str()),
            None => None,
        };
        match entry {
            Some(a) => match a.value() {
                Value::Number(value) => {
                    let offset_value = (*value).wrapping_sub(self.offset);
                    let message = self.lookup_message(offset_value);
                    let new_ctx = Context { placeholder_value: Some(offset_value) };
                    proof {
                        lemma_plural_choice_smaller(*self, *value);
                        assert(*message == self.spec_choice(*value));
                    }
                    message.write_message(&new_ctx, out, args)
                },
                Value::Str(_) => {
                    proof {
                        assert(out@ =~= old(out)@ + Seq::<char>::empty());
                    }
                    Err(FormatError)
                },
            },
            None => {
                proof {
                    assert(out@ =~= old(out)@ + Seq::<char>::empty());
                }
                Err(FormatError)
            },
        }
    }
}

impl SelectFormat {
    /// Resolves the named argument, which must be a string; selects the
    /// mapped sub-message (or the default) and renders it with the same
    /// context passed in and the same arguments. A missing or non-string
    /// argument is a rendering error.
    pub fn apply_format(&self, ctx: &Context, out: &mut String, args: Option<&Args>) -> (r: Result<
        (),
        FormatError,
    >)
        ensures
            ({
                let (s, ok) = spec_render_select(*self, *ctx, spec_deref_args(args));
                final(out)@ == old(out)@ + s && (r is Ok <==> ok)
            }),
        decreases *self,
    {
        let entry = match args {
            Some(a) => a.get(self.variable_name.as_str()),
            None => None,
        };
        match entry {
            Some(a) => match a.value() {
                Value::Str(value) => {
                    let message = self.lookup_message(value.as_str());
                    proof {
                        lemma_select_choice_smaller(*self, value@);
                        assert(*message == self.spec_choice(value@));
                    }
                    message.write_message(ctx, out, args)
                },
                Value::Number(_) => {
                    proof {
                        assert(out@ =~= old(out)@ + Seq::<char>::empty());
                    }
                    Err(FormatError)
                },
            },
            None => {
                proof {
                    assert(out@ =~= old(out)@ + Seq::<char>::empty());
                }
                Err(FormatError)
            },
        }
    }
}

/// The render entry point: renders `message` into `out` with the given
/// context and arguments. The context typically starts as a default value;
/// the arguments are built from the caller's live data.
pub fn render(message: &Message, ctx: &Context, out: &mut String, args: Option<&Args>) -> (r:
    Result<(), FormatError>)
    ensures
        ({
            let (s, ok) = spec_render_message(*message, *ctx, spec_deref_args(args));
            final(out)@ == old(out)@ + s && (r is Ok <==> ok)
        }),
{
    message.write_message(ctx, out, args)
}

/// Rendering a plural format against a missing argument or a non-numeric
/// value always fails with the rendering error and writes nothing; it never
/// silently coerces.
pub proof fn lemma_plural_type_mismatch(f: PluralFormat, ctx: Context, args: Option<Args>)
    requires
        !(spec_opt_value(args, f.variable_name@) matches Some(Value::Number(_))),
    ensures
        spec_render_plural(f, ctx, args) == (Seq::<char>::empty(), false),
{
}

/// Rendering a select format against a missing argument or a non-string
/// value always fails with the rendering error and writes nothing.
pub proof fn lemma_select_type_mismatch(f: SelectFormat, ctx: Context, args: Option<Args>)
    requires
        !(spec_opt_value(args, f.variable_name@) matches Some(Value::Str(_))),
    ensures
        spec_render_select(f, ctx, args) == (Seq::<char>::empty(), false),
{
}

/// Rendering a plural format renders the selected sub-message with a derived
/// context whose placeholder is the offset-adjusted value, not the raw one,
/// and with the same arguments.
pub proof fn lemma_plural_renders_with_adjusted(
    f: PluralFormat,
    ctx: Context,
    args: Option<Args>,
    v: i64,
)
    requires
        spec_opt_value(args, f.variable_name@) == Some(Value::Number(v)),
    ensures
        spec_render_plural(f, ctx, args) == spec_render_message(
            f.spec_choice(v),
            Context { placeholder_value: Some(f.spec_adjust(v)) },
            args,
        ),
{
}

/// Nested placeholder propagation: where the selected sub-message is exactly
/// a placeholder reference to the matched number, rendering shows the
/// offset-adjusted value `v - offset`, not the raw argument `v`.
pub proof fn lemma_placeholder_shows_adjusted(
    f: PluralFormat,
    ctx: Context,
    args: Option<Args>,
    v: i64,
    n: i64,
)
    requires
        spec_opt_value(args, f.variable_name@) == Some(Value::Number(v)),
        n == v - f.offset,
        f.spec_choice(v).parts@ =~= seq![MessagePart::Placeholder],
    ensures
        spec_render_plural(f, ctx, args) == (spec_int_decimal(n as int), true),
{
    assert(f.spec_adjust(v) == n);
    let chosen = f.spec_choice(v);
    let new_ctx = Context { placeholder_value: Some(n) };
    let head = spec_render_part(chosen.parts@[0], new_ctx, args);
    assert(head == (spec_int_decimal(n as int), true));
    assert(chosen.parts@.drop_first() =~= Seq::<MessagePart>::empty());
    let rest = spec_render_parts(chosen.parts@.drop_first(), new_ctx, args);
    assert(rest == (Seq::<char>::empty(), true));
    assert(spec_render_message(chosen, new_ctx, args).0 =~= spec_int_decimal(n as int));
}

} // verus!
