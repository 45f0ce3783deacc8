use message_format::args::{arg, Value};
use message_format::context::Context;
use message_format::message::{Message, MessagePart};
use message_format::plural_format::PluralFormat;
use message_format::select_format::SelectFormat;

#[test]
fn plural_format_it_works() {
    let ctx = Context::default();
    let mut fmt = PluralFormat::new("count", Message::text("Other"));
    fmt.one(Message::text("One"));

    let mut output = String::new();
    fmt.apply_format(&ctx, &mut output, Some(&arg("count", Value::Number(0))))
        .unwrap();
    assert_eq!("Other", output);

    let mut output = String::new();
    fmt.apply_format(&ctx, &mut output, Some(&arg("count", Value::Number(1))))
        .unwrap();
    assert_eq!("One", output);

    let mut output = String::new();
    fmt.apply_format(&ctx, &mut output, Some(&arg("count", Value::Number(3))))
        .unwrap();
    assert_eq!("Other", output);
}

#[test]
fn select_format_it_works() {
    let ctx = Context::default();
    let mut fmt = SelectFormat::new("type", Message::text("Default"));
    fmt.map("block", Message::text("Block"));

    let mut output = String::new();
    fmt.apply_format(
        &ctx,
        &mut output,
        Some(&arg("type", Value::Str("block".to_string()))),
    )
    .unwrap();
    assert_eq!("Block", output);

    let mut output = String::new();
    fmt.apply_format(
        &ctx,
        &mut output,
        Some(&arg("type", Value::Str("span".to_string()))),
    )
    .unwrap();
    assert_eq!("Default", output);
}

#[test]
fn select_unmapped_keys_use_default() {
    let ctx = Context::default();
    let mut fmt = SelectFormat::new("type", Message::text("Default"));
    fmt.map("block", Message::text("Block"));

    for key in ["", "bloc", "blocks", "Block", "BLOCK", "span"] {
        let mut output = String::new();
        fmt.apply_format(
            &ctx,
            &mut output,
            Some(&arg("type", Value::Str(key.to_string()))),
        )
        .unwrap();
        assert_eq!("Default", output);
    }
}

#[test]
fn select_newest_mapping_wins() {
    let ctx = Context::default();
    let mut fmt = SelectFormat::new("type", Message::text("Default"));
    fmt.map("block", Message::text("First"));
    fmt.map("block", Message::text("Second"));

    let mut output = String::new();
    fmt.apply_format(
        &ctx,
        &mut output,
        Some(&arg("type", Value::Str("block".to_string()))),
    )
    .unwrap();
    assert_eq!("Second", output);
}

#[test]
fn literal_override_beats_classification() {
    let ctx = Context::default();
    let mut fmt = PluralFormat::new("count", Message::text("Other"));
    fmt.one(Message::text("One"));
    fmt.literal(1, Message::text("Exactly one, literally"));

    let mut output = String::new();
    fmt.apply_format(&ctx, &mut output, Some(&arg("count", Value::Number(1))))
        .unwrap();
    assert_eq!("Exactly one, literally", output);
}

#[test]
fn literal_override_matches_adjusted_value() {
    // Literal lookup uses the offset-adjusted value, not the raw argument:
    // with offset 2, the literal 0 fires for a raw argument of 2.
    let ctx = Context::default();
    let mut fmt = PluralFormat::new("count", Message::text("Other"));
    fmt.offset(2);
    fmt.literal(0, Message::text("Adjusted zero"));

    let mut output = String::new();
    fmt.apply_format(&ctx, &mut output, Some(&arg("count", Value::Number(2))))
        .unwrap();
    assert_eq!("Adjusted zero", output);

    // A raw argument of 0 adjusts to -2 and no longer matches the literal.
    let mut output = String::new();
    fmt.apply_format(&ctx, &mut output, Some(&arg("count", Value::Number(0))))
        .unwrap();
    assert_eq!("Other", output);
}

#[test]
fn offset_applies_before_classification() {
    let ctx = Context::default();
    let mut fmt = PluralFormat::new("count", Message::text("Other"));
    fmt.offset(1);
    fmt.one(Message::text("One"));

    // raw 2 adjusts to 1, which classifies as One.
    let mut output = String::new();
    fmt.apply_format(&ctx, &mut output, Some(&arg("count", Value::Number(2))))
        .unwrap();
    assert_eq!("One", output);

    // raw 1 adjusts to 0, which classifies as Other.
    let mut output = String::new();
    fmt.apply_format(&ctx, &mut output, Some(&arg("count", Value::Number(1))))
        .unwrap();
    assert_eq!("Other", output);
}

#[test]
fn unset_categories_fall_back_to_other() {
    let ctx = Context::default();
    let fmt = PluralFormat::new("count", Message::text("Other"));
    for value in [-3i64, 0, 1, 2, 7, 100] {
        let mut output = String::new();
        fmt.apply_format(&ctx, &mut output, Some(&arg("count", Value::Number(value))))
            .unwrap();
        assert_eq!("Other", output);
    }
}

#[test]
fn plural_missing_variable_fails() {
    let ctx = Context::default();
    let fmt = PluralFormat::new("count", Message::text("Other"));

    let mut output = String::new();
    let r = fmt.apply_format(&ctx, &mut output, Some(&arg("other_var", Value::Number(1))));
    assert!(r.is_err());
    assert_eq!("", output);

    let mut output = String::new();
    let r = fmt.apply_format(&ctx, &mut output, None);
    assert!(r.is_err());
    assert_eq!("", output);
}

#[test]
fn plural_type_mismatch_fails() {
    let ctx = Context::default();
    let fmt = PluralFormat::new("count", Message::text("Other"));

    let mut output = String::new();
    let r = fmt.apply_format(
        &ctx,
        &mut output,
        Some(&arg("count", Value::Str("3".to_string()))),
    );
    assert!(r.is_err());
    assert_eq!("", output);
}

#[test]
fn select_type_mismatch_fails() {
    let ctx = Context::default();
    let fmt = SelectFormat::new("type", Message::text("Default"));

    let mut output = String::new();
    let r = fmt.apply_format(&ctx, &mut output, Some(&arg("type", Value::Number(1))));
    assert!(r.is_err());
    assert_eq!("", output);

    let mut output = String::new();
    let r = fmt.apply_format(&ctx, &mut output, None);
    assert!(r.is_err());
    assert_eq!("", output);
}

#[test]
fn placeholder_shows_adjusted_value() {
    // "You have # items" inside a plural with an offset must show v - offset.
    let ctx = Context::default();
    let sub = Message::new(vec![
        MessagePart::Text("You have ".to_string()),
        MessagePart::Placeholder,
        MessagePart::Text(" items".to_string()),
    ]);
    let mut fmt = PluralFormat::new("count", sub);
    fmt.offset(1);

    let mut output = String::new();
    fmt.apply_format(&ctx, &mut output, Some(&arg("count", Value::Number(4))))
        .unwrap();
    assert_eq!("You have 3 items", output);
}

#[test]
fn placeholder_renders_negative_and_extreme_numbers() {
    let ctx = Context::default();
    let sub = Message::new(vec![MessagePart::Placeholder]);
    let fmt = PluralFormat::new("count", sub);

    let mut output = String::new();
    fmt.apply_format(&ctx, &mut output, Some(&arg("count", Value::Number(-5))))
        .unwrap();
    assert_eq!("-5", output);

    let sub = Message::new(vec![MessagePart::Placeholder]);
    let fmt = PluralFormat::new("count", sub);
    let mut output = String::new();
    fmt.apply_format(&ctx, &mut output, Some(&arg("count", Value::Number(i64::MIN))))
        .unwrap();
    assert_eq!("-9223372036854775808", output);

    let sub = Message::new(vec![MessagePart::Placeholder]);
    let fmt = PluralFormat::new("count", sub);
    let mut output = String::new();
    fmt.apply_format(&ctx, &mut output, Some(&arg("count", Value::Number(i64::MAX))))
        .unwrap();
    assert_eq!("9223372036854775807", output);
}

#[test]
fn placeholder_without_enclosing_plural_fails() {
    let ctx = Context::default();
    let msg = Message::new(vec![
        MessagePart::Text("before ".to_string()),
        MessagePart::Placeholder,
        MessagePart::Text(" after".to_string()),
    ]);

    let mut output = String::new();
    let r = msg.write_message(&ctx, &mut output, None);
    assert!(r.is_err());
    // Rendering is streaming: text already written stays in the sink, and
    // nothing past the failing part is written.
    assert_eq!("before ", output);
}

#[test]
fn message_renders_parts_in_order() {
    let ctx = Context::default();
    let mut plural = PluralFormat::new("count", Message::text("many"));
    plural.one(Message::text("one"));
    let msg = Message::new(vec![
        MessagePart::Text("I have ".to_string()),
        MessagePart::Plural(plural),
        MessagePart::Text(" apple(s).".to_string()),
    ]);

    let mut output = String::new();
    msg.write_message(&ctx, &mut output, Some(&arg("count", Value::Number(1))))
        .unwrap();
    assert_eq!("I have one apple(s).", output);
}

#[test]
fn nested_select_inside_plural_shares_args() {
    // A plural-selected sub-message may itself contain a select part that
    // reads a different variable from the same argument set.
    let ctx = Context::default();
    let mut select = SelectFormat::new("kind", Message::text("things"));
    select.map("apple", Message::text("apples"));
    let sub = Message::new(vec![
        MessagePart::Placeholder,
        MessagePart::Text(" ".to_string()),
        MessagePart::Select(select),
    ]);
    let mut plural = PluralFormat::new("count", sub);
    plural.one(Message::text("just the one"));

    let args = arg("count", Value::Number(3)).arg("kind", Value::Str("apple".to_string()));
    let mut output = String::new();
    plural
        .apply_format(&ctx, &mut output, Some(&args))
        .unwrap();
    assert_eq!("3 apples", output);

    let args = arg("count", Value::Number(1)).arg("kind", Value::Str("apple".to_string()));
    let mut output = String::new();
    plural
        .apply_format(&ctx, &mut output, Some(&args))
        .unwrap();
    assert_eq!("just the one", output);
}

#[test]
fn newest_argument_binding_wins() {
    let ctx = Context::default();
    let mut fmt = PluralFormat::new("count", Message::text("Other"));
    fmt.one(Message::text("One"));

    let args = arg("count", Value::Number(3)).arg("count", Value::Number(1));
    let mut output = String::new();
    fmt.apply_format(&ctx, &mut output, Some(&args)).unwrap();
    assert_eq!("One", output);
}

#[test]
fn select_keeps_placeholder_context() {
    // A select part does not alter placeholder state: a placeholder inside a
    // select-chosen sub-message still shows the enclosing plural's number.
    let ctx = Context::default();
    let mut select = SelectFormat::new("kind", Message::text("?"));
    select.map(
        "apple",
        Message::new(vec![
            MessagePart::Placeholder,
            MessagePart::Text(" apples".to_string()),
        ]),
    );
    let sub = Message::new(vec![MessagePart::Select(select)]);
    let mut plural = PluralFormat::new("count", sub);
    plural.offset(1);

    let args = arg("count", Value::Number(5)).arg("kind", Value::Str("apple".to_string()));
    let mut output = String::new();
    plural.apply_format(&ctx, &mut output, Some(&args)).unwrap();
    assert_eq!("4 apples", output);
}
