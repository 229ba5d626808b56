use builders::command_option::{
    check_option, CommandOption, CommandOptionBuilder, CommandOptionChoice,
    CommandOptionChoiceValue, CommandOptionType, CommandOptionValue, ValidationError,
};
use builders::localization::{collect_localizations, lookup_localization};
use builders::name_pattern::{match_name, match_pattern, PatternOutcome};

fn pair(a: &str, b: &str) -> (String, String) {
    (a.to_string(), b.to_string())
}

fn int_choice(name: &str, value: i64) -> CommandOptionChoice {
    CommandOptionChoice {
        name: name.to_string(),
        value: CommandOptionChoiceValue::Integer(value),
        name_localizations: None,
    }
}

fn string_option(name: &str) -> CommandOptionBuilder {
    CommandOptionBuilder::new(name, "Some description", CommandOptionType::String)
}

fn error_of(builder: CommandOptionBuilder) -> ValidationError {
    builder.build().unwrap_err()
}

#[test]
fn command_option() {
    let option =
        CommandOptionBuilder::new("test-name", "Test description", CommandOptionType::String)
            .description_localizations(vec![(
                "en-US".to_string(),
                "Test description".to_string(),
            )])
            .name_localizations(vec![("en-US".to_string(), "test-name".to_string())])
            .choices(vec![
                CommandOptionChoice {
                    name: "Choice 1".to_string(),
                    value: CommandOptionChoiceValue::Integer(1),
                    name_localizations: None,
                },
                CommandOptionChoice {
                    name: "Choice 2".to_string(),
                    value: CommandOptionChoiceValue::String("Value".into()),
                    name_localizations: None,
                },
            ])
            .build()
            .unwrap();

    assert_eq!(option.name, "test-name");
    assert_eq!(option.description, "Test description");
    assert_eq!(option.kind, CommandOptionType::String);
    assert_eq!(option.choices.as_ref().unwrap().len(), 2);
    assert_eq!(option.choices.as_ref().unwrap()[0].name, "Choice 1");
    assert_eq!(
        option.choices.as_ref().unwrap()[0].value,
        CommandOptionChoiceValue::Integer(1)
    );
    assert_eq!(option.choices.as_ref().unwrap()[1].name, "Choice 2");
    assert_eq!(
        option.choices.as_ref().unwrap()[1].value,
        CommandOptionChoiceValue::String("Value".into())
    );
    assert_eq!(option.description_localizations.as_ref().unwrap().len(), 1);
    assert_eq!(
        lookup_localization(option.description_localizations.as_ref().unwrap(), "en-US").unwrap(),
        "Test description"
    );
    assert_eq!(option.name_localizations.as_ref().unwrap().len(), 1);
    assert_eq!(
        lookup_localization(option.name_localizations.as_ref().unwrap(), "en-US").unwrap(),
        "test-name"
    );
}

#[test]
fn new_sets_only_name_description_and_kind() {
    let option = CommandOptionBuilder::new("n", "d", CommandOptionType::Boolean).build_unchecked();
    assert_eq!(option.name, "n");
    assert_eq!(option.description, "d");
    assert_eq!(option.kind, CommandOptionType::Boolean);
    assert!(option.autocomplete.is_none());
    assert!(option.channel_types.is_none());
    assert!(option.choices.is_none());
    assert!(option.description_localizations.is_none());
    assert!(option.max_length.is_none());
    assert!(option.max_value.is_none());
    assert!(option.min_length.is_none());
    assert!(option.min_value.is_none());
    assert!(option.name_localizations.is_none());
    assert!(option.options.is_none());
    assert!(option.required.is_none());
}

#[test]
fn setters_set_their_field() {
    let option = string_option("text")
        .autocomplete(true)
        .max_length(10)
        .min_length(2)
        .required(true)
        .build()
        .unwrap();
    assert_eq!(option.autocomplete, Some(true));
    assert_eq!(option.max_length, Some(10));
    assert_eq!(option.min_length, Some(2));
    assert_eq!(option.required, Some(true));

    let channel = CommandOptionBuilder::new("where", "A channel", CommandOptionType::Channel)
        .channel_types(vec![0, 2])
        .build()
        .unwrap();
    assert_eq!(channel.channel_types, Some(vec![0, 2]));

    let group = CommandOptionBuilder::new("group", "A group", CommandOptionType::SubCommandGroup)
        .options(vec![CommandOptionBuilder::new(
            "sub",
            "A sub command",
            CommandOptionType::SubCommand,
        )
        .build_unchecked()])
        .build()
        .unwrap();
    assert_eq!(group.options.as_ref().unwrap().len(), 1);
    assert_eq!(group.options.as_ref().unwrap()[0].name, "sub");
}

#[test]
fn last_setting_wins() {
    let option = string_option("text").required(true).required(false).max_length(9).max_length(7);
    let option = option.build().unwrap();
    assert_eq!(option.required, Some(false));
    assert_eq!(option.max_length, Some(7));
}

#[test]
fn build_unchecked_skips_validation() {
    let option = CommandOptionBuilder::new("", "", CommandOptionType::Boolean).build_unchecked();
    assert_eq!(option.name, "");
    assert_eq!(
        CommandOptionBuilder::new("", "", CommandOptionType::Boolean).validate(),
        Err(ValidationError::EmptyName)
    );
}

#[test]
fn name_errors() {
    assert_eq!(
        error_of(CommandOptionBuilder::new("", "d", CommandOptionType::String)),
        ValidationError::EmptyName
    );
    assert_eq!(error_of(string_option(&"a".repeat(33))), ValidationError::NameTooLong);
    assert!(string_option(&"a".repeat(32)).build().is_ok());
    // eleven Devanagari letters take 33 bytes
    assert_eq!(error_of(string_option(&"क".repeat(11))), ValidationError::NameTooLong);
    assert!(string_option(&"क".repeat(10)).build().is_ok());
    assert_eq!(error_of(string_option("with space")), ValidationError::NamePatternMismatch);
    assert_eq!(error_of(string_option("emoji😀")), ValidationError::NamePatternMismatch);
    assert_eq!(error_of(string_option("a.b")), ValidationError::NamePatternMismatch);
}

#[test]
fn name_grammar() {
    for name in ["test-name", "under_score", "it's", "ñandú", "名前", "नमस्ते", "สวัสดี", "x9"] {
        assert_eq!(match_name(name), PatternOutcome::Matched, "{}", name);
    }
    for name in ["", "a b", "a/b", "a!", "😀"] {
        assert_eq!(match_name(name), PatternOutcome::NotMatched, "{}", name);
    }
    assert_eq!(match_pattern("^a+$", "aaa"), PatternOutcome::Matched);
    assert_eq!(match_pattern("^a+$", "aab"), PatternOutcome::NotMatched);
    assert_eq!(match_pattern("(", "("), PatternOutcome::Unavailable);
}

#[test]
fn description_errors() {
    assert_eq!(
        error_of(CommandOptionBuilder::new("n", "", CommandOptionType::String)),
        ValidationError::EmptyDescription
    );
    let long = "d".repeat(101);
    assert_eq!(
        error_of(CommandOptionBuilder::new("n", &long, CommandOptionType::String)),
        ValidationError::DescriptionTooLong
    );
    let fits = "d".repeat(100);
    assert!(CommandOptionBuilder::new("n", &fits, CommandOptionType::String).build().is_ok());
    // fifty-one two-byte characters take 102 bytes
    let wide = "é".repeat(51);
    assert_eq!(
        error_of(CommandOptionBuilder::new("n", &wide, CommandOptionType::String)),
        ValidationError::DescriptionTooLong
    );
}

#[test]
fn required_errors() {
    for kind in [CommandOptionType::SubCommand, CommandOptionType::SubCommandGroup] {
        assert_eq!(
            error_of(CommandOptionBuilder::new("n", "d", kind).required(false)),
            ValidationError::RequiredNotSupported
        );
    }
    assert!(CommandOptionBuilder::new("n", "d", CommandOptionType::User).required(true).build().is_ok());
}

#[test]
fn choice_errors() {
    assert_eq!(
        error_of(CommandOptionBuilder::new("n", "d", CommandOptionType::Boolean).choices(vec![])),
        ValidationError::ChoicesNotSupported
    );
    let many: Vec<CommandOptionChoice> = (0..26).map(|i| int_choice("c", i)).collect();
    assert_eq!(
        error_of(CommandOptionBuilder::new("n", "d", CommandOptionType::Integer).choices(many)),
        ValidationError::TooManyChoices
    );
    let enough: Vec<CommandOptionChoice> = (0..25).map(|i| int_choice("c", i)).collect();
    assert!(CommandOptionBuilder::new("n", "d", CommandOptionType::Integer)
        .choices(enough)
        .build()
        .is_ok());
    let number = CommandOptionChoice {
        name: "half".to_string(),
        value: CommandOptionChoiceValue::Number(0.5f64.to_bits()),
        name_localizations: None,
    };
    assert!(CommandOptionBuilder::new("n", "d", CommandOptionType::Number)
        .choices(vec![number])
        .build()
        .is_ok());
}

#[test]
fn option_errors() {
    assert_eq!(
        error_of(string_option("n").options(vec![])),
        ValidationError::OptionsNotSupported
    );
    let many: Vec<CommandOption> = (0..26)
        .map(|_| CommandOptionBuilder::new("s", "d", CommandOptionType::String).build_unchecked())
        .collect();
    assert_eq!(
        error_of(CommandOptionBuilder::new("n", "d", CommandOptionType::SubCommand).options(many)),
        ValidationError::TooManyOptions
    );
}

#[test]
fn channel_type_errors() {
    assert_eq!(
        error_of(string_option("n").channel_types(vec![0])),
        ValidationError::ChannelTypesNotSupported
    );
}

#[test]
fn value_bound_errors() {
    let mut option = string_option("n").build_unchecked();
    option.min_value = Some(CommandOptionValue::Integer(1));
    assert_eq!(
        check_option(&option, PatternOutcome::Matched),
        Err(ValidationError::MinValueNotSupported)
    );
    option.min_value = None;
    option.max_value = Some(CommandOptionValue::Number(2.0f64.to_bits()));
    assert_eq!(
        check_option(&option, PatternOutcome::Matched),
        Err(ValidationError::MaxValueNotSupported)
    );
    option.kind = CommandOptionType::Number;
    assert_eq!(check_option(&option, PatternOutcome::Matched), Ok(()));
}

#[test]
fn length_errors() {
    let integer = || CommandOptionBuilder::new("n", "d", CommandOptionType::Integer);
    assert_eq!(error_of(integer().max_length(5)), ValidationError::MaxLengthNotSupported);
    assert_eq!(error_of(integer().min_length(5)), ValidationError::MinLengthNotSupported);
    assert_eq!(error_of(string_option("n").max_length(6001)), ValidationError::MaxLengthTooLarge);
    assert_eq!(error_of(string_option("n").min_length(6001)), ValidationError::MinLengthTooLarge);
    assert_eq!(
        error_of(string_option("n").min_length(10).max_length(5)),
        ValidationError::MinLengthAboveMaxLength
    );
    assert!(string_option("n").min_length(6000).max_length(6000).build().is_ok());
    assert!(string_option("n").min_length(0).build().is_ok());
}

#[test]
fn autocomplete_errors() {
    assert_eq!(
        error_of(CommandOptionBuilder::new("n", "d", CommandOptionType::Boolean).autocomplete(true)),
        ValidationError::AutocompleteNotSupported
    );
    assert_eq!(
        error_of(string_option("n").choices(vec![int_choice("c", 1)]).autocomplete(false)),
        ValidationError::AutocompleteWithChoices
    );
    assert!(CommandOptionBuilder::new("n", "d", CommandOptionType::Number)
        .autocomplete(true)
        .build()
        .is_ok());
}

#[test]
fn first_broken_constraint_is_reported() {
    let builder = CommandOptionBuilder::new("n", "", CommandOptionType::Boolean)
        .choices(vec![])
        .autocomplete(true);
    assert_eq!(error_of(builder), ValidationError::EmptyDescription);
    let builder = CommandOptionBuilder::new("n", "d", CommandOptionType::Boolean)
        .autocomplete(true)
        .max_length(1)
        .channel_types(vec![1]);
    assert_eq!(error_of(builder), ValidationError::ChannelTypesNotSupported);
}

#[test]
fn pattern_outcome_decides_the_name_check() {
    let option = string_option("n").build_unchecked();
    assert_eq!(
        check_option(&option, PatternOutcome::Unavailable),
        Err(ValidationError::NamePatternUnavailable)
    );
    assert_eq!(
        check_option(&option, PatternOutcome::NotMatched),
        Err(ValidationError::NamePatternMismatch)
    );
    assert_eq!(check_option(&option, PatternOutcome::Matched), Ok(()));
}

#[test]
fn localizations_do_not_affect_validation() {
    let plain = CommandOptionBuilder::new("n", "d", CommandOptionType::Boolean).autocomplete(true);
    let localized = CommandOptionBuilder::new("n", "d", CommandOptionType::Boolean)
        .autocomplete(true)
        .name_localizations(vec![pair("de", "x y z")])
        .description_localizations(vec![pair("de", "")]);
    assert_eq!(plain.validate(), localized.validate());
    assert!(string_option("n").name_localizations(vec![pair("de", "with space")]).build().is_ok());
}

#[test]
fn channel_codes_do_not_affect_validation() {
    let channel = |codes: Vec<u8>| {
        CommandOptionBuilder::new("c", "d", CommandOptionType::Channel).channel_types(codes).validate()
    };
    assert_eq!(channel(vec![0]), Ok(()));
    assert_eq!(channel(vec![2, 5, 200]), Ok(()));
    assert_eq!(channel(vec![]), Ok(()));
}

#[test]
fn later_localization_replaces_earlier() {
    let collected = collect_localizations(vec![
        pair("en-US", "first"),
        pair("fr", "français"),
        pair("en-US", "second"),
    ]);
    assert_eq!(collected.len(), 2);
    assert_eq!(lookup_localization(&collected, "en-US").unwrap(), "second");
    assert_eq!(lookup_localization(&collected, "fr").unwrap(), "français");
    assert!(lookup_localization(&collected, "de").is_none());

    let option = string_option("n")
        .description_localizations(vec![pair("da", "a"), pair("da", "b")])
        .build()
        .unwrap();
    let localizations = option.description_localizations.unwrap();
    assert_eq!(localizations.len(), 1);
    assert_eq!(lookup_localization(&localizations, "da").unwrap(), "b");
}

#[test]
fn lookup_reads_last_pair_of_uncollected_list() {
    let raw = vec![pair("a", "1"), pair("b", "2"), pair("a", "3")];
    assert_eq!(lookup_localization(&raw, "a").unwrap(), "3");
    assert_eq!(lookup_localization(&raw, "b").unwrap(), "2");
    assert!(lookup_localization(&vec![], "a").is_none());
}

#[test]
fn concatenated_pairs_override_earlier_ones() {
    let first = vec![pair("a", "1"), pair("b", "2")];
    let second = vec![pair("b", "3"), pair("c", "4")];
    let mut both = first.clone();
    both.extend(second.clone());
    let all = collect_localizations(both);
    assert_eq!(all.len(), 3);
    assert_eq!(lookup_localization(&all, "a").unwrap(), "1");
    assert_eq!(lookup_localization(&all, "b").unwrap(), "3");
    assert_eq!(lookup_localization(&all, "c").unwrap(), "4");
}
