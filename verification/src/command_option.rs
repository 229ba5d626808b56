//! Command options of Discord application commands, built and then checked
//! against Discord's constraints before use.

use vstd::prelude::*;
use vstd::utf8::encode_utf8;

use crate::localization::{collect_localizations, entries_map, keys_distinct};
use crate::name_pattern::{match_name, pattern_outcome, PatternOutcome, NAME_PATTERN};

verus! {

/// Maximum length of a description, in bytes.
pub const DESCRIPTION_LENGTH: usize = 100;

/// Maximum length of a name, in bytes.
pub const NAME_LENGTH: usize = 32;

/// Maximum number of choices of an option.
pub const CHOICE_COUNT: usize = 25;

/// Maximum number of nested options of an option.
pub const OPTION_COUNT: usize = 25;

/// Largest value allowed for `min_length` and `max_length`.
pub const MAX_LENGTH: u16 = 6000;

/// Type of a command option.
#[derive(Clone, Copy, Debug, PartialEq, Eq, Structural)]
pub enum CommandOptionType {
    SubCommand,
    SubCommandGroup,
    String,
    Integer,
    Boolean,
    User,
    Channel,
    Role,
    Mentionable,
    Number,
    Attachment,
}

/// Value of a predetermined choice.
#[derive(Clone, Debug, PartialEq)]
pub enum CommandOptionChoiceValue {
    /// String choice.
    String(String),
    /// Integer choice.
    Integer(i64),
    /// Number choice, as the bits of an IEEE 754 double.
    Number(u64),
}

/// A predetermined choice users can select.
#[derive(Clone, Debug, PartialEq)]
pub struct CommandOptionChoice {
    /// Name of the choice.
    pub name: String,
    /// Localizations of the name, as (locale, text) pairs.
    pub name_localizations: Option<Vec<(String, String)>>,
    /// Value of the choice.
    pub value: CommandOptionChoiceValue,
}

/// Bound on the value of an integer or number option.
#[derive(Clone, Copy, Debug, PartialEq, Eq, Structural)]
pub enum CommandOptionValue {
    /// Integer bound.
    Integer(i64),
    /// Number bound, as the bits of an IEEE 754 double.
    Number(u64),
}

/// An option of an application command.
#[derive(Debug, PartialEq)]
pub struct CommandOption {
    /// Whether the option supports autocomplete.
    pub autocomplete: Option<bool>,
    /// Channel types users can select from, by their numeric code.
    pub channel_types: Option<Vec<u8>>,
    /// Predetermined choices.
    pub choices: Option<Vec<CommandOptionChoice>>,
    /// Description of the option.
    pub description: String,
    /// Localizations of the description, as (locale, text) pairs.
    pub description_localizations: Option<Vec<(String, String)>>,
    /// Type of the option.
    pub kind: CommandOptionType,
    /// Maximum allowed value length.
    pub max_length: Option<u16>,
    /// Maximum allowed value.
    pub max_value: Option<CommandOptionValue>,
    /// Minimum allowed value length.
    pub min_length: Option<u16>,
    /// Minimum allowed value.
    pub min_value: Option<CommandOptionValue>,
    /// Name of the option.
    pub name: String,
    /// Localizations of the name, as (locale, text) pairs.
    pub name_localizations: Option<Vec<(String, String)>>,
    /// Nested options.
    pub options: Option<Vec<CommandOption>>,
    /// Whether the option is required.
    pub required: Option<bool>,
}

/// A constraint that an option breaks.
#[derive(Clone, Copy, Debug, PartialEq, Eq, Structural)]
pub enum ValidationError {
    EmptyName,
    NameTooLong,
    NamePatternMismatch,
    NamePatternUnavailable,
    EmptyDescription,
    DescriptionTooLong,
    RequiredNotSupported,
    ChoicesNotSupported,
    TooManyChoices,
    OptionsNotSupported,
    TooManyOptions,
    ChannelTypesNotSupported,
    MinValueNotSupported,
    MaxValueNotSupported,
    MaxLengthNotSupported,
    MaxLengthTooLarge,
    MinLengthNotSupported,
    MinLengthTooLarge,
    MinLengthAboveMaxLength,
    AutocompleteNotSupported,
    AutocompleteWithChoices,
}

/// Length in bytes of the UTF-8 encoding of `s`.
pub open spec fn byte_len(s: Seq<char>) -> nat {
    encode_utf8(s).len()
}

/// Options of this type may say whether they are required.
pub open spec fn supports_required(kind: CommandOptionType) -> bool {
    !(kind is SubCommand || kind is SubCommandGroup)
}

/// Options of this type may have choices, and may autocomplete.
pub open spec fn supports_choices(kind: CommandOptionType) -> bool {
    kind is String || kind is Integer || kind is Number
}

/// Options of this type may have nested options.
pub open spec fn supports_options(kind: CommandOptionType) -> bool {
    kind is SubCommand || kind is SubCommandGroup
}

/// Options of this type may bound their value.
pub open spec fn supports_value_bounds(kind: CommandOptionType) -> bool {
    kind is Integer || kind is Number
}

/// The first constraint, in the order they are checked, that `o` breaks,
/// given the outcome of matching its name against the name grammar.
pub open spec fn first_violation(o: CommandOption, name_check: PatternOutcome) -> Option<
    ValidationError,
> {
    if o.name@.len() == 0 {
        Some(ValidationError::EmptyName)
    } else if byte_len(o.name@) > NAME_LENGTH {
        Some(ValidationError::NameTooLong)
    } else if name_check is NotMatched {
        Some(ValidationError::NamePatternMismatch)
    } else if name_check is Unavailable {
        Some(ValidationError::NamePatternUnavailable)
    } else if o.description@.len() == 0 {
        Some(ValidationError::EmptyDescription)
    } else if byte_len(o.description@) > DESCRIPTION_LENGTH {
        Some(ValidationError::DescriptionTooLong)
    } else if o.required is Some && !supports_required(o.kind) {
        Some(ValidationError::RequiredNotSupported)
    } else if o.choices is Some && !supports_choices(o.kind) {
        Some(ValidationError::ChoicesNotSupported)
    } else if o.choices matches Some(c) && c.len() > CHOICE_COUNT {
        Some(ValidationError::TooManyChoices)
    } else if o.options is Some && !supports_options(o.kind) {
        Some(ValidationError::OptionsNotSupported)
    } else if o.options matches Some(v) && v.len() > OPTION_COUNT {
        Some(ValidationError::TooManyOptions)
    } else if o.channel_types is Some && !(o.kind is Channel) {
        Some(ValidationError::ChannelTypesNotSupported)
    } else if o.min_value is Some && !supports_value_bounds(o.kind) {
        Some(ValidationError::MinValueNotSupported)
    } else if o.max_value is Some && !supports_value_bounds(o.kind) {
        Some(ValidationError::MaxValueNotSupported)
    } else if o.max_length is Some && !(o.kind is String) {
        Some(ValidationError::MaxLengthNotSupported)
    } else if o.max_length matches Some(m) && m > MAX_LENGTH {
        Some(ValidationError::MaxLengthTooLarge)
    } else if o.min_length is Some && !(o.kind is String) {
        Some(ValidationError::MinLengthNotSupported)
    } else if o.min_length matches Some(m) && m > MAX_LENGTH {
        Some(ValidationError::MinLengthTooLarge)
    } else if o.min_length is Some && o.max_length is Some && o.min_length->0 > o.max_length->0 {
        Some(ValidationError::MinLengthAboveMaxLength)
    } else if o.autocomplete is Some && !supports_choices(o.kind) {
        Some(ValidationError::AutocompleteNotSupported)
    } else if o.autocomplete is Some && o.choices is Some {
        Some(ValidationError::AutocompleteWithChoices)
    } else {
        None
    }
}

/// The first constraint that `o` breaks, its name matched against `NAME_PATTERN`.
pub open spec fn validation(o: CommandOption) -> Option<ValidationError> {
    first_violation(o, pattern_outcome(NAME_PATTERN@, o.name@))
}

/// `Ok` where no constraint is broken, else the first one that is.
pub open spec fn as_result(v: Option<ValidationError>) -> Result<(), ValidationError> {
    match v {
        Some(e) => Err(e),
        None => Ok(()),
    }
}

fn kind_supports_required(kind: CommandOptionType) -> (b: bool)
    ensures
        b == supports_required(kind),
{
    match kind {
        CommandOptionType::SubCommand | CommandOptionType::SubCommandGroup => false,
        _ => true,
    }
}

fn kind_supports_choices(kind: CommandOptionType) -> (b: bool)
    ensures
        b == supports_choices(kind),
{
    match kind {
        CommandOptionType::String | CommandOptionType::Integer | CommandOptionType::Number => true,
        _ => false,
    }
}

fn kind_supports_value_bounds(kind: CommandOptionType) -> (b: bool)
    ensures
        b == supports_value_bounds(kind),
{
    match kind {
        CommandOptionType::Integer | CommandOptionType::Number => true,
        _ => false,
    }
}

/// Checks `o` against every constraint, in order, taking `name_check` as the
/// outcome of matching its name against the name grammar.
pub fn check_option(o: &CommandOption, name_check: PatternOutcome) -> (r: Result<
    (),
    ValidationError,
>)
    ensures
        r == as_result(first_violation(*o, name_check)),
{
    let name = o.name.as_str();
    if name.is_empty() {
        return Err(ValidationError::EmptyName);
    }
    if name.as_bytes().len() > NAME_LENGTH {
        return Err(ValidationError::NameTooLong);
    }
    match name_check {
        PatternOutcome::NotMatched => {
            return Err(ValidationError::NamePatternMismatch);
        },
        PatternOutcome::Unavailable => {
            return Err(ValidationError::NamePatternUnavailable);
        },
        PatternOutcome::Matched => {},
    }
    let description = o.description.as_str();
    if description.is_empty() {
        return Err(ValidationError::EmptyDescription);
    }
    if description.as_bytes().len() > DESCRIPTION_LENGTH {
        return Err(ValidationError::DescriptionTooLong);
    }
    if o.required.is_some() && !kind_supports_required(o.kind) {
        return Err(ValidationError::RequiredNotSupported);
    }
    if let Some(choices) = &o.choices {
        if !kind_supports_choices(o.kind) {
            return Err(ValidationError::ChoicesNotSupported);
        }
        if choices.len() > CHOICE_COUNT {
            return Err(ValidationError::TooManyChoices);
        }
    }
    if let Some(options) = &o.options {
        if kind_supports_required(o.kind) {
            return Err(ValidationError::OptionsNotSupported);
        }
        if options.len() > OPTION_COUNT {
            return Err(ValidationError::TooManyOptions);
        }
    }
    if o.channel_types.is_some() && o.kind != CommandOptionType::Channel {
        return Err(ValidationError::ChannelTypesNotSupported);
    }
    if o.min_value.is_some() && !kind_supports_value_bounds(o.kind) {
        return Err(ValidationError::MinValueNotSupported);
    }
    if o.max_value.is_some() && !kind_supports_value_bounds(o.kind) {
        return Err(ValidationError::MaxValueNotSupported);
    }
    if let Some(max_length) = o.max_length {
        if o.kind != CommandOptionType::String {
            return Err(ValidationError::MaxLengthNotSupported);
        }
        if max_length > MAX_LENGTH {
            return Err(ValidationError::MaxLengthTooLarge);
        }
    }
    if let Some(min_length) = o.min_length {
        if o.kind != CommandOptionType::String {
            return Err(ValidationError::MinLengthNotSupported);
        }
        if min_length > MAX_LENGTH {
            return Err(ValidationError::MinLengthTooLarge);
        }
    }
    if let (Some(min_length), Some(max_length)) = (o.min_length, o.max_length) {
        if min_length > max_length {
            return Err(ValidationError::MinLengthAboveMaxLength);
        }
    }
    if o.autocomplete.is_some() {
        if !kind_supports_choices(o.kind) {
            return Err(ValidationError::AutocompleteNotSupported);
        }
        if o.choices.is_some() {
            return Err(ValidationError::AutocompleteWithChoices);
        }
    }
    Ok(())
}

/// Builder of a [`CommandOption`].
#[derive(Debug)]
#[must_use]
pub struct CommandOptionBuilder(CommandOption);

impl View for CommandOptionBuilder {
    type V = CommandOption;

    closed spec fn view(&self) -> CommandOption {
        self.0
    }
}

impl CommandOptionBuilder {
    /// Starts an option with a name, a description and a type, and nothing else set.
    pub fn new(name: &str, description: &str, kind: CommandOptionType) -> (b: Self)
        ensures
            b@.name@ == name@,
            b@.description@ == description@,
            b@.kind == kind,
            b@.autocomplete is None,
            b@.channel_types is None,
            b@.choices is None,
            b@.description_localizations is None,
            b@.max_length is None,
            b@.max_value is None,
            b@.min_length is None,
            b@.min_value is None,
            b@.name_localizations is None,
            b@.options is None,
            b@.required is None,
    {
        CommandOptionBuilder(
            CommandOption {
                autocomplete: None,
                channel_types: None,
                choices: None,
                description: description.to_owned(),
                description_localizations: None,
                kind,
                max_length: None,
                max_value: None,
                min_length: None,
                min_value: None,
                name: name.to_owned(),
                name_localizations: None,
                options: None,
                required: None,
            },
        )
    }

    /// Sets whether the option is an autocomplete interaction.
    pub fn autocomplete(self, autocomplete: bool) -> (b: Self)
        ensures
            b@ == (CommandOption { autocomplete: Some(autocomplete), ..self@ }),
    {
        let mut b = self;
        b.0.autocomplete = Some(autocomplete);
        b
    }

    /// Sets the channel types of the option, by their numeric codes.
    pub fn channel_types(self, channel_types: Vec<u8>) -> (b: Self)
        ensures
            b@ == (CommandOption { channel_types: Some(channel_types), ..self@ }),
    {
        let mut b = self;
        b.0.channel_types = Some(channel_types);
        b
    }

    /// Sets the choices of the option.
    pub fn choices(self, choices: Vec<CommandOptionChoice>) -> (b: Self)
        ensures
            b@ == (CommandOption { choices: Some(choices), ..self@ }),
    {
        let mut b = self;
        b.0.choices = Some(choices);
        b
    }

    /// Sets the localizations of the description; a later pair for a locale
    /// replaces an earlier one.
    pub fn description_localizations(self, localizations: Vec<(String, String)>) -> (b: Self)
        ensures
            b@ == (CommandOption { description_localizations: b@.description_localizations, ..self@ }),
            b@.description_localizations matches Some(l) && keys_distinct(l.deep_view())
                && entries_map(l.deep_view()) == entries_map(localizations.deep_view()),
    {
        let mut b = self;
        b.0.description_localizations = Some(collect_localizations(localizations));
        b
    }

    /// Sets the localizations of the name; a later pair for a locale
    /// replaces an earlier one.
    pub fn name_localizations(self, localizations: Vec<(String, String)>) -> (b: Self)
        ensures
            b@ == (CommandOption { name_localizations: b@.name_localizations, ..self@ }),
            b@.name_localizations matches Some(l) && keys_distinct(l.deep_view())
                && entries_map(l.deep_view()) == entries_map(localizations.deep_view()),
    {
        let mut b = self;
        b.0.name_localizations = Some(collect_localizations(localizations));
        b
    }

    /// Sets the nested options of the option.
    pub fn options(self, options: Vec<CommandOption>) -> (b: Self)
        ensures
            b@ == (CommandOption { options: Some(options), ..self@ }),
    {
        let mut b = self;
        b.0.options = Some(options);
        b
    }

    /// Sets the maximum length of the input.
    pub fn max_length(self, max_length: u16) -> (b: Self)
        ensures
            b@ == (CommandOption { max_length: Some(max_length), ..self@ }),
    {
        let mut b = self;
        b.0.max_length = Some(max_length);
        b
    }

    /// Sets the minimum length of the input.
    pub fn min_length(self, min_length: u16) -> (b: Self)
        ensures
            b@ == (CommandOption { min_length: Some(min_length), ..self@ }),
    {
        let mut b = self;
        b.0.min_length = Some(min_length);
        b
    }

    /// Sets whether the option is required.
    pub fn required(self, required: bool) -> (b: Self)
        ensures
            b@ == (CommandOption { required: Some(required), ..self@ }),
    {
        let mut b = self;
        b.0.required = Some(required);
        b
    }

    /// Checks the option against every constraint, in order, and names the
    /// first one it breaks.
    pub fn validate(&self) -> (r: Result<(), ValidationError>)
        ensures
            r == as_result(validation(self@)),
    {
        let name = self.0.name.as_str();
        if name.is_empty() {
            return Err(ValidationError::EmptyName);
        }
        if name.as_bytes().len() > NAME_LENGTH {
            return Err(ValidationError::NameTooLong);
        }
        let name_check = match_name(name);
        check_option(&self.0, name_check)
    }

    /// Consumes the builder, returning the option if it breaks no constraint.
    pub fn build(self) -> (r: Result<CommandOption, ValidationError>)
        ensures
            r == (match validation(self@) {
                Some(e) => Err(e),
                None => Ok(self@),
            }),
    {
        match self.validate() {
            Ok(()) => Ok(self.0),
            Err(e) => Err(e),
        }
    }

    /// Consumes the builder, returning the option without checking it.
    pub fn build_unchecked(self) -> (o: CommandOption)
        ensures
            o == self@,
    {
        self.0
    }
}

} // verus!

verus! {

/// Every constraint on an option, stated all at once rather than in the
/// order in which they are checked.
pub open spec fn satisfies_constraints(o: CommandOption, name_check: PatternOutcome) -> bool {
    &&& o.name@.len() > 0
    &&& byte_len(o.name@) <= NAME_LENGTH
    &&& name_check is Matched
    &&& o.description@.len() > 0
    &&& byte_len(o.description@) <= DESCRIPTION_LENGTH
    &&& o.required is Some ==> supports_required(o.kind)
    &&& o.choices matches Some(c) ==> supports_choices(o.kind) && c.len() <= CHOICE_COUNT
    &&& o.options matches Some(v) ==> supports_options(o.kind) && v.len() <= OPTION_COUNT
    &&& o.channel_types is Some ==> o.kind is Channel
    &&& o.min_value is Some ==> supports_value_bounds(o.kind)
    &&& o.max_value is Some ==> supports_value_bounds(o.kind)
    &&& o.max_length matches Some(m) ==> o.kind is String && m <= MAX_LENGTH
    &&& o.min_length matches Some(m) ==> o.kind is String && m <= MAX_LENGTH
    &&& (o.min_length is Some && o.max_length is Some) ==> o.min_length->0 <= o.max_length->0
    &&& o.autocomplete is Some ==> supports_choices(o.kind) && o.choices is None
}

/// An option passes the checks exactly when it satisfies every constraint:
/// the checks reject nothing that is allowed and let nothing through that is not.
pub proof fn law_checks_match_constraints(o: CommandOption, name_check: PatternOutcome)
    ensures
        first_violation(o, name_check) is None <==> satisfies_constraints(o, name_check),
{
}

/// What `build` returns, on success, satisfies every constraint, its name
/// matching the name grammar; and it is exactly what `build_unchecked`
/// returns of the same builder.
pub proof fn law_built_options_are_valid(b: CommandOptionBuilder)
    requires
        validation(b@) is None,
    ensures
        satisfies_constraints(b@, pattern_outcome(NAME_PATTERN@, b@.name@)),
        pattern_outcome(NAME_PATTERN@, b@.name@) is Matched,
{
}

/// Localizations never decide whether an option is valid: replacing the
/// name or description localizations leaves the verdict unchanged.
pub proof fn law_localizations_do_not_affect_validation(
    o: CommandOption,
    name_localizations: Option<Vec<(String, String)>>,
    description_localizations: Option<Vec<(String, String)>>,
)
    ensures
        validation(
            CommandOption { name_localizations, description_localizations, ..o },
        ) == validation(o),
{
}

/// Which channel types an option lists never decides whether it is valid,
/// only whether it lists any.
pub proof fn law_channel_codes_do_not_affect_validation(o: CommandOption, codes: Vec<u8>)
    requires
        o.channel_types is Some,
    ensures
        validation(CommandOption { channel_types: Some(codes), ..o }) == validation(o),
{
}

/// Setting the same field twice keeps only the second value.
pub proof fn law_last_setting_wins(o: CommandOption, first: bool, second: bool, l1: u16, l2: u16)
    ensures
        (CommandOption { required: Some(second), ..CommandOption { required: Some(first), ..o } })
            == (CommandOption { required: Some(second), ..o }),
        (CommandOption {
            autocomplete: Some(second),
            ..CommandOption { autocomplete: Some(first), ..o }
        }) == (CommandOption { autocomplete: Some(second), ..o }),
        (CommandOption { max_length: Some(l2), ..CommandOption { max_length: Some(l1), ..o } })
            == (CommandOption { max_length: Some(l2), ..o }),
        (CommandOption { min_length: Some(l2), ..CommandOption { min_length: Some(l1), ..o } })
            == (CommandOption { min_length: Some(l2), ..o }),
{
}

} // verus!

verus! {

/// The name and description of `o` are acceptable, and its name matched the
/// name grammar.
pub open spec fn basics_acceptable(o: CommandOption, name_check: PatternOutcome) -> bool {
    &&& o.name@.len() > 0
    &&& byte_len(o.name@) <= NAME_LENGTH
    &&& name_check is Matched
    &&& o.description@.len() > 0
    &&& byte_len(o.description@) <= DESCRIPTION_LENGTH
}

/// `o` sets nothing beyond its name, description, type and localizations.
pub open spec fn sets_nothing_else(o: CommandOption) -> bool {
    &&& o.autocomplete is None
    &&& o.channel_types is None
    &&& o.choices is None
    &&& o.max_length is None
    &&& o.max_value is None
    &&& o.min_length is None
    &&& o.min_value is None
    &&& o.options is None
    &&& o.required is None
}

/// Every option may say whether it is required, except sub-commands and
/// sub-command groups: an otherwise plain option with `required` set passes
/// exactly when it is neither, and no option that passes is a sub-command
/// or sub-command group that says so.
pub proof fn law_required_refused_only_for_subcommands(
    o: CommandOption,
    name_check: PatternOutcome,
    required: bool,
    any: CommandOption,
    any_check: PatternOutcome,
)
    requires
        basics_acceptable(o, name_check),
        sets_nothing_else(o),
    ensures
        first_violation(CommandOption { required: Some(required), ..o }, name_check) is None
            <==> !(o.kind == CommandOptionType::SubCommand || o.kind
            == CommandOptionType::SubCommandGroup),
        first_violation(any, any_check) is None && any.required is Some ==> !(any.kind
            == CommandOptionType::SubCommand || any.kind == CommandOptionType::SubCommandGroup),
{
}

/// Choices and autocomplete belong to string, integer and number options
/// only: an otherwise plain option with a few choices, or with autocomplete,
/// passes exactly when it is of one of those types, and no option of
/// another type that has either ever passes.
pub proof fn law_choices_only_for_strings_and_numbers(
    o: CommandOption,
    name_check: PatternOutcome,
    choices: Vec<CommandOptionChoice>,
    autocomplete: bool,
    any: CommandOption,
    any_check: PatternOutcome,
)
    requires
        basics_acceptable(o, name_check),
        sets_nothing_else(o),
        choices.len() <= CHOICE_COUNT,
    ensures
        first_violation(CommandOption { choices: Some(choices), ..o }, name_check) is None <==> (
        o.kind == CommandOptionType::String || o.kind == CommandOptionType::Integer || o.kind
            == CommandOptionType::Number),
        first_violation(CommandOption { autocomplete: Some(autocomplete), ..o }, name_check)
            is None <==> (o.kind == CommandOptionType::String || o.kind
            == CommandOptionType::Integer || o.kind == CommandOptionType::Number),
        first_violation(any, any_check) is None && (any.choices is Some || any.autocomplete is Some)
            ==> (any.kind == CommandOptionType::String || any.kind == CommandOptionType::Integer
            || any.kind == CommandOptionType::Number),
{
}

/// Value bounds belong to integer and number options only: an otherwise
/// plain option with a minimum or maximum value passes exactly when it is
/// of one of those types, and no option of another type with a bound passes.
pub proof fn law_value_bounds_only_for_integers_and_numbers(
    o: CommandOption,
    name_check: PatternOutcome,
    min_value: Option<CommandOptionValue>,
    max_value: Option<CommandOptionValue>,
    any: CommandOption,
    any_check: PatternOutcome,
)
    requires
        basics_acceptable(o, name_check),
        sets_nothing_else(o),
        min_value is Some || max_value is Some,
    ensures
        first_violation(CommandOption { min_value, max_value, ..o }, name_check) is None <==> (
        o.kind == CommandOptionType::Integer || o.kind == CommandOptionType::Number),
        first_violation(any, any_check) is None && (any.min_value is Some || any.max_value is Some)
            ==> (any.kind == CommandOptionType::Integer || any.kind == CommandOptionType::Number),
{
}

/// Nested options belong to sub-commands and sub-command groups only, at
/// most 25 of them: an otherwise plain option with nested options passes
/// exactly when it is one of those and has no more than 25, and no option of
/// another type with nested options ever passes.
pub proof fn law_nested_options_only_for_subcommands(
    o: CommandOption,
    name_check: PatternOutcome,
    options: Vec<CommandOption>,
    any: CommandOption,
    any_check: PatternOutcome,
)
    requires
        basics_acceptable(o, name_check),
        sets_nothing_else(o),
    ensures
        first_violation(CommandOption { options: Some(options), ..o }, name_check) is None <==> (
        (o.kind == CommandOptionType::SubCommand || o.kind == CommandOptionType::SubCommandGroup)
            && options.len() <= 25),
        first_violation(any, any_check) is None && any.options is Some ==> (any.kind
            == CommandOptionType::SubCommand || any.kind == CommandOptionType::SubCommandGroup),
{
}

/// Channel types belong to channel options only.
pub proof fn law_channel_types_only_for_channels(
    o: CommandOption,
    name_check: PatternOutcome,
    codes: Vec<u8>,
)
    requires
        basics_acceptable(o, name_check),
        sets_nothing_else(o),
    ensures
        first_violation(CommandOption { channel_types: Some(codes), ..o }, name_check) is None
            <==> o.kind == CommandOptionType::Channel,
{
}

/// Length bounds belong to string options only, each at most 6000, the
/// minimum no greater than the maximum.
pub proof fn law_length_bounds_only_for_strings(
    o: CommandOption,
    name_check: PatternOutcome,
    min_length: Option<u16>,
    max_length: Option<u16>,
)
    requires
        basics_acceptable(o, name_check),
        sets_nothing_else(o),
        min_length is Some || max_length is Some,
    ensures
        first_violation(CommandOption { min_length, max_length, ..o }, name_check) is None <==> (
        o.kind == CommandOptionType::String && (min_length matches Some(a) ==> a <= 6000) && (
        max_length matches Some(b) ==> b <= 6000) && (min_length matches Some(a) ==> (
        max_length matches Some(b) ==> a <= b))),
{
}

/// A string option with choices passes exactly when it has at most 25 of
/// them.
pub proof fn law_at_most_twenty_five_choices(
    o: CommandOption,
    name_check: PatternOutcome,
    choices: Vec<CommandOptionChoice>,
)
    requires
        basics_acceptable(o, name_check),
        sets_nothing_else(o),
        o.kind == CommandOptionType::String,
    ensures
        first_violation(CommandOption { choices: Some(choices), ..o }, name_check) is None
            <==> choices.len() <= 25,
{
}

/// An otherwise plain option passes exactly when its name is 1 to 32 bytes
/// long and matches the name grammar, and its description is 1 to 100 bytes
/// long.
pub proof fn law_plain_option_needs_name_and_description(
    o: CommandOption,
    name_check: PatternOutcome,
)
    requires
        sets_nothing_else(o),
    ensures
        first_violation(o, name_check) is None <==> (1 <= encode_utf8(o.name@).len() <= 32
            && name_check == PatternOutcome::Matched && 1 <= encode_utf8(o.description@).len()
            <= 100),
{
    lemma_encoding_empty(o.name@);
    lemma_encoding_empty(o.description@);
}

/// A text encodes to no bytes exactly when it has no characters.
proof fn lemma_encoding_empty(s: Seq<char>)
    ensures
        encode_utf8(s).len() == 0 <==> s.len() == 0,
{
    if s.len() > 0 {
        assert(vstd::utf8::encode_scalar(s[0] as u32).len() >= 1);
    }
}

/// Every error that the checks report names a rule that the option really
/// breaks.
pub proof fn law_each_error_names_a_broken_rule(o: CommandOption, name_check: PatternOutcome)
    ensures
        first_violation(o, name_check) == Some(ValidationError::EmptyName) ==> o.name@.len() == 0,
        first_violation(o, name_check) == Some(ValidationError::NameTooLong) ==> encode_utf8(
            o.name@,
        ).len() > 32,
        first_violation(o, name_check) == Some(ValidationError::NamePatternMismatch)
            ==> name_check == PatternOutcome::NotMatched,
        first_violation(o, name_check) == Some(ValidationError::NamePatternUnavailable)
            ==> name_check == PatternOutcome::Unavailable,
        first_violation(o, name_check) == Some(ValidationError::EmptyDescription)
            ==> o.description@.len() == 0,
        first_violation(o, name_check) == Some(ValidationError::DescriptionTooLong) ==> encode_utf8(
            o.description@,
        ).len() > 100,
        first_violation(o, name_check) == Some(ValidationError::RequiredNotSupported) ==> (
        o.required is Some && (o.kind == CommandOptionType::SubCommand || o.kind
            == CommandOptionType::SubCommandGroup)),
        first_violation(o, name_check) == Some(ValidationError::ChoicesNotSupported) ==> (
        o.choices is Some && !(o.kind == CommandOptionType::String || o.kind
            == CommandOptionType::Integer || o.kind == CommandOptionType::Number)),
        first_violation(o, name_check) == Some(ValidationError::TooManyChoices) ==> (
        o.choices matches Some(c) && c.len() > 25),
        first_violation(o, name_check) == Some(ValidationError::OptionsNotSupported) ==> (
        o.options is Some && !(o.kind == CommandOptionType::SubCommand || o.kind
            == CommandOptionType::SubCommandGroup)),
        first_violation(o, name_check) == Some(ValidationError::TooManyOptions) ==> (
        o.options matches Some(v) && v.len() > 25),
        first_violation(o, name_check) == Some(ValidationError::ChannelTypesNotSupported) ==> (
        o.channel_types is Some && o.kind != CommandOptionType::Channel),
        first_violation(o, name_check) == Some(ValidationError::MinValueNotSupported) ==> (
        o.min_value is Some && !(o.kind == CommandOptionType::Integer || o.kind
            == CommandOptionType::Number)),
        first_violation(o, name_check) == Some(ValidationError::MaxValueNotSupported) ==> (
        o.max_value is Some && !(o.kind == CommandOptionType::Integer || o.kind
            == CommandOptionType::Number)),
        first_violation(o, name_check) == Some(ValidationError::MaxLengthNotSupported) ==> (
        o.max_length is Some && o.kind != CommandOptionType::String),
        first_violation(o, name_check) == Some(ValidationError::MaxLengthTooLarge) ==> (
        o.max_length matches Some(m) && m > 6000),
        first_violation(o, name_check) == Some(ValidationError::MinLengthNotSupported) ==> (
        o.min_length is Some && o.kind != CommandOptionType::String),
        first_violation(o, name_check) == Some(ValidationError::MinLengthTooLarge) ==> (
        o.min_length matches Some(m) && m > 6000),
        first_violation(o, name_check) == Some(ValidationError::MinLengthAboveMaxLength) ==> (
        o.min_length is Some && o.max_length is Some && o.min_length->0 > o.max_length->0),
        first_violation(o, name_check) == Some(ValidationError::AutocompleteNotSupported) ==> (
        o.autocomplete is Some && !(o.kind == CommandOptionType::String || o.kind
            == CommandOptionType::Integer || o.kind == CommandOptionType::Number)),
        first_violation(o, name_check) == Some(ValidationError::AutocompleteWithChoices) ==> (
        o.autocomplete is Some && o.choices is Some),
{
}

/// The name is checked before anything else, then the description: an
/// option with a broken name rule is reported for its name, whatever else it
/// breaks, and one with an acceptable name but a broken description rule is
/// reported for its description.
pub proof fn law_name_then_description_first(o: CommandOption, name_check: PatternOutcome)
    ensures
        o.name@.len() == 0 ==> first_violation(o, name_check) == Some(ValidationError::EmptyName),
        o.name@.len() > 0 && encode_utf8(o.name@).len() > 32 ==> first_violation(o, name_check)
            == Some(ValidationError::NameTooLong),
        o.name@.len() > 0 && encode_utf8(o.name@).len() <= 32 && name_check
            == PatternOutcome::NotMatched ==> first_violation(o, name_check) == Some(
            ValidationError::NamePatternMismatch,
        ),
        o.name@.len() > 0 && encode_utf8(o.name@).len() <= 32 && name_check
            == PatternOutcome::Matched && o.description@.len() == 0 ==> first_violation(
            o,
            name_check,
        ) == Some(ValidationError::EmptyDescription),
        o.name@.len() > 0 && encode_utf8(o.name@).len() <= 32 && name_check
            == PatternOutcome::Matched && o.description@.len() > 0 && encode_utf8(
            o.description@,
        ).len() > 100 ==> first_violation(o, name_check) == Some(
            ValidationError::DescriptionTooLong,
        ),
{
}

} // verus!
