# builders

Validated construction of Discord application-command options, with the
decisions of the bot that serves its commands.

- `src/command_option.rs`: the option model, its builder, and the checks that
  `build` runs, stated as a specification and proved.
- `src/localization.rs`: localization dictionaries as lists with distinct
  locales, where a later pair for a locale replaces an earlier one.
- `src/name_pattern.rs`: matching names against the name grammar through the
  `regex` crate.
- `src/dispatch.rs`: which handler serves an interaction, and what a gateway
  event leads to.
- `app/`: the bot itself (gateway, HTTP, twilight models), around the library.
