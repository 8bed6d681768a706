//! A shell command-line completion engine: it tokenizes the text a user has
//! typed so far, builds an in-memory grammar of the command from a declarative
//! spec document, classifies where in that grammar the cursor sits, and
//! produces the list of valid next tokens.

mod generator;
mod jsonval;
mod loader;
mod model;
mod present;
mod reader;
mod resolver;
mod strutil;
mod tokenizer;

pub use loader::{
    aliases_spec, ArgumentDoc, ArgumentDocView, build_argument_spec, build_grammar_spec,
    build_option_spec, build_subcommand_spec, built_arguments, built_options, built_subcommands,
    CommandDoc, CommandDocView, get_template, lemma_nameless_subcommand_dropped, NameField, NameFieldView, OptionDoc, OptionDocView,
    strings_spec, SubcommandDoc, SubcommandDocView, template_of, templates_spec,
};
pub use model::{
    Candidate, CandidateView, CmdArgument, CmdOption, Context, ContextKind, ContextView,
    FigCommand, GrammarView, ArgumentView, OptionView, Subcommand, SubcommandView, Template,
};
pub use generator::{
    all_alias_candidates, alias_candidates, argument_candidates, candidate_of,
    default_candidates, find_option, generate_spec, lemma_default_includes_every_alias,
    lemma_default_includes_every_subcommand, lemma_generate_deterministic, longest_alias,
    option_arg_candidates, option_candidates, subcommand_candidates,
};
pub use present::{candidate_lines, candidate_names, joined_with, prompt_of};
pub use jsonval::{bool_of, elems_of, field_of, map_keys, obj_keys, str_of};
pub use reader::{
    bool_field_of, elems_field_of, get_bool, get_map, get_str, get_vec, keys_field_of, load,
    name_field_spec, read_argument_spec, read_arguments_spec, read_command, read_command_spec,
    read_option_spec, read_options_spec, read_subcommand_spec, read_subcommands_spec,
    str_field_of, str_items_field_of, str_items_of,
};
pub use resolver::{
    argument_matches, argument_prefix_matches, last_non_empty, lemma_exact_subcommand_priority,
    lemma_prefix_subcommand_priority, option_has_alias, option_alias_prefixed, option_matches,
    option_prefix_matches, resolve_spec, subcommand_matches, subcommand_prefix_matches,
};
pub use strutil::{str_eq, str_starts_with};
pub use tokenizer::{parse, tokens_of, lemma_tokens_nonempty};
