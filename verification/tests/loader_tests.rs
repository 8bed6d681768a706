use figcomplete::{
    get_bool, get_map, get_str, get_template, get_vec, load, parse, FigCommand, Template,
};

fn value(text: &str) -> serde_json::Value {
    serde_json::from_str(text).unwrap()
}

#[test]
fn malformed_subcommand_is_dropped_not_fatal() {
    let doc = value(
        "{\"name\":\"cmd\",\"subcommands\":[{\"description\":\"anonymous\"},{\"name\":\"ok\"}]}",
    );
    let grammar = FigCommand::new(&doc).unwrap();
    assert_eq!(grammar.subcommands.len(), 1);
    assert_eq!(grammar.subcommands[0].name, "ok".to_string());
}

#[test]
fn missing_root_name_is_fatal() {
    let doc = value("{\"subcommands\":[{\"name\":\"ok\"}]}");
    assert!(FigCommand::new(&doc).is_none());
}

#[test]
fn option_name_as_single_string() {
    let doc = value("{\"name\":\"cmd\",\"options\":[{\"name\":\"-f\"}]}");
    let grammar = FigCommand::new(&doc).unwrap();
    assert_eq!(grammar.options.len(), 1);
    assert_eq!(grammar.options[0].name, vec!["-f".to_string()]);
}

#[test]
fn option_name_as_array_of_strings() {
    let doc = value("{\"name\":\"cmd\",\"options\":[{\"name\":[\"-f\",\"--file\"]}]}");
    let grammar = FigCommand::new(&doc).unwrap();
    assert_eq!(grammar.options.len(), 1);
    assert_eq!(grammar.options[0].name, vec!["-f".to_string(), "--file".to_string()]);
}

#[test]
fn option_name_of_other_type_drops_the_option() {
    let doc = value("{\"name\":\"cmd\",\"options\":[{\"name\":3},{\"name\":\"-a\"}]}");
    let grammar = FigCommand::new(&doc).unwrap();
    assert_eq!(grammar.options.len(), 1);
    assert_eq!(grammar.options[0].name, vec!["-a".to_string()]);
}

#[test]
fn option_name_array_with_non_string_drops_the_option() {
    let doc = value("{\"name\":\"cmd\",\"options\":[{\"name\":[\"-f\",3]}]}");
    let grammar = FigCommand::new(&doc).unwrap();
    assert!(grammar.options.is_empty());
}

#[test]
fn argument_fields_default_when_absent() {
    let doc = value("{\"name\":\"cmd\",\"args\":[{\"name\":\"path\"}]}");
    let grammar = FigCommand::new(&doc).unwrap();
    assert_eq!(grammar.arguments.len(), 1);
    let a = &grammar.arguments[0];
    assert_eq!(a.name, "path".to_string());
    assert!(!a.optional);
    assert!(!a.variadic);
    assert!(a.template.is_empty());
    assert!(a.suggestions.is_empty());
}

#[test]
fn argument_flags_templates_and_suggestions_are_read() {
    let doc = value(
        "{\"name\":\"cmd\",\"args\":[{\"name\":\"p\",\"isOptional\":true,\"isVariadic\":true,\
         \"template\":[\"filepaths\",\"folders\",\"weird\"],\"suggestions\":[\"a\",\"b\"]}]}",
    );
    let grammar = FigCommand::new(&doc).unwrap();
    let a = &grammar.arguments[0];
    assert!(a.optional);
    assert!(a.variadic);
    assert_eq!(a.template, vec![Template::Files, Template::Folders]);
    assert_eq!(a.suggestions, vec!["a".to_string(), "b".to_string()]);
}

#[test]
fn argument_without_name_is_dropped() {
    let doc = value("{\"name\":\"cmd\",\"args\":[{\"isOptional\":true},{\"name\":\"kept\"}]}");
    let grammar = FigCommand::new(&doc).unwrap();
    assert_eq!(grammar.arguments.len(), 1);
    assert_eq!(grammar.arguments[0].name, "kept".to_string());
}

#[test]
fn subcommand_carries_its_own_options_and_args() {
    let doc = value(
        "{\"name\":\"cmd\",\"subcommands\":[{\"name\":\"run\",\"options\":[{\"name\":\"-q\"}],\
         \"args\":[{\"name\":\"target\"}]}]}",
    );
    let grammar = FigCommand::new(&doc).unwrap();
    let s = &grammar.subcommands[0];
    assert_eq!(s.name, "run".to_string());
    assert_eq!(s.options.len(), 1);
    assert_eq!(s.arguments.len(), 1);
}

#[test]
fn template_tags_map_to_kinds() {
    assert_eq!(get_template("filepaths"), Some(Template::Files));
    assert_eq!(get_template("folders"), Some(Template::Folders));
    assert_eq!(get_template("anything-else"), None);
}

#[test]
fn load_with_no_components_finds_nothing() {
    let defs = value("{\"git\":{\"name\":\"git\"}}");
    assert!(load(&Vec::new(), &defs).is_none());
}

#[test]
fn load_looks_the_first_token_up() {
    let defs = value("{\"git\":{\"name\":\"git\"}}");
    let found = load(&vec!["git".to_string(), "st".to_string()], &defs);
    assert!(found.is_some());
    assert!(load(&vec!["nope".to_string()], &defs).is_none());
}

#[test]
fn load_from_a_non_object_store_finds_nothing() {
    let defs = value("[1,2,3]");
    assert!(load(&vec!["git".to_string()], &defs).is_none());
}

#[test]
fn field_readers_extract_plain_values() {
    let doc = value("{\"s\":\"text\",\"b\":true,\"v\":[1,2],\"m\":{\"k\":1}}");
    assert_eq!(get_str(&doc, "s"), Some("text".to_string()));
    assert_eq!(get_str(&doc, "b"), None);
    assert_eq!(get_bool(&doc, "b"), Some(true));
    assert_eq!(get_bool(&doc, "s"), None);
    assert_eq!(get_vec(&doc, "v").map(|v| v.len()), Some(2));
    assert!(get_vec(&doc, "m").is_none());
    assert!(get_map(&doc, "m").is_some());
    assert!(get_map(&doc, "v").is_none());
}

#[test]
fn pipeline_completes_from_a_spec_store() {
    let defs = value(
        "{\"git\":{\"name\":\"git\",\"subcommands\":[{\"name\":\"status\"}],\
         \"options\":[{\"name\":[\"-v\",\"--verbose\"]}]}}",
    );
    let tokens = parse("git -").unwrap();
    let doc = load(&tokens, &defs).unwrap();
    let grammar = FigCommand::new(&doc).unwrap();
    let cands = grammar.completions(&figcomplete::Context { ctx: tokens });
    let names: Vec<String> = cands.iter().map(|c| c.name.clone()).collect();
    assert_eq!(names, vec!["--verbose".to_string()]);
}
