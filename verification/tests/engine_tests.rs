use figcomplete::{
    candidate_lines, prompt_of, Candidate, CmdArgument, CmdOption, Context, ContextKind,
    FigCommand, Subcommand,
};

fn arg(name: &str) -> CmdArgument {
    CmdArgument {
        name: name.to_string(),
        optional: false,
        variadic: false,
        template: Vec::new(),
        suggestions: Vec::new(),
    }
}

fn opt(aliases: &[&str], args: &[&str]) -> CmdOption {
    CmdOption {
        name: aliases.iter().map(|s| s.to_string()).collect(),
        description: None,
        arguments: args.iter().map(|a| arg(a)).collect(),
    }
}

fn sub(name: &str) -> Subcommand {
    Subcommand {
        name: name.to_string(),
        description: None,
        options: Vec::new(),
        arguments: Vec::new(),
    }
}

fn ctx(tokens: &[&str]) -> Context {
    Context { ctx: tokens.iter().map(|s| s.to_string()).collect() }
}

fn names(cands: &[Candidate]) -> Vec<String> {
    cands.iter().map(|c| c.name.clone()).collect()
}

#[test]
fn exact_match_resolves_to_subcommand_over_option() {
    let grammar = FigCommand {
        cmd: "git".to_string(),
        options: vec![opt(&["status"], &[])],
        arguments: Vec::new(),
        subcommands: vec![sub("status")],
    };
    let kind = grammar.context_kind(&ctx(&["git", "status", ""]));
    assert!(matches!(kind, ContextKind::InSubcommand(ref w) if w == "status"));
}

#[test]
fn prefix_match_resolves_to_subcommand_over_option() {
    let grammar = FigCommand {
        cmd: "git".to_string(),
        options: vec![opt(&["stash"], &[])],
        arguments: Vec::new(),
        subcommands: vec![sub("status")],
    };
    let kind = grammar.context_kind(&ctx(&["git", "st"]));
    assert!(matches!(kind, ContextKind::CompleteSubcommand(ref w) if w == "st"));
}

#[test]
fn in_option_yields_declared_argument_names() {
    let grammar = FigCommand {
        cmd: "cmd".to_string(),
        options: vec![opt(&["-f", "--file"], &["path"])],
        arguments: Vec::new(),
        subcommands: Vec::new(),
    };
    let kind = grammar.context_kind(&ctx(&["cmd", "-f", ""]));
    assert!(matches!(kind, ContextKind::InOption(ref w) if w == "-f"));
    let cands = grammar.completions(&ctx(&["cmd", "-f", ""]));
    assert_eq!(names(&cands), vec!["path".to_string()]);
}

#[test]
fn complete_option_displays_longest_alias() {
    let grammar = FigCommand {
        cmd: "cmd".to_string(),
        options: vec![opt(&["-v", "--verbose"], &[])],
        arguments: Vec::new(),
        subcommands: Vec::new(),
    };
    let cands = grammar.completions(&ctx(&["cmd", "-"]));
    assert_eq!(names(&cands), vec!["--verbose".to_string()]);
}

#[test]
fn no_context_suggests_every_alias_and_subcommand() {
    let grammar = FigCommand {
        cmd: "cmd".to_string(),
        options: vec![opt(&["-a"], &[]), opt(&["-b", "--b-long"], &[])],
        arguments: Vec::new(),
        subcommands: vec![sub("x"), sub("y")],
    };
    let cands = grammar.completions(&ctx(&["cmd", "zzz", ""]));
    assert_eq!(
        names(&cands),
        vec![
            "-a".to_string(),
            "-b".to_string(),
            "--b-long".to_string(),
            "x".to_string(),
            "y".to_string(),
        ]
    );
}

#[test]
fn in_subcommand_falls_back_to_full_suggestion_set() {
    let grammar = FigCommand {
        cmd: "cmd".to_string(),
        options: vec![opt(&["-a"], &[])],
        arguments: Vec::new(),
        subcommands: vec![sub("x")],
    };
    let cands = grammar.completions(&ctx(&["cmd", "x", ""]));
    assert_eq!(names(&cands), vec!["-a".to_string(), "x".to_string()]);
}

#[test]
fn complete_subcommand_falls_back_to_full_suggestion_set() {
    let grammar = FigCommand {
        cmd: "cmd".to_string(),
        options: vec![opt(&["-a"], &[])],
        arguments: Vec::new(),
        subcommands: vec![sub("status")],
    };
    let cands = grammar.completions(&ctx(&["cmd", "st"]));
    assert_eq!(names(&cands), vec!["-a".to_string(), "status".to_string()]);
}

#[test]
fn in_argument_yields_nothing() {
    let grammar = FigCommand {
        cmd: "cmd".to_string(),
        options: Vec::new(),
        arguments: vec![arg("path")],
        subcommands: Vec::new(),
    };
    let kind = grammar.context_kind(&ctx(&["cmd", "path", ""]));
    assert!(matches!(kind, ContextKind::InArgument(ref w) if w == "path"));
    let cands = grammar.completions(&ctx(&["cmd", "path", ""]));
    assert!(cands.is_empty());
}

#[test]
fn complete_argument_filters_by_prefix() {
    let grammar = FigCommand {
        cmd: "cmd".to_string(),
        options: Vec::new(),
        arguments: vec![arg("alpha"), arg("beta")],
        subcommands: Vec::new(),
    };
    let cands = grammar.completions(&ctx(&["cmd", "al"]));
    assert_eq!(names(&cands), vec!["alpha".to_string()]);
}

#[test]
fn empty_token_sequence_gives_default_suggestions() {
    let grammar = FigCommand {
        cmd: "cmd".to_string(),
        options: vec![opt(&["-a"], &[])],
        arguments: Vec::new(),
        subcommands: vec![sub("x")],
    };
    let cands = grammar.completions(&Context { ctx: Vec::new() });
    assert_eq!(names(&cands), vec!["-a".to_string(), "x".to_string()]);
}

#[test]
fn repeated_resolution_and_generation_is_deterministic() {
    let grammar = FigCommand {
        cmd: "cmd".to_string(),
        options: vec![opt(&["-v", "--verbose"], &["level"])],
        arguments: vec![arg("path")],
        subcommands: vec![sub("run")],
    };
    let c = ctx(&["cmd", "-"]);
    let first = names(&grammar.completions(&c));
    let second = names(&grammar.completions(&c));
    let third = names(&grammar.completions(&c));
    assert_eq!(first, second);
    assert_eq!(second, third);
}

#[test]
fn completions_twice_returns_identical_lists() {
    let grammar = FigCommand {
        cmd: "cmd".to_string(),
        options: vec![opt(&["-v", "--verbose"], &["level"])],
        arguments: vec![arg("path")],
        subcommands: vec![sub("run")],
    };
    let c = ctx(&["cmd", "-v", ""]);
    let (first, second) = grammar.completions_twice(&c);
    assert_eq!(names(&first), names(&second));
    assert_eq!(names(&first), vec!["level".to_string()]);
}

#[test]
fn candidate_lines_joins_names_with_newlines() {
    let cands = vec![
        Candidate { name: "one".to_string(), preview: String::new() },
        Candidate { name: "two".to_string(), preview: String::new() },
    ];
    assert_eq!(candidate_lines(&cands), "one\ntwo".to_string());
}

#[test]
fn candidate_lines_of_nothing_is_empty() {
    assert_eq!(candidate_lines(&Vec::new()), String::new());
}

#[test]
fn prompt_joins_tokens_with_spaces() {
    let c = ctx(&["git", "st"]);
    assert_eq!(prompt_of(&c), "git st".to_string());
}
