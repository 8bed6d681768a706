use vstd::prelude::*;
use crate::model::{ArgumentView, CmdArgument, CmdOption, FigCommand, GrammarView, OptionView,
    Subcommand, SubcommandView, Template};
use crate::strutil::str_eq;

verus! {

/// How the `name` field of an option document was given: absent (or of an
/// unrecognized type), a single string, or a list whose elements each may or
/// may not have been strings.
#[derive(Debug, Clone)]
pub enum NameField {
    Absent,
    Single(String),
    Listed(Vec<Option<String>>),
}

/// The mathematical value of a [`NameField`].
pub ghost enum NameFieldView {
    Absent,
    Single(Seq<char>),
    Listed(Seq<Option<Seq<char>>>),
}

impl View for NameField {
    type V = NameFieldView;

    open spec fn view(&self) -> NameFieldView {
        match self {
            NameField::Absent => NameFieldView::Absent,
            NameField::Single(s) => NameFieldView::Single(s@),
            NameField::Listed(items) => NameFieldView::Listed(items.deep_view()),
        }
    }
}

/// The raw reads of one argument document, before validation: each field as
/// the spec store gave it, `None` where it was absent or not of the expected
/// type. List entries that were not strings are `None`.
#[derive(Debug, Clone)]
pub struct ArgumentDoc {
    pub name: Option<String>,
    pub is_optional: Option<bool>,
    pub is_variadic: Option<bool>,
    pub template: Option<Vec<Option<String>>>,
    pub suggestions: Option<Vec<Option<String>>>,
}

/// The mathematical value of an [`ArgumentDoc`].
pub ghost struct ArgumentDocView {
    pub name: Option<Seq<char>>,
    pub is_optional: Option<bool>,
    pub is_variadic: Option<bool>,
    pub template: Option<Seq<Option<Seq<char>>>>,
    pub suggestions: Option<Seq<Option<Seq<char>>>>,
}

impl View for ArgumentDoc {
    type V = ArgumentDocView;

    open spec fn view(&self) -> ArgumentDocView {
        ArgumentDocView {
            name: self.name.deep_view(),
            is_optional: self.is_optional,
            is_variadic: self.is_variadic,
            template: self.template.deep_view(),
            suggestions: self.suggestions.deep_view(),
        }
    }
}

impl DeepView for ArgumentDoc {
    type V = ArgumentDocView;

    open spec fn deep_view(&self) -> ArgumentDocView {
        self.view()
    }
}

/// The raw reads of one option document, before validation.
#[derive(Debug, Clone)]
pub struct OptionDoc {
    pub name: NameField,
    pub description: Option<String>,
    pub args: Vec<ArgumentDoc>,
}

/// The mathematical value of an [`OptionDoc`].
pub ghost struct OptionDocView {
    pub name: NameFieldView,
    pub description: Option<Seq<char>>,
    pub args: Seq<ArgumentDocView>,
}

impl View for OptionDoc {
    type V = OptionDocView;

    open spec fn view(&self) -> OptionDocView {
        OptionDocView {
            name: self.name@,
            description: self.description.deep_view(),
            args: self.args.deep_view(),
        }
    }
}

impl DeepView for OptionDoc {
    type V = OptionDocView;

    open spec fn deep_view(&self) -> OptionDocView {
        self.view()
    }
}

/// The raw reads of one subcommand document, before validation.
#[derive(Debug, Clone)]
pub struct SubcommandDoc {
    pub name: Option<String>,
    pub description: Option<String>,
    pub options: Vec<OptionDoc>,
    pub args: Vec<ArgumentDoc>,
}

/// The mathematical value of a [`SubcommandDoc`].
pub ghost struct SubcommandDocView {
    pub name: Option<Seq<char>>,
    pub description: Option<Seq<char>>,
    pub options: Seq<OptionDocView>,
    pub args: Seq<ArgumentDocView>,
}

impl View for SubcommandDoc {
    type V = SubcommandDocView;

    open spec fn view(&self) -> SubcommandDocView {
        SubcommandDocView {
            name: self.name.deep_view(),
            description: self.description.deep_view(),
            options: self.options.deep_view(),
            args: self.args.deep_view(),
        }
    }
}

impl DeepView for SubcommandDoc {
    type V = SubcommandDocView;

    open spec fn deep_view(&self) -> SubcommandDocView {
        self.view()
    }
}

/// The raw reads of a whole command document, before validation.
#[derive(Debug, Clone)]
pub struct CommandDoc {
    pub name: Option<String>,
    pub args: Vec<ArgumentDoc>,
    pub options: Vec<OptionDoc>,
    pub subcommands: Vec<SubcommandDoc>,
}

/// The mathematical value of a [`CommandDoc`].
pub ghost struct CommandDocView {
    pub name: Option<Seq<char>>,
    pub args: Seq<ArgumentDocView>,
    pub options: Seq<OptionDocView>,
    pub subcommands: Seq<SubcommandDocView>,
}

impl View for CommandDoc {
    type V = CommandDocView;

    open spec fn view(&self) -> CommandDocView {
        CommandDocView {
            name: self.name.deep_view(),
            args: self.args.deep_view(),
            options: self.options.deep_view(),
            subcommands: self.subcommands.deep_view(),
        }
    }
}

/// The template kind that tag `tag` denotes, if recognized.
pub open spec fn template_of(tag: Seq<char>) -> Option<Template> {
    if tag == "filepaths"@ {
        Option::Some(Template::Files)
    } else if tag == "folders"@ {
        Option::Some(Template::Folders)
    } else {
        Option::None
    }
}

/// The recognized template kinds among the raw `template` entries, in order:
/// entries that were not strings, and unrecognized tags, are ignored.
pub open spec fn templates_spec(items: Seq<Option<Seq<char>>>) -> Seq<Template>
    decreases items.len(),
{
    if items.len() == 0 {
        Seq::empty()
    } else {
        let rest = templates_spec(items.drop_last());
        match items.last() {
            Option::Some(tag) => match template_of(tag) {
                Option::Some(t) => rest.push(t),
                Option::None => rest,
            },
            Option::None => rest,
        }
    }
}

/// The string entries among raw list entries, in order: entries that were not
/// strings are ignored.
pub open spec fn strings_spec(items: Seq<Option<Seq<char>>>) -> Seq<Seq<char>>
    decreases items.len(),
{
    if items.len() == 0 {
        Seq::empty()
    } else {
        let rest = strings_spec(items.drop_last());
        match items.last() {
            Option::Some(s) => rest.push(s),
            Option::None => rest,
        }
    }
}

/// The argument that an argument document denotes: `None` exactly when the
/// required `name` is missing. Absent flags default to `false`; absent
/// `template` and `suggestions` lists default to empty.
pub open spec fn build_argument_spec(d: ArgumentDocView) -> Option<ArgumentView> {
    match d.name {
        Option::None => Option::None,
        Option::Some(n) => Option::Some(
            ArgumentView {
                name: n,
                optional: match d.is_optional {
                    Option::Some(b) => b,
                    Option::None => false,
                },
                variadic: match d.is_variadic {
                    Option::Some(b) => b,
                    Option::None => false,
                },
                template: templates_spec(
                    match d.template {
                        Option::Some(t) => t,
                        Option::None => Seq::empty(),
                    },
                ),
                suggestions: strings_spec(
                    match d.suggestions {
                        Option::Some(s) => s,
                        Option::None => Seq::empty(),
                    },
                ),
            },
        ),
    }
}

/// The alias list a raw `name` field denotes: a single string gives one
/// alias; a list of strings gives them all, an empty list included; an
/// absent name, a name of another type, or a list holding a non-string
/// element gives none, and the option is skipped.
pub open spec fn aliases_spec(n: NameFieldView) -> Option<Seq<Seq<char>>> {
    match n {
        NameFieldView::Absent => Option::None,
        NameFieldView::Single(s) => Option::Some(seq![s]),
        NameFieldView::Listed(items) => {
            if forall|i: int| 0 <= i < items.len() ==> items[i] is Some {
                Option::Some(items.map_values(|o: Option<Seq<char>>| o.unwrap()))
            } else {
                Option::None
            }
        },
    }
}

/// The arguments that a list of argument documents denotes: each document
/// missing its `name` is dropped, not fatal.
pub open spec fn built_arguments(docs: Seq<ArgumentDocView>) -> Seq<ArgumentView>
    decreases docs.len(),
{
    if docs.len() == 0 {
        Seq::empty()
    } else {
        let rest = built_arguments(docs.drop_last());
        match build_argument_spec(docs.last()) {
            Option::Some(a) => rest.push(a),
            Option::None => rest,
        }
    }
}

/// The option that an option document denotes: `None` exactly when the raw
/// `name` field denotes no alias list.
pub open spec fn build_option_spec(d: OptionDocView) -> Option<OptionView> {
    match aliases_spec(d.name) {
        Option::None => Option::None,
        Option::Some(aliases) => Option::Some(
            OptionView { name: aliases, description: d.description, arguments: built_arguments(d.args) },
        ),
    }
}

/// The options that a list of option documents denotes: each document with an
/// unusable `name` is dropped, not fatal.
pub open spec fn built_options(docs: Seq<OptionDocView>) -> Seq<OptionView>
    decreases docs.len(),
{
    if docs.len() == 0 {
        Seq::empty()
    } else {
        let rest = built_options(docs.drop_last());
        match build_option_spec(docs.last()) {
            Option::Some(o) => rest.push(o),
            Option::None => rest,
        }
    }
}

/// The subcommand that a subcommand document denotes: `None` exactly when the
/// required `name` is missing.
pub open spec fn build_subcommand_spec(d: SubcommandDocView) -> Option<SubcommandView> {
    match d.name {
        Option::None => Option::None,
        Option::Some(n) => Option::Some(
            SubcommandView {
                name: n,
                description: d.description,
                options: built_options(d.options),
                arguments: built_arguments(d.args),
            },
        ),
    }
}

/// The subcommands that a list of subcommand documents denotes: each document
/// missing its `name` is dropped, not fatal.
pub open spec fn built_subcommands(docs: Seq<SubcommandDocView>) -> Seq<SubcommandView>
    decreases docs.len(),
{
    if docs.len() == 0 {
        Seq::empty()
    } else {
        let rest = built_subcommands(docs.drop_last());
        match build_subcommand_spec(docs.last()) {
            Option::Some(s) => rest.push(s),
            Option::None => rest,
        }
    }
}

/// A subcommand document missing its required `name` contributes nothing:
/// the build of a document list with such an element equals the build of the
/// list without it — the malformed element is dropped, never fatal to the
/// whole load.
pub proof fn lemma_nameless_subcommand_dropped(docs: Seq<SubcommandDocView>, i: int)
    requires
        0 <= i < docs.len(),
        docs[i].name is None,
    ensures
        built_subcommands(docs) == built_subcommands(docs.remove(i)),
    decreases docs.len(),
{
    if i == docs.len() - 1 {
        assert(docs.remove(i) =~= docs.drop_last());
        assert(build_subcommand_spec(docs.last()) is None);
    } else {
        lemma_nameless_subcommand_dropped(docs.drop_last(), i);
        assert(docs.remove(i).drop_last() =~= docs.drop_last().remove(i));
        assert(docs.remove(i).last() == docs.last());
    }
}

/// The grammar that a command document denotes: `None` exactly when the
/// required root `name` is missing — that, and only that, is fatal for the
/// whole command. Malformed nested elements are dropped one by one.
pub open spec fn build_grammar_spec(d: CommandDocView) -> Option<GrammarView> {
    match d.name {
        Option::None => Option::None,
        Option::Some(n) => Option::Some(
            GrammarView {
                cmd: n,
                options: built_options(d.options),
                arguments: built_arguments(d.args),
                subcommands: built_subcommands(d.subcommands),
            },
        ),
    }
}

/// Maps a template tag to its template kind: `"filepaths"` means files,
/// `"folders"` means folders, anything else is unrecognized.
pub fn get_template(value: &str) -> (r: Option<Template>)
    ensures
        r == template_of(value@),
{
    if str_eq(value, "filepaths") {
        Some(Template::Files)
    } else if str_eq(value, "folders") {
        Some(Template::Folders)
    } else {
        None
    }
}

fn build_templates(items: &Vec<Option<String>>) -> (r: Vec<Template>)
    ensures
        r@ == templates_spec(items.deep_view()),
{
    let ghost dv = items.deep_view();
    let mut out: Vec<Template> = Vec::new();
    let n = items.len();
    let mut i: usize = 0;
    proof {
        assert(templates_spec(dv.subrange(0, 0)) =~= Seq::<Template>::empty());
        assert(out@ =~= templates_spec(dv.subrange(0, 0)));
    }
    while i < n
        invariant
            i <= n,
            n == items.len(),
            dv == items.deep_view(),
            out@ == templates_spec(dv.subrange(0, i as int)),
        decreases n - i,
    {
        proof {
            assert(dv[i as int] == items@[i as int].deep_view());
            assert(dv.subrange(0, i as int + 1).drop_last() =~= dv.subrange(0, i as int));
            assert(dv.subrange(0, i as int + 1).last() == dv[i as int]);
        }
        match &items[i] {
            Option::Some(tag) => {
                match get_template(tag.as_str()) {
                    Option::Some(t) => {
                        out.push(t);
                    },
                    Option::None => {},
                }
            },
            Option::None => {},
        }
        i += 1;
    }
    proof {
        assert(dv.subrange(0, n as int) =~= dv);
    }
    out
}

fn build_strings(items: &Vec<Option<String>>) -> (r: Vec<String>)
    ensures
        r.deep_view() == strings_spec(items.deep_view()),
{
    let ghost dv = items.deep_view();
    let mut out: Vec<String> = Vec::new();
    let n = items.len();
    let mut i: usize = 0;
    proof {
        assert(strings_spec(dv.subrange(0, 0)) =~= Seq::<Seq<char>>::empty());
        assert(out.deep_view() =~= strings_spec(dv.subrange(0, 0)));
    }
    while i < n
        invariant
            i <= n,
            n == items.len(),
            dv == items.deep_view(),
            out.deep_view() == strings_spec(dv.subrange(0, i as int)),
        decreases n - i,
    {
        let ghost prev = out.deep_view();
        proof {
            assert(dv[i as int] == items@[i as int].deep_view());
            assert(dv.subrange(0, i as int + 1).drop_last() =~= dv.subrange(0, i as int));
            assert(dv.subrange(0, i as int + 1).last() == dv[i as int]);
        }
        match &items[i] {
            Option::Some(s) => {
                out.push(s.clone());
                proof {
                    assert(out.deep_view() =~= prev.push(items@[i as int].unwrap()@));
                }
            },
            Option::None => {},
        }
        i += 1;
    }
    proof {
        assert(dv.subrange(0, n as int) =~= dv);
    }
    out
}

fn build_aliases(n: &NameField) -> (r: Option<Vec<String>>)
    ensures
        r.deep_view() == aliases_spec(n@),
{
    match n {
        NameField::Absent => None,
        NameField::Single(s) => {
            let mut one: Vec<String> = Vec::new();
            one.push(s.clone());
            proof {
                assert(one.deep_view() =~= seq![s@]);
            }
            Some(one)
        },
        NameField::Listed(items) => {
            let ghost dv = items.deep_view();
            proof {
                assert(n@ == NameFieldView::Listed(dv));
            }
            let mut out: Vec<String> = Vec::new();
            let m = items.len();
            let mut i: usize = 0;
            while i < m
                invariant
                    i <= m,
                    m == items.len(),
                    dv == items.deep_view(),
                    n@ == NameFieldView::Listed(dv),
                    out.len() == i,
                    forall|k: int| 0 <= k < i ==> dv[k] is Some,
                    forall|k: int| 0 <= k < i ==> out.deep_view()[k] == dv[k].unwrap(),
                decreases m - i,
            {
                proof {
                    assert(dv[i as int] == items@[i as int].deep_view());
                }
                match &items[i] {
                    Option::Some(s) => {
                        let ghost prev = out.deep_view();
                        out.push(s.clone());
                        proof {
                            assert(out.deep_view() =~= prev.push(s@));
                        }
                    },
                    Option::None => {
                        proof {
                            assert(n@ == NameFieldView::Listed(dv));
                            assert(dv[i as int] is None);
                            assert(!(forall|k: int| 0 <= k < dv.len() ==> dv[k] is Some));
                            assert(aliases_spec(n@) is None);
                        }
                        return None;
                    },
                }
                i += 1;
            }
            proof {
                assert(forall|k: int| 0 <= k < dv.len() ==> dv[k] is Some);
                assert(out.deep_view() =~= dv.map_values(|o: Option<Seq<char>>| o.unwrap()));
            }
            Some(out)
        },
    }
}

fn build_argument(d: &ArgumentDoc) -> (r: Option<CmdArgument>)
    ensures
        match r {
            Option::Some(a) => build_argument_spec(d@) == Option::Some(a@),
            Option::None => build_argument_spec(d@) is None,
        },
{
    let name = match &d.name {
        Option::Some(n) => n.clone(),
        Option::None => {
            return None;
        },
    };
    let optional = match d.is_optional {
        Option::Some(b) => b,
        Option::None => false,
    };
    let variadic = match d.is_variadic {
        Option::Some(b) => b,
        Option::None => false,
    };
    let template = match &d.template {
        Option::Some(items) => build_templates(items),
        Option::None => {
            let empty: Vec<Template> = Vec::new();
            proof {
                assert(templates_spec(Seq::<Option<Seq<char>>>::empty()) =~= Seq::<
                    Template,
                >::empty());
                assert(empty@ =~= templates_spec(Seq::<Option<Seq<char>>>::empty()));
            }
            empty
        },
    };
    let suggestions = match &d.suggestions {
        Option::Some(items) => build_strings(items),
        Option::None => {
            let empty: Vec<String> = Vec::new();
            proof {
                assert(strings_spec(Seq::<Option<Seq<char>>>::empty()) =~= Seq::<
                    Seq<char>,
                >::empty());
                assert(empty.deep_view() =~= strings_spec(Seq::<Option<Seq<char>>>::empty()));
            }
            empty
        },
    };
    Some(CmdArgument { name, optional, variadic, template, suggestions })
}

fn build_arguments_list(docs: &Vec<ArgumentDoc>) -> (r: Vec<CmdArgument>)
    ensures
        r.deep_view() == built_arguments(docs.deep_view()),
{
    let ghost dv = docs.deep_view();
    let mut out: Vec<CmdArgument> = Vec::new();
    let n = docs.len();
    let mut i: usize = 0;
    proof {
        assert(built_arguments(dv.subrange(0, 0)) =~= Seq::<ArgumentView>::empty());
        assert(out.deep_view() =~= built_arguments(dv.subrange(0, 0)));
    }
    while i < n
        invariant
            i <= n,
            n == docs.len(),
            dv == docs.deep_view(),
            out.deep_view() == built_arguments(dv.subrange(0, i as int)),
        decreases n - i,
    {
        let ghost prev = out.deep_view();
        proof {
            assert(dv[i as int] == docs@[i as int]@);
            assert(dv.subrange(0, i as int + 1).drop_last() =~= dv.subrange(0, i as int));
            assert(dv.subrange(0, i as int + 1).last() == dv[i as int]);
        }
        match build_argument(&docs[i]) {
            Option::Some(a) => {
                out.push(a);
                proof {
                    assert(out.deep_view() =~= prev.push(
                        build_argument_spec(dv[i as int]).unwrap(),
                    ));
                }
            },
            Option::None => {},
        }
        i += 1;
    }
    proof {
        assert(dv.subrange(0, n as int) =~= dv);
    }
    out
}

fn build_option(d: &OptionDoc) -> (r: Option<CmdOption>)
    ensures
        match r {
            Option::Some(o) => build_option_spec(d@) == Option::Some(o@),
            Option::None => build_option_spec(d@) is None,
        },
{
    let name = match build_aliases(&d.name) {
        Option::Some(aliases) => aliases,
        Option::None => {
            return None;
        },
    };
    let description = match &d.description {
        Option::Some(s) => Option::Some(s.clone()),
        Option::None => Option::None,
    };
    let arguments = build_arguments_list(&d.args);
    Some(CmdOption { name, description, arguments })
}

fn build_options_list(docs: &Vec<OptionDoc>) -> (r: Vec<CmdOption>)
    ensures
        r.deep_view() == built_options(docs.deep_view()),
{
    let ghost dv = docs.deep_view();
    let mut out: Vec<CmdOption> = Vec::new();
    let n = docs.len();
    let mut i: usize = 0;
    proof {
        assert(built_options(dv.subrange(0, 0)) =~= Seq::<OptionView>::empty());
        assert(out.deep_view() =~= built_options(dv.subrange(0, 0)));
    }
    while i < n
        invariant
            i <= n,
            n == docs.len(),
            dv == docs.deep_view(),
            out.deep_view() == built_options(dv.subrange(0, i as int)),
        decreases n - i,
    {
        let ghost prev = out.deep_view();
        proof {
            assert(dv[i as int] == docs@[i as int]@);
            assert(dv.subrange(0, i as int + 1).drop_last() =~= dv.subrange(0, i as int));
            assert(dv.subrange(0, i as int + 1).last() == dv[i as int]);
        }
        match build_option(&docs[i]) {
            Option::Some(o) => {
                out.push(o);
                proof {
                    assert(out.deep_view() =~= prev.push(build_option_spec(dv[i as int]).unwrap()));
                }
            },
            Option::None => {},
        }
        i += 1;
    }
    proof {
        assert(dv.subrange(0, n as int) =~= dv);
    }
    out
}

fn build_subcommand(d: &SubcommandDoc) -> (r: Option<Subcommand>)
    ensures
        match r {
            Option::Some(s) => build_subcommand_spec(d@) == Option::Some(s@),
            Option::None => build_subcommand_spec(d@) is None,
        },
{
    let name = match &d.name {
        Option::Some(n) => n.clone(),
        Option::None => {
            return None;
        },
    };
    let description = match &d.description {
        Option::Some(s) => Option::Some(s.clone()),
        Option::None => Option::None,
    };
    let options = build_options_list(&d.options);
    let arguments = build_arguments_list(&d.args);
    Some(Subcommand { name, description, options, arguments })
}

fn build_subcommands_list(docs: &Vec<SubcommandDoc>) -> (r: Vec<Subcommand>)
    ensures
        r.deep_view() == built_subcommands(docs.deep_view()),
{
    let ghost dv = docs.deep_view();
    let mut out: Vec<Subcommand> = Vec::new();
    let n = docs.len();
    let mut i: usize = 0;
    proof {
        assert(built_subcommands(dv.subrange(0, 0)) =~= Seq::<SubcommandView>::empty());
        assert(out.deep_view() =~= built_subcommands(dv.subrange(0, 0)));
    }
    while i < n
        invariant
            i <= n,
            n == docs.len(),
            dv == docs.deep_view(),
            out.deep_view() == built_subcommands(dv.subrange(0, i as int)),
        decreases n - i,
    {
        let ghost prev = out.deep_view();
        proof {
            assert(dv[i as int] == docs@[i as int]@);
            assert(dv.subrange(0, i as int + 1).drop_last() =~= dv.subrange(0, i as int));
            assert(dv.subrange(0, i as int + 1).last() == dv[i as int]);
        }
        match build_subcommand(&docs[i]) {
            Option::Some(s) => {
                out.push(s);
                proof {
                    assert(out.deep_view() =~= prev.push(
                        build_subcommand_spec(dv[i as int]).unwrap(),
                    ));
                }
            },
            Option::None => {},
        }
        i += 1;
    }
    proof {
        assert(dv.subrange(0, n as int) =~= dv);
    }
    out
}

impl FigCommand {
    /// Builds the grammar a command document denotes: fails exactly when the
    /// root `name` is missing; malformed nested elements are silently
    /// dropped, so a partial spec degrades to a smaller but usable grammar.
    pub fn build(d: &CommandDoc) -> (r: Option<FigCommand>)
        ensures
            match r {
                Option::Some(g) => build_grammar_spec(d@) == Option::Some(g@),
                Option::None => build_grammar_spec(d@) is None,
            },
    {
        let cmd = match &d.name {
            Option::Some(n) => n.clone(),
            Option::None => {
                return None;
            },
        };
        let arguments = build_arguments_list(&d.args);
        let options = build_options_list(&d.options);
        let subcommands = build_subcommands_list(&d.subcommands);
        Some(FigCommand { cmd, options, arguments, subcommands })
    }
}

} // verus!
