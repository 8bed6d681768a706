use vstd::prelude::*;

verus! {

/// A filesystem completion hint attached to an argument: complete from files
/// or from folders. The hint is modeled here; expanding it into filesystem
/// candidates is an external responsibility.
#[derive(Debug, Clone, Copy, PartialEq, Eq, Structural)]
pub enum Template {
    Files,
    Folders,
}

/// One positional argument slot: its name, whether it is optional, whether it
/// accepts repeated values, its filesystem hints and its literal suggestions.
#[derive(Debug, Clone)]
pub struct CmdArgument {
    pub name: String,
    pub optional: bool,
    pub variadic: bool,
    pub template: Vec<Template>,
    pub suggestions: Vec<String>,
}

/// The mathematical value of a [`CmdArgument`].
pub ghost struct ArgumentView {
    pub name: Seq<char>,
    pub optional: bool,
    pub variadic: bool,
    pub template: Seq<Template>,
    pub suggestions: Seq<Seq<char>>,
}

impl View for CmdArgument {
    type V = ArgumentView;

    open spec fn view(&self) -> ArgumentView {
        ArgumentView {
            name: self.name@,
            optional: self.optional,
            variadic: self.variadic,
            template: self.template@,
            suggestions: self.suggestions.deep_view(),
        }
    }
}

impl DeepView for CmdArgument {
    type V = ArgumentView;

    open spec fn deep_view(&self) -> ArgumentView {
        self.view()
    }
}

/// One option: its alias names (short and long forms), an optional
/// description, and the argument slots it expects when invoked.
#[derive(Debug, Clone)]
pub struct CmdOption {
    pub name: Vec<String>,
    pub description: Option<String>,
    pub arguments: Vec<CmdArgument>,
}

/// The mathematical value of a [`CmdOption`].
pub ghost struct OptionView {
    pub name: Seq<Seq<char>>,
    pub description: Option<Seq<char>>,
    pub arguments: Seq<ArgumentView>,
}

impl View for CmdOption {
    type V = OptionView;

    open spec fn view(&self) -> OptionView {
        OptionView {
            name: self.name.deep_view(),
            description: self.description.deep_view(),
            arguments: self.arguments.deep_view(),
        }
    }
}

impl DeepView for CmdOption {
    type V = OptionView;

    open spec fn deep_view(&self) -> OptionView {
        self.view()
    }
}

/// One subcommand, one level deep: its name, optional description, and its
/// own options and arguments.
#[derive(Debug, Clone)]
pub struct Subcommand {
    pub name: String,
    pub description: Option<String>,
    pub options: Vec<CmdOption>,
    pub arguments: Vec<CmdArgument>,
}

/// The mathematical value of a [`Subcommand`].
pub ghost struct SubcommandView {
    pub name: Seq<char>,
    pub description: Option<Seq<char>>,
    pub options: Seq<OptionView>,
    pub arguments: Seq<ArgumentView>,
}

impl View for Subcommand {
    type V = SubcommandView;

    open spec fn view(&self) -> SubcommandView {
        SubcommandView {
            name: self.name@,
            description: self.description.deep_view(),
            options: self.options.deep_view(),
            arguments: self.arguments.deep_view(),
        }
    }
}

impl DeepView for Subcommand {
    type V = SubcommandView;

    open spec fn deep_view(&self) -> SubcommandView {
        self.view()
    }
}

/// The grammar of one command: its name and its top-level options, positional
/// arguments and subcommands. Built once per completion request from the
/// loaded spec document and immutable thereafter.
#[derive(Debug, Clone)]
pub struct FigCommand {
    pub cmd: String,
    pub options: Vec<CmdOption>,
    pub arguments: Vec<CmdArgument>,
    pub subcommands: Vec<Subcommand>,
}

/// The mathematical value of a [`FigCommand`].
pub ghost struct GrammarView {
    pub cmd: Seq<char>,
    pub options: Seq<OptionView>,
    pub arguments: Seq<ArgumentView>,
    pub subcommands: Seq<SubcommandView>,
}

impl View for FigCommand {
    type V = GrammarView;

    open spec fn view(&self) -> GrammarView {
        GrammarView {
            cmd: self.cmd@,
            options: self.options.deep_view(),
            arguments: self.arguments.deep_view(),
            subcommands: self.subcommands.deep_view(),
        }
    }
}

impl DeepView for FigCommand {
    type V = GrammarView;

    open spec fn deep_view(&self) -> GrammarView {
        self.view()
    }
}

/// The token sequence of one completion request: the components the user has
/// typed so far, in order.
#[derive(Debug, Clone)]
pub struct Context {
    pub ctx: Vec<String>,
}

impl View for Context {
    type V = Seq<Seq<char>>;

    open spec fn view(&self) -> Seq<Seq<char>> {
        self.ctx.deep_view()
    }
}

/// One completion suggestion: a display name and a (currently unused) preview
/// string.
#[derive(Debug, Clone)]
pub struct Candidate {
    pub name: String,
    pub preview: String,
}

/// The mathematical value of a [`Candidate`].
pub ghost struct CandidateView {
    pub name: Seq<char>,
    pub preview: Seq<char>,
}

impl View for Candidate {
    type V = CandidateView;

    open spec fn view(&self) -> CandidateView {
        CandidateView { name: self.name@, preview: self.preview@ }
    }
}

impl DeepView for Candidate {
    type V = CandidateView;

    open spec fn deep_view(&self) -> CandidateView {
        self.view()
    }
}

/// Where, within the command's grammar, the cursor currently sits.
///
/// The `In*` variants mean the last completed word exactly matches a known
/// name; the `Complete*` variants mean the user is mid-word and the partial
/// text is a prefix of at least one known name.
#[derive(Debug, Clone)]
pub enum ContextKind {
    InSubcommand(String),
    InArgument(String),
    InOption(String),
    CompleteSubcommand(String),
    CompleteOption(String),
    CompleteArgument(String),
    NoContext,
}

/// The mathematical value of a [`ContextKind`].
pub ghost enum ContextView {
    InSubcommand(Seq<char>),
    InArgument(Seq<char>),
    InOption(Seq<char>),
    CompleteSubcommand(Seq<char>),
    CompleteOption(Seq<char>),
    CompleteArgument(Seq<char>),
    NoContext,
}

impl View for ContextKind {
    type V = ContextView;

    open spec fn view(&self) -> ContextView {
        match self {
            ContextKind::InSubcommand(w) => ContextView::InSubcommand(w@),
            ContextKind::InArgument(w) => ContextView::InArgument(w@),
            ContextKind::InOption(w) => ContextView::InOption(w@),
            ContextKind::CompleteSubcommand(w) => ContextView::CompleteSubcommand(w@),
            ContextKind::CompleteOption(w) => ContextView::CompleteOption(w@),
            ContextKind::CompleteArgument(w) => ContextView::CompleteArgument(w@),
            ContextKind::NoContext => ContextView::NoContext,
        }
    }
}

} // verus!
