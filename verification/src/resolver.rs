use vstd::prelude::*;
use crate::model::{Context, ContextKind, ContextView, CmdArgument, CmdOption, FigCommand,
    GrammarView, OptionView, Subcommand};
use crate::strutil::{str_eq, str_starts_with};

verus! {

/// Whether `w` exactly equals the name of some subcommand of `g`.
pub open spec fn subcommand_matches(g: GrammarView, w: Seq<char>) -> bool {
    exists|i: int| 0 <= i < g.subcommands.len() && g.subcommands[i].name == w
}

/// Whether `w` exactly equals one of the alias names of option `o`.
pub open spec fn option_has_alias(o: OptionView, w: Seq<char>) -> bool {
    exists|j: int| 0 <= j < o.name.len() && o.name[j] == w
}

/// Whether `w` exactly equals an alias of some option of `g`.
pub open spec fn option_matches(g: GrammarView, w: Seq<char>) -> bool {
    exists|i: int| 0 <= i < g.options.len() && option_has_alias(g.options[i], w)
}

/// Whether `w` exactly equals the name of some top-level argument of `g`.
pub open spec fn argument_matches(g: GrammarView, w: Seq<char>) -> bool {
    exists|i: int| 0 <= i < g.arguments.len() && g.arguments[i].name == w
}

/// Whether `w` is a prefix of the name of some subcommand of `g`.
pub open spec fn subcommand_prefix_matches(g: GrammarView, w: Seq<char>) -> bool {
    exists|i: int| 0 <= i < g.subcommands.len() && w.is_prefix_of(g.subcommands[i].name)
}

/// Whether `w` is a prefix of one of the alias names of option `o`.
pub open spec fn option_alias_prefixed(o: OptionView, w: Seq<char>) -> bool {
    exists|j: int| 0 <= j < o.name.len() && w.is_prefix_of(o.name[j])
}

/// Whether `w` is a prefix of an alias of some option of `g`.
pub open spec fn option_prefix_matches(g: GrammarView, w: Seq<char>) -> bool {
    exists|i: int| 0 <= i < g.options.len() && option_alias_prefixed(g.options[i], w)
}

/// Whether `w` is a prefix of the name of some top-level argument of `g`.
pub open spec fn argument_prefix_matches(g: GrammarView, w: Seq<char>) -> bool {
    exists|i: int| 0 <= i < g.arguments.len() && w.is_prefix_of(g.arguments[i].name)
}

/// The nearest non-empty token from the end of `toks`, if any.
pub open spec fn last_non_empty(toks: Seq<Seq<char>>) -> Option<Seq<char>>
    decreases toks.len(),
{
    if toks.len() == 0 {
        Option::None
    } else if toks.last().len() > 0 {
        Option::Some(toks.last())
    } else {
        last_non_empty(toks.drop_last())
    }
}

/// The context that the token sequence `toks` resolves to under grammar `g`.
///
/// An empty sequence resolves to no context. When the last token is empty
/// (the user just typed a space), the nearest non-empty token is tested for
/// exact equality against subcommand names, then option aliases, then
/// argument names, in that fixed priority order. When the last token is
/// non-empty (the user is mid-word), it is tested as a prefix in the same
/// priority order.
/// The context that a committed word `w` (the user typed a space after it)
/// resolves to: exact matches, subcommands first, then options, then
/// arguments.
pub open spec fn classify_committed(g: GrammarView, w: Seq<char>) -> ContextView {
    if subcommand_matches(g, w) {
        ContextView::InSubcommand(w)
    } else if option_matches(g, w) {
        ContextView::InOption(w)
    } else if argument_matches(g, w) {
        ContextView::InArgument(w)
    } else {
        ContextView::NoContext
    }
}

/// The context that a partial word `w` (the user is still typing it) resolves
/// to: prefix matches, subcommands first, then options, then arguments.
pub open spec fn classify_partial(g: GrammarView, w: Seq<char>) -> ContextView {
    if subcommand_prefix_matches(g, w) {
        ContextView::CompleteSubcommand(w)
    } else if option_prefix_matches(g, w) {
        ContextView::CompleteOption(w)
    } else if argument_prefix_matches(g, w) {
        ContextView::CompleteArgument(w)
    } else {
        ContextView::NoContext
    }
}

pub open spec fn resolve_spec(toks: Seq<Seq<char>>, g: GrammarView) -> ContextView {
    if toks.len() == 0 {
        ContextView::NoContext
    } else if toks.last().len() == 0 {
        match last_non_empty(toks) {
            Option::None => ContextView::NoContext,
            Option::Some(w) => classify_committed(g, w),
        }
    } else {
        classify_partial(g, toks.last())
    }
}

/// A word that exactly matches a subcommand name resolves to the subcommand
/// variant, never to an option or argument variant, whatever else it matches.
pub proof fn lemma_exact_subcommand_priority(toks: Seq<Seq<char>>, g: GrammarView, w: Seq<char>)
    requires
        toks.len() > 0,
        toks.last().len() == 0,
        last_non_empty(toks) == Option::Some(w),
        subcommand_matches(g, w),
    ensures
        resolve_spec(toks, g) == ContextView::InSubcommand(w),
{
}

/// A partial word that is a prefix of a subcommand name resolves to the
/// subcommand completion variant, never to an option or argument variant,
/// whatever else it is a prefix of.
pub proof fn lemma_prefix_subcommand_priority(toks: Seq<Seq<char>>, g: GrammarView)
    requires
        toks.len() > 0,
        toks.last().len() > 0,
        subcommand_prefix_matches(g, toks.last()),
    ensures
        resolve_spec(toks, g) == ContextView::CompleteSubcommand(toks.last()),
{
}

fn find_last_non_empty(toks: &Vec<String>) -> (r: Option<String>)
    ensures
        r.deep_view() == last_non_empty(toks.deep_view()),
{
    let mut j: usize = toks.len();
    proof {
        assert(toks.deep_view().subrange(0, toks.len() as int) =~= toks.deep_view());
    }
    while j > 0
        invariant
            j <= toks.len(),
            last_non_empty(toks.deep_view()) == last_non_empty(
                toks.deep_view().subrange(0, j as int),
            ),
        decreases j,
    {
        let t = &toks[j - 1];
        proof {
            let dv = toks.deep_view();
            assert(dv.subrange(0, j as int).last() == dv[j as int - 1]);
            assert(dv[j as int - 1] == t@);
        }
        if !t.as_str().is_empty() {
            return Some(t.clone());
        }
        proof {
            let dv = toks.deep_view();
            assert(dv.subrange(0, j as int).drop_last() =~= dv.subrange(0, j as int - 1));
        }
        j -= 1;
    }
    proof {
        assert(toks.deep_view().subrange(0, 0) =~= Seq::<Seq<char>>::empty());
    }
    None
}

fn any_subcommand_named(subs: &Vec<Subcommand>, w: &String) -> (r: bool)
    ensures
        r == (exists|i: int| 0 <= i < subs.deep_view().len() && subs.deep_view()[i].name == w@),
{
    let mut i: usize = 0;
    while i < subs.len()
        invariant
            i <= subs.len(),
            forall|k: int| 0 <= k < i ==> subs.deep_view()[k].name != w@,
        decreases subs.len() - i,
    {
        proof {
            assert(subs.deep_view()[i as int] == subs@[i as int]@);
        }
        if str_eq(subs[i].name.as_str(), w.as_str()) {
            return true;
        }
        i += 1;
    }
    false
}

fn any_argument_named(args: &Vec<CmdArgument>, w: &String) -> (r: bool)
    ensures
        r == (exists|i: int| 0 <= i < args.deep_view().len() && args.deep_view()[i].name == w@),
{
    let mut i: usize = 0;
    while i < args.len()
        invariant
            i <= args.len(),
            forall|k: int| 0 <= k < i ==> args.deep_view()[k].name != w@,
        decreases args.len() - i,
    {
        proof {
            assert(args.deep_view()[i as int] == args@[i as int]@);
        }
        if str_eq(args[i].name.as_str(), w.as_str()) {
            return true;
        }
        i += 1;
    }
    false
}

pub(crate) fn alias_eq(names: &Vec<String>, w: &String) -> (r: bool)
    ensures
        r == (exists|j: int| 0 <= j < names.deep_view().len() && names.deep_view()[j] == w@),
{
    let mut j: usize = 0;
    while j < names.len()
        invariant
            j <= names.len(),
            forall|k: int| 0 <= k < j ==> names.deep_view()[k] != w@,
        decreases names.len() - j,
    {
        proof {
            assert(names.deep_view()[j as int] == names@[j as int]@);
        }
        if str_eq(names[j].as_str(), w.as_str()) {
            return true;
        }
        j += 1;
    }
    false
}

fn any_option_aliased(opts: &Vec<CmdOption>, w: &String) -> (r: bool)
    ensures
        r == (exists|i: int|
            0 <= i < opts.deep_view().len() && option_has_alias(opts.deep_view()[i], w@)),
{
    let mut i: usize = 0;
    while i < opts.len()
        invariant
            i <= opts.len(),
            forall|k: int| 0 <= k < i ==> !option_has_alias(opts.deep_view()[k], w@),
        decreases opts.len() - i,
    {
        proof {
            assert(opts.deep_view()[i as int] == opts@[i as int]@);
        }
        if alias_eq(&opts[i].name, w) {
            proof {
                assert(opts.deep_view()[i as int].name == opts@[i as int].name.deep_view());
                assert(option_has_alias(opts.deep_view()[i as int], w@));
            }
            return true;
        }
        i += 1;
    }
    false
}

fn any_subcommand_prefixed(subs: &Vec<Subcommand>, w: &String) -> (r: bool)
    ensures
        r == (exists|i: int|
            0 <= i < subs.deep_view().len() && w@.is_prefix_of(subs.deep_view()[i].name)),
{
    let mut i: usize = 0;
    while i < subs.len()
        invariant
            i <= subs.len(),
            forall|k: int| 0 <= k < i ==> !w@.is_prefix_of(subs.deep_view()[k].name),
        decreases subs.len() - i,
    {
        proof {
            assert(subs.deep_view()[i as int] == subs@[i as int]@);
        }
        if str_starts_with(subs[i].name.as_str(), w.as_str()) {
            return true;
        }
        i += 1;
    }
    false
}

fn any_argument_prefixed(args: &Vec<CmdArgument>, w: &String) -> (r: bool)
    ensures
        r == (exists|i: int|
            0 <= i < args.deep_view().len() && w@.is_prefix_of(args.deep_view()[i].name)),
{
    let mut i: usize = 0;
    while i < args.len()
        invariant
            i <= args.len(),
            forall|k: int| 0 <= k < i ==> !w@.is_prefix_of(args.deep_view()[k].name),
        decreases args.len() - i,
    {
        proof {
            assert(args.deep_view()[i as int] == args@[i as int]@);
        }
        if str_starts_with(args[i].name.as_str(), w.as_str()) {
            return true;
        }
        i += 1;
    }
    false
}

pub(crate) fn alias_prefixed(names: &Vec<String>, w: &String) -> (r: bool)
    ensures
        r == (exists|j: int|
            0 <= j < names.deep_view().len() && w@.is_prefix_of(names.deep_view()[j])),
{
    let mut j: usize = 0;
    while j < names.len()
        invariant
            j <= names.len(),
            forall|k: int| 0 <= k < j ==> !w@.is_prefix_of(names.deep_view()[k]),
        decreases names.len() - j,
    {
        proof {
            assert(names.deep_view()[j as int] == names@[j as int]@);
        }
        if str_starts_with(names[j].as_str(), w.as_str()) {
            return true;
        }
        j += 1;
    }
    false
}

fn any_option_prefixed(opts: &Vec<CmdOption>, w: &String) -> (r: bool)
    ensures
        r == (exists|i: int|
            0 <= i < opts.deep_view().len() && option_alias_prefixed(opts.deep_view()[i], w@)),
{
    let mut i: usize = 0;
    while i < opts.len()
        invariant
            i <= opts.len(),
            forall|k: int| 0 <= k < i ==> !option_alias_prefixed(opts.deep_view()[k], w@),
        decreases opts.len() - i,
    {
        proof {
            assert(opts.deep_view()[i as int] == opts@[i as int]@);
        }
        if alias_prefixed(&opts[i].name, w) {
            proof {
                assert(opts.deep_view()[i as int].name == opts@[i as int].name.deep_view());
                assert(option_alias_prefixed(opts.deep_view()[i as int], w@));
            }
            return true;
        }
        i += 1;
    }
    false
}

impl FigCommand {
    /// Classifies where, within this grammar, the cursor of the typed token
    /// sequence `ctx` currently sits, exact matches first when the user has
    /// committed a word, prefix matches when the user is mid-word, always in
    /// the priority order subcommand, then option, then argument.
    pub fn context_kind(&self, ctx: &Context) -> (r: ContextKind)
        ensures
            r@ == resolve_spec(ctx@, self@),
    {
        if ctx.ctx.len() == 0 {
            return ContextKind::NoContext;
        }
        let last = &ctx.ctx[ctx.ctx.len() - 1];
        proof {
            assert(ctx@[ctx@.len() - 1] == ctx.ctx@[ctx@.len() - 1]@);
            assert(ctx@.last() == last@);
        }
        if last.as_str().is_empty() {
            match find_last_non_empty(&ctx.ctx) {
                Option::None => ContextKind::NoContext,
                Option::Some(w) => self.classify_committed_word(w),
            }
        } else {
            self.classify_partial_word(last)
        }
    }

    fn classify_committed_word(&self, w: String) -> (r: ContextKind)
        ensures
            r@ == classify_committed(self@, w@),
    {
        if any_subcommand_named(&self.subcommands, &w) {
            ContextKind::InSubcommand(w)
        } else if any_option_aliased(&self.options, &w) {
            proof {
                let dv = self.options.deep_view();
                let k = choose|i: int| 0 <= i < dv.len() && option_has_alias(dv[i], w@);
                assert(0 <= k < self@.options.len() && option_has_alias(self@.options[k], w@));
                assert(option_matches(self@, w@));
            }
            ContextKind::InOption(w)
        } else if any_argument_named(&self.arguments, &w) {
            proof {
                let dv = self.arguments.deep_view();
                let k = choose|i: int| 0 <= i < dv.len() && dv[i].name == w@;
                assert(0 <= k < self@.arguments.len() && self@.arguments[k].name == w@);
                assert(argument_matches(self@, w@));
            }
            ContextKind::InArgument(w)
        } else {
            ContextKind::NoContext
        }
    }

    fn classify_partial_word(&self, w: &String) -> (r: ContextKind)
        ensures
            r@ == classify_partial(self@, w@),
    {
        if any_subcommand_prefixed(&self.subcommands, w) {
            ContextKind::CompleteSubcommand(w.clone())
        } else if any_option_prefixed(&self.options, w) {
            proof {
                let dv = self.options.deep_view();
                let k = choose|i: int| 0 <= i < dv.len() && option_alias_prefixed(dv[i], w@);
                assert(0 <= k < self@.options.len() && option_alias_prefixed(
                    self@.options[k],
                    w@,
                ));
                assert(option_prefix_matches(self@, w@));
            }
            ContextKind::CompleteOption(w.clone())
        } else if any_argument_prefixed(&self.arguments, w) {
            proof {
                let dv = self.arguments.deep_view();
                let k = choose|i: int| 0 <= i < dv.len() && w@.is_prefix_of(dv[i].name);
                assert(0 <= k < self@.arguments.len() && w@.is_prefix_of(
                    self@.arguments[k].name,
                ));
                assert(argument_prefix_matches(self@, w@));
            }
            ContextKind::CompleteArgument(w.clone())
        } else {
            ContextKind::NoContext
        }
    }
}

} // verus!
