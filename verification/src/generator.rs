use vstd::prelude::*;
use crate::model::{Candidate, CandidateView, CmdOption, Context, ContextKind, ContextView,
    FigCommand, GrammarView, OptionView, SubcommandView};
use crate::resolver::{alias_eq, option_has_alias, option_alias_prefixed, resolve_spec,
    alias_prefixed};
use crate::strutil::str_starts_with;
use vstd::string::StrSliceExecFns;

verus! {

/// The candidate that displays `name`, with the (unused) empty preview.
pub open spec fn candidate_of(name: Seq<char>) -> CandidateView {
    CandidateView { name: name, preview: Seq::empty() }
}

/// The first option of `opts` that has `w` among its aliases, if any.
pub open spec fn find_option(opts: Seq<OptionView>, w: Seq<char>) -> Option<OptionView>
    decreases opts.len(),
{
    if opts.len() == 0 {
        Option::None
    } else if option_has_alias(opts.first(), w) {
        Option::Some(opts.first())
    } else {
        find_option(opts.drop_first(), w)
    }
}

/// The declared argument names of option `o`, as candidates, in order.
pub open spec fn option_arg_candidates(o: OptionView) -> Seq<CandidateView> {
    o.arguments.map_values(|a: crate::model::ArgumentView| candidate_of(a.name))
}

/// The names of the arguments of `args` that start with `p`, as candidates,
/// in order.
pub open spec fn argument_candidates(args: Seq<crate::model::ArgumentView>, p: Seq<char>)
    -> Seq<CandidateView>
    decreases args.len(),
{
    if args.len() == 0 {
        Seq::empty()
    } else {
        let rest = argument_candidates(args.drop_last(), p);
        if p.is_prefix_of(args.last().name) {
            rest.push(candidate_of(args.last().name))
        } else {
            rest
        }
    }
}

/// The alias of greatest length among `names`; on ties of length, the
/// later alias wins.
pub open spec fn longest_alias(names: Seq<Seq<char>>) -> Seq<char>
    recommends
        names.len() > 0,
    decreases names.len(),
{
    if names.len() <= 1 {
        names[0]
    } else {
        let prev = longest_alias(names.drop_last());
        if names.last().len() >= prev.len() {
            names.last()
        } else {
            prev
        }
    }
}

/// For every option of `opts` with an alias starting with `p`, its longest
/// alias as a candidate, in option order.
pub open spec fn option_candidates(opts: Seq<OptionView>, p: Seq<char>) -> Seq<CandidateView>
    decreases opts.len(),
{
    if opts.len() == 0 {
        Seq::empty()
    } else {
        let rest = option_candidates(opts.drop_last(), p);
        if option_alias_prefixed(opts.last(), p) {
            rest.push(candidate_of(longest_alias(opts.last().name)))
        } else {
            rest
        }
    }
}

/// Every name of `names` as a candidate, in order.
pub open spec fn alias_candidates(names: Seq<Seq<char>>) -> Seq<CandidateView>
    decreases names.len(),
{
    if names.len() == 0 {
        Seq::empty()
    } else {
        alias_candidates(names.drop_last()).push(candidate_of(names.last()))
    }
}

/// Every alias of every option of `opts` as a candidate, in order.
pub open spec fn all_alias_candidates(opts: Seq<OptionView>) -> Seq<CandidateView>
    decreases opts.len(),
{
    if opts.len() == 0 {
        Seq::empty()
    } else {
        all_alias_candidates(opts.drop_last()) + alias_candidates(opts.last().name)
    }
}

/// Every subcommand name of `subs` as a candidate, in order.
pub open spec fn subcommand_candidates(subs: Seq<SubcommandView>) -> Seq<CandidateView>
    decreases subs.len(),
{
    if subs.len() == 0 {
        Seq::empty()
    } else {
        subcommand_candidates(subs.drop_last()).push(candidate_of(subs.last().name))
    }
}

/// The default suggestion set: the union of every option alias and every
/// subcommand name.
pub open spec fn default_candidates(g: GrammarView) -> Seq<CandidateView> {
    all_alias_candidates(g.options) + subcommand_candidates(g.subcommands)
}

/// The candidates that context `c` yields under grammar `g`.
///
/// Inside a bare positional argument nothing further is completed. Inside an
/// option, its declared argument names are offered; if the option no longer
/// resolves, nothing is. A partial argument or option word is completed from
/// the names it prefixes, an option displaying its longest alias. Every other
/// context falls back to suggesting every option alias and subcommand name.
pub open spec fn generate_spec(c: ContextView, g: GrammarView) -> Seq<CandidateView> {
    match c {
        ContextView::InArgument(_) => Seq::empty(),
        ContextView::InOption(w) => match find_option(g.options, w) {
            Option::Some(o) => option_arg_candidates(o),
            Option::None => Seq::empty(),
        },
        ContextView::CompleteArgument(p) => argument_candidates(g.arguments, p),
        ContextView::CompleteOption(p) => option_candidates(g.options, p),
        _ => default_candidates(g),
    }
}

/// Resolution and generation are pure: on one and the same token sequence and
/// grammar, repeated invocation yields identical output every time.
pub proof fn lemma_generate_deterministic(
    toks: Seq<Seq<char>>,
    g: GrammarView,
    r1: Seq<CandidateView>,
    r2: Seq<CandidateView>,
)
    requires
        r1 == generate_spec(resolve_spec(toks, g), g),
        r2 == generate_spec(resolve_spec(toks, g), g),
    ensures
        r1 == r2,
{
}

proof fn lemma_alias_candidates_map(names: Seq<Seq<char>>)
    ensures
        alias_candidates(names).len() == names.len(),
        forall|j: int|
            0 <= j < names.len() ==> alias_candidates(names)[j] == candidate_of(names[j]),
    decreases names.len(),
{
    if names.len() > 0 {
        lemma_alias_candidates_map(names.drop_last());
    }
}

proof fn lemma_subcommand_candidates_map(subs: Seq<SubcommandView>)
    ensures
        subcommand_candidates(subs).len() == subs.len(),
        forall|i: int|
            0 <= i < subs.len() ==> subcommand_candidates(subs)[i] == candidate_of(subs[i].name),
    decreases subs.len(),
{
    if subs.len() > 0 {
        lemma_subcommand_candidates_map(subs.drop_last());
    }
}

proof fn lemma_all_alias_candidates_contains(opts: Seq<OptionView>, i: int, j: int)
    requires
        0 <= i < opts.len(),
        0 <= j < opts[i].name.len(),
    ensures
        exists|k: int|
            0 <= k < all_alias_candidates(opts).len() && all_alias_candidates(opts)[k]
                == candidate_of(opts[i].name[j]),
    decreases opts.len(),
{
    let prefix = all_alias_candidates(opts.drop_last());
    if i == opts.len() - 1 {
        lemma_alias_candidates_map(opts.last().name);
        let k = prefix.len() + j;
        assert(all_alias_candidates(opts)[k as int] == candidate_of(opts[i].name[j]));
    } else {
        lemma_all_alias_candidates_contains(opts.drop_last(), i, j);
        let k = choose|k: int|
            0 <= k < prefix.len() && prefix[k] == candidate_of(opts.drop_last()[i].name[j]);
        assert(opts.drop_last()[i] == opts[i]);
        assert(all_alias_candidates(opts)[k] == candidate_of(opts[i].name[j]));
    }
}

/// The default suggestion set omits no option alias: every alias of every
/// option appears in it.
pub proof fn lemma_default_includes_every_alias(g: GrammarView, i: int, j: int)
    requires
        0 <= i < g.options.len(),
        0 <= j < g.options[i].name.len(),
    ensures
        exists|k: int|
            0 <= k < default_candidates(g).len() && default_candidates(g)[k] == candidate_of(
                g.options[i].name[j],
            ),
{
    lemma_all_alias_candidates_contains(g.options, i, j);
    let k = choose|k: int|
        0 <= k < all_alias_candidates(g.options).len() && all_alias_candidates(g.options)[k]
            == candidate_of(g.options[i].name[j]);
    assert(default_candidates(g)[k] == candidate_of(g.options[i].name[j]));
}

/// The default suggestion set omits no subcommand: every subcommand name
/// appears in it.
pub proof fn lemma_default_includes_every_subcommand(g: GrammarView, i: int)
    requires
        0 <= i < g.subcommands.len(),
    ensures
        exists|k: int|
            0 <= k < default_candidates(g).len() && default_candidates(g)[k] == candidate_of(
                g.subcommands[i].name,
            ),
{
    lemma_subcommand_candidates_map(g.subcommands);
    let k = all_alias_candidates(g.options).len() + i;
    assert(default_candidates(g)[k] == candidate_of(g.subcommands[i].name));
}

fn empty_candidate(name: &String) -> (r: Candidate)
    ensures
        r@ == candidate_of(name@),
{
    Candidate { name: name.clone(), preview: String::new() }
}

fn find_option_index(opts: &Vec<CmdOption>, w: &String) -> (r: Option<usize>)
    ensures
        match r {
            Option::Some(i) => i < opts.len() && find_option(opts.deep_view(), w@)
                == Option::Some(opts.deep_view()[i as int]),
            Option::None => find_option(opts.deep_view(), w@) is None,
        },
{
    let ghost dv = opts.deep_view();
    let n = opts.len();
    let mut i: usize = 0;
    proof {
        assert(dv.subrange(0, n as int) =~= dv);
    }
    while i < n
        invariant
            i <= n,
            n == opts.len(),
            dv == opts.deep_view(),
            find_option(dv, w@) == find_option(dv.subrange(i as int, n as int), w@),
        decreases n - i,
    {
        let ghost rest = dv.subrange(i as int, n as int);
        proof {
            assert(rest.first() == dv[i as int]);
            assert(rest.drop_first() =~= dv.subrange(i as int + 1, n as int));
            assert(dv[i as int].name == opts@[i as int].name.deep_view());
        }
        if alias_eq(&opts[i].name, w) {
            proof {
                let j = choose|j: int|
                    0 <= j < opts@[i as int].name.deep_view().len()
                        && opts@[i as int].name.deep_view()[j] == w@;
                assert(option_has_alias(dv[i as int], w@));
            }
            return Some(i);
        }
        proof {
            assert(!option_has_alias(dv[i as int], w@));
        }
        i += 1;
    }
    proof {
        assert(dv.subrange(n as int, n as int) =~= Seq::<OptionView>::empty());
    }
    None
}

impl FigCommand {
    fn option_argument_candidates(&self, index: usize) -> (r: Vec<Candidate>)
        requires
            index < self.options.len(),
        ensures
            r.deep_view() == option_arg_candidates(self@.options[index as int]),
    {
        let opt = &self.options[index];
        let ghost o = self@.options[index as int];
        proof {
            assert(o == self.options@[index as int]@);
        }
        let mut out: Vec<Candidate> = Vec::new();
        let n = opt.arguments.len();
        let mut i: usize = 0;
        proof {
            assert(out.deep_view() =~= o.arguments.subrange(0, 0).map_values(
                |a: crate::model::ArgumentView| candidate_of(a.name),
            ));
        }
        while i < n
            invariant
                i <= n,
                n == opt.arguments.len(),
                o == opt@,
                out.deep_view() =~= o.arguments.subrange(0, i as int).map_values(
                    |a: crate::model::ArgumentView| candidate_of(a.name),
                ),
            decreases n - i,
        {
            let ghost prev = out.deep_view();
            proof {
                assert(o.arguments[i as int] == opt.arguments@[i as int]@);
            }
            let c = empty_candidate(&opt.arguments[i].name);
            out.push(c);
            proof {
                assert(out.deep_view() =~= prev.push(candidate_of(o.arguments[i as int].name)));
                assert(out.deep_view() =~= o.arguments.subrange(0, i as int + 1).map_values(
                    |a: crate::model::ArgumentView| candidate_of(a.name),
                ));
            }
            i += 1;
        }
        proof {
            assert(o.arguments.subrange(0, n as int) =~= o.arguments);
        }
        out
    }

    fn complete_argument_candidates(&self, p: &String) -> (r: Vec<Candidate>)
        ensures
            r.deep_view() == argument_candidates(self@.arguments, p@),
    {
        let ghost args = self@.arguments;
        let mut out: Vec<Candidate> = Vec::new();
        let n = self.arguments.len();
        let mut i: usize = 0;
        proof {
            assert(out.deep_view() =~= argument_candidates(args.subrange(0, 0), p@));
        }
        while i < n
            invariant
                i <= n,
                n == self.arguments.len(),
                args == self@.arguments,
                out.deep_view() == argument_candidates(args.subrange(0, i as int), p@),
            decreases n - i,
        {
            let ghost prev = out.deep_view();
            proof {
                assert(args[i as int] == self.arguments@[i as int]@);
                assert(args.subrange(0, i as int + 1).drop_last() =~= args.subrange(0, i as int));
                assert(args.subrange(0, i as int + 1).last() == args[i as int]);
            }
            if str_starts_with(self.arguments[i].name.as_str(), p.as_str()) {
                let c = empty_candidate(&self.arguments[i].name);
                out.push(c);
                proof {
                    assert(out.deep_view() =~= prev.push(candidate_of(args[i as int].name)));
                }
            }
            i += 1;
        }
        proof {
            assert(args.subrange(0, n as int) =~= args);
        }
        out
    }

    fn complete_option_candidates(&self, p: &String) -> (r: Vec<Candidate>)
        ensures
            r.deep_view() == option_candidates(self@.options, p@),
    {
        let ghost opts = self@.options;
        let mut out: Vec<Candidate> = Vec::new();
        let n = self.options.len();
        let mut i: usize = 0;
        proof {
            assert(out.deep_view() =~= option_candidates(opts.subrange(0, 0), p@));
        }
        while i < n
            invariant
                i <= n,
                n == self.options.len(),
                opts == self@.options,
                out.deep_view() == option_candidates(opts.subrange(0, i as int), p@),
            decreases n - i,
        {
            let ghost prev = out.deep_view();
            proof {
                assert(opts[i as int] == self.options@[i as int]@);
                assert(opts[i as int].name == self.options@[i as int].name.deep_view());
                assert(opts.subrange(0, i as int + 1).drop_last() =~= opts.subrange(0, i as int));
                assert(opts.subrange(0, i as int + 1).last() == opts[i as int]);
            }
            if alias_prefixed(&self.options[i].name, p) {
                proof {
                    let j = choose|j: int|
                        0 <= j < self.options@[i as int].name.deep_view().len() && p@.is_prefix_of(
                            self.options@[i as int].name.deep_view()[j],
                        );
                    assert(option_alias_prefixed(opts[i as int], p@));
                }
                let best = longest_alias_of(&self.options[i].name);
                let c = Candidate { name: best, preview: String::new() };
                out.push(c);
                proof {
                    assert(out.deep_view() =~= prev.push(
                        candidate_of(longest_alias(opts[i as int].name)),
                    ));
                }
            } else {
                proof {
                    assert(!option_alias_prefixed(opts[i as int], p@));
                }
            }
            i += 1;
        }
        proof {
            assert(opts.subrange(0, n as int) =~= opts);
        }
        out
    }

    fn default_candidate_list(&self) -> (r: Vec<Candidate>)
        ensures
            r.deep_view() == default_candidates(self@),
    {
        let ghost opts = self@.options;
        let ghost subs = self@.subcommands;
        let mut out: Vec<Candidate> = Vec::new();
        let n = self.options.len();
        let mut i: usize = 0;
        proof {
            assert(out.deep_view() =~= all_alias_candidates(opts.subrange(0, 0)));
        }
        while i < n
            invariant
                i <= n,
                n == self.options.len(),
                opts == self@.options,
                out.deep_view() == all_alias_candidates(opts.subrange(0, i as int)),
            decreases n - i,
        {
            let ghost prev = out.deep_view();
            proof {
                assert(opts[i as int] == self.options@[i as int]@);
                assert(opts[i as int].name == self.options@[i as int].name.deep_view());
                assert(opts.subrange(0, i as int + 1).drop_last() =~= opts.subrange(0, i as int));
                assert(opts.subrange(0, i as int + 1).last() == opts[i as int]);
            }
            push_alias_candidates(&mut out, &self.options[i].name);
            i += 1;
        }
        proof {
            assert(opts.subrange(0, n as int) =~= opts);
        }
        let m = self.subcommands.len();
        let mut k: usize = 0;
        proof {
            assert(subcommand_candidates(subs.subrange(0, 0)) =~= Seq::<CandidateView>::empty());
            assert(out.deep_view() =~= all_alias_candidates(opts) + subcommand_candidates(
                subs.subrange(0, 0),
            ));
        }
        while k < m
            invariant
                k <= m,
                m == self.subcommands.len(),
                opts == self@.options,
                subs == self@.subcommands,
                out.deep_view() == all_alias_candidates(opts) + subcommand_candidates(
                    subs.subrange(0, k as int),
                ),
            decreases m - k,
        {
            let ghost prev = out.deep_view();
            proof {
                assert(subs[k as int] == self.subcommands@[k as int]@);
                assert(subs.subrange(0, k as int + 1).drop_last() =~= subs.subrange(0, k as int));
                assert(subs.subrange(0, k as int + 1).last() == subs[k as int]);
            }
            let c = empty_candidate(&self.subcommands[k].name);
            out.push(c);
            proof {
                assert(out.deep_view() =~= prev.push(candidate_of(subs[k as int].name)));
                assert(out.deep_view() =~= all_alias_candidates(opts) + subcommand_candidates(
                    subs.subrange(0, k as int + 1),
                ));
            }
            k += 1;
        }
        proof {
            assert(subs.subrange(0, m as int) =~= subs);
        }
        out
    }

    /// Produces the completion candidates for the typed token sequence `ctx`
    /// under this grammar: a pure function of the two, with the candidate set
    /// determined by the resolved context.
    pub fn completions(&self, ctx: &Context) -> (r: Vec<Candidate>)
        ensures
            r.deep_view() == generate_spec(resolve_spec(ctx@, self@), self@),
    {
        let context_kind = self.context_kind(ctx);
        match context_kind {
            ContextKind::InArgument(_) => {
                let out: Vec<Candidate> = Vec::new();
                proof {
                    assert(out.deep_view() =~= Seq::<CandidateView>::empty());
                }
                out
            },
            ContextKind::InOption(o) => {
                match find_option_index(&self.options, &o) {
                    Option::Some(i) => self.option_argument_candidates(i),
                    Option::None => {
                        let out: Vec<Candidate> = Vec::new();
                        proof {
                            assert(out.deep_view() =~= Seq::<CandidateView>::empty());
                        }
                        out
                    },
                }
            },
            ContextKind::CompleteArgument(c) => self.complete_argument_candidates(&c),
            ContextKind::CompleteOption(c) => self.complete_option_candidates(&c),
            _ => self.default_candidate_list(),
        }
    }

    /// Idempotence witness: resolving then generating twice over, on one and
    /// the same token sequence and grammar, returns identical candidate
    /// lists. Both runs take the grammar and the tokens by shared borrow, so
    /// neither can alter them, and each run's contract pins its result to
    /// the same value.
    pub fn completions_twice(&self, ctx: &Context) -> (r: (Vec<Candidate>, Vec<Candidate>))
        ensures
            r.0.deep_view() == r.1.deep_view(),
            r.0.deep_view() == generate_spec(resolve_spec(ctx@, self@), self@),
    {
        (self.completions(ctx), self.completions(ctx))
    }
}

/// The longest of the given alias names, later aliases winning ties.
fn longest_alias_of(names: &Vec<String>) -> (r: String)
    requires
        names.len() > 0,
    ensures
        r@ == longest_alias(names.deep_view()),
{
    let ghost dv = names.deep_view();
    let mut best: String = names[0].clone();
    proof {
        assert(dv[0] == names@[0]@);
        assert(dv.subrange(0, 1).len() == 1);
        assert(dv.subrange(0, 1)[0] == dv[0]);
        assert(best@ == longest_alias(dv.subrange(0, 1)));
    }
    let n = names.len();
    let mut j: usize = 1;
    while j < n
        invariant
            1 <= j <= n,
            n == names.len(),
            dv == names.deep_view(),
            best@ == longest_alias(dv.subrange(0, j as int)),
        decreases n - j,
    {
        proof {
            assert(dv[j as int] == names@[j as int]@);
            assert(dv.subrange(0, j as int + 1).drop_last() =~= dv.subrange(0, j as int));
            assert(dv.subrange(0, j as int + 1).last() == dv[j as int]);
        }
        if names[j].as_str().unicode_len() >= best.as_str().unicode_len() {
            best = names[j].clone();
        }
        j += 1;
    }
    proof {
        assert(dv.subrange(0, n as int) =~= dv);
    }
    best
}

fn push_alias_candidates(out: &mut Vec<Candidate>, names: &Vec<String>)
    ensures
        final(out).deep_view() == old(out).deep_view() + alias_candidates(names.deep_view()),
{
    let ghost dv = names.deep_view();
    let ghost base = out.deep_view();
    let n = names.len();
    let mut j: usize = 0;
    proof {
        assert(alias_candidates(dv.subrange(0, 0)) =~= Seq::<CandidateView>::empty());
        assert(out.deep_view() =~= base + alias_candidates(dv.subrange(0, 0)));
    }
    while j < n
        invariant
            j <= n,
            n == names.len(),
            dv == names.deep_view(),
            base == old(out).deep_view(),
            out.deep_view() == base + alias_candidates(dv.subrange(0, j as int)),
        decreases n - j,
    {
        let ghost prev = out.deep_view();
        proof {
            assert(dv[j as int] == names@[j as int]@);
            assert(dv.subrange(0, j as int + 1).drop_last() =~= dv.subrange(0, j as int));
            assert(dv.subrange(0, j as int + 1).last() == dv[j as int]);
        }
        let c = empty_candidate(&names[j]);
        out.push(c);
        proof {
            assert(out.deep_view() =~= prev.push(candidate_of(dv[j as int])));
            assert(out.deep_view() =~= base + alias_candidates(dv.subrange(0, j as int + 1)));
        }
        j += 1;
    }
    proof {
        assert(dv.subrange(0, n as int) =~= dv);
    }
}

} // verus!
