use vstd::prelude::*;
use crate::model::{Candidate, CandidateView, Context};
use vstd::string::StringExecFns;

verus! {

/// The parts joined with the single separator `sep` between them.
pub open spec fn joined_with(parts: Seq<Seq<char>>, sep: char) -> Seq<char>
    decreases parts.len(),
{
    if parts.len() == 0 {
        Seq::empty()
    } else if parts.len() == 1 {
        parts[0]
    } else {
        joined_with(parts.drop_last(), sep) + seq![sep] + parts.last()
    }
}

/// The display names of the candidates, in order.
pub open spec fn candidate_names(cs: Seq<CandidateView>) -> Seq<Seq<char>> {
    cs.map_values(|c: CandidateView| c.name)
}

/// The newline-separated list of candidate display names, as handed to the
/// external interactive selector.
pub fn candidate_lines(cands: &Vec<Candidate>) -> (r: String)
    ensures
        r@ == joined_with(candidate_names(cands.deep_view()), '\n'),
{
    let ghost names = candidate_names(cands.deep_view());
    let mut out = String::new();
    let n = cands.len();
    let mut i: usize = 0;
    proof {
        assert(names.subrange(0, 0) =~= Seq::<Seq<char>>::empty());
        assert(out@ =~= joined_with(names.subrange(0, 0), '\n'));
    }
    while i < n
        invariant
            i <= n,
            n == cands.len(),
            names == candidate_names(cands.deep_view()),
            names.len() == n,
            out@ == joined_with(names.subrange(0, i as int), '\n'),
        decreases n - i,
    {
        proof {
            assert(cands.deep_view()[i as int] == cands@[i as int]@);
            assert(names[i as int] == cands@[i as int]@.name);
            assert(names.subrange(0, i as int + 1).drop_last() =~= names.subrange(0, i as int));
            assert(names.subrange(0, i as int + 1).last() == names[i as int]);
        }
        if i > 0 {
            out.append("\n");
            proof {
                reveal_strlit("\n");
                assert("\n"@ =~= seq!['\n']);
            }
        }
        out.append(cands[i].name.as_str());
        proof {
            if i == 0 {
                assert(names.subrange(0, 1).len() == 1);
                assert(out@ =~= names.subrange(0, 1)[0]);
            } else {
                assert(out@ =~= joined_with(names.subrange(0, i as int), '\n') + seq!['\n']
                    + names[i as int]);
            }
        }
        i += 1;
    }
    proof {
        assert(names.subrange(0, n as int) =~= names);
    }
    out
}

/// The tokens typed so far, joined with single spaces: the prompt shown by
/// the external selector.
pub fn prompt_of(ctx: &Context) -> (r: String)
    ensures
        r@ == joined_with(ctx@, ' '),
{
    let ghost toks = ctx@;
    let mut out = String::new();
    let n = ctx.ctx.len();
    let mut i: usize = 0;
    proof {
        assert(toks.subrange(0, 0) =~= Seq::<Seq<char>>::empty());
        assert(out@ =~= joined_with(toks.subrange(0, 0), ' '));
    }
    while i < n
        invariant
            i <= n,
            n == ctx.ctx.len(),
            toks == ctx@,
            toks.len() == n,
            out@ == joined_with(toks.subrange(0, i as int), ' '),
        decreases n - i,
    {
        proof {
            assert(toks[i as int] == ctx.ctx@[i as int]@);
            assert(toks.subrange(0, i as int + 1).drop_last() =~= toks.subrange(0, i as int));
            assert(toks.subrange(0, i as int + 1).last() == toks[i as int]);
        }
        if i > 0 {
            out.append(" ");
            proof {
                reveal_strlit(" ");
                assert(" "@ =~= seq![' ']);
            }
        }
        out.append(ctx.ctx[i].as_str());
        proof {
            if i == 0 {
                assert(toks.subrange(0, 1).len() == 1);
                assert(out@ =~= toks.subrange(0, 1)[0]);
            } else {
                assert(out@ =~= joined_with(toks.subrange(0, i as int), ' ') + seq![' ']
                    + toks[i as int]);
            }
        }
        i += 1;
    }
    proof {
        assert(toks.subrange(0, n as int) =~= toks);
    }
    out
}

} // verus!
