use vstd::prelude::*;
use vstd::string::StrSliceExecFns;
use crate::strutil::chars_to_string;

verus! {

/// The components that splitting the remaining input `s` yields, scanning from
/// the front with quote state `in_quotes` and an accumulator `cur` already
/// holding the start of the current component.
///
/// A `"` toggles the quote state and is kept in the component; a space outside
/// quotes flushes the accumulator as a finished component (possibly empty);
/// any other character, or a space inside quotes, is appended. At the end of
/// the input the accumulator is flushed as the final component.
pub open spec fn split_from(s: Seq<char>, in_quotes: bool, cur: Seq<char>) -> Seq<Seq<char>>
    decreases s.len(),
{
    if s.len() == 0 {
        seq![cur]
    } else if s.first() == '"' {
        split_from(s.drop_first(), !in_quotes, cur.push('"'))
    } else if s.first() == ' ' && !in_quotes {
        seq![cur] + split_from(s.drop_first(), false, Seq::empty())
    } else {
        split_from(s.drop_first(), in_quotes, cur.push(s.first()))
    }
}

/// The token sequence for input `s`: whitespace-split, quote-aware, with the
/// quote characters retained in the tokens.
pub open spec fn tokens_of(s: Seq<char>) -> Seq<Seq<char>> {
    split_from(s, false, Seq::empty())
}

proof fn lemma_split_from_nonempty(s: Seq<char>, in_quotes: bool, cur: Seq<char>)
    ensures
        split_from(s, in_quotes, cur).len() >= 1,
    decreases s.len(),
{
    if s.len() == 0 {
    } else if s.first() == '"' {
        lemma_split_from_nonempty(s.drop_first(), !in_quotes, cur.push('"'));
    } else if s.first() == ' ' && !in_quotes {
        lemma_split_from_nonempty(s.drop_first(), false, Seq::empty());
    } else {
        lemma_split_from_nonempty(s.drop_first(), in_quotes, cur.push(s.first()));
    }
}

/// Tokenization never fails: every input, the empty string included, yields at
/// least one token.
pub proof fn lemma_tokens_nonempty(s: Seq<char>)
    ensures
        tokens_of(s).len() >= 1,
{
    lemma_split_from_nonempty(s, false, Seq::empty());
}

/// Splits `input` into its components: space-delimited, with quoted spans kept
/// whole and the quote characters retained. An input ending in a space yields
/// a trailing empty component; an unterminated quote does not fail.
pub fn parse(input: &str) -> (r: Option<Vec<String>>)
    ensures
        r is Some,
        r.unwrap().deep_view() == tokens_of(input@),
        r.unwrap().len() >= 1,
{
    let n = input.unicode_len();
    let mut components: Vec<String> = Vec::new();
    let mut cur: Vec<char> = Vec::new();
    let mut in_quotes: bool = false;
    let mut i: usize = 0;
    proof {
        assert(input@.subrange(0, n as int) =~= input@);
        assert(components.deep_view() =~= Seq::<Seq<char>>::empty());
        assert(Seq::<Seq<char>>::empty() + tokens_of(input@) =~= tokens_of(input@));
    }
    while i < n
        invariant
            i <= n,
            n == input@.len(),
            tokens_of(input@) == components.deep_view() + split_from(
                input@.subrange(i as int, n as int),
                in_quotes,
                cur@,
            ),
        decreases n - i,
    {
        let ghost rest = input@.subrange(i as int, n as int);
        let ghost prev_components = components.deep_view();
        let ghost prev_cur = cur@;
        proof {
            assert(rest.len() > 0);
            assert(rest.first() == input@[i as int]);
            assert(rest.drop_first() =~= input@.subrange(i as int + 1, n as int));
        }
        let c = input.get_char(i);
        if c == '"' {
            in_quotes = !in_quotes;
            cur.push('"');
        } else if c == ' ' && !in_quotes {
            let finished = chars_to_string(&cur);
            components.push(finished);
            cur = Vec::new();
            proof {
                assert(components.deep_view() =~= prev_components + seq![prev_cur]);
                assert((prev_components + seq![prev_cur]) + split_from(
                    rest.drop_first(),
                    false,
                    Seq::empty(),
                ) =~= prev_components + (seq![prev_cur] + split_from(
                    rest.drop_first(),
                    false,
                    Seq::empty(),
                )));
            }
        } else {
            cur.push(c);
        }
        i += 1;
    }
    proof {
        assert(input@.subrange(n as int, n as int) =~= Seq::<char>::empty());
    }
    let last = chars_to_string(&cur);
    let ghost prev_components = components.deep_view();
    components.push(last);
    proof {
        assert(components.deep_view() =~= prev_components + seq![cur@]);
    }
    Some(components)
}

} // verus!
