//! Laws of the parse as a whole.

use vstd::prelude::*;

use crate::args::{parse_outcome, spec_parse, spec_parse_argv, spec_scan, Args, ArgsView};
use crate::error::{ErrorView, ParseError};
use crate::token::{spec_classify, TokenView};

verus! {

/// For any two tokens that the scanner classifies as bare positional
/// values, parsing exactly those two tokens yields a copy request with
/// the first as source and the second as destination. The values are
/// carried through as opaque strings: slashes, relative segments and
/// trailing slashes are kept, nothing is normalized.
pub proof fn lemma_two_positionals_yield_copy(src: Seq<char>, dest: Seq<char>)
    requires
        spec_classify(src) is Positional,
        spec_classify(dest) is Positional,
    ensures
        spec_parse(seq![src, dest]) == Ok::<ArgsView, ErrorView>(ArgsView::Copy { src, dest }),
{
    reveal_with_fuel(spec_scan, 4);
    let toks = seq![src, dest];
    assert(spec_classify(src) == (TokenView::Positional { value: src }));
    assert(spec_classify(dest) == (TokenView::Positional { value: dest }));
    assert(toks[0] == src);
    assert(toks.drop_first() =~= seq![dest]);
    assert(toks.drop_first()[0] == dest);
    assert(toks.drop_first().drop_first() =~= Seq::<Seq<char>>::empty());
}

/// Parsing is a pure function of its input: any two parse results for the
/// same argument vector are the same.
pub proof fn lemma_parse_deterministic(
    argv: Seq<Seq<char>>,
    r1: Result<Args, ParseError>,
    r2: Result<Args, ParseError>,
)
    requires
        parse_outcome(r1) == spec_parse_argv(argv),
        parse_outcome(r2) == spec_parse_argv(argv),
    ensures
        parse_outcome(r1) == parse_outcome(r2),
{
}

} // verus!
