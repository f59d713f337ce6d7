//! The resolver and the parse entry point.
//!
//! After the scan has folded every token without a terminal error, the
//! final accumulator state is resolved by a fixed decision table into a
//! copy request, a serve request (explicit or default port), or a final
//! validation error: the tool is either a copy invocation or a server
//! invocation, never both, so any overlap of the two input shapes is
//! rejected rather than guessed.

use vstd::prelude::*;

use crate::error::{conflict_message, ErrorView, ParseError};
use crate::scan::{init_state, spec_step, PositionalSlot, ScanState, SlotView, StateView};
use crate::token::{option_name, OptionStyle};

verus! {

/// The port a serve request listens on when none is given.
pub const DEFAULT_PORT: u16 = 14523;

/// The validated outcome of a successful parse: exactly one of the two
/// operation requests.
#[derive(Debug, Clone, PartialEq, Eq)]
pub enum Args {
    /// `rcp <SRC> <DEST>`: copy a file or directory from SRC to DEST. The
    /// two paths are kept as opaque strings, not normalized.
    Copy { src: String, dest: String },
    /// `rcp [-p|--port PORT]`: start the server on the given port.
    Serve { port: u16 },
}

/// What an operation request is, over mathematical values.
pub enum ArgsView {
    Copy { src: Seq<char>, dest: Seq<char> },
    Serve { port: u16 },
}

impl View for Args {
    type V = ArgsView;

    open spec fn view(&self) -> ArgsView {
        match self {
            Args::Copy { src, dest } => (ArgsView::Copy { src: src@, dest: dest@ }),
            Args::Serve { port } => (ArgsView::Serve { port: *port }),
        }
    }
}

/// A parse yields either a request or a terminal error.
pub open spec fn parse_outcome(r: Result<Args, ParseError>) -> Result<ArgsView, ErrorView> {
    match r {
        Ok(a) => Ok(a@),
        Err(e) => Err(e@),
    }
}

/// The resolver's decision table over the final scan state.
///
/// A port option still waiting for its value is a missing-value error
/// naming the option. Two positionals alone are a copy request; no
/// positionals are a serve request, on the given port or the default; one
/// positional alone lacks its destination; any positional together with a
/// port is a conflict.
pub open spec fn spec_resolve(st: StateView) -> Result<ArgsView, ErrorView> {
    match st.pending {
        Some(style) => Err(ErrorView::MissingValue { option: option_name(style) }),
        None => match (st.positionals, st.port) {
            (SlotView::Two { src, dest }, Option::None) => Ok(ArgsView::Copy { src, dest }),
            (SlotView::Empty, Option::Some(p)) => Ok(ArgsView::Serve { port: p }),
            (SlotView::Empty, Option::None) => Ok(ArgsView::Serve { port: DEFAULT_PORT }),
            (SlotView::One { .. }, Option::None) => Err(
                ErrorView::MissingValue { option: "DEST"@ },
            ),
            (_, Option::Some(_)) => Err(
                ErrorView::ConflictingArguments { message: conflict_message() },
            ),
        },
    }
}

/// Runs the scanner over a whole token sequence, stopping at the first
/// terminal error.
pub open spec fn spec_scan(st: StateView, tokens: Seq<Seq<char>>) -> Result<StateView, ErrorView>
    decreases tokens.len(),
{
    if tokens.len() == 0 {
        Ok(st)
    } else {
        match spec_step(st, tokens[0]) {
            Ok(next) => spec_scan(next, tokens.drop_first()),
            Err(e) => Err(e),
        }
    }
}

/// What parsing a token sequence (without the program name) yields.
pub open spec fn spec_parse(tokens: Seq<Seq<char>>) -> Result<ArgsView, ErrorView> {
    match spec_scan(init_state(), tokens) {
        Ok(st) => spec_resolve(st),
        Err(e) => Err(e),
    }
}

/// What parsing a full argument vector yields: token zero is the program
/// name and is not interpreted.
pub open spec fn spec_parse_argv(argv: Seq<Seq<char>>) -> Result<ArgsView, ErrorView> {
    if argv.len() == 0 {
        spec_parse(Seq::empty())
    } else {
        spec_parse(argv.drop_first())
    }
}

/// Scanning one more token is one more step.
proof fn lemma_scan_snoc(st: StateView, tokens: Seq<Seq<char>>, t: Seq<char>)
    ensures
        spec_scan(st, tokens.push(t)) == (match spec_scan(st, tokens) {
            Ok(mid) => spec_step(mid, t),
            Err(e) => Err(e),
        }),
    decreases tokens.len(),
{
    reveal_with_fuel(spec_scan, 3);
    if tokens.len() == 0 {
        assert(tokens.push(t)[0] == t);
        assert(tokens.push(t).drop_first() =~= Seq::<Seq<char>>::empty());
    } else {
        assert(tokens.push(t)[0] == tokens[0]);
        assert(tokens.push(t).drop_first() =~= tokens.drop_first().push(t));
        match spec_step(st, tokens[0]) {
            Ok(mid) => lemma_scan_snoc(mid, tokens.drop_first(), t),
            Err(e) => {},
        }
    }
}

/// A terminal error ends the scan: whatever tokens follow, the result is
/// that error.
proof fn lemma_scan_err_extends(st: StateView, tokens: Seq<Seq<char>>, i: int, e: ErrorView)
    requires
        0 <= i <= tokens.len(),
        spec_scan(st, tokens.take(i)) == Err::<StateView, ErrorView>(e),
    ensures
        spec_scan(st, tokens) == Err::<StateView, ErrorView>(e),
    decreases tokens.len() - i,
{
    if i == tokens.len() {
        assert(tokens.take(i) =~= tokens);
    } else {
        assert(tokens.take(i + 1) =~= tokens.take(i).push(tokens[i]));
        lemma_scan_snoc(st, tokens.take(i), tokens[i]);
        lemma_scan_err_extends(st, tokens, i + 1, e);
    }
}

/// Consumes the final scan state and emits the operation request or the
/// final validation error.
pub fn resolve(st: ScanState) -> (r: Result<Args, ParseError>)
    ensures
        parse_outcome(r) == spec_resolve(st@),
{
    if let Some(style) = st.pending {
        let option = match style {
            OptionStyle::Short => String::from_str("-p"),
            OptionStyle::Long => String::from_str("--port"),
        };
        return Err(ParseError::MissingValue { option });
    }
    let ScanState { positionals, port, .. } = st;
    match (positionals, port) {
        (PositionalSlot::Two { src, dest }, None) => Ok(Args::Copy { src, dest }),
        (PositionalSlot::Empty, Some(p)) => Ok(Args::Serve { port: p }),
        (PositionalSlot::Empty, None) => Ok(Args::Serve { port: DEFAULT_PORT }),
        (PositionalSlot::One { .. }, None) => Err(
            ParseError::MissingValue { option: String::from_str("DEST") },
        ),
        (_, Some(_)) => Err(ParseError::conflicting()),
    }
}

impl Args {
    /// Parses a full argument vector. Element zero is the program's own
    /// invocation name and is not interpreted; the remaining tokens are
    /// scanned in order and the final state is resolved.
    pub fn new(args: Vec<String>) -> (r: Result<Args, ParseError>)
        ensures
            parse_outcome(r) == spec_parse_argv(args.deep_view()),
    {
        let ghost argv: Seq<Seq<char>> = args.deep_view();
        let ghost tokens: Seq<Seq<char>> = if argv.len() == 0 {
            Seq::empty()
        } else {
            argv.drop_first()
        };
        let mut st = ScanState::init();
        let mut i: usize = 1;
        while i < args.len()
            invariant
                argv == args.deep_view(),
                argv.len() == args.len(),
                tokens == (if argv.len() == 0 {
                    Seq::<Seq<char>>::empty()
                } else {
                    argv.drop_first()
                }),
                args.len() == 0 ==> i == 1,
                args.len() >= 1 ==> 1 <= i <= args.len(),
                spec_scan(init_state(), tokens.take(i - 1)) == Ok::<StateView, ErrorView>(st@),
            decreases args.len() - i,
        {
            let tok = &args[i];
            proof {
                assert(tokens[i - 1] == argv[i as int]);
                assert(tokens.take(i as int) =~= tokens.take(i - 1).push(tokens[i - 1]));
                lemma_scan_snoc(init_state(), tokens.take(i - 1), tokens[i - 1]);
            }
            match st.step(tok) {
                Ok(next) => {
                    st = next;
                },
                Err(e) => {
                    proof {
                        lemma_scan_err_extends(init_state(), tokens, i as int, e@);
                    }
                    return Err(e);
                },
            }
            i = i + 1;
        }
        proof {
            assert(tokens.take(tokens.len() as int) =~= tokens);
        }
        resolve(st)
    }
}

} // verus!
