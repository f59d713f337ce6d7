//! The accumulator.
//!
//! A scan folds each raw token into a small provisional state: up to two
//! bare positional values, an optional port, a port option still waiting
//! for its value, and whether the `--` escape has been seen. The state is
//! created for one parse call and consumed by the resolver.

use vstd::prelude::*;

use crate::error::{ErrorView, ParseError};
use crate::port::{parse_port, spec_parse_port};
use crate::token::{classify, spec_classify, OptionStyle, Token, TokenView};

verus! {

/// The bare positional values accepted so far: none, one, or two. A third
/// one is a terminal error.
#[derive(Debug)]
pub enum PositionalSlot {
    Empty,
    One { src: String },
    Two { src: String, dest: String },
}

/// What the positional slot holds, over mathematical values.
pub enum SlotView {
    Empty,
    One { src: Seq<char> },
    Two { src: Seq<char>, dest: Seq<char> },
}

impl View for PositionalSlot {
    type V = SlotView;

    open spec fn view(&self) -> SlotView {
        match self {
            PositionalSlot::Empty => SlotView::Empty,
            PositionalSlot::One { src } => (SlotView::One { src: src@ }),
            PositionalSlot::Two { src, dest } => (SlotView::Two { src: src@, dest: dest@ }),
        }
    }
}

/// The provisional state built up while scanning one argument sequence.
#[derive(Debug)]
pub struct ScanState {
    /// The bare positional values accepted so far.
    pub positionals: PositionalSlot,
    /// The port value most recently supplied; a later port option
    /// silently overwrites an earlier one.
    pub port: Option<u16>,
    /// Set while a port option is waiting for its value token.
    pub pending: Option<OptionStyle>,
    /// Set once `--` has been seen; every later token is positional.
    pub escaped: bool,
}

/// What the scan state holds, over mathematical values.
pub struct StateView {
    pub positionals: SlotView,
    pub port: Option<u16>,
    pub pending: Option<OptionStyle>,
    pub escaped: bool,
}

impl View for ScanState {
    type V = StateView;

    open spec fn view(&self) -> StateView {
        StateView {
            positionals: self.positionals@,
            port: self.port,
            pending: self.pending,
            escaped: self.escaped,
        }
    }
}

/// The state before any token has been scanned.
pub open spec fn init_state() -> StateView {
    StateView { positionals: SlotView::Empty, port: None, pending: None, escaped: false }
}

/// A step either yields the next state or aborts the parse.
pub open spec fn step_outcome(r: Result<ScanState, ParseError>) -> Result<StateView, ErrorView> {
    match r {
        Ok(s) => Ok(s@),
        Err(e) => Err(e@),
    }
}

/// Stores one more bare positional value: the first is the source, the
/// second the destination, and a third is an unexpected argument.
pub open spec fn spec_push_positional(st: StateView, t: Seq<char>) -> Result<
    StateView,
    ErrorView,
> {
    match st.positionals {
        SlotView::Empty => Ok(
            StateView {
                positionals: SlotView::One { src: t },
                port: st.port,
                pending: st.pending,
                escaped: st.escaped,
            },
        ),
        SlotView::One { src } => Ok(
            StateView {
                positionals: SlotView::Two { src, dest: t },
                port: st.port,
                pending: st.pending,
                escaped: st.escaped,
            },
        ),
        SlotView::Two { .. } => Err(ErrorView::UnexpectedArgument { text: t }),
    }
}

/// How one raw token changes the scan state.
///
/// A port option waiting for its value consumes the next token whole,
/// however it is shaped; a failed port value is a terminal invalid-value
/// error; after `--`, every token is positional.
pub open spec fn spec_step(st: StateView, t: Seq<char>) -> Result<StateView, ErrorView> {
    if st.pending is Some {
        match spec_parse_port(t) {
            Some(p) => Ok(
                StateView {
                    positionals: st.positionals,
                    port: Some(p),
                    pending: None,
                    escaped: st.escaped,
                },
            ),
            None => Err(ErrorView::InvalidValue { text: t }),
        }
    } else if st.escaped {
        spec_push_positional(st, t)
    } else {
        match spec_classify(t) {
            TokenView::EscapeMarker => Ok(
                StateView {
                    positionals: st.positionals,
                    port: st.port,
                    pending: None,
                    escaped: true,
                },
            ),
            TokenView::PortFlag { style } => Ok(
                StateView {
                    positionals: st.positionals,
                    port: st.port,
                    pending: Some(style),
                    escaped: st.escaped,
                },
            ),
            TokenView::PortValue { value } => match spec_parse_port(value) {
                Some(p) => Ok(
                    StateView {
                        positionals: st.positionals,
                        port: Some(p),
                        pending: None,
                        escaped: st.escaped,
                    },
                ),
                None => Err(ErrorView::InvalidValue { text: value }),
            },
            TokenView::Positional { value } => spec_push_positional(st, value),
            TokenView::Unknown { text } => Err(ErrorView::UnexpectedArgument { text }),
        }
    }
}

impl ScanState {
    /// The state at the start of a parse call.
    pub fn init() -> (s: ScanState)
        ensures
            s@ == init_state(),
    {
        ScanState { positionals: PositionalSlot::Empty, port: None, pending: None, escaped: false }
    }

    fn push_positional(self, value: String) -> (r: Result<ScanState, ParseError>)
        ensures
            step_outcome(r) == spec_push_positional(self@, value@),
    {
        let ScanState { positionals, port, pending, escaped } = self;
        match positionals {
            PositionalSlot::Empty => Ok(
                ScanState { positionals: PositionalSlot::One { src: value }, port, pending, escaped },
            ),
            PositionalSlot::One { src } => Ok(
                ScanState {
                    positionals: PositionalSlot::Two { src, dest: value },
                    port,
                    pending,
                    escaped,
                },
            ),
            PositionalSlot::Two { .. } => Err(ParseError::UnexpectedArgument { text: value }),
        }
    }

    /// Folds one raw token into the scan state, or aborts the parse.
    pub fn step(self, tok: &String) -> (r: Result<ScanState, ParseError>)
        ensures
            step_outcome(r) == spec_step(self@, tok@),
    {
        if self.pending.is_some() {
            return match parse_port(tok.as_str()) {
                Some(p) => Ok(
                    ScanState {
                        positionals: self.positionals,
                        port: Some(p),
                        pending: None,
                        escaped: self.escaped,
                    },
                ),
                None => Err(ParseError::InvalidValue { text: tok.clone() }),
            };
        }
        if self.escaped {
            return self.push_positional(tok.clone());
        }
        match classify(tok.as_str()) {
            Token::EscapeMarker => Ok(
                ScanState {
                    positionals: self.positionals,
                    port: self.port,
                    pending: None,
                    escaped: true,
                },
            ),
            Token::PortFlag { style } => Ok(
                ScanState {
                    positionals: self.positionals,
                    port: self.port,
                    pending: Some(style),
                    escaped: self.escaped,
                },
            ),
            Token::PortValue { value } => match parse_port(value.as_str()) {
                Some(p) => Ok(
                    ScanState {
                        positionals: self.positionals,
                        port: Some(p),
                        pending: None,
                        escaped: self.escaped,
                    },
                ),
                None => Err(ParseError::InvalidValue { text: value }),
            },
            Token::Positional { value } => self.push_positional(value),
            Token::Unknown { text } => Err(ParseError::UnexpectedArgument { text }),
        }
    }
}

} // verus!
