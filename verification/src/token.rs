//! Token classification.
//!
//! Each raw argument token is classified as a port option (short `-p` or
//! long `--port`, with its value either attached or expected in the next
//! token), the escape marker `--`, a bare positional value, or an
//! unrecognized flag-shaped token, which is a terminal error.

use vstd::prelude::*;

verus! {

/// Whether a port option was spelled in its short (`-p`) or long
/// (`--port`) form; a missing-value error names the form that was used.
#[derive(Clone, Copy, Debug, PartialEq, Eq, Structural)]
pub enum OptionStyle {
    Short,
    Long,
}

/// The spelling of a port option, as it appears on the command line.
pub open spec fn option_name(style: OptionStyle) -> Seq<char> {
    match style {
        OptionStyle::Short => "-p"@,
        OptionStyle::Long => "--port"@,
    }
}

/// A raw command-line token, classified.
#[derive(Debug)]
pub enum Token {
    /// `-p` or `--port`; the port value is expected in the next token.
    PortFlag { style: OptionStyle },
    /// A port option with its value attached: `--port=V`, `-pV` or `-p=V`.
    /// Carries the value part alone.
    PortValue { value: String },
    /// `--`: every later token is a bare positional value.
    EscapeMarker,
    /// A bare positional value.
    Positional { value: String },
    /// A flag-shaped token that is not a recognized option.
    Unknown { text: String },
}

/// What a classified token is, over mathematical values.
pub enum TokenView {
    PortFlag { style: OptionStyle },
    PortValue { value: Seq<char> },
    EscapeMarker,
    Positional { value: Seq<char> },
    Unknown { text: Seq<char> },
}

impl View for Token {
    type V = TokenView;

    open spec fn view(&self) -> TokenView {
        match self {
            Token::PortFlag { style } => TokenView::PortFlag { style: *style },
            Token::PortValue { value } => TokenView::PortValue { value: value@ },
            Token::EscapeMarker => TokenView::EscapeMarker,
            Token::Positional { value } => TokenView::Positional { value: value@ },
            Token::Unknown { text } => TokenView::Unknown { text: text@ },
        }
    }
}

/// The token begins with the flag marker `-` and is more than the marker
/// alone; `-` by itself is a bare positional value.
pub open spec fn is_flag_shaped(t: Seq<char>) -> bool {
    t.len() >= 2 && t[0] == '-'
}

/// The token begins with the long-flag marker `--`.
pub open spec fn is_long_shaped(t: Seq<char>) -> bool {
    t.len() >= 2 && t[0] == '-' && t[1] == '-'
}

/// The token is exactly the long port option `--port`.
pub open spec fn is_long_port(t: Seq<char>) -> bool {
    t.len() == 6 && t[0] == '-' && t[1] == '-' && t[2] == 'p' && t[3] == 'o' && t[4] == 'r'
        && t[5] == 't'
}

/// The token is the long port option with an attached value, `--port=...`.
pub open spec fn is_long_port_attached(t: Seq<char>) -> bool {
    t.len() >= 7 && t[0] == '-' && t[1] == '-' && t[2] == 'p' && t[3] == 'o' && t[4] == 'r'
        && t[5] == 't' && t[6] == '='
}

/// How the scanner classifies one raw token, before any `--` escape has
/// been seen.
pub open spec fn spec_classify(t: Seq<char>) -> TokenView {
    if !is_flag_shaped(t) {
        TokenView::Positional { value: t }
    } else if is_long_shaped(t) {
        if t.len() == 2 {
            TokenView::EscapeMarker
        } else if is_long_port(t) {
            TokenView::PortFlag { style: OptionStyle::Long }
        } else if is_long_port_attached(t) {
            TokenView::PortValue { value: t.skip(7) }
        } else {
            TokenView::Unknown { text: t }
        }
    } else if t[1] == 'p' {
        if t.len() == 2 {
            TokenView::PortFlag { style: OptionStyle::Short }
        } else if t[2] == '=' {
            TokenView::PortValue { value: t.skip(3) }
        } else {
            TokenView::PortValue { value: t.skip(2) }
        }
    } else {
        TokenView::Unknown { text: t }
    }
}

/// Classifies one raw token.
pub fn classify(t: &str) -> (tok: Token)
    ensures
        tok@ == spec_classify(t@),
{
    let n = t.unicode_len();
    if n < 2 || t.get_char(0) != '-' {
        return Token::Positional { value: t.to_owned() };
    }
    if t.get_char(1) == '-' {
        if n == 2 {
            return Token::EscapeMarker;
        }
        if n >= 6 && t.get_char(2) == 'p' && t.get_char(3) == 'o' && t.get_char(4) == 'r'
            && t.get_char(5) == 't' {
            if n == 6 {
                return Token::PortFlag { style: OptionStyle::Long };
            }
            if t.get_char(6) == '=' {
                let v = t.substring_char(7, n);
                assert(v@ =~= t@.skip(7));
                return Token::PortValue { value: v.to_owned() };
            }
        }
        return Token::Unknown { text: t.to_owned() };
    }
    if t.get_char(1) == 'p' {
        if n == 2 {
            return Token::PortFlag { style: OptionStyle::Short };
        }
        let from: usize = if t.get_char(2) == '=' {
            3
        } else {
            2
        };
        let v = t.substring_char(from, n);
        assert(v@ =~= t@.skip(from as int));
        return Token::PortValue { value: v.to_owned() };
    }
    Token::Unknown { text: t.to_owned() }
}

} // verus!
