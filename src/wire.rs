//! The JSON text frames of the hot-reload channel.

use vstd::prelude::*;
use crate::protocol::{HmrMessage, MessageView};

verus! {

/// Appends `ch` to `s`; std documents `push` as exactly that.
pub assume_specification[ String::push ](s: &mut String, ch: char)
    ensures
        final(s)@ == old(s)@.push(ch),
;

pub const HEX_DIGITS: &'static str = "0123456789abcdef";

pub const CONNECTED_HEAD: &'static str = "{\"type\":\"connected\",\"generation\":";

pub const RELOAD_HEAD: &'static str = "{\"type\":\"reload\",\"generation\":";

pub const CSS_UPDATE_HEAD: &'static str = "{\"type\":\"css-update\",\"generation\":";

pub const PATHS_KEY: &'static str = ",\"paths\":[";

pub const ERROR_HEAD: &'static str = "{\"type\":\"error\",\"generation\":";

pub const MESSAGE_KEY: &'static str = ",\"message\":";

pub open spec fn digit(d: nat) -> char {
    HEX_DIGITS@[d as int]
}

/// The decimal digits of `n`, most significant first.
pub open spec fn decimal(n: nat) -> Seq<char>
    decreases n,
{
    if n < 10 {
        seq![digit(n)]
    } else {
        decimal(n / 10).push(digit(n % 10))
    }
}

/// How a JSON string literal writes one character.
pub open spec fn escape_char(c: char) -> Seq<char> {
    if c == '"' {
        seq!['\\', '"']
    } else if c == '\\' {
        seq!['\\', '\\']
    } else if c == '\n' {
        seq!['\\', 'n']
    } else if c == '\r' {
        seq!['\\', 'r']
    } else if c == '\t' {
        seq!['\\', 't']
    } else if (c as u32) < 32 {
        seq!['\\', 'u', '0', '0', digit((c as u32 / 16) as nat), digit((c as u32 % 16) as nat)]
    } else {
        seq![c]
    }
}

pub open spec fn escaped(s: Seq<char>) -> Seq<char>
    decreases s.len(),
{
    if s.len() == 0 {
        Seq::empty()
    } else {
        escaped(s.drop_last()) + escape_char(s.last())
    }
}

/// `s` as a JSON string literal.
pub open spec fn quoted(s: Seq<char>) -> Seq<char> {
    seq!['"'] + escaped(s) + seq!['"']
}

/// The elements of a JSON array of strings, comma-separated.
pub open spec fn string_list(items: Seq<Seq<char>>) -> Seq<char>
    decreases items.len(),
{
    if items.len() == 0 {
        Seq::empty()
    } else {
        let before = string_list(items.drop_last());
        let sep = if items.len() > 1 { before.push(',') } else { before };
        sep + quoted(items.last())
    }
}

/// The text frame that carries a message.
pub open spec fn frame(m: MessageView) -> Seq<char> {
    match m {
        MessageView::Connected { generation } => CONNECTED_HEAD@ + decimal(generation as nat) + seq!['}'],
        MessageView::Reload { generation } => RELOAD_HEAD@ + decimal(generation as nat) + seq!['}'],
        MessageView::CssUpdate { generation, paths } => CSS_UPDATE_HEAD@ + decimal(generation as nat)
            + PATHS_KEY@ + string_list(paths) + seq![']', '}'],
        MessageView::BuildError { generation, message } => ERROR_HEAD@ + decimal(generation as nat)
            + MESSAGE_KEY@ + quoted(message) + seq!['}'],
    }
}

fn hex_digit(d: u32) -> (c: char)
    requires
        d < 16,
    ensures
        c == digit(d as nat),
{
    proof {
        reveal_strlit("0123456789abcdef");
    }
    HEX_DIGITS.get_char(d as usize)
}

/// Appends the decimal digits of `n`.
pub fn push_decimal(out: &mut String, n: u64)
    ensures
        final(out)@ == old(out)@ + decimal(n as nat),
    decreases n,
{
    if n >= 10 {
        push_decimal(out, n / 10);
    }
    out.push(hex_digit((n % 10) as u32));
    assert(out@ =~= old(out)@ + decimal(n as nat));
}

/// Appends `s` as a JSON string literal.
pub fn push_quoted(out: &mut String, s: &str)
    ensures
        final(out)@ == old(out)@ + quoted(s@),
{
    out.push('"');
    let n = s.unicode_len();
    let mut i: usize = 0;
    while i < n
        invariant
            n == s@.len(),
            0 <= i <= n,
            out@ == old(out)@.push('"') + escaped(s@.take(i as int)),
        decreases n - i,
    {
        let c = s.get_char(i);
        let ghost before = out@;
        if c == '"' {
            out.push('\\');
            out.push('"');
        } else if c == '\\' {
            out.push('\\');
            out.push('\\');
        } else if c == '\n' {
            out.push('\\');
            out.push('n');
        } else if c == '\r' {
            out.push('\\');
            out.push('r');
        } else if c == '\t' {
            out.push('\\');
            out.push('t');
        } else if (c as u32) < 32 {
            out.push('\\');
            out.push('u');
            out.push('0');
            out.push('0');
            out.push(hex_digit(c as u32 / 16));
            out.push(hex_digit(c as u32 % 16));
        } else {
            out.push(c);
        }
        proof {
            assert(out@ =~= before + escape_char(c));
            assert(s@.take(i as int + 1).drop_last() =~= s@.take(i as int));
        }
        i = i + 1;
    }
    out.push('"');
    proof {
        assert(s@.take(n as int) =~= s@);
        assert(final(out)@ =~= old(out)@ + quoted(s@));
    }
}

/// Appends the comma-separated string literals of `items`.
pub fn push_string_list(out: &mut String, items: &Vec<String>)
    ensures
        final(out)@ == old(out)@ + string_list(items.deep_view()),
{
    let mut i: usize = 0;
    while i < items.len()
        invariant
            0 <= i <= items.len(),
            out@ == old(out)@ + string_list(items.deep_view().take(i as int)),
        decreases items.len() - i,
    {
        let ghost before = out@;
        if i > 0 {
            out.push(',');
        }
        push_quoted(out, items[i].as_str());
        proof {
            let t = items.deep_view().take(i as int + 1);
            assert(t.drop_last() =~= items.deep_view().take(i as int));
            assert(t.last() == items[i as int]@);
            assert(out@ =~= old(out)@ + string_list(t));
        }
        i = i + 1;
    }
    proof {
        assert(items.deep_view().take(i as int) =~= items.deep_view());
    }
}

impl HmrMessage {
    /// The JSON text frame that carries this message, tagged by its `type`.
    pub fn to_json(&self) -> (s: String)
        ensures
            s@ == frame(self@),
    {
        let mut out = String::new();
        match self {
            HmrMessage::Connected { generation } => {
                out.push_str(CONNECTED_HEAD);
                push_decimal(&mut out, *generation);
                out.push('}');
            },
            HmrMessage::Reload { generation } => {
                out.push_str(RELOAD_HEAD);
                push_decimal(&mut out, *generation);
                out.push('}');
            },
            HmrMessage::CssUpdate { generation, paths } => {
                out.push_str(CSS_UPDATE_HEAD);
                push_decimal(&mut out, *generation);
                out.push_str(PATHS_KEY);
                push_string_list(&mut out, paths);
                out.push(']');
                out.push('}');
            },
            HmrMessage::BuildError { generation, message } => {
                out.push_str(ERROR_HEAD);
                push_decimal(&mut out, *generation);
                out.push_str(MESSAGE_KEY);
                push_quoted(&mut out, message.as_str());
                out.push('}');
            },
        }
        assert(out@ =~= frame(self@));
        out
    }
}

} // verus!
