//! Edit operations between two texts, and how they are rendered.

use vstd::prelude::*;

verus! {

/// The kind of an edit operation.
#[derive(Debug, Clone, Copy, PartialEq, Eq)]
pub enum EditKind {
    /// Text kept as it is.
    Equal,
    /// Text of the reference that is gone.
    Delete,
    /// Text of the candidate that is new.
    Insert,
    /// Text of the reference replaced by text of the candidate.
    Replace,
}

/// The decimal digits of `n`, most significant first, without leading zeros.
pub open spec fn decimal(n: nat) -> Seq<char>
    decreases n,
{
    if n < 10 {
        seq![digit(n)]
    } else {
        decimal(n / 10).push(digit(n % 10))
    }
}

/// The character of the decimal digit `d`.
pub open spec fn digit(d: nat) -> char {
    if d == 0 { '0' }
    else if d == 1 { '1' }
    else if d == 2 { '2' }
    else if d == 3 { '3' }
    else if d == 4 { '4' }
    else if d == 5 { '5' }
    else if d == 6 { '6' }
    else if d == 7 { '7' }
    else if d == 8 { '8' }
    else { '9' }
}

/// `n` in decimal, with a leading minus sign where it is negative.
pub open spec fn integer_text(n: int) -> Seq<char> {
    if n < 0 {
        seq!['-'] + decimal((-n) as nat)
    } else {
        decimal(n as nat)
    }
}

/// Relies on `ToString` for `i128`: the decimal rendering, signed.
#[verifier::external_body]
pub(crate) fn render_integer(n: i128) -> (r: String)
    ensures
        r@ == integer_text(n as int),
{
    n.to_string()
}

/// `text` as it shows in a rendered diff: unchanged text verbatim, and each
/// kind of change between its own colour marker and the reset marker.
pub open spec fn marked(kind: EditKind, text: Seq<char>) -> Seq<char> {
    match kind {
        EditKind::Equal => text,
        EditKind::Delete => "\x1b[92m"@ + text + "\x1b[0m"@,
        EditKind::Insert => "\x1b[91m"@ + text + "\x1b[0m"@,
        EditKind::Replace => "\x1b[95m"@ + text + "\x1b[0m"@,
    }
}

/// Append `text`, marked as `kind`, to `out`.
pub fn push_marked(out: &mut String, kind: EditKind, text: &str)
    ensures
        final(out)@ == old(out)@ + marked(kind, text@),
{
    match kind {
        EditKind::Equal => {
            out.append(text);
        },
        EditKind::Delete => {
            out.append("\x1b[92m");
            out.append(text);
            out.append("\x1b[0m");
        },
        EditKind::Insert => {
            out.append("\x1b[91m");
            out.append(text);
            out.append("\x1b[0m");
        },
        EditKind::Replace => {
            out.append("\x1b[95m");
            out.append(text);
            out.append("\x1b[0m");
        },
    }
    proof {
        assert(final(out)@ =~= old(out)@ + marked(kind, text@));
    }
}

} // verus!
