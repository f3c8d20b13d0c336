//! ANSI control sequences for clearing and scrolling.
//!
//! Both real backends drive their terminal with virtual-terminal control
//! sequences (Unix terminals natively, modern Windows consoles through their
//! virtual-terminal mode). This module builds those byte sequences and pins
//! their exact contents down.

use vstd::prelude::*;

use crate::base::ClearType;

verus! {

/// The decimal digits of `n`, most significant first, as ASCII bytes.
pub open spec fn dec_digits(n: nat) -> Seq<u8>
    decreases n,
{
    if n < 10 {
        seq![(48 + n) as u8]
    } else {
        dec_digits(n / 10).push((48 + n % 10) as u8)
    }
}

/// The control sequence that clears the given region: ESC `[`, the region's
/// parameter if it has one, and a final byte (`J` for screen regions, `K`
/// for line regions).
pub open spec fn clear_code_spec(clear_type: ClearType) -> Seq<u8> {
    match clear_type {
        ClearType::All => seq![27u8, 91u8, 50u8, 74u8],
        ClearType::AfterCursor => seq![27u8, 91u8, 74u8],
        ClearType::BeforeCursor => seq![27u8, 91u8, 49u8, 74u8],
        ClearType::CurrentLine => seq![27u8, 91u8, 50u8, 75u8],
        ClearType::UntilNewLine => seq![27u8, 91u8, 75u8],
    }
}

/// The control sequence that scrolls the display up by `count` lines:
/// ESC `[`, the count in decimal, `S`.
pub open spec fn scroll_up_code_spec(count: nat) -> Seq<u8> {
    seq![27u8, 91u8] + dec_digits(count) + seq![83u8]
}

/// Appends the decimal digits of `n`, most significant first, to `out`.
pub fn push_dec(n: u16, out: &mut Vec<u8>)
    ensures
        final(out)@ == old(out)@ + dec_digits(n as nat),
    decreases n,
{
    if n >= 10 {
        push_dec(n / 10, out);
    }
    out.push(48 + (n % 10) as u8);
    proof {
        assert(out@ =~= old(out)@ + dec_digits(n as nat));
    }
}

/// Builds the control sequence that clears the given region.
pub fn clear_code(clear_type: ClearType) -> (r: Vec<u8>)
    ensures
        r@ == clear_code_spec(clear_type),
{
    let mut r: Vec<u8> = Vec::new();
    r.push(27);
    r.push(91);
    match clear_type {
        ClearType::All => {
            r.push(50);
            r.push(74);
        }
        ClearType::AfterCursor => {
            r.push(74);
        }
        ClearType::BeforeCursor => {
            r.push(49);
            r.push(74);
        }
        ClearType::CurrentLine => {
            r.push(50);
            r.push(75);
        }
        ClearType::UntilNewLine => {
            r.push(75);
        }
    }
    proof {
        assert(r@ =~= clear_code_spec(clear_type));
    }
    r
}

/// Builds the control sequence that scrolls the display up by `count` lines.
pub fn scroll_up_code(count: u16) -> (r: Vec<u8>)
    ensures
        r@ == scroll_up_code_spec(count as nat),
{
    let mut r: Vec<u8> = Vec::new();
    r.push(27);
    r.push(91);
    push_dec(count, &mut r);
    r.push(83);
    proof {
        assert(r@ =~= scroll_up_code_spec(count as nat));
    }
    r
}

} // verus!
