//! The platform backends and the capability contract they satisfy.
//!
//! The backend set is closed: a Unix terminal, a Windows console and an inert
//! fallback, as one tagged union. Every operation of a real backend splits
//! into a verified part that computes the control bytes to emit and a small
//! trusted part that hands them to the operating system; the fallback emits
//! nothing and reports no size.

use vstd::prelude::*;

use crate::ansi;
use crate::base::ClearType;

verus! {

/// One concrete backend of the terminal capability contract.
#[derive(Clone, Copy, Debug, PartialEq, Eq, Structural)]
pub enum Backend {
    /// Drives a Unix terminal with ANSI control sequences.
    Unix,
    /// Drives a Windows console through its virtual-terminal mode.
    WinApi,
    /// The inert fallback for platforms without a native backend: clearing
    /// and scrolling do nothing, the size is always absent.
    NoOp,
}

/// The bytes the given backend emits to clear the given region: the region's
/// control sequence on the real backends, nothing on the fallback.
pub open spec fn clear_emission(backend: Backend, clear_type: ClearType) -> Seq<u8> {
    match backend {
        Backend::NoOp => Seq::empty(),
        _ => ansi::clear_code_spec(clear_type),
    }
}

/// The bytes the given backend emits to scroll up by `count` lines: the
/// scroll control sequence on the real backends for a positive count,
/// nothing on the fallback and nothing for a count of zero or less.
pub open spec fn scroll_up_emission(backend: Backend, count: i16) -> Seq<u8> {
    if backend is NoOp || count <= 0 {
        Seq::empty()
    } else {
        ansi::scroll_up_code_spec(count as nat)
    }
}

/// Relies on `std::io::Stdout::write_all` (via `std::io::stdout`): writes the
/// whole byte sequence to standard output. A write error is swallowed, as the
/// contract has no failure mode.
#[verifier::external_body]
fn write_stdout(bytes: &[u8]) {
    let mut out = std::io::stdout();
    let _ = std::io::Write::write_all(&mut out, bytes);
}

/// Relies on `std::io::Stdout::flush` (via `std::io::stdout`): pushes
/// buffered output out to the terminal, so that control sequences take
/// effect at once. A flush error is swallowed, as the contract has no
/// failure mode.
#[verifier::external_body]
fn flush_stdout() {
    let mut out = std::io::stdout();
    let _ = std::io::Write::flush(&mut out);
}

/// Relies on `terminal_size::terminal_size`: the current dimensions
/// (columns, rows) of the terminal attached to one of the standard streams,
/// or `None` when none of them is a terminal. The result depends on the
/// environment, so nothing more is promised of it.
#[verifier::external_body]
fn query_size() -> Option<(u16, u16)> {
    terminal_size::terminal_size().map(|(w, h)| (w.0, h.0))
}

/// Emits a computed control sequence, if there is one to emit.
fn emit(bytes: &Vec<u8>) {
    if bytes.len() > 0 {
        write_stdout(bytes.as_slice());
        flush_stdout();
    }
}

impl Backend {
    /// Clears the given region of the display, by emitting exactly
    /// `clear_emission(self, clear_type)`.
    pub fn clear(&self, clear_type: ClearType) {
        let bytes = self.clear_bytes(clear_type);
        emit(&bytes);
    }

    /// The control bytes this backend emits to clear the given region.
    pub fn clear_bytes(&self, clear_type: ClearType) -> (r: Vec<u8>)
        ensures
            r@ == clear_emission(*self, clear_type),
    {
        match self {
            Backend::NoOp => Vec::new(),
            _ => ansi::clear_code(clear_type),
        }
    }

    /// The terminal's current dimensions as (columns, rows), or `None` when
    /// they cannot be determined; the fallback never determines them.
    pub fn terminal_size(&self) -> (r: Option<(u16, u16)>)
        ensures
            *self is NoOp ==> r is None,
    {
        match self {
            Backend::NoOp => None,
            _ => query_size(),
        }
    }

    /// Scrolls the display up by `count` lines, by emitting exactly
    /// `scroll_up_emission(self, count)`; a count of zero or less scrolls
    /// nothing.
    pub fn scroll_up(&self, count: i16) {
        let bytes = self.scroll_up_bytes(count);
        emit(&bytes);
    }

    /// The control bytes this backend emits to scroll up by `count` lines.
    pub fn scroll_up_bytes(&self, count: i16) -> (r: Vec<u8>)
        ensures
            r@ == scroll_up_emission(*self, count),
    {
        if count <= 0 {
            Vec::new()
        } else {
            match self {
                Backend::NoOp => Vec::new(),
                _ => ansi::scroll_up_code(count as u16),
            }
        }
    }
}

/// The fallback backend is inert: for every region and every count it emits
/// nothing at all.
pub proof fn lemma_fallback_inert(clear_type: ClearType, count: i16)
    ensures
        clear_emission(Backend::NoOp, clear_type) == Seq::<u8>::empty(),
        scroll_up_emission(Backend::NoOp, count) == Seq::<u8>::empty(),
{
}

/// Scrolling by a count of zero or less emits nothing, whichever backend is
/// active.
pub proof fn lemma_scroll_up_nonpositive_inert(backend: Backend, count: i16)
    requires
        count <= 0,
    ensures
        scroll_up_emission(backend, count) == Seq::<u8>::empty(),
{
}

} // verus!
