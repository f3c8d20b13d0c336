//! The terminal facade: one handle that resolves a platform backend once and
//! forwards every operation to it.
//!
//! A handle is either empty or holds its backend. Every operation first runs
//! the same check-then-resolve step, so resolution happens at the latest on
//! the first operation, and never again: resolving is idempotent, and a
//! resolved backend is never replaced for the lifetime of the handle.

use vstd::prelude::*;

use crate::backend::Backend;
use crate::backend::clear_emission;
use crate::backend::scroll_up_emission;
use crate::base::ClearType;
use crate::base::Platform;

verus! {

/// The backend the selector yields for a platform: the native backend where
/// there is one, the inert fallback everywhere else.
pub open spec fn selected_backend(platform: Platform) -> Backend {
    match platform {
        Platform::Unix => Backend::Unix,
        Platform::Windows => Backend::WinApi,
        Platform::Unknown => Backend::NoOp,
    }
}

/// A handle on the terminal whereon terminal-related actions can be
/// performed.
pub struct Terminal {
    platform: Platform,
    terminal: Option<Backend>,
}

impl Terminal {
    /// The platform this handle was created for.
    pub closed spec fn platform_of(self) -> Platform {
        self.platform
    }

    /// The backend this handle has resolved, if it has resolved one.
    pub closed spec fn backend_of(self) -> Option<Backend> {
        self.terminal
    }

    /// The backend this handle holds after one resolution step: the one it
    /// already resolved where there is one, else the selected one. Always
    /// some backend — selection is total.
    pub open spec fn resolved(self) -> Option<Backend> {
        if self.backend_of() is Some {
            self.backend_of()
        } else {
            Some(selected_backend(self.platform_of()))
        }
    }

    /// Creates an empty handle for the given platform; its backend is
    /// resolved by the first operation called on it.
    pub fn new(platform: Platform) -> (t: Terminal)
        ensures
            t.platform_of() == platform,
            t.backend_of() is None,
    {
        Terminal { platform, terminal: None }
    }

    /// Resolves the backend where none is resolved yet; a handle that
    /// already holds one keeps it unchanged.
    pub fn init(&mut self)
        ensures
            final(self).platform_of() == old(self).platform_of(),
            final(self).backend_of() == old(self).resolved(),
    {
        if let None = self.terminal {
            self.terminal = get_terminal(self.platform);
        }
    }

    /// Clears the given region of the terminal, by forwarding to the
    /// resolved backend, which emits exactly `clear_emission` of it — so the
    /// fallback emits nothing.
    pub fn clear(&mut self, clear_type: ClearType)
        ensures
            final(self).platform_of() == old(self).platform_of(),
            final(self).backend_of() == old(self).resolved(),
    {
        self.init();
        if let Some(terminal) = self.terminal {
            terminal.clear(clear_type);
        }
    }

    /// The terminal's current dimensions as (columns, rows), re-queried from
    /// the backend on every call, or `None` where the backend cannot
    /// determine them; on the fallback backend always `None`.
    pub fn terminal_size(&mut self) -> (r: Option<(u16, u16)>)
        ensures
            final(self).platform_of() == old(self).platform_of(),
            final(self).backend_of() == old(self).resolved(),
            old(self).resolved() == Some(Backend::NoOp) ==> r is None,
    {
        self.init();
        if let Some(terminal) = self.terminal {
            terminal.terminal_size()
        } else {
            None
        }
    }

    /// Scrolls the terminal content up by `count` lines, by forwarding to
    /// the resolved backend, which emits exactly `scroll_up_emission` of it —
    /// so a count of zero or less, like the fallback, emits nothing.
    pub fn scroll_up(&mut self, count: i16)
        ensures
            final(self).platform_of() == old(self).platform_of(),
            final(self).backend_of() == old(self).resolved(),
    {
        self.init();
        if let Some(terminal) = self.terminal {
            terminal.scroll_up(count);
        }
    }

    /// Declared by the capability contract but intentionally a stub in this
    /// revision: it forwards nothing and has no effect, rather than giving a
    /// false impression of symmetry with `scroll_up`.
    pub fn scroll_down(&self) {
    }
}

/// Selects the concrete backend for the given platform. Total and
/// deterministic: every platform yields a backend, unsupported ones the
/// inert fallback, so selection never fails.
pub fn get_terminal(platform: Platform) -> (r: Option<Backend>)
    ensures
        r == Some(selected_backend(platform)),
{
    match platform {
        Platform::Unix => Some(Backend::Unix),
        Platform::Windows => Some(Backend::WinApi),
        Platform::Unknown => Some(Backend::NoOp),
    }
}

/// Creates a terminal handle for the given platform, with its backend
/// already resolved.
pub fn get(platform: Platform) -> (t: Terminal)
    ensures
        t.platform_of() == platform,
        t.backend_of() == Some(selected_backend(platform)),
{
    Terminal { platform, terminal: get_terminal(platform) }
}

/// Resolution never fails: every handle, empty or not, resolves to some
/// backend.
pub proof fn lemma_resolution_total(t: Terminal)
    ensures
        t.resolved() is Some,
{
}

/// Resolution is idempotent: a handle that holds what a first resolution
/// produced resolves to that same backend again, so any two operations in
/// sequence on one handle go to one backend, never to two different ones.
pub proof fn lemma_resolution_idempotent(before: Terminal, after: Terminal)
    requires
        after.platform_of() == before.platform_of(),
        after.backend_of() == before.resolved(),
    ensures
        after.resolved() == before.resolved(),
        after.backend_of() == after.resolved(),
{
}

/// An unrecognized platform selects the inert fallback: every clear and
/// every scroll on it emits nothing, and (by the fallback's size contract)
/// its size is always absent.
pub proof fn lemma_unknown_platform_inert(clear_type: ClearType, count: i16)
    ensures
        selected_backend(Platform::Unknown) == Backend::NoOp,
        clear_emission(selected_backend(Platform::Unknown), clear_type) == Seq::<u8>::empty(),
        scroll_up_emission(selected_backend(Platform::Unknown), count) == Seq::<u8>::empty(),
{
}

} // verus!
