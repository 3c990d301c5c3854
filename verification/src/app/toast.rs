//! Transient toast notifications — lightweight, time-decaying user feedback.

use vstd::prelude::*;
use crate::text::push_str;

verus! {

/// Severity/kind of a toast, mapped to a color by the theme.
#[derive(Debug, Clone, Copy, PartialEq, Eq, Structural)]
pub enum ToastKind {
    Info,
    Success,
    Warning,
    Error,
}

/// A transient message shown briefly in the UI.
#[derive(Debug, Clone, PartialEq, Eq)]
pub struct Toast {
    pub message: String,
    pub kind: ToastKind,
    /// Remaining lifetime in ticks. Decremented each tick.
    pub ttl: u16,
}

/// Default lifetime in ticks. With a ~120 ms tick this is ~2.5 s.
pub const DEFAULT_TTL: u16 = 20;

/// Mathematical view of a [`Toast`].
pub struct ToastView {
    pub message: Seq<char>,
    pub kind: ToastKind,
    pub ttl: u16,
}

impl View for Toast {
    type V = ToastView;

    open spec fn view(&self) -> ToastView {
        ToastView { message: self.message@, kind: self.kind, ttl: self.ttl }
    }
}

/// A fresh toast of `kind` saying `message`.
pub open spec fn fresh_toast(message: Seq<char>, kind: ToastKind) -> ToastView {
    ToastView { message: message, kind: kind, ttl: DEFAULT_TTL }
}

impl Toast {
    /// Default lifetime in ticks.
    pub const DEFAULT_TTL: u16 = 20;

    pub fn new(message: &str, kind: ToastKind) -> (t: Toast)
        ensures
            t@ == fresh_toast(message@, kind),
    {
        let mut m = String::new();
        push_str(&mut m, message);
        assert(m@ =~= message@);
        Toast { message: m, kind, ttl: DEFAULT_TTL }
    }

    pub fn info(message: &str) -> (t: Toast)
        ensures
            t@ == fresh_toast(message@, ToastKind::Info),
    {
        Self::new(message, ToastKind::Info)
    }

    pub fn success(message: &str) -> (t: Toast)
        ensures
            t@ == fresh_toast(message@, ToastKind::Success),
    {
        Self::new(message, ToastKind::Success)
    }

    pub fn warning(message: &str) -> (t: Toast)
        ensures
            t@ == fresh_toast(message@, ToastKind::Warning),
    {
        Self::new(message, ToastKind::Warning)
    }

    pub fn error(message: &str) -> (t: Toast)
        ensures
            t@ == fresh_toast(message@, ToastKind::Error),
    {
        Self::new(message, ToastKind::Error)
    }

    /// Age the toast by one tick. Returns `true` while it is still alive.
    pub fn tick(&mut self) -> (alive: bool)
        ensures
            final(self).message == old(self).message,
            final(self).kind == old(self).kind,
            final(self).ttl == if old(self).ttl > 0 { old(self).ttl - 1 } else { 0 },
            alive == (final(self).ttl > 0),
    {
        self.ttl = self.ttl.saturating_sub(1);
        self.ttl > 0
    }
}

/// Remaining lifetime after `n` applications of [`Toast::tick`].
pub open spec fn ticked(ttl: u16, n: nat) -> u16
    decreases n,
{
    if n == 0 {
        ttl
    } else {
        let t = ticked(ttl, (n - 1) as nat);
        if t > 0 {
            (t - 1) as u16
        } else {
            0
        }
    }
}

/// A toast with lifetime `ttl` stays alive for exactly its first `ttl - 1`
/// ticks and is gone from tick `ttl` on.
pub proof fn law_toast_lifetime(ttl: u16, n: nat)
    ensures
        ticked(ttl, n) == if n >= ttl { 0 } else { ttl - n },
        ticked(ttl, n) > 0 <==> n < ttl,
    decreases n,
{
    if n > 0 {
        law_toast_lifetime(ttl, (n - 1) as nat);
    }
}

} // verus!
