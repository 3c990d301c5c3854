//! The interactive session's decisions: how each terminal event changes the
//! state and which side effects the runtime must then perform. The runtime
//! itself (terminal, timers, channels, drawing) lives at the edge of the
//! program and feeds events in here.

use vstd::prelude::*;
use super::keymap::{key_action, map_key_with_prompt, KeyEvent};
use crate::app::action::Action;
use crate::app::state::{AppState, AppView, Command, CommandView};
use crate::app::toast::Toast;
use crate::app::update::reduces;
use crate::ports::Clock;
use crate::text::push_str;

verus! {

/// The scheduler evaluates due-times every this many ticks (with a ~120 ms
/// tick, about every two seconds).
pub const SCHEDULER_EVERY_TICKS: u64 = 16;

/// A terminal event.
#[derive(Debug, Clone, Copy)]
pub enum Event {
    /// A key press.
    Key(KeyEvent),
    /// The terminal was resized.
    Resize(u16, u16),
    /// A periodic tick (spinner, toast aging, scheduling).
    Tick,
}

/// The state of an interactive session.
pub struct Session<C: Clock> {
    pub state: AppState<C>,
    /// Ticks seen so far (wrapping).
    pub ticks: u64,
    /// Whether the scheduler polls due projects on its own.
    pub auto_refresh: bool,
}

/// Whether `(new, cmd)` is what reducing `action` from `old` yields at
/// some instant that `clock` may read.
pub open spec fn reduces_at_some_time<C: Clock>(
    clock: C,
    old: AppView,
    action: Action,
    new: AppView,
    cmd: CommandView,
) -> bool {
    exists|now: i64| clock.can_read(now) && #[trigger] reduces(old, action, now, new, cmd)
}

/// `t + 1`, wrapping at the top of `u64`.
pub open spec fn next_tick(t: u64) -> u64 {
    if t == u64::MAX {
        0
    } else {
        (t + 1) as u64
    }
}

/// Whether the `ticks`-th tick asks the scheduler for due projects (only
/// with auto-refresh on, and while nothing is in flight).
pub open spec fn poll_tick(auto_refresh: bool, ticks: u64, s: AppView) -> bool {
    auto_refresh && ticks % SCHEDULER_EVERY_TICKS == 0 && s.inflight == 0
}

impl<C: Clock> Session<C> {
    /// A session with auto-refresh on.
    pub fn new(state: AppState<C>) -> (s: Session<C>)
        ensures
            s.state@ == state@,
            s.state.clock == state.clock,
            s.ticks == 0,
            s.auto_refresh,
    {
        Session { state, ticks: 0, auto_refresh: true }
    }

    /// A session for the configured `refresh_interval_secs`: `0` disables
    /// auto-refresh, any other value keeps it on.
    pub fn with_refresh_interval(state: AppState<C>, refresh_interval_secs: u64) -> (s: Session<C>)
        ensures
            s.state@ == state@,
            s.state.clock == state.clock,
            s.ticks == 0,
            s.auto_refresh == (refresh_interval_secs > 0),
    {
        Session { state, ticks: 0, auto_refresh: refresh_interval_secs > 0 }
    }

    /// Apply an action and return the side effect to perform.
    pub fn dispatch(&mut self, action: Action) -> (cmd: Command)
        ensures
            exists|now: i64|
                old(self).state.clock.can_read(now) && reduces(old(self).state@, action, now, final(self).state@, cmd@),
            final(self).state.clock == old(self).state.clock,
            final(self).ticks == old(self).ticks,
            final(self).auto_refresh == old(self).auto_refresh,
    {
        self.state.update(action)
    }

    /// React to a terminal event: returns whether to redraw, and the side
    /// effects to perform. A key is mapped through the keymap (a pending
    /// delete confirmation captures the keys); unbound keys change nothing.
    /// A tick ages the toast and spinner and, with auto-refresh on, every
    /// [`SCHEDULER_EVERY_TICKS`] ticks while nothing is in flight, polls the
    /// due projects; it asks for a redraw while something is animating.
    pub fn handle_event(&mut self, event: Event) -> (r: (bool, Vec<Command>))
        ensures
            final(self).state.clock == old(self).state.clock,
            final(self).auto_refresh == old(self).auto_refresh,
            match event {
                Event::Key(k) => {
                    let a = key_action(
                        k,
                        old(self).state@.mode,
                        old(self).state@.pending_delete is Some,
                    );
                    if a is Noop {
                        final(self).state@ == old(self).state@ && r.0 == false && r.1@.len() == 0
                            && final(self).ticks == old(self).ticks
                    } else {
                        r.0 == true && r.1@.len() == 1 && final(self).ticks == old(self).ticks
                            && reduces_at_some_time(old(self).state.clock, old(self).state@, a, final(self).state@, r.1@[0]@)
                    }
                },
                Event::Resize(_, _) => final(self).state@ == old(self).state@ && r.0 == true
                    && r.1@.len() == 0 && final(self).ticks == old(self).ticks,
                Event::Tick => {
                    let t = next_tick(old(self).ticks);
                    let s1 = old(self).state@.ticked();
                    &&& final(self).ticks == t
                    &&& r.0 == (final(self).state@.inflight > 0 || final(self).state@.toast is Some)
                    &&& if poll_tick(old(self).auto_refresh, t, s1) {
                        r.1@.len() == 1 && reduces_at_some_time(
                            old(self).state.clock,
                            s1,
                            Action::PollDue,
                            final(self).state@,
                            r.1@[0]@,
                        )
                    } else {
                        r.1@.len() == 0 && final(self).state@ == s1
                    }
                },
            },
    {
        match event {
            Event::Key(key) => self.on_key(key),
            Event::Resize(_, _) => (true, Vec::new()),
            Event::Tick => self.on_tick(),
        }
    }

    fn on_key(&mut self, key: KeyEvent) -> (r: (bool, Vec<Command>))
        ensures
            final(self).state.clock == old(self).state.clock,
            final(self).ticks == old(self).ticks,
            final(self).auto_refresh == old(self).auto_refresh,
            ({
                let a = key_action(key, old(self).state@.mode, old(self).state@.pending_delete is Some);
                if a is Noop {
                    final(self).state@ == old(self).state@ && r.0 == false && r.1@.len() == 0
                } else {
                    r.0 == true && r.1@.len() == 1 && reduces_at_some_time(
                        old(self).state.clock,
                        old(self).state@,
                        a,
                        final(self).state@,
                        r.1@[0]@,
                    )
                }
            }),
    {
        let confirming = self.state.pending_delete.is_some();
        let action = map_key_with_prompt(key, self.state.mode, confirming);
        if let Action::Noop = action {
            return (false, Vec::new());
        }
        let ghost s0 = self.state@;
        let ghost a = action;
        assert(a == key_action(key, s0.mode, s0.pending_delete is Some));
        let cmd = self.state.update(action);
        let ghost c = cmd@;
        let mut cmds = Vec::new();
        cmds.push(cmd);
        assert(cmds@[0]@ == c);
        proof {
            let now = choose|now: i64| self.state.clock.can_read(now) && reduces(s0, a, now, self.state@, c);
            assert(reduces(s0, a, now, self.state@, cmds@[0]@));
        }
        (true, cmds)
    }

    fn on_tick(&mut self) -> (r: (bool, Vec<Command>))
        ensures
            final(self).state.clock == old(self).state.clock,
            final(self).auto_refresh == old(self).auto_refresh,
            ({
                let t = next_tick(old(self).ticks);
                let s1 = old(self).state@.ticked();
                &&& final(self).ticks == t
                &&& r.0 == (final(self).state@.inflight > 0 || final(self).state@.toast is Some)
                &&& if poll_tick(old(self).auto_refresh, t, s1) {
                    r.1@.len() == 1 && reduces_at_some_time(
                        old(self).state.clock,
                        s1,
                        Action::PollDue,
                        final(self).state@,
                        r.1@[0]@,
                    )
                } else {
                    r.1@.len() == 0 && final(self).state@ == s1
                }
            }),
    {
        let _ = self.state.update(Action::Tick);
        self.ticks = self.ticks.wrapping_add(1);
        let mut cmds = Vec::new();
        if self.auto_refresh && self.ticks % SCHEDULER_EVERY_TICKS == 0 && !self.state.is_loading() {
            let ghost s1 = self.state@;
            let cmd = self.state.update(Action::PollDue);
            let ghost c = cmd@;
            cmds.push(cmd);
            assert(cmds@[0]@ == c);
            proof {
                let now = choose|now: i64| self.state.clock.can_read(now) && reduces(s1, Action::PollDue, now, self.state@, c);
                assert(reduces(s1, Action::PollDue, now, self.state@, cmds@[0]@));
            }
        }
        (self.state.needs_animation(), cmds)
    }

    /// Surface a failure to save the project list as an error toast; the
    /// session carries on.
    pub fn save_failed(&mut self, message: &str)
        ensures
            final(self).state@ == (AppView {
                toast: Some(
                    crate::app::toast::fresh_toast(
                        "Could not save config: "@ + message@,
                        crate::app::toast::ToastKind::Error,
                    ),
                ),
                ..old(self).state@
            }),
            final(self).state.clock == old(self).state.clock,
            final(self).ticks == old(self).ticks,
            final(self).auto_refresh == old(self).auto_refresh,
    {
        let mut m = String::new();
        push_str(&mut m, "Could not save config: ");
        push_str(&mut m, message);
        self.state.toast = Some(Toast::error(m.as_str()));
    }
}

} // verus!
