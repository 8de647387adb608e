//! Gated periodic work, and the indicator worker built on it.
//!
//! A gated task is a unit of work repeated forever: wait until the
//! connectivity signal is up, perform the work once, sleep a fixed
//! interval, start over. A failed unit of work is transient and never ends
//! the task. The waiting and sleeping are the runtime's work; this module
//! fixes the scheduling decisions and the per-cycle state change, so that
//! one indicator's outage can be shown not to disturb another's cycle.

use vstd::prelude::*;

use crate::config::FlickeringGpsLed;
use crate::flicker::{step_spec, Blink, FlickerParams, FlickerSequence, FlickerState};
use crate::homeassistant::EntityState;

verus! {

/// How long an indicator sleeps between cycles, in milliseconds.
pub const POLL_INTERVAL_MILLIS: u64 = 5000;

/// Where a gated task stands in its cycle.
#[derive(Clone, Copy, PartialEq, Eq, Structural, Debug)]
pub enum GatedTaskPhase {
    /// Polling the connectivity signal until it reads `true`.
    WaitingForConnectivity,
    /// Connectivity was observed; the unit of work runs next.
    ReadyToWork,
    /// The unit of work finished (either way); the fixed pause runs next.
    Sleeping,
}

/// What a gated task's runtime reports back: the value a connectivity
/// poll observed, whether the unit of work succeeded, or that the pause
/// elapsed.
#[derive(Clone, Copy, PartialEq, Eq, Structural, Debug)]
pub enum GatedTaskEvent {
    Polled(bool),
    WorkFinished(bool),
    SleepElapsed,
}

/// Which event a phase is waiting for.
pub open spec fn gated_event_fits(phase: GatedTaskPhase, event: GatedTaskEvent) -> bool {
    match phase {
        GatedTaskPhase::WaitingForConnectivity => event is Polled,
        GatedTaskPhase::ReadyToWork => event is WorkFinished,
        GatedTaskPhase::Sleeping => event is SleepElapsed,
    }
}

/// The gated cycle's transition: keep waiting while the signal is down,
/// work once when it is up, sleep after the work, wait again after the
/// sleep.
pub open spec fn gated_next_spec(phase: GatedTaskPhase, event: GatedTaskEvent) -> GatedTaskPhase {
    match (phase, event) {
        (GatedTaskPhase::WaitingForConnectivity, GatedTaskEvent::Polled(up)) => if up {
            GatedTaskPhase::ReadyToWork
        } else {
            GatedTaskPhase::WaitingForConnectivity
        },
        (GatedTaskPhase::ReadyToWork, GatedTaskEvent::WorkFinished(_)) => GatedTaskPhase::Sleeping,
        (GatedTaskPhase::Sleeping, GatedTaskEvent::SleepElapsed) => GatedTaskPhase::WaitingForConnectivity,
        (p, _) => p,
    }
}

/// One scheduling decision of the gated pattern. The runtime performs the
/// action each phase calls for (poll, work, or sleep) and hands the
/// outcome back here. Work runs only after a poll observed connectivity,
/// and a failed unit of work moves to the pause exactly as a successful
/// one does: failure never ends the cycle.
pub fn gated_next(phase: GatedTaskPhase, event: GatedTaskEvent) -> (next: GatedTaskPhase)
    requires
        gated_event_fits(phase, event),
    ensures
        next == gated_next_spec(phase, event),
        phase == GatedTaskPhase::ReadyToWork ==> next == GatedTaskPhase::Sleeping,
        (phase == GatedTaskPhase::WaitingForConnectivity && event == GatedTaskEvent::Polled(false))
            ==> next == GatedTaskPhase::WaitingForConnectivity,
{
    match (phase, event) {
        (GatedTaskPhase::WaitingForConnectivity, GatedTaskEvent::Polled(up)) => {
            if up {
                GatedTaskPhase::ReadyToWork
            } else {
                GatedTaskPhase::WaitingForConnectivity
            }
        },
        (GatedTaskPhase::ReadyToWork, GatedTaskEvent::WorkFinished(_)) => GatedTaskPhase::Sleeping,
        (GatedTaskPhase::Sleeping, GatedTaskEvent::SleepElapsed) => GatedTaskPhase::WaitingForConnectivity,
        (p, _) => p,
    }
}

/// One indicator's worker state: its configuration, its own flicker
/// simulation, and the level last commanded to its actuator. The actuator
/// handle and the HTTP client live with the runtime; each cycle the
/// runtime fetches the entity's state and hands the outcome to
/// `on_fetch_result`. Each worker owns its state exclusively — two
/// indicators share nothing but the read-only connectivity signal, so
/// one's failures cannot move the other's level or its flicker.
pub struct IndicatorTask {
    /// Which remote entity drives this indicator, and how.
    pub led_config: FlickeringGpsLed,
    /// The flicker simulation rendering this indicator's brightness.
    pub flicker: FlickerSequence,
    /// The level last commanded to the actuator; `false` until a cycle
    /// first succeeds.
    pub level: bool,
}

impl IndicatorTask {
    /// A fresh worker whose actuator has not been driven yet, with its
    /// flicker simulation at position zero.
    pub fn new(led_config: FlickeringGpsLed, flicker_params: FlickerParams) -> (t: Self)
        requires
            flicker_params.wf(),
        ensures
            t.led_config == led_config,
            t.level == false,
            t.flicker.wf(),
            t.flicker.params() == flicker_params,
            t.flicker.state() == (FlickerState { time: 0, blink: None::<Blink> }),
    {
        IndicatorTask { led_config, flicker: FlickerSequence::new(flicker_params), level: false }
    }

    /// One step of this indicator's flicker simulation: the brightness to
    /// show for the next `delta_millis`, the random draws given as plain
    /// milliseconds. Touches nothing but the flicker state.
    pub fn next_brightness(
        &mut self,
        delta_millis: u64,
        onset_sample: Option<u64>,
        duration_sample: u64,
    ) -> (b: u64)
        requires
            old(self).flicker.wf(),
            0 < delta_millis <= u64::MAX - old(self).flicker.params().wave_period_millis,
            old(self).flicker.params().blink_rate == crate::flicker::BlinkRate::Never
                ==> onset_sample is None,
        ensures
            final(self).led_config == old(self).led_config,
            final(self).level == old(self).level,
            final(self).flicker.wf(),
            final(self).flicker.params() == old(self).flicker.params(),
            (final(self).flicker.state(), b as int) == step_spec(
                old(self).flicker.params(),
                old(self).flicker.state(),
                delta_millis as int,
                onset_sample,
                duration_sample,
            ),
            old(self).flicker.params().min_brightness <= b <= old(
                self,
            ).flicker.params().max_brightness,
    {
        self.flicker.advance(delta_millis, onset_sample, duration_sample)
    }

    /// How long to sleep between cycles, in milliseconds.
    pub fn get_sleep_duration(&self) -> (d: u64)
        ensures
            d == POLL_INTERVAL_MILLIS,
    {
        POLL_INTERVAL_MILLIS
    }

    /// Whether a fetched state places the entity in this indicator's zone.
    pub fn entity_in_zone(&self, s: &EntityState) -> (r: bool)
        ensures
            r == (s.state@ == self.led_config.gps_zone@),
    {
        s.state.eq(&self.led_config.gps_zone)
    }

    /// One cycle's decision, the fetch outcome given. A successful fetch
    /// drives the actuator to "the entity is in the zone" and records the
    /// commanded level; a failed fetch is transient — the cycle is skipped
    /// and the indicator holds its last level until the next successful
    /// cycle. Returns the level to command, or `None` to leave the
    /// actuator alone.
    pub fn on_fetch_result(&mut self, fetch: Option<&EntityState>) -> (cmd: Option<bool>)
        ensures
            final(self).led_config == old(self).led_config,
            final(self).flicker == old(self).flicker,
            match fetch {
                Some(s) => {
                    &&& cmd == Some(s.state@ == old(self).led_config.gps_zone@)
                    &&& final(self).level == (s.state@ == old(self).led_config.gps_zone@)
                },
                None => cmd is None && final(self).level == old(self).level,
            },
    {
        match fetch {
            Some(s) => {
                let in_zone = self.entity_in_zone(s);
                self.level = in_zone;
                Some(in_zone)
            },
            None => None,
        }
    }
}

} // verus!
