//! Frame distribution loop, as a state machine.
//!
//! The loop owns at most one capture session. Each iteration it takes in a
//! waiting switch command, keeps the throughput window, and then either
//! reads a frame from the open session or tries to open one on the current
//! device. Opening and reading are the driver's work; what to do, and what
//! follows from how it went, is decided here.

use vstd::prelude::*;
use crate::camera::control::ControlChannel;
use crate::camera::gauge::recent_at;
use crate::camera::gauge::FpsWindow;
use crate::camera::switch::lemma_target_in_range;
use crate::camera::switch::target_index;
use crate::camera::switch::SwitchCommand;

verus! {

/// Whether a capture session is open.
#[derive(Clone, Copy, Debug, PartialEq, Eq, Structural)]
pub enum SessionState {
    /// No session is open; the next iteration tries to open one.
    NoSession,
    /// A session is open on the device at this index.
    Active(usize),
}

/// What the driver has to do in this iteration.
#[derive(Clone, Copy, Debug, PartialEq, Eq, Structural)]
pub enum Action {
    /// Open a capture session on the device at this index.
    OpenDevice(usize),
    /// Read the next frame from the open session on this device.
    ReadFrame(usize),
}

/// Why opening a device or reading a frame failed.
#[derive(Clone, Copy, Debug, PartialEq, Eq, Structural)]
pub enum CaptureError {
    /// The device path could not be resolved.
    PathResolution,
    /// The device could not be opened.
    DeviceOpen,
    /// The device did not accept the requested format.
    FormatNegotiation,
    /// The session failed to hand out a frame.
    FrameRead,
}

/// How the action of an iteration went.
#[derive(Clone, Copy, Debug, PartialEq, Eq, Structural)]
pub enum Event {
    /// A session was opened.
    Opened,
    /// A frame was read and handed on.
    FrameRead,
    /// The action failed; any open session is gone.
    Failed(CaptureError),
}

/// The loop's state as plain values.
pub struct LoopModel {
    /// Number of configured devices.
    pub device_count: nat,
    /// Index of the device that is, or is to be, captured from.
    pub device_index: nat,
    /// Whether a session is open on that device.
    pub active: bool,
}

impl LoopModel {
    /// The current device is one of the configured ones.
    pub open spec fn wf(self) -> bool {
        self.device_index < self.device_count
    }

    /// The session state.
    pub open spec fn state(self) -> SessionState {
        if self.active {
            SessionState::Active(self.device_index as usize)
        } else {
            SessionState::NoSession
        }
    }

    /// The state after a switch command. A command that leads to the
    /// current device changes nothing; any other moves to its target and
    /// closes the session.
    pub open spec fn after_command(self, command: SwitchCommand) -> LoopModel {
        let target = target_index(command, self.device_index, self.device_count);
        if target == self.device_index {
            self
        } else {
            LoopModel { device_count: self.device_count, device_index: target, active: false }
        }
    }

    /// The state after the command polled in one iteration, if any.
    pub open spec fn after_polled(self, polled: Option<SwitchCommand>) -> LoopModel {
        match polled {
            Some(command) => self.after_command(command),
            None => self,
        }
    }

    /// What the driver has to do in this state.
    pub open spec fn action(self) -> Action {
        if self.active {
            Action::ReadFrame(self.device_index as usize)
        } else {
            Action::OpenDevice(self.device_index as usize)
        }
    }

    /// The state after the driver reports how its action went. The current
    /// device never changes here.
    pub open spec fn after_event(self, event: Event) -> LoopModel {
        match event {
            Event::Opened => LoopModel {
                device_count: self.device_count,
                device_index: self.device_index,
                active: true,
            },
            Event::FrameRead => self,
            Event::Failed(_) => LoopModel {
                device_count: self.device_count,
                device_index: self.device_index,
                active: false,
            },
        }
    }
}

/// How long the driver waits after a failed open before the next
/// iteration, in milliseconds, so that a missing device does not make the
/// loop spin.
pub const REOPEN_PAUSE_MILLIS: u64 = 100;

/// Whether the driver should wait before the next iteration: only after an
/// open that failed. After a failed read the device is reopened at once.
pub open spec fn pause_after(before: LoopModel, event: Event) -> bool {
    !before.active && event is Failed
}

/// The throughput window after the bookkeeping of one iteration at `now`:
/// pruned, and with `now` recorded when a session is open.
pub open spec fn window_after(window: Seq<u64>, active: bool, now: u64) -> Seq<u64> {
    let pruned = window.filter(recent_at(now));
    if active {
        pruned.push(now)
    } else {
        pruned
    }
}

/// The gauge value that the bookkeeping of one iteration publishes: the
/// length of the window while a session is open, nothing otherwise.
pub open spec fn gauge_after(window: Seq<u64>, active: bool, now: u64) -> Option<usize> {
    if active {
        Some(window_after(window, active, now).len() as usize)
    } else {
        None
    }
}

/// What one iteration asks of the driver.
pub struct Plan {
    /// The switch command taken in at the start of the iteration, if any.
    pub command: Option<SwitchCommand>,
    /// The action to perform.
    pub action: Action,
    /// The frames-per-second value to publish, if any.
    pub fps: Option<usize>,
}

/// The distribution loop's state.
pub struct FrameLoop {
    device_count: usize,
    device_index: usize,
    active: bool,
    window: FpsWindow,
}

impl View for FrameLoop {
    type V = LoopModel;

    closed spec fn view(&self) -> LoopModel {
        LoopModel {
            device_count: self.device_count as nat,
            device_index: self.device_index as nat,
            active: self.active,
        }
    }
}

impl FrameLoop {
    /// The timestamps in the throughput window, oldest first.
    pub closed spec fn window(&self) -> Seq<u64> {
        self.window@
    }

    /// The current device is one of the configured ones.
    pub open spec fn wf(&self) -> bool {
        self@.wf()
    }

    /// A loop over `device_count` devices, on device 0 with no session and
    /// an empty window. There is no loop over zero devices.
    pub fn new(device_count: usize) -> (created: Option<FrameLoop>)
        ensures
            device_count == 0 <==> created is None,
            created matches Some(l) ==> {
                &&& l.wf()
                &&& l@ == (LoopModel { device_count: device_count as nat, device_index: 0, active: false })
                &&& l.window() == Seq::<u64>::empty()
            },
    {
        if device_count == 0 {
            None
        } else {
            Some(FrameLoop { device_count, device_index: 0, active: false, window: FpsWindow::new() })
        }
    }

    /// Number of configured devices.
    pub fn device_count(&self) -> (n: usize)
        ensures
            n == self@.device_count,
    {
        self.device_count
    }

    /// Index of the device that is, or is to be, captured from.
    pub fn device_index(&self) -> (i: usize)
        ensures
            i == self@.device_index,
    {
        self.device_index
    }

    /// The session state.
    pub fn state(&self) -> (s: SessionState)
        ensures
            s == self@.state(),
    {
        if self.active {
            SessionState::Active(self.device_index)
        } else {
            SessionState::NoSession
        }
    }

    /// Number of timestamps in the throughput window.
    pub fn window_len(&self) -> (n: usize)
        ensures
            n == self.window().len(),
    {
        self.window.len()
    }

    /// Takes in one switch command and tells whether the session was torn
    /// down for it. A command that leads to the current device is ignored:
    /// nothing changes and an open session stays open.
    pub fn apply_command(&mut self, command: SwitchCommand) -> (switched: bool)
        requires
            old(self).wf(),
        ensures
            final(self).wf(),
            final(self)@ == old(self)@.after_command(command),
            final(self).window() == old(self).window(),
            switched == (final(self)@.device_index != old(self)@.device_index),
            !switched ==> final(self)@ == old(self)@,
    {
        let target: usize = command.target(self.device_index, self.device_count);
        if target == self.device_index {
            false
        } else {
            self.device_index = target;
            self.active = false;
            true
        }
    }

    /// Keeps the throughput window at `now`: prunes it and, while a session
    /// is open, records `now` and returns the window's length as the gauge
    /// value.
    pub fn record(&mut self, now: u64) -> (fps: Option<usize>)
        requires
            old(self).wf(),
        ensures
            final(self).wf(),
            final(self)@ == old(self)@,
            final(self).window() == window_after(old(self).window(), old(self)@.active, now),
            fps == gauge_after(old(self).window(), old(self)@.active, now),
    {
        self.window.prune(now);
        if self.active {
            self.window.push(now);
            Some(self.window.len())
        } else {
            None
        }
    }

    /// What the driver has to do now: read from the open session, or open
    /// one on the current device.
    pub fn next_action(&self) -> (action: Action)
        ensures
            action == self@.action(),
    {
        if self.active {
            Action::ReadFrame(self.device_index)
        } else {
            Action::OpenDevice(self.device_index)
        }
    }

    /// Starts one iteration: takes in the polled command, if any, keeps the
    /// window at `now`, and says what the driver has to do.
    pub fn begin_iteration(&mut self, polled: Option<SwitchCommand>, now: u64) -> (plan: Plan)
        requires
            old(self).wf(),
        ensures
            final(self).wf(),
            plan.command == polled,
            final(self)@ == old(self)@.after_polled(polled),
            final(self).window() == window_after(old(self).window(), final(self)@.active, now),
            plan.fps == gauge_after(old(self).window(), final(self)@.active, now),
            plan.action == final(self)@.action(),
    {
        match polled {
            Some(command) => {
                let _ = self.apply_command(command);
            },
            None => {},
        }
        let fps = self.record(now);
        Plan { command: polled, action: self.next_action(), fps }
    }

    /// Starts one iteration from the control channel itself: polls it once,
    /// without waiting, and goes on as `begin_iteration` does with what was
    /// polled. Which command was waiting is for the senders to decide; the
    /// plan reports it.
    pub fn poll_and_begin(&mut self, control: &mut ControlChannel, now: u64) -> (plan: Plan)
        requires
            old(self).wf(),
        ensures
            final(self).wf(),
            final(self)@ == old(self)@.after_polled(plan.command),
            final(self).window() == window_after(old(self).window(), final(self)@.active, now),
            plan.fps == gauge_after(old(self).window(), final(self)@.active, now),
            plan.action == final(self)@.action(),
    {
        let polled = control.try_recv();
        self.begin_iteration(polled, now)
    }

    /// Ends one iteration with how the action went, and tells whether the
    /// driver should wait `REOPEN_PAUSE_MILLIS` before the next one. A
    /// failure closes the session and leaves the current device as it is,
    /// so that the next iteration opens that same device again.
    pub fn finish_iteration(&mut self, event: Event) -> (pause: bool)
        requires
            old(self).wf(),
        ensures
            final(self).wf(),
            final(self)@ == old(self)@.after_event(event),
            final(self).window() == old(self).window(),
            pause == pause_after(old(self)@, event),
    {
        match event {
            Event::Opened => {
                self.active = true;
                false
            },
            Event::FrameRead => false,
            Event::Failed(_) => {
                let pause = !self.active;
                self.active = false;
                pause
            },
        }
    }
}

/// Commands keep the current device among the configured ones.
pub proof fn lemma_command_keeps_wf(m: LoopModel, command: SwitchCommand)
    requires
        m.wf(),
    ensures
        m.after_command(command).wf(),
        m.after_command(command).device_count == m.device_count,
{
    lemma_target_in_range(command, m.device_index, m.device_count);
}

/// Selecting the device that is already current is a no-op: the state is
/// the same afterwards, so an open session is not torn down.
pub proof fn lemma_reselect_is_noop(m: LoopModel, n: usize)
    requires
        m.wf(),
        n as nat % m.device_count == m.device_index,
    ensures
        m.after_command(SwitchCommand::Select(n)) == m,
        m.after_command(SwitchCommand::Select(n)).state() == m.state(),
{
}

/// A command tears the session down exactly when it leads to another
/// device.
pub proof fn lemma_switch_closes_session(m: LoopModel, command: SwitchCommand)
    requires
        m.wf(),
        target_index(command, m.device_index, m.device_count) != m.device_index,
    ensures
        m.after_command(command).state() == SessionState::NoSession,
        m.after_command(command).device_index == target_index(
            command,
            m.device_index,
            m.device_count,
        ),
{
}

/// Any failure while a session is open leads to `NoSession`, and the next
/// iteration, absent a command, opens the same device again.
pub proof fn lemma_failure_reopens_same_device(m: LoopModel, error: CaptureError)
    requires
        m.wf(),
        m.active,
    ensures
        m.after_event(Event::Failed(error)).state() == SessionState::NoSession,
        m.after_event(Event::Failed(error)).device_index == m.device_index,
        m.after_event(Event::Failed(error)).after_polled(None).action() == Action::OpenDevice(
            m.device_index as usize,
        ),
{
}

/// A failed open leaves the loop in `NoSession` on the same device, so it
/// is tried again.
pub proof fn lemma_failed_open_retries(m: LoopModel, error: CaptureError)
    requires
        m.wf(),
        !m.active,
    ensures
        m.after_event(Event::Failed(error)) == m,
        m.after_event(Event::Failed(error)).action() == m.action(),
{
}

} // verus!
