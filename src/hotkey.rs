//! The hotkey state machine: a debounced edge detector that turns the
//! observed state of the bound key into one start per press and one stop
//! per release, and a supervisor that swaps bindings without losing an edge.
use vstd::prelude::*;
use crate::config::HotkeyBinding;

pub mod macos;
pub mod windows;

verus! {

#[derive(Debug, Clone)]
pub enum HotkeyError {
    Error(String),
}

/// What a change of the observed key state asks of the pipeline.
#[derive(Debug, Clone, Copy, PartialEq, Eq, Structural)]
pub enum EdgeAction {
    Nothing,
    /// The binding became satisfied and no recording runs: start one.
    StartRecording,
    /// The binding was released while recording: stop and process, with the
    /// process that had focus when the key went down, if it was known.
    StopRecording(Option<i32>),
}

/// The physical key state and the logical recording state, kept in lockstep,
/// and the focused process captured at press time (-1 when unknown).
#[derive(Debug, Clone, Copy, PartialEq, Eq, Structural)]
pub struct EdgeDetector {
    pub pressed: bool,
    pub recording: bool,
    pub origin_pid: i32,
}

/// The detector's transition on one observation of the key state; `focused`
/// is the process that has focus now.
pub open spec fn edge_next(d: EdgeDetector, key_pressed: bool, focused: Option<i32>) -> (EdgeDetector, EdgeAction) {
    if key_pressed && !d.pressed {
        if !d.recording {
            let pid = match focused {
                Some(p) => p,
                None => -1i32,
            };
            (EdgeDetector { pressed: true, recording: true, origin_pid: pid }, EdgeAction::StartRecording)
        } else {
            (EdgeDetector { pressed: true, ..d }, EdgeAction::Nothing)
        }
    } else if !key_pressed && d.pressed {
        if d.recording {
            let origin = if d.origin_pid >= 0 {
                Some(d.origin_pid)
            } else {
                None
            };
            (EdgeDetector { pressed: false, recording: false, ..d }, EdgeAction::StopRecording(origin))
        } else {
            (EdgeDetector { pressed: false, ..d }, EdgeAction::Nothing)
        }
    } else {
        (d, EdgeAction::Nothing)
    }
}

impl EdgeDetector {
    /// Released and idle.
    pub fn new() -> (r: EdgeDetector)
        ensures
            !r.pressed,
            !r.recording,
            r.origin_pid == -1,
    {
        EdgeDetector { pressed: false, recording: false, origin_pid: -1 }
    }

    /// Takes one observation of whether the binding is satisfied.
    pub fn handle_key_state_change(&mut self, key_pressed: bool, focused: Option<i32>) -> (r: EdgeAction)
        ensures
            (*final(self), r) == edge_next(*old(self), key_pressed, focused),
    {
        if key_pressed && !self.pressed {
            self.pressed = true;
            if !self.recording {
                self.recording = true;
                self.origin_pid = match focused {
                    Some(p) => p,
                    None => -1,
                };
                EdgeAction::StartRecording
            } else {
                EdgeAction::Nothing
            }
        } else if !key_pressed && self.pressed {
            self.pressed = false;
            if self.recording {
                self.recording = false;
                let origin = if self.origin_pid >= 0 {
                    Some(self.origin_pid)
                } else {
                    None
                };
                EdgeAction::StopRecording(origin)
            } else {
                EdgeAction::Nothing
            }
        } else {
            EdgeAction::Nothing
        }
    }
}

/// The supervisor's state: the binding in force, a binding waiting for the
/// key to be released, and the detector.
pub ghost struct SupervisorView {
    pub active: HotkeyBinding,
    pub pending: Option<HotkeyBinding>,
    pub detector: EdgeDetector,
}

/// A reload takes effect at once while the key is up; while it is held the
/// new binding waits, so that the release of the held key is still seen.
pub open spec fn reload_next(s: SupervisorView, b: HotkeyBinding) -> SupervisorView {
    if s.detector.pressed {
        SupervisorView { pending: Some(b), ..s }
    } else {
        SupervisorView { active: b, pending: None, ..s }
    }
}

/// One observation: `None` for an event that says nothing about the binding,
/// else whether it is satisfied. A waiting binding is installed once the key
/// is up.
pub open spec fn observe_next(s: SupervisorView, obs: Option<bool>, focused: Option<i32>) -> (SupervisorView, EdgeAction) {
    let (d, a) = match obs {
        Some(p) => edge_next(s.detector, p, focused),
        None => (s.detector, EdgeAction::Nothing),
    };
    if !d.pressed && s.pending is Some {
        (SupervisorView { active: s.pending->0, pending: None, detector: d }, a)
    } else {
        (SupervisorView { detector: d, ..s }, a)
    }
}

/// Owns the binding in force and the edge detector of the listener.
#[derive(Debug)]
pub struct HotkeySupervisor {
    active: HotkeyBinding,
    pending: Option<HotkeyBinding>,
    detector: EdgeDetector,
}

impl HotkeySupervisor {
    pub closed spec fn view(&self) -> SupervisorView {
        SupervisorView { active: self.active, pending: self.pending, detector: self.detector }
    }

    /// A supervisor for `binding`, released and idle.
    pub fn new(binding: HotkeyBinding) -> (r: HotkeySupervisor)
        ensures
            r@.active == binding,
            r@.pending is None,
            r@.detector == (EdgeDetector { pressed: false, recording: false, origin_pid: -1i32 }),
    {
        HotkeySupervisor { active: binding, pending: None, detector: EdgeDetector::new() }
    }

    /// The binding that events are matched against.
    pub fn active_binding(&self) -> (r: &HotkeyBinding)
        ensures
            *r == self@.active,
    {
        &self.active
    }

    pub fn detector(&self) -> (r: EdgeDetector)
        ensures
            r == self@.detector,
    {
        self.detector
    }

    /// Takes one observation of the binding in force.
    pub fn observe(&mut self, obs: Option<bool>, focused: Option<i32>) -> (r: EdgeAction)
        ensures
            (final(self)@, r) == observe_next(old(self)@, obs, focused),
    {
        let a = match obs {
            Some(p) => self.detector.handle_key_state_change(p, focused),
            None => EdgeAction::Nothing,
        };
        if !self.detector.pressed && self.pending.is_some() {
            let b = self.pending.take();
            match b {
                Some(b) => {
                    self.active = b;
                },
                None => {},
            }
        }
        a
    }
}

/// Asks the supervisor to switch to a new binding.
pub fn reload_hotkey(supervisor: &mut HotkeySupervisor, binding: HotkeyBinding)
    ensures
        final(supervisor)@ == reload_next(old(supervisor)@, binding),
{
    if supervisor.detector.pressed {
        supervisor.pending = Some(binding);
    } else {
        supervisor.active = binding;
        supervisor.pending = None;
    }
}

/// The supervisor fed a sequence of observations: its final state and the
/// action of each observation.
pub open spec fn observe_run(s: SupervisorView, obs: Seq<Option<bool>>, focused: Option<i32>) -> (SupervisorView, Seq<EdgeAction>)
    decreases obs.len(),
{
    if obs.len() == 0 {
        (s, Seq::empty())
    } else {
        let (s1, a) = observe_next(s, obs[0], focused);
        let (s2, acts) = observe_run(s1, obs.drop_first(), focused);
        (s2, seq![a] + acts)
    }
}

/// The focused process that a stop reports, from the detector.
pub open spec fn origin_of(d: EdgeDetector) -> Option<i32> {
    if d.origin_pid >= 0 {
        Some(d.origin_pid)
    } else {
        None
    }
}

/// Reloading the binding while the bound key is held and a recording runs
/// starts no second recording, whatever events follow while the key stays
/// down, and the release of the held key still stops the recording, after
/// which the new binding is in force.
pub proof fn lemma_reload_while_held(
    s: SupervisorView,
    b: HotkeyBinding,
    obs: Seq<Option<bool>>,
    focused: Option<i32>,
)
    requires
        s.detector.pressed,
        s.detector.recording,
        forall|i: int| 0 <= i < obs.len() ==> #[trigger] obs[i] != Some(false),
    ensures
        ({
            let (held, acts) = observe_run(reload_next(s, b), obs, focused);
            let (released, stop) = observe_next(held, Some(false), focused);
            &&& forall|i: int| 0 <= i < acts.len() ==> #[trigger] acts[i] == EdgeAction::Nothing
            &&& acts.len() == obs.len()
            &&& held.active == s.active
            &&& stop == EdgeAction::StopRecording(origin_of(s.detector))
            &&& !released.detector.recording
            &&& released.active == b
        }),
{
    lemma_held_run(reload_next(s, b), b, obs, focused);
}

proof fn lemma_held_run(t: SupervisorView, b: HotkeyBinding, obs: Seq<Option<bool>>, focused: Option<i32>)
    requires
        t.detector.pressed,
        t.detector.recording,
        t.pending == Some(b),
        forall|i: int| 0 <= i < obs.len() ==> #[trigger] obs[i] != Some(false),
    ensures
        ({
            let (held, acts) = observe_run(t, obs, focused);
            &&& forall|i: int| 0 <= i < acts.len() ==> #[trigger] acts[i] == EdgeAction::Nothing
            &&& acts.len() == obs.len()
            &&& held == t
        }),
    decreases obs.len(),
{
    if obs.len() > 0 {
        let (t1, a) = observe_next(t, obs[0], focused);
        assert(obs[0] != Some(false));
        assert(t1 == t && a == EdgeAction::Nothing);
        let rest = obs.drop_first();
        assert forall|i: int| 0 <= i < rest.len() implies #[trigger] rest[i] != Some(false) by {
            assert(rest[i] == obs[i + 1]);
        }
        lemma_held_run(t1, b, rest, focused);
        let (held, acts) = observe_run(t1, rest, focused);
        assert forall|i: int| 0 <= i < acts.len() + 1 implies #[trigger] (seq![a] + acts)[i] == EdgeAction::Nothing by {
            if i > 0 {
                assert((seq![a] + acts)[i] == acts[i - 1]);
            }
        }
    }
}

} // verus!
