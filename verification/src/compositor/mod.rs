//! The compositor capability surface and the dispatcher.
//!
//! Every backend implements the `Input` capability trait; each capability
//! method has a default implementation that reports success without doing
//! anything, so a backend overrides only the subset it can honour and an
//! unsupported setting never aborts propagation of the rest of a batch.
//! `Compositor` adds the lifecycle operations, and its provided
//! `apply_event` is the single, exhaustive place where events are routed
//! to capability methods.

pub mod conn;
pub mod gnome;
pub mod hyprland;
pub mod input;
pub mod kde;
pub mod niri;
pub mod sway;

use vstd::prelude::*;

use crate::error::Error;
use crate::event::Event;
use crate::event::InputEvent;
use crate::identifier::Desktop;
use crate::identifier::EnvSnapshot;
use crate::compositor::input::Input;
use crate::compositor::hyprland::Hyprland;
use crate::compositor::niri::Niri;
use crate::compositor::sway::Sway;

verus! {

/// Result of one lifecycle or capability operation.
pub type CompositorResult = Result<(), Error>;

/// Lifecycle surface of a backend, on top of its capabilities.
pub trait Compositor: Input {
    /// Initialize the backend (set up IPC, validate availability) from the
    /// environment snapshot taken at startup.
    fn init(&mut self, env: &EnvSnapshot) -> CompositorResult;

    /// Human-readable backend name.
    fn name(&self) -> &'static str;

    /// Fast check whether this backend's compositor is running, from the
    /// environment snapshot.
    fn is_running(&self, env: &EnvSnapshot) -> bool;

    /// Whether this backend declares interest in an event's category.
    fn supports(&self, event: &Event) -> (r: bool)
        default_ensures
            r,
    {
        match event {
            Event::Input(_) => true,
        }
    }

    /// Route one event to the capability method it maps to. The match is
    /// exhaustive over the closed event taxonomy, so a new event kind
    /// cannot silently go unhandled.
    fn apply_event(&mut self, event: Event) -> (r: CompositorResult)
        ensures
            r matches Err(e) ==> (e is IpcConnection || e is IpcCommand || e is IpcResponse
                || e is CompositorNotRunning),
    {
        match event {
            Event::Input(InputEvent::TouchPad(ev)) => self.apply_touchpad_event(ev),
            Event::Input(InputEvent::Mouse(ev)) => self.apply_mouse_event(ev),
            Event::Input(InputEvent::Keyboard(ev)) => self.apply_keyboard_event(ev),
        }
    }

    /// Optional reload hook.
    fn reload(&mut self) -> (r: CompositorResult)
        default_ensures
            r is Ok,
    {
        Ok(())
    }

    /// Optional shutdown hook.
    fn shutdown(&mut self) -> (r: CompositorResult)
        default_ensures
            r is Ok,
    {
        Ok(())
    }
}

/// The one active backend, chosen at startup and never swapped.
pub enum Backend {
    Hyprland(Hyprland),
    Sway(Sway),
    Niri(Niri),
}

/// Outcome of dispatching one event of a batch.
#[derive(Debug, PartialEq)]
pub enum DispatchOutcome {
    /// The backend accepted the event.
    Applied,
    /// The backend declares no interest in this event category; skipped.
    Unsupported,
    /// The backend failed on this event; later events still ran.
    Failed(Error),
}

impl Backend {
    /// The chosen backend's name.
    pub fn name(&self) -> &'static str {
        match self {
            Backend::Hyprland(c) => c.name(),
            Backend::Sway(c) => c.name(),
            Backend::Niri(c) => c.name(),
        }
    }

    /// Route one event to the chosen backend. A failure is always one of
    /// the IPC error kinds.
    pub fn apply_event(&mut self, event: Event) -> (r: CompositorResult)
        ensures
            r matches Err(e) ==> (e is IpcConnection || e is IpcCommand || e is IpcResponse
                || e is CompositorNotRunning),
    {
        match self {
            Backend::Hyprland(c) => c.apply_event(event),
            Backend::Sway(c) => c.apply_event(event),
            Backend::Niri(c) => c.apply_event(event),
        }
    }

    /// Hand out and forget the keyword writes the backend has planned;
    /// the surrounding program performs them through the Hyprland client
    /// library, whose socket lookup aborts when the instance signature is
    /// missing from the process environment — which is why the write
    /// cannot be made from here. The other backends plan nothing.
    pub fn take_keyword_writes(&mut self) -> (r: Vec<crate::compositor::hyprland::KeywordWrite>)
        ensures
            *old(self) matches Backend::Hyprland(h) ==> r@ == h.pending@,
            !(*old(self) is Hyprland) ==> r@ == Seq::<
                crate::compositor::hyprland::KeywordWrite,
            >::empty() && *final(self) == *old(self),
    {
        match self {
            Backend::Hyprland(c) => c.take_pending(),
            _ => Vec::new(),
        }
    }

    /// Hand out and forget the per-command rejection texts the backend
    /// has accumulated; sway reports these per command while the command
    /// as a whole succeeds, and the surrounding program logs them. The
    /// other backends report nothing this way.
    pub fn take_rejections(&mut self) -> (r: Vec<String>)
        ensures
            *old(self) matches Backend::Sway(s) ==> r@ == s.rejected@,
            !(*old(self) is Sway) ==> r@ == Seq::<String>::empty() && *final(self) == *old(self),
    {
        match self {
            Backend::Sway(c) => c.take_rejections(),
            _ => Vec::new(),
        }
    }

    /// Whether the chosen backend declares interest in this event. Every
    /// current backend declares interest in the whole input category, and
    /// input events are the whole taxonomy, so this holds of every event.
    pub fn supports(&self, event: &Event) -> (r: bool)
        ensures
            r,
    {
        match self {
            Backend::Hyprland(c) => c.supports(event),
            Backend::Sway(c) => c.supports(event),
            Backend::Niri(c) => c.supports(event),
        }
    }
}

/// Select and initialize the backend for the detected desktop. Desktops
/// whose adapters work through external writers (KDE's config tool,
/// GNOME's settings schemas) are driven by the surrounding program through
/// the planners in `kde` and `gnome`, and yield no in-process backend
/// here; anything else is unsupported and events are discarded.
pub fn init_compositor(desktop: &Desktop, env: &EnvSnapshot) -> (r: Option<Backend>)
    ensures
        !(desktop is Hyprland || desktop is Sway || desktop is Niri) ==> r is None,
        desktop is Hyprland ==> ((r is Some) <==> env.hyprland_instance_signature is Some),
        r matches Some(b) ==> (match b {
            Backend::Hyprland(_) => desktop is Hyprland,
            Backend::Sway(_) => desktop is Sway,
            Backend::Niri(_) => desktop is Niri,
        }),
        r matches Some(Backend::Sway(s)) ==> s.connection is Some,
        r matches Some(Backend::Niri(n)) ==> n.socket is Some,
{
    match desktop {
        Desktop::Hyprland => {
            let mut c = Hyprland::new();
            if c.init(env).is_ok() {
                Some(Backend::Hyprland(c))
            } else {
                None
            }
        },
        Desktop::Sway => {
            let mut c = Sway::new();
            if c.init(env).is_ok() {
                Some(Backend::Sway(c))
            } else {
                None
            }
        },
        Desktop::Niri => {
            let mut c = Niri::new();
            if c.init(env).is_ok() {
                Some(Backend::Niri(c))
            } else {
                None
            }
        },
        _ => None,
    }
}

/// Dispatch one batch of events, in order, to the active backend. A
/// failing event is recorded and does not stop its siblings; an event the
/// backend declares no interest in is skipped. One outcome is returned
/// per event, in event order.
pub fn dispatch(backend: &mut Backend, events: Vec<Event>) -> (outcomes: Vec<DispatchOutcome>)
    ensures
        outcomes@.len() == events@.len(),
        forall|i: int| 0 <= i < outcomes@.len() ==> !((#[trigger] outcomes@[i]) is Unsupported),
        forall|i: int|
            0 <= i < outcomes@.len() ==> ((#[trigger] outcomes@[i]) matches DispatchOutcome::Failed(
                e,
            ) ==> (e is IpcConnection || e is IpcCommand || e is IpcResponse
                || e is CompositorNotRunning)),
{
    let mut events = events;
    let mut outcomes: Vec<DispatchOutcome> = Vec::new();
    let ghost total = events@.len();
    while events.len() > 0
        invariant
            outcomes@.len() + events@.len() == total,
            forall|i: int| 0 <= i < outcomes@.len() ==> !((#[trigger] outcomes@[i]) is Unsupported),
            forall|i: int|
                0 <= i < outcomes@.len() ==> ((#[trigger] outcomes@[i]) matches
                    DispatchOutcome::Failed(e) ==> (e is IpcConnection || e is IpcCommand
                    || e is IpcResponse || e is CompositorNotRunning)),
        decreases events@.len(),
    {
        let e = events.remove(0);
        if backend.supports(&e) {
            match backend.apply_event(e) {
                Ok(()) => outcomes.push(DispatchOutcome::Applied),
                Err(err) => outcomes.push(DispatchOutcome::Failed(err)),
            }
        } else {
            outcomes.push(DispatchOutcome::Unsupported);
        }
    }
    outcomes
}

} // verus!
