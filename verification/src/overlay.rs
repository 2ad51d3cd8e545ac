//! The overlays that show the captured outputs while a region is selected:
//! which of them the compositor has configured.

use std::collections::HashSet;
use vstd::prelude::*;

verus! {

broadcast use vstd::std_specs::hash::group_hash_axioms;

/// What the compositor tells of an overlay.
#[derive(Debug, Clone, Copy, PartialEq, Eq, Structural)]
pub enum LayerSurfaceEvent {
    /// The overlay may be drawn; the compositor waits for `serial` to be
    /// acknowledged.
    Configure { serial: u32, width: u32, height: u32 },
    /// The overlay has been closed.
    Closed,
    /// Any other event; nothing is learnt from it.
    Other,
}

/// The outputs whose overlay the compositor has configured.
#[derive(Debug)]
pub struct LayerShellState {
    pub configured_outputs: HashSet<u32>,
}

impl View for LayerShellState {
    type V = Set<u32>;

    open spec fn view(&self) -> Set<u32> {
        self.configured_outputs@
    }
}

impl LayerShellState {
    /// No overlay has been configured yet.
    pub fn new() -> (r: Self)
        ensures
            r@ == Set::<u32>::empty(),
    {
        LayerShellState { configured_outputs: HashSet::new() }
    }

    /// The configured outputs after the overlay of `output` has reported
    /// `event`.
    pub open spec fn with_event(
        configured: Set<u32>,
        output: u32,
        event: LayerSurfaceEvent,
    ) -> Set<u32> {
        if event is Configure {
            configured.insert(output)
        } else {
            configured
        }
    }

    /// The serial that is to be acknowledged after `event`, if any.
    pub open spec fn acknowledged(event: LayerSurfaceEvent) -> Option<u32> {
        match event {
            LayerSurfaceEvent::Configure { serial, .. } => Some(serial),
            _ => None,
        }
    }

    /// Takes in what the overlay of `output` reports. A configure event marks
    /// the output as configured; its serial is returned and has to be
    /// acknowledged.
    pub fn event(&mut self, output: u32, event: LayerSurfaceEvent) -> (ack: Option<u32>)
        ensures
            final(self)@ == LayerShellState::with_event(old(self)@, output, event),
            ack == LayerShellState::acknowledged(event),
    {
        match event {
            LayerSurfaceEvent::Configure { serial, width: _, height: _ } => {
                self.configured_outputs.insert(output);
                Some(serial)
            },
            LayerSurfaceEvent::Closed => None,
            LayerSurfaceEvent::Other => None,
        }
    }

    /// Whether the overlay of `output` has been configured.
    pub fn is_configured(&self, output: u32) -> (r: bool)
        ensures
            r == self@.contains(output),
    {
        self.configured_outputs.contains(&output)
    }
}

} // verus!
