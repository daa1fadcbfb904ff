use vstd::prelude::*;
use std::time::Duration;
use crate::application::AppContext;
use crate::event::Event;
use crate::gpu::Device;

verus! {

/// A unit of per-frame behavior in an application's layer stack. Every hook
/// does nothing unless a layer overrides it.
pub trait Layer<D: Device> {
    /// Called once, when the layer joins the stack; a layer builds its
    /// shaders, textures and meshes here.
    fn on_create(&mut self, app: &mut AppContext<D>) {
    }

    /// Called once per frame with the time since the previous frame.
    fn on_update(&mut self, elapsed: Duration, app: &mut AppContext<D>) {
    }

    /// Returns true when the layer handled `e`; later layers then do not see it.
    fn on_event(&mut self, e: Event, app: &mut AppContext<D>) -> bool {
        false
    }

    /// Called once, when the application shuts down.
    fn on_destroy(&mut self, app: &mut AppContext<D>) {
    }
}

} // verus!
