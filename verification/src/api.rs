//! The process-wide resource-managers aggregate.
//!
//! All managers live in one owned value with the lifetime of the graphics
//! session, passed by reference to every load call — no singletons, one
//! logical loader at a time.

use vstd::prelude::*;

use crate::bindings::PipelineManager;
use crate::shader::ShaderManager;

verus! {

/// The managers a session owns.
pub struct ResourceManagers {
    pub shader_manager: ShaderManager,
    pub pipeline_manager: PipelineManager,
}

impl ResourceManagers {
    /// Both managers are sound.
    pub open spec fn wf(&self) -> bool {
        &&& self.shader_manager.wf()
        &&& self.pipeline_manager.wf()
    }

    /// A fresh aggregate with empty managers.
    pub fn new() -> (r: Self)
        ensures
            r.wf(),
            r.shader_manager.counter() == 0,
            r.pipeline_manager.counter() == 0,
    {
        Self { shader_manager: ShaderManager::new(), pipeline_manager: PipelineManager::new() }
    }
}

impl Default for ResourceManagers {
    fn default() -> (r: Self)
        ensures
            r.wf(),
            r.shader_manager.counter() == 0,
            r.pipeline_manager.counter() == 0,
    {
        Self::new()
    }
}

} // verus!
