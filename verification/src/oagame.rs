//! Gameplay module.
//!
//! The gameplay plugin bootstraps the scene; its only registration so far
//! is the startup system that spawns the main camera.

use vstd::prelude::*;
use crate::oainit::AppStep;

verus! {

/// Plugin planning the registrations for the client's gameplay.
#[derive(Clone, Copy, Debug, PartialEq, Eq, Structural)]
pub struct OAGameplayPlug;

/// The gameplay plugin's registrations: spawn the main camera at startup.
pub open spec fn gameplay_steps() -> Seq<AppStep> {
    seq![AppStep::SpawnCamMainSys]
}

impl OAGameplayPlug {
    /// Plans every registration the gameplay plugin makes, in order.
    pub fn build(&self, app: &mut Vec<AppStep>)
        ensures
            final(app)@ == old(app)@ + gameplay_steps(),
    {
        app.push(AppStep::SpawnCamMainSys);
        proof {
            assert(app@ =~= old(app)@ + gameplay_steps());
        }
    }
}

} // verus!
