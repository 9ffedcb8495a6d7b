//! The decisions of the backend's engine thread: it computes timesteps while the simulation is
//! running, hands each computed timestep to the frontend's receiver, and stops when the
//! simulation stops or when nobody receives its output any more.

use vstd::prelude::*;

verus! {

/// What the engine thread observed after its last action.
#[derive(Debug, Clone, Copy, PartialEq, Eq, Structural)]
pub enum EngineThreadEvent {
    /// The running flag of the simulation was read.
    RunningFlagRead { is_running: bool },
    /// A timestep computation finished; `succeeded` tells whether it produced an output.
    TimestepComputed { succeeded: bool },
    /// The computed timestep was handed to the sender; `delivered` tells whether a receiver was
    /// still there to take it.
    TimestepSent { delivered: bool },
}

/// What the engine thread does next.
#[derive(Debug, Clone, Copy, PartialEq, Eq, Structural)]
pub enum EngineThreadAction {
    /// Read the running flag of the simulation.
    CheckRunningFlag,
    /// Compute the next timestep from the previous one.
    ComputeTimestep,
    /// Send the timestep just computed, which becomes the previous one.
    SendTimestep,
    /// Leave the loop.
    Stop,
}

/// The action that follows an event.
pub open spec fn next_action(event: EngineThreadEvent) -> EngineThreadAction {
    match event {
        EngineThreadEvent::RunningFlagRead { is_running } => if is_running {
            EngineThreadAction::ComputeTimestep
        } else {
            EngineThreadAction::Stop
        },
        EngineThreadEvent::TimestepComputed { succeeded } => if succeeded {
            EngineThreadAction::SendTimestep
        } else {
            EngineThreadAction::CheckRunningFlag
        },
        EngineThreadEvent::TimestepSent { delivered } => if delivered {
            EngineThreadAction::CheckRunningFlag
        } else {
            EngineThreadAction::Stop
        },
    }
}

/// Decides what the engine thread does after the given event.
///
/// The thread computes a timestep while the simulation runs, sends every timestep it managed to
/// compute (a failed computation is skipped), and stops exactly when the simulation is no
/// longer running or when the receiver of its outputs has disconnected, since results sent
/// nowhere would only waste CPU.
pub fn next_engine_thread_action(event: EngineThreadEvent) -> (action: EngineThreadAction)
    ensures
        action == next_action(event),
        (action == EngineThreadAction::Stop) <==> (event == EngineThreadEvent::RunningFlagRead {
            is_running: false,
        } || event == EngineThreadEvent::TimestepSent { delivered: false }),
{
    match event {
        EngineThreadEvent::RunningFlagRead { is_running } => {
            if is_running {
                EngineThreadAction::ComputeTimestep
            } else {
                EngineThreadAction::Stop
            }
        },
        EngineThreadEvent::TimestepComputed { succeeded } => {
            if succeeded {
                EngineThreadAction::SendTimestep
            } else {
                EngineThreadAction::CheckRunningFlag
            }
        },
        EngineThreadEvent::TimestepSent { delivered } => {
            if delivered {
                EngineThreadAction::CheckRunningFlag
            } else {
                EngineThreadAction::Stop
            }
        },
    }
}

} // verus!
