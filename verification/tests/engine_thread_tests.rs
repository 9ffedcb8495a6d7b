use fluid_simulation::engine_thread::{next_engine_thread_action, EngineThreadAction, EngineThreadEvent};

#[test]
fn engine_thread_computes_while_running() {
    assert_eq!(
        next_engine_thread_action(EngineThreadEvent::RunningFlagRead { is_running: true }),
        EngineThreadAction::ComputeTimestep
    );
    assert_eq!(
        next_engine_thread_action(EngineThreadEvent::RunningFlagRead { is_running: false }),
        EngineThreadAction::Stop
    );
}

#[test]
fn engine_thread_sends_computed_timesteps_and_skips_failed_ones() {
    assert_eq!(
        next_engine_thread_action(EngineThreadEvent::TimestepComputed { succeeded: true }),
        EngineThreadAction::SendTimestep
    );
    assert_eq!(
        next_engine_thread_action(EngineThreadEvent::TimestepComputed { succeeded: false }),
        EngineThreadAction::CheckRunningFlag
    );
}

#[test]
fn engine_thread_stops_when_the_receiver_is_gone() {
    assert_eq!(
        next_engine_thread_action(EngineThreadEvent::TimestepSent { delivered: true }),
        EngineThreadAction::CheckRunningFlag
    );
    assert_eq!(
        next_engine_thread_action(EngineThreadEvent::TimestepSent { delivered: false }),
        EngineThreadAction::Stop
    );
}
