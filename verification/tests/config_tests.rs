use fluid_simulation::adapters::RawOutputAdapter;
use fluid_simulation::engine_config::{default_projections_iterations, DEFAULT_PROJECTIONS_ITERATIONS};
use fluid_simulation::frontend_configuration::FrontendConfiguration;

#[test]
fn default_projection_iterations_is_25() {
    assert_eq!(default_projections_iterations(), 25);
    assert_eq!(DEFAULT_PROJECTIONS_ITERATIONS, 25);
}

#[test]
fn default_frontend_configuration() {
    let config: FrontendConfiguration = Default::default();
    assert_eq!(config, FrontendConfiguration {});
    let _adapter = RawOutputAdapter;
}
