use toml::Table;
use toml::Value;

use lumol::input::PropagatorError;
use lumol::input::PropagatorKind;
use lumol::input::propagator_kind;
use lumol::input::read_propagator;

fn config_with_type(kind_name: &str) -> Table {
    let mut propagator = Table::new();
    propagator.insert("type".to_string(), Value::String(kind_name.to_string()));
    let mut config = Table::new();
    config.insert("propagator".to_string(), Value::Table(propagator));
    config
}

#[test]
fn known_propagators() {
    let config = config_with_type("MolecularDynamics");
    assert_eq!(read_propagator(&config), Ok(PropagatorKind::MolecularDynamics));

    let config = config_with_type("MonteCarlo");
    assert_eq!(read_propagator(&config), Ok(PropagatorKind::MonteCarlo));
}

#[test]
fn unknown_propagator() {
    let config = config_with_type("Langevin");
    let error = read_propagator(&config).unwrap_err();
    assert_eq!(
        error,
        PropagatorError::UnknownPropagatorType("Langevin".to_string())
    );
    assert_eq!(error.message(), "Unknown propagator type 'Langevin'");
}

#[test]
fn bad_propagators() {
    // No "propagator" entry at all.
    let config = Table::new();
    assert_eq!(
        read_propagator(&config),
        Err(PropagatorError::MissingPropagator)
    );

    // A "propagator" entry that is not a table.
    let mut config = Table::new();
    config.insert("propagator".to_string(), Value::Integer(3));
    assert_eq!(
        read_propagator(&config),
        Err(PropagatorError::PropagatorIsNotATable)
    );

    // A propagator table without a "type" entry.
    let mut config = Table::new();
    config.insert("propagator".to_string(), Value::Table(Table::new()));
    assert_eq!(
        read_propagator(&config),
        Err(PropagatorError::MissingPropagatorType)
    );

    // A "type" entry that is not a string.
    let mut propagator = Table::new();
    propagator.insert("type".to_string(), Value::Boolean(true));
    let mut config = Table::new();
    config.insert("propagator".to_string(), Value::Table(propagator));
    assert_eq!(
        read_propagator(&config),
        Err(PropagatorError::PropagatorTypeIsNotAString)
    );
}

#[test]
fn error_messages() {
    assert_eq!(
        PropagatorError::MissingPropagator.message(),
        "missing 'propagator' table in simulation"
    );
    assert_eq!(
        PropagatorError::PropagatorIsNotATable.message(),
        "'propagator' must be a table in simulation"
    );
    assert_eq!(
        PropagatorError::MissingPropagatorType.message(),
        "missing 'type' key in propagator"
    );
    assert_eq!(
        PropagatorError::PropagatorTypeIsNotAString.message(),
        "'type' key must be a string in propagator"
    );
}

#[test]
fn dispatch_on_the_propagator_table() {
    let mut propagator = Table::new();
    propagator.insert("type".to_string(), Value::String("MonteCarlo".to_string()));
    assert_eq!(propagator_kind(&propagator), Ok(PropagatorKind::MonteCarlo));
}
