//! Reading the propagator choice out of a simulation description.
//!
//! A simulation description is a TOML table; its `propagator` sub-table names
//! the propagation strategy in its `type` entry. Everything the engine needs
//! from the description at this level is which propagator to build; the
//! numeric parameters of the propagator are read by its own constructor.

use vstd::prelude::*;
use vstd::string::StringExecFns;

verus! {

#[verifier::external_type_specification]
#[verifier::external_body]
#[verifier::reject_recursive_types(K)]
#[verifier::reject_recursive_types(V)]
pub struct ExTomlMap<K, V>(toml::map::Map<K, V>);

#[verifier::external_type_specification]
#[verifier::external_body]
pub struct ExTomlValue(toml::Value);

/// The set of keys present in a TOML table.
pub uninterp spec fn table_keys(table: toml::map::Map<String, toml::Value>) -> Set<Seq<char>>;

/// The keys of a TOML table whose entry is itself a table.
pub uninterp spec fn table_sub_tables(table: toml::map::Map<String, toml::Value>) -> Set<
    Seq<char>,
>;

/// The string-valued entries of a TOML table: every key whose entry is a
/// string, mapped to that string.
pub uninterp spec fn table_string_entries(table: toml::map::Map<String, toml::Value>) -> Map<
    Seq<char>,
    Seq<char>,
>;

/// The string-valued entries of the sub-table of `table` under `key`: what
/// `table_string_entries` gives on that sub-table, named from the parent
/// table so that contracts can reach one level down.
pub uninterp spec fn table_sub_string_entries(
    table: toml::map::Map<String, toml::Value>,
    key: Seq<char>,
) -> Map<Seq<char>, Seq<char>>;

/// Relies on toml's `Map::contains_key`: whether `key` has an entry in the
/// table.
#[verifier::external_body]
fn table_has_key(table: &toml::Table, key: &str) -> (r: bool)
    ensures
        r == table_keys(*table).contains(key@),
{
    table.contains_key(key)
}

/// Relies on toml's `Map::get`, telling the `Value` variants apart: the
/// sub-table under `key`, when that entry exists and is a table. The
/// sub-table is a function of the table and the key, so its string entries
/// are the ones named from the parent.
#[verifier::external_body]
fn table_get_table<'a>(table: &'a toml::Table, key: &str) -> (r: Option<&'a toml::Table>)
    ensures
        r is Some <==> table_sub_tables(*table).contains(key@),
        r is Some ==> table_keys(*table).contains(key@),
        r matches Some(sub) ==> table_string_entries(*sub) == table_sub_string_entries(
            *table,
            key@,
        ),
{
    match table.get(key) {
        Some(toml::Value::Table(sub)) => Some(sub),
        _ => None,
    }
}

/// Relies on toml's `Map::get`, telling the `Value` variants apart: the
/// string under `key`, when that entry exists and is a string.
#[verifier::external_body]
fn table_get_string(table: &toml::Table, key: &str) -> (r: Option<String>)
    ensures
        r is Some <==> table_string_entries(*table).dom().contains(key@),
        r matches Some(s) ==> s@ == table_string_entries(*table)[key@] && table_keys(
            *table,
        ).contains(key@),
{
    match table.get(key) {
        Some(toml::Value::String(s)) => Some(s.clone()),
        _ => None,
    }
}

/// The propagation strategies that a simulation description can ask for.
#[derive(Clone, Copy, Debug, PartialEq, Eq, Structural)]
pub enum PropagatorKind {
    MolecularDynamics,
    MonteCarlo,
}

/// Why no propagator could be read from a simulation description. These are
/// configuration errors, reported to the caller, never a panic.
#[derive(Clone, Debug, PartialEq, Eq)]
pub enum PropagatorError {
    /// The description has no `propagator` entry.
    MissingPropagator,
    /// The `propagator` entry is not a table.
    PropagatorIsNotATable,
    /// The propagator table has no `type` entry.
    MissingPropagatorType,
    /// The `type` entry of the propagator table is not a string.
    PropagatorTypeIsNotAString,
    /// The `type` string names no known propagator; the string is carried
    /// along for the report.
    UnknownPropagatorType(String),
}

impl PropagatorError {
    /// A descriptive message for the configuration error, fit for a driving
    /// command line tool to report before exiting cleanly.
    pub fn message(&self) -> (r: String)
        ensures
            r@ == match self {
                PropagatorError::MissingPropagator => "missing 'propagator' table in simulation"@,
                PropagatorError::PropagatorIsNotATable => "'propagator' must be a table in simulation"@,
                PropagatorError::MissingPropagatorType => "missing 'type' key in propagator"@,
                PropagatorError::PropagatorTypeIsNotAString => "'type' key must be a string in propagator"@,
                PropagatorError::UnknownPropagatorType(name) => "Unknown propagator type '"@
                    + name@ + "'"@,
            },
    {
        match self {
            PropagatorError::MissingPropagator => "missing 'propagator' table in simulation".to_owned(),
            PropagatorError::PropagatorIsNotATable => "'propagator' must be a table in simulation".to_owned(),
            PropagatorError::MissingPropagatorType => "missing 'type' key in propagator".to_owned(),
            PropagatorError::PropagatorTypeIsNotAString => "'type' key must be a string in propagator".to_owned(),
            PropagatorError::UnknownPropagatorType(name) => {
                let mut message: String = "Unknown propagator type '".to_owned();
                message.append(name.as_str());
                message.append("'");
                message
            },
        }
    }
}

/// Which propagator a propagator table asks for, decided by its `type`
/// entry: `MolecularDynamics` and `MonteCarlo` are the known strategies, any
/// other string is reported back, and a missing or non-string `type` entry is
/// its own error.
pub fn propagator_kind(table: &toml::Table) -> (r: Result<PropagatorKind, PropagatorError>)
    ensures
        r == Ok::<PropagatorKind, PropagatorError>(PropagatorKind::MolecularDynamics) <==> {
            &&& table_string_entries(*table).dom().contains("type"@)
            &&& table_string_entries(*table)["type"@] == "MolecularDynamics"@
        },
        r == Ok::<PropagatorKind, PropagatorError>(PropagatorKind::MonteCarlo) <==> {
            &&& table_string_entries(*table).dom().contains("type"@)
            &&& table_string_entries(*table)["type"@] == "MonteCarlo"@
        },
        r == Err::<PropagatorKind, PropagatorError>(PropagatorError::MissingPropagatorType)
            <==> !table_keys(*table).contains("type"@),
        r == Err::<PropagatorKind, PropagatorError>(PropagatorError::PropagatorTypeIsNotAString)
            <==> table_keys(*table).contains("type"@) && !table_string_entries(
            *table,
        ).dom().contains("type"@),
        r matches Err(PropagatorError::UnknownPropagatorType(name)) ==> {
            &&& table_string_entries(*table).dom().contains("type"@)
            &&& table_string_entries(*table)["type"@] == name@
            &&& name@ != "MolecularDynamics"@
            &&& name@ != "MonteCarlo"@
        },
        (table_string_entries(*table).dom().contains("type"@)
            && table_string_entries(*table)["type"@] != "MolecularDynamics"@
            && table_string_entries(*table)["type"@] != "MonteCarlo"@)
            ==> (r matches Err(PropagatorError::UnknownPropagatorType(name)) && name@
            == table_string_entries(*table)["type"@]),
        (r == Err::<PropagatorKind, PropagatorError>(PropagatorError::MissingPropagatorType) || r
            == Err::<PropagatorKind, PropagatorError>(PropagatorError::PropagatorTypeIsNotAString))
            <==> !table_string_entries(*table).dom().contains("type"@),
        !(r matches Err(PropagatorError::MissingPropagator)),
        !(r matches Err(PropagatorError::PropagatorIsNotATable)),
{
    match table_get_string(table, "type") {
        Some(name) => {
            proof {
                reveal_strlit("MolecularDynamics");
                reveal_strlit("MonteCarlo");
            }
            let molecular_dynamics: String = "MolecularDynamics".to_owned();
            let monte_carlo: String = "MonteCarlo".to_owned();
            assert(molecular_dynamics@ == "MolecularDynamics"@);
            assert(monte_carlo@ == "MonteCarlo"@);
            assert("MolecularDynamics"@ != "MonteCarlo"@);
            if name == molecular_dynamics {
                Ok(PropagatorKind::MolecularDynamics)
            } else if name == monte_carlo {
                Ok(PropagatorKind::MonteCarlo)
            } else {
                Err(PropagatorError::UnknownPropagatorType(name))
            }
        },
        None => {
            if table_has_key(table, "type") {
                Err(PropagatorError::PropagatorTypeIsNotAString)
            } else {
                Err(PropagatorError::MissingPropagatorType)
            }
        },
    }
}

/// Read the propagator choice from a whole simulation description: find the
/// `propagator` sub-table and decide its kind. Succeeds exactly when the
/// sub-table exists and its `type` entry is the name of a known propagator.
pub fn read_propagator(config: &toml::Table) -> (r: Result<PropagatorKind, PropagatorError>)
    ensures
        r == Err::<PropagatorKind, PropagatorError>(PropagatorError::MissingPropagator)
            <==> !table_keys(*config).contains("propagator"@),
        r == Err::<PropagatorKind, PropagatorError>(PropagatorError::PropagatorIsNotATable)
            <==> table_keys(*config).contains("propagator"@) && !table_sub_tables(
            *config,
        ).contains("propagator"@),
        r == Ok::<PropagatorKind, PropagatorError>(PropagatorKind::MolecularDynamics) <==> {
            &&& table_sub_tables(*config).contains("propagator"@)
            &&& table_sub_string_entries(*config, "propagator"@).dom().contains("type"@)
            &&& table_sub_string_entries(*config, "propagator"@)["type"@]
                == "MolecularDynamics"@
        },
        r == Ok::<PropagatorKind, PropagatorError>(PropagatorKind::MonteCarlo) <==> {
            &&& table_sub_tables(*config).contains("propagator"@)
            &&& table_sub_string_entries(*config, "propagator"@).dom().contains("type"@)
            &&& table_sub_string_entries(*config, "propagator"@)["type"@] == "MonteCarlo"@
        },
        (r == Err::<PropagatorKind, PropagatorError>(PropagatorError::MissingPropagatorType) || r
            == Err::<PropagatorKind, PropagatorError>(PropagatorError::PropagatorTypeIsNotAString))
            <==> table_sub_tables(*config).contains("propagator"@) && !table_sub_string_entries(
            *config,
            "propagator"@,
        ).dom().contains("type"@),
        r matches Err(PropagatorError::UnknownPropagatorType(name)) ==> {
            &&& table_sub_tables(*config).contains("propagator"@)
            &&& table_sub_string_entries(*config, "propagator"@).dom().contains("type"@)
            &&& table_sub_string_entries(*config, "propagator"@)["type"@] == name@
            &&& name@ != "MolecularDynamics"@
            &&& name@ != "MonteCarlo"@
        },
        (table_sub_tables(*config).contains("propagator"@)
            && table_sub_string_entries(*config, "propagator"@).dom().contains("type"@)
            && table_sub_string_entries(*config, "propagator"@)["type"@]
                != "MolecularDynamics"@
            && table_sub_string_entries(*config, "propagator"@)["type"@] != "MonteCarlo"@)
            ==> (r matches Err(PropagatorError::UnknownPropagatorType(name)) && name@
            == table_sub_string_entries(*config, "propagator"@)["type"@]),
{
    match table_get_table(config, "propagator") {
        Some(propagator) => propagator_kind(propagator),
        None => {
            if table_has_key(config, "propagator") {
                Err(PropagatorError::PropagatorIsNotATable)
            } else {
                Err(PropagatorError::MissingPropagator)
            }
        },
    }
}

} // verus!
