//! What a node says of itself once it runs.

use crate::config::{RuntimeConfiguration, RuntimeConfigurationView};
use vstd::prelude::*;
use vstd::string::*;

verus! {

/// The lines of the report on a node with the given configuration: a banner
/// of three lines, then the chain, the name of the node and its role.
pub open spec fn report_lines(config: RuntimeConfigurationView) -> Seq<Seq<char>> {
    seq![
        "Substrate browser node"@,
        "  version "@ + config.version,
        "  by Parity Technologies, 2017-2020"@,
        "Chain specification: "@ + config.chain.name,
        "Node name: "@ + config.node_name,
        "Roles: "@ + config.role.spec_name(),
    ]
}

/// A label followed by a value.
fn labelled(label: &str, value: &str) -> (line: String)
    ensures
        line@ == label@ + value@,
{
    let mut line = String::from_str(label);
    line.append(value);
    line
}

/// The report on a node with the given configuration, line by line, for the
/// host to log at the informational level.
pub fn startup_report(config: &RuntimeConfiguration) -> (lines: Vec<String>)
    ensures
        lines.deep_view() == report_lines(config@),
{
    let mut lines: Vec<String> = Vec::new();
    lines.push(String::from_str("Substrate browser node"));
    lines.push(labelled("  version ", config.version()));
    lines.push(String::from_str("  by Parity Technologies, 2017-2020"));
    lines.push(labelled("Chain specification: ", config.chain().name()));
    lines.push(labelled("Node name: ", config.node_name()));
    lines.push(labelled("Roles: ", config.role().name()));
    assert(lines.deep_view() =~= report_lines(config@));
    lines
}

} // verus!
