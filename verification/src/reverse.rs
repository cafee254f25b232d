//! What the reverse proxy makes of its mappings.

use crate::ids::DestinationHash;
use vstd::prelude::*;
use vstd::string::*;

verus! {

/// Where the connections to one destination go.
#[derive(Debug, Clone)]
pub struct MappingConfig {
    pub aspects: Vec<String>,
    pub forward_to: String,
    pub address_hash: Option<String>,
}

/// The aspects of a destination as a file of mappings gives them: a list, or a single one.
#[derive(Debug)]
pub enum Aspects {
    List(Vec<String>),
    Single(String),
}

impl Aspects {
    /// The aspects as a list.
    pub fn into_list(self) -> (r: Vec<String>)
        ensures
            r@ == match self {
                Aspects::List(list) => list@,
                Aspects::Single(aspect) => seq![aspect],
            },
    {
        match self {
            Aspects::List(list) => list,
            Aspects::Single(aspect) => {
                let mut list: Vec<String> = Vec::new();
                list.push(aspect);
                assert(list@ =~= seq![aspect]);
                list
            },
        }
    }
}

/// What a destination is called: an application name and no aspects.
#[derive(Debug)]
pub struct DestinationName {
    pub app_name: String,
    pub aspects: Vec<String>,
}

/// The line by which others find the destination of a mapping.
pub open spec fn discovery_line(name: Seq<char>, hash: DestinationHash) -> Seq<char> {
    name + ":"@ + hash.text()
}

/// A mapping whose destination has its hash.
#[derive(Debug)]
pub struct PreparedMapping {
    pub name: String,
    pub config: MappingConfig,
    pub discovery: String,
}

/// What the destination of a mapping is called. The aspects of the mapping are no part
/// of it.
pub fn destination_name(name: &String) -> (r: DestinationName)
    ensures
        r.app_name@ == name@,
        r.aspects@.len() == 0,
{
    DestinationName { app_name: name.clone(), aspects: Vec::new() }
}

/// Notes the hash of the destination of a mapping.
pub fn prepare(name: String, config: MappingConfig, hash: DestinationHash) -> (r: PreparedMapping)
    ensures
        r.name == name,
        r.config.aspects == config.aspects,
        r.config.forward_to == config.forward_to,
        r.config.address_hash matches Some(address) && address@ == hash.text(),
        r.discovery@ == discovery_line(name@, hash),
{
    let address = hash.to_hex_string();
    let discovery = name.clone().concat(":").concat(address.as_str());
    let config = MappingConfig { address_hash: Some(address), ..config };
    PreparedMapping { name, config, discovery }
}

} // verus!
