//! What this library reads of a chain specification: its identifier, its boot
//! nodes, its telemetry endpoints and its string-keyed properties.

use vstd::prelude::*;

verus! {

/// `serde_json::Map`, the map from keys to JSON values in which a chain
/// spec keeps its properties. The library looks values up in it and never
/// looks inside otherwise.
#[verifier::external_type_specification]
#[verifier::external_body]
#[verifier::reject_recursive_types(K)]
#[verifier::reject_recursive_types(V)]
pub struct ExJsonMap<K, V>(serde_json::Map<K, V>);

/// `serde_json::Value`, a JSON value of any kind.
#[verifier::external_type_specification]
#[verifier::external_body]
pub struct ExJsonValue(serde_json::Value);

/// What a properties map holds, as far as this library reads it: under each
/// key that the map has, the value as an unsigned integer where it is one,
/// and nothing where it is anything else.
pub uninterp spec fn unsigned_values(
    properties: serde_json::Map<String, serde_json::Value>,
) -> Map<Seq<char>, Option<u64>>;

/// The value of a chain-spec property, as far as this library tells values
/// apart: an unsigned integer, or anything else.
#[derive(Clone, Copy, Debug, PartialEq, Eq, Structural)]
pub enum PropertyValue {
    /// A number that is an unsigned integer.
    Unsigned(u64),
    /// Any other value: text, a negative or fractional number, a list, ...
    Other,
}

/// The property value that stands for what a JSON value is as an unsigned
/// integer.
pub open spec fn property_value_of(unsigned: Option<u64>) -> PropertyValue {
    match unsigned {
        Some(number) => PropertyValue::Unsigned(number),
        None => PropertyValue::Other,
    }
}

/// A telemetry server and the verbosity at which it is fed.
#[derive(Debug)]
pub struct TelemetryEndpoint {
    pub url: String,
    pub verbosity: u8,
}

/// The mathematical value of a [`TelemetryEndpoint`].
pub struct TelemetryEndpointView {
    pub url: Seq<char>,
    pub verbosity: u8,
}

impl View for TelemetryEndpoint {
    type V = TelemetryEndpointView;

    open spec fn view(&self) -> TelemetryEndpointView {
        TelemetryEndpointView { url: self.url@, verbosity: self.verbosity }
    }
}

impl DeepView for TelemetryEndpoint {
    type V = TelemetryEndpointView;

    open spec fn deep_view(&self) -> TelemetryEndpointView {
        self.view()
    }
}

/// The parts of a chain specification that node set-up consults.
#[derive(Debug)]
pub struct ChainSpec {
    /// The network identifier; it names the chain's directory on disk.
    pub id: String,
    /// The boot nodes, each in its textual address form.
    pub boot_nodes: Vec<String>,
    /// The telemetry endpoints, if the chain names any.
    pub telemetry_endpoints: Option<Vec<TelemetryEndpoint>>,
    /// The generic properties, by their keys.
    pub properties: serde_json::Map<String, serde_json::Value>,
}

/// The mathematical value of a [`ChainSpec`].
pub struct ChainSpecView {
    pub id: Seq<char>,
    pub boot_nodes: Seq<Seq<char>>,
    pub telemetry_endpoints: Option<Seq<TelemetryEndpointView>>,
    pub properties: Map<Seq<char>, PropertyValue>,
}

impl ChainSpecView {
    /// The value stored under `key`, if the properties hold that key.
    pub open spec fn property(self, key: Seq<char>) -> Option<PropertyValue> {
        self.properties.get(key)
    }
}

impl View for ChainSpec {
    type V = ChainSpecView;

    open spec fn view(&self) -> ChainSpecView {
        ChainSpecView {
            id: self.id@,
            boot_nodes: self.boot_nodes.deep_view(),
            telemetry_endpoints: self.telemetry_endpoints.deep_view(),
            properties: unsigned_values(self.properties).map_values(
                |unsigned: Option<u64>| property_value_of(unsigned),
            ),
        }
    }
}

/// Calls `serde_json::Map::get` with the key and hands the value that is
/// found to `serde_json::Value::as_u64`. `get` returns the value stored
/// under the key, or nothing where the map lacks the key; `as_u64` returns
/// the number where the value is an integer that fits into 64 bits without
/// a sign, and nothing otherwise. The contract says this of the map's
/// contents.
#[verifier::external_body]
fn unsigned_property(
    properties: &serde_json::Map<String, serde_json::Value>,
    key: &str,
) -> (found: Option<Option<u64>>)
    ensures
        found == unsigned_values(*properties).get(key@),
{
    match properties.get(key) {
        Some(value) => Some(value.as_u64()),
        None => None,
    }
}

impl ChainSpec {
    /// Looks a property up by its key.
    pub fn property(&self, key: &str) -> (value: Option<PropertyValue>)
        ensures
            value == self@.property(key@),
    {
        match unsigned_property(&self.properties, key) {
            None => None,
            Some(Some(number)) => Some(PropertyValue::Unsigned(number)),
            Some(None) => Some(PropertyValue::Other),
        }
    }

    /// A copy of the boot nodes, in their order.
    pub fn boot_nodes(&self) -> (nodes: Vec<String>)
        ensures
            nodes.deep_view() == self@.boot_nodes,
    {
        let nodes = self.boot_nodes.clone();
        assert(nodes.deep_view() =~= self.boot_nodes.deep_view());
        nodes
    }

    /// A copy of the telemetry endpoints, in their order.
    pub fn telemetry_endpoints(&self) -> (endpoints: Option<Vec<TelemetryEndpoint>>)
        ensures
            endpoints.deep_view() == self@.telemetry_endpoints,
    {
        match &self.telemetry_endpoints {
            None => None,
            Some(listed) => {
                let mut copy: Vec<TelemetryEndpoint> = Vec::new();
                let mut i: usize = 0;
                while i < listed.len()
                    invariant
                        i <= listed.len(),
                        copy.len() == i,
                        forall|j: int| 0 <= j < i ==> copy[j]@ == listed[j]@,
                    decreases listed.len() - i,
                {
                    let endpoint = &listed[i];
                    copy.push(
                        TelemetryEndpoint {
                            url: endpoint.url.clone(),
                            verbosity: endpoint.verbosity,
                        },
                    );
                    i += 1;
                }
                assert(copy.deep_view() =~= listed.deep_view());
                Some(copy)
            },
        }
    }
}

} // verus!
