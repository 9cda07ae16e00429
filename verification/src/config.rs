//! Extraction of a device description from a parsed YAML configuration.
//!
//! The YAML text is parsed by the yaml-rust crate behind trusted wrappers;
//! everything the library's logic reads out of the tree is first brought into
//! plain values ([`SignalEntry`], an optional coupler address), and the
//! defaulting rules for missing fields are verified on those plain values.

use crate::signal::Signal;
use crate::signal::SignalView;
use vstd::prelude::*;
use vstd::string::StringExecFns;

verus! {

/// Declares yaml-rust's parsed node type; opaque here, read only through the
/// wrappers below.
#[verifier::external_type_specification]
#[verifier::external_body]
pub struct ExYaml(yaml_rust::Yaml);

/// Declares yaml-rust's scan error; opaque here, mapped to
/// `ConfigError::ParseFailed` by verified code.
#[verifier::external_type_specification]
#[verifier::external_body]
pub struct ExScanError(yaml_rust::ScanError);

/// The parse outcome of YAML text: `None` when scanning fails, otherwise the
/// number of documents the text holds. The parser is deterministic, so this
/// is a function of the text alone.
pub uninterp spec fn spec_yaml_documents(contents: Seq<char>) -> Option<nat>;

/// The text parses to at least one YAML document: the parse step of device
/// construction succeeds exactly here.
pub open spec fn spec_parses_to_document(contents: Seq<char>) -> bool {
    spec_yaml_documents(contents) matches Some(n) && n > 0
}

/// Relies on yaml_rust::YamlLoader::load_from_str: parses YAML text into a
/// list of documents, or a scan error when the text is not well-formed. The
/// parse outcome depends on the text alone, so it carries the name
/// [`spec_yaml_documents`]: scanning succeeds exactly where the name is
/// `Some`, and then yields that many documents.
#[verifier::external_body]
pub(crate) fn load_yaml_docs(contents: &str) -> (r: Result<
    Vec<yaml_rust::Yaml>,
    yaml_rust::ScanError,
>)
    ensures
        r is Ok <==> spec_yaml_documents(contents@) is Some,
        r matches Ok(docs) ==> spec_yaml_documents(contents@) == Some(docs@.len()),
{
    yaml_rust::YamlLoader::load_from_str(contents)
}

/// Relies on yaml-rust's `Index<&str>` for Yaml: looks `key` up in a hash
/// node; a missing key or a non-hash node yields `Yaml::BadValue`, never a
/// panic.
#[verifier::external_body]
pub(crate) fn yaml_field<'a>(node: &'a yaml_rust::Yaml, key: &str) -> &'a yaml_rust::Yaml {
    &node[key]
}

/// Relies on yaml_rust::Yaml::as_str: `Some` for a string node, `None` for
/// every other node.
#[verifier::external_body]
pub(crate) fn yaml_string(node: &yaml_rust::Yaml) -> Option<String> {
    node.as_str().map(|s| s.to_string())
}

/// Relies on yaml_rust::Yaml::as_i64: `Some` for an integer node, `None` for
/// every other node.
#[verifier::external_body]
pub(crate) fn yaml_integer(node: &yaml_rust::Yaml) -> Option<i64> {
    node.as_i64()
}

/// Relies on yaml_rust::Yaml::as_vec: the elements of an array node, `None`
/// for every other node.
#[verifier::external_body]
pub(crate) fn yaml_array(node: &yaml_rust::Yaml) -> Option<Vec<yaml_rust::Yaml>> {
    node.as_vec().cloned()
}

/// One record of the configuration's `signals` list, with each field as the
/// configuration gave it: `None` where the record omits the field or gives
/// it an unusable type.
pub struct SignalEntry {
    pub name: Option<String>,
    pub kind: Option<String>,
    pub offset: Option<i64>,
}

/// The sentinel used when a record gives no usable `name`.
pub open spec fn spec_default_name() -> Seq<char> {
    "invalid_signal_name"@
}

/// The sentinel used when a record gives no usable `type`.
pub open spec fn spec_default_kind() -> Seq<char> {
    "invalid_signal_type"@
}

/// The coupler address used when the configuration names none.
pub open spec fn spec_default_coupler() -> Seq<char> {
    "127.0.0.1"@
}

/// The signal a configuration record stands for: missing fields fall back to
/// sentinel values, a missing offset to 0, and an offset outside the 16-bit
/// range is truncated. The status always starts out `false`.
pub open spec fn spec_signal_of_entry(e: SignalEntry) -> SignalView {
    SignalView {
        name: match e.name {
            Some(n) => n@,
            None => spec_default_name(),
        },
        kind: match e.kind {
            Some(k) => k@,
            None => spec_default_kind(),
        },
        offset: match e.offset {
            Some(v) => v as u16,
            None => 0u16,
        },
        status: false,
    }
}

/// Builds the signal a single configuration record describes, applying the
/// silent defaults for missing fields.
pub fn signal_from_entry(entry: &SignalEntry) -> (s: Signal)
    ensures
        s@ == spec_signal_of_entry(*entry),
{
    let name = match &entry.name {
        Some(n) => n.clone(),
        None => "invalid_signal_name".to_owned(),
    };
    let kind = match &entry.kind {
        Some(k) => k.clone(),
        None => "invalid_signal_type".to_owned(),
    };
    let offset: u16 = match &entry.offset {
        Some(v) => #[verifier::truncate] (*v as u16),
        None => 0,
    };
    Signal::new(name, kind, offset)
}

/// Builds the signal registry from the configuration's records: one signal
/// per entry, in the order the configuration lists them.
pub fn signals_from_entries(entries: &Vec<SignalEntry>) -> (signals: Vec<Signal>)
    ensures
        signals@.len() == entries@.len(),
        forall|i: int|
            0 <= i < entries@.len() ==> signals@[i]@ == spec_signal_of_entry(entries@[i]),
{
    let mut signals: Vec<Signal> = Vec::new();
    let n = entries.len();
    for i in 0..n
        invariant
            n == entries@.len(),
            signals@.len() == i,
            forall|j: int| 0 <= j < i ==> signals@[j]@ == spec_signal_of_entry(entries@[j]),
    {
        signals.push(signal_from_entry(&entries[i]));
    }
    signals
}

/// Reads the `signals` list out of a parsed document: one entry per record,
/// in document order, each field `None` where the record has nothing usable.
/// A missing or non-array `signals` key yields no entries.
pub fn signal_entries_from_doc(doc: &yaml_rust::Yaml) -> Vec<SignalEntry> {
    let mut entries: Vec<SignalEntry> = Vec::new();
    if let Some(records) = yaml_array(yaml_field(doc, "signals")) {
        let n = records.len();
        for i in 0..n
            invariant
                n == records@.len(),
        {
            let record = &records[i];
            entries.push(
                SignalEntry {
                    name: yaml_string(yaml_field(record, "name")),
                    kind: yaml_string(yaml_field(record, "type")),
                    offset: yaml_integer(yaml_field(record, "offset")),
                },
            );
        }
    }
    entries
}

/// Reads `device.coupler` out of a parsed document, `None` when it is absent
/// or not a string.
pub fn coupler_from_doc(doc: &yaml_rust::Yaml) -> Option<String> {
    yaml_string(yaml_field(yaml_field(doc, "device"), "coupler"))
}

/// The coupler address to use: the configured one where the configuration
/// names one, `"127.0.0.1"` otherwise.
pub fn resolve_coupler(configured: Option<String>) -> (r: String)
    ensures
        configured matches Some(a) ==> r@ == a@,
        configured is None ==> r@ == spec_default_coupler(),
{
    match configured {
        Some(a) => a,
        None => "127.0.0.1".to_owned(),
    }
}

/// The resource path a device's configuration is looked up at.
pub open spec fn spec_resource_location(device_name: Seq<char>) -> Seq<char> {
    "./thingy/resources/"@ + device_name + ".yaml"@
}

/// Resolves the configuration resource path for a device name:
/// `./thingy/resources/<device_name>.yaml`.
pub fn resource_location_for(device_name: &str) -> (r: String)
    ensures
        r@ == spec_resource_location(device_name@),
{
    let mut r = "./thingy/resources/".to_owned();
    r.append(device_name);
    r.append(".yaml");
    proof {
        assert(r@ =~= spec_resource_location(device_name@));
    }
    r
}

} // verus!
