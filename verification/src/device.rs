//! The signal device: a coupler address, a connected transport, and the
//! ordered signal registry built from configuration.

use crate::config;
use crate::config::SignalEntry;
use crate::errors::ConfigError;
use crate::errors::DeviceError;
use crate::signal::Signal;
use crate::signal::SignalView;
use crate::transport;
use vstd::prelude::*;

verus! {

/// Connect timeout applied once, at construction, in milliseconds. A coupler
/// on an unreachable network must not hang construction indefinitely.
pub const CONNECT_TIMEOUT_MS: u64 = 1000;

/// Mathematical view of a [`SignalDevice`]: everything but the transport
/// handle, which is opaque.
pub ghost struct DeviceView {
    pub device_name: Seq<char>,
    pub coupler_address: Seq<char>,
    pub resource_location: Seq<char>,
    pub signals: Seq<Signal>,
}

/// `i` is the index `get_signal` resolves `name` to: the first signal in
/// insertion order whose name equals `name` exactly.
pub open spec fn is_first_match(signals: Seq<Signal>, name: Seq<char>, i: int) -> bool {
    &&& 0 <= i < signals.len()
    &&& signals[i]@.name == name
    &&& forall|j: int| 0 <= j < i ==> signals[j]@.name != name
}

/// Some signal in the registry is named `name`.
pub open spec fn has_signal_named(signals: Seq<Signal>, name: Seq<char>) -> bool {
    exists|i: int| 0 <= i < signals.len() && signals[i]@.name == name
}

/// Every signal from index `k` on is exactly as it was: an aborted bulk
/// refresh leaves the unvisited tail untouched.
pub open spec fn suffix_unchanged(old_signals: Seq<Signal>, new_signals: Seq<Signal>, k: int) -> bool {
    forall|i: int| k <= i < old_signals.len() ==> new_signals[i] == old_signals[i]
}

/// A device bound to one coupler: its name, the coupler's network address,
/// the exclusively owned transport connection, the path of the configuration
/// this device was built from, and the signal registry.
pub struct SignalDevice {
    device_name: String,
    coupler_address: String,
    client: modbus::tcp::Transport,
    resource_location: String,
    signals: Vec<Signal>,
}

impl View for SignalDevice {
    type V = DeviceView;

    closed spec fn view(&self) -> DeviceView {
        DeviceView {
            device_name: self.device_name@,
            coupler_address: self.coupler_address@,
            resource_location: self.resource_location@,
            signals: self.signals@,
        }
    }
}

/// Linear scan of a registry in insertion order: the index of the first
/// signal whose name equals `signal_name` exactly (no normalization), or
/// `NotFound` carrying the requested name. `Ok` comes back if and only if
/// some signal has that name.
pub fn find_signal(signals: &Vec<Signal>, signal_name: &str) -> (r: Result<usize, DeviceError>)
    ensures
        match r {
            Ok(i) => is_first_match(signals@, signal_name@, i as int),
            Err(e) => {
                &&& !has_signal_named(signals@, signal_name@)
                &&& e matches DeviceError::NotFound(n) && n@ == signal_name@
            },
        },
{
    let needle: String = signal_name.to_owned();
    let n = signals.len();
    for i in 0..n
        invariant
            n == signals@.len(),
            needle@ == signal_name@,
            forall|j: int| 0 <= j < i ==> signals@[j]@.name != signal_name@,
    {
        if *signals[i].get_signal_name() == needle {
            return Ok(i);
        }
    }
    Err(DeviceError::NotFound(needle))
}

impl SignalDevice {
    pub fn get_name(&self) -> (r: &String)
        ensures
            r@ == self@.device_name,
    {
        &self.device_name
    }

    pub fn get_coupler_address(&self) -> (r: &String)
        ensures
            r@ == self@.coupler_address,
    {
        &self.coupler_address
    }

    pub fn set_coupler_address(&mut self, address: String)
        ensures
            final(self)@ == (DeviceView { coupler_address: address@, ..old(self)@ }),
    {
        self.coupler_address = address;
    }

    pub fn get_resource_location(&self) -> (r: &String)
        ensures
            r@ == self@.resource_location,
    {
        &self.resource_location
    }

    /// Looks a signal up by name: the first signal in insertion order whose
    /// name equals `signal_name` exactly, or `NotFound` carrying the name.
    pub fn get_signal(&self, signal_name: &str) -> (r: Result<&Signal, DeviceError>)
        ensures
            match r {
                Ok(s) => exists|i: int|
                    is_first_match(self@.signals, signal_name@, i) && *s == self@.signals[i],
                Err(e) => {
                    &&& !has_signal_named(self@.signals, signal_name@)
                    &&& e matches DeviceError::NotFound(n) && n@ == signal_name@
                },
            },
    {
        match find_signal(&self.signals, signal_name) {
            Ok(i) => {
                let s = &self.signals[i];
                proof {
                    assert(is_first_match(self@.signals, signal_name@, i as int));
                    assert(*s == self@.signals[i as int]);
                }
                Ok(s)
            },
            Err(e) => Err(e),
        }
    }

    /// Like [`Self::get_signal`], but hands out the signal mutably.
    pub fn get_signal_mut(&mut self, signal_name: &str) -> (r: Result<&mut Signal, DeviceError>)
        ensures
            match r {
                Ok(s) => exists|i: int|
                    {
                        &&& is_first_match(old(self)@.signals, signal_name@, i)
                        &&& *s == old(self)@.signals[i]
                        &&& final(self)@ == (DeviceView {
                            signals: old(self)@.signals.update(i, *final(s)),
                            ..old(self)@
                        })
                    },
                Err(e) => {
                    &&& *final(self) == *old(self)
                    &&& !has_signal_named(old(self)@.signals, signal_name@)
                    &&& e matches DeviceError::NotFound(n) && n@ == signal_name@
                },
            },
    {
        let idx = match find_signal(&self.signals, signal_name) {
            Ok(i) => i,
            Err(e) => return Err(e),
        };
        proof {
            assert(is_first_match(old(self)@.signals, signal_name@, idx as int));
        }
        Ok(&mut self.signals[idx])
    }

    /// Looks a signal up by name, asks the coupler directly for its current
    /// state, and caches what the read reported before returning it: the
    /// per-signal read path, with the same observable outcome as
    /// [`Self::refresh_signal`].
    pub fn get_signal_directly(&mut self, signal_name: &str) -> (r: Result<bool, DeviceError>)
        ensures
            final(self)@.device_name == old(self)@.device_name,
            final(self)@.coupler_address == old(self)@.coupler_address,
            final(self)@.resource_location == old(self)@.resource_location,
            final(self)@.signals.len() == old(self)@.signals.len(),
            match r {
                Ok(b) => exists|i: int|
                    {
                        &&& is_first_match(old(self)@.signals, signal_name@, i)
                        &&& final(self)@.signals[i]@ == (SignalView {
                            status: b,
                            ..old(self)@.signals[i]@
                        })
                        &&& forall|j: int|
                            0 <= j < old(self)@.signals.len() && j != i
                                ==> final(self)@.signals[j] == old(self)@.signals[j]
                    },
                Err(e) => {
                    &&& final(self)@.signals == old(self)@.signals
                    &&& match e {
                        DeviceError::NotFound(n) => {
                            &&& n@ == signal_name@
                            &&& !has_signal_named(old(self)@.signals, signal_name@)
                        },
                        DeviceError::Transport(_) => has_signal_named(
                            old(self)@.signals,
                            signal_name@,
                        ),
                    }
                },
            },
    {
        self.refresh_signal(signal_name)
    }

    /// Polls one signal: looks it up by name, reads the discrete input at its
    /// offset, overwrites the cached status with what the read reported, and
    /// returns that new value. A read reporting on leaves the signal's status
    /// `true`; a read reporting off leaves it `false`. No other signal, and
    /// no identity field, changes.
    pub fn refresh_signal(&mut self, signal_name: &str) -> (r: Result<bool, DeviceError>)
        ensures
            final(self)@.device_name == old(self)@.device_name,
            final(self)@.coupler_address == old(self)@.coupler_address,
            final(self)@.resource_location == old(self)@.resource_location,
            final(self)@.signals.len() == old(self)@.signals.len(),
            match r {
                Ok(b) => exists|i: int|
                    {
                        &&& is_first_match(old(self)@.signals, signal_name@, i)
                        &&& final(self)@.signals[i]@ == (SignalView {
                            status: b,
                            ..old(self)@.signals[i]@
                        })
                        &&& forall|j: int|
                            0 <= j < old(self)@.signals.len() && j != i
                                ==> final(self)@.signals[j] == old(self)@.signals[j]
                    },
                Err(e) => {
                    &&& final(self)@.signals == old(self)@.signals
                    &&& match e {
                        DeviceError::NotFound(n) => {
                            &&& n@ == signal_name@
                            &&& !has_signal_named(old(self)@.signals, signal_name@)
                        },
                        DeviceError::Transport(_) => has_signal_named(
                            old(self)@.signals,
                            signal_name@,
                        ),
                    }
                },
            },
    {
        let idx = match find_signal(&self.signals, signal_name) {
            Ok(i) => i,
            Err(e) => return Err(e),
        };
        let offset: u16 = *self.signals[idx].get_signal_offset();
        let value = match transport::get_signal_status(&mut self.client, offset) {
            Ok(v) => v,
            Err(e) => return Err(e),
        };
        let s = &mut self.signals[idx];
        s.set_signal_status(value);
        proof {
            assert(is_first_match(old(self)@.signals, signal_name@, idx as int));
            assert(self@.signals[idx as int]@ == (SignalView {
                status: value,
                ..old(self)@.signals[idx as int]@
            }));
        }
        Ok(value)
    }

    /// Polls every signal in insertion order, overwriting each cached status
    /// with what its read reported. The first transport fault aborts the
    /// cycle: signals before the fault keep their fresh values, signals from
    /// the fault on keep their old ones. Identity fields never change.
    pub fn refresh_signals(&mut self) -> (r: Result<(), DeviceError>)
        ensures
            final(self)@.device_name == old(self)@.device_name,
            final(self)@.coupler_address == old(self)@.coupler_address,
            final(self)@.resource_location == old(self)@.resource_location,
            final(self)@.signals.len() == old(self)@.signals.len(),
            forall|i: int|
                0 <= i < old(self)@.signals.len() ==> {
                    &&& final(self)@.signals[i]@.name == old(self)@.signals[i]@.name
                    &&& final(self)@.signals[i]@.kind == old(self)@.signals[i]@.kind
                    &&& final(self)@.signals[i]@.offset == old(self)@.signals[i]@.offset
                },
            r matches Err(e) ==> {
                &&& e is Transport
                &&& exists|k: int|
                    0 <= k < old(self)@.signals.len() && #[trigger] suffix_unchanged(
                        old(self)@.signals,
                        final(self)@.signals,
                        k,
                    )
            },
    {
        let n = self.signals.len();
        for idx in 0..n
            invariant
                n == old(self)@.signals.len(),
                self@.signals.len() == n,
                self@.device_name == old(self)@.device_name,
                self@.coupler_address == old(self)@.coupler_address,
                self@.resource_location == old(self)@.resource_location,
                forall|i: int|
                    0 <= i < n ==> {
                        &&& self@.signals[i]@.name == old(self)@.signals[i]@.name
                        &&& self@.signals[i]@.kind == old(self)@.signals[i]@.kind
                        &&& self@.signals[i]@.offset == old(self)@.signals[i]@.offset
                    },
                suffix_unchanged(old(self)@.signals, self@.signals, idx as int),
        {
            let offset: u16 = *self.signals[idx].get_signal_offset();
            match transport::get_signal_status(&mut self.client, offset) {
                Ok(value) => {
                    let s = &mut self.signals[idx];
                    s.set_signal_status(value);
                },
                Err(e) => {
                    return Err(e);
                },
            }
        }
        Ok(())
    }

    /// Assembles a device from already-extracted configuration parts and the
    /// outcome of the transport connection. A failed connection yields
    /// exactly `ConnectFailed`; a successful one yields a device carrying the
    /// given names and one signal per entry, in order, with the entry's
    /// defaults applied and every status starting `false`.
    pub fn device_from_parts(
        device_name: &str,
        resource_location: String,
        coupler_address: String,
        entries: &Vec<SignalEntry>,
        connect_result: Result<modbus::tcp::Transport, std::io::Error>,
    ) -> (r: Result<SignalDevice, ConfigError>)
        ensures
            match connect_result {
                Err(_) => r matches Err(e) && e == ConfigError::ConnectFailed,
                Ok(_) => r matches Ok(d) && {
                    &&& d@.device_name == device_name@
                    &&& d@.coupler_address == coupler_address@
                    &&& d@.resource_location == resource_location@
                    &&& d@.signals.len() == entries@.len()
                    &&& forall|i: int|
                        0 <= i < entries@.len()
                            ==> (#[trigger] d@.signals[i])@ == config::spec_signal_of_entry(
                                entries@[i],
                            )
                },
            },
    {
        let client = match connect_result {
            Ok(c) => c,
            Err(_) => return Err(ConfigError::ConnectFailed),
        };
        let signals = config::signals_from_entries(entries);
        Ok(
            SignalDevice {
                device_name: device_name.to_owned(),
                coupler_address,
                client,
                resource_location,
                signals,
            },
        )
    }

    /// Builds a device from its name and the text of its configuration
    /// resource: parses the text, resolves the coupler address (defaulting to
    /// `"127.0.0.1"`), connects to the coupler with the fixed timeout, and
    /// builds the registry. Fails with `ParseFailed` exactly when the text is
    /// not well-formed YAML or holds no document — no connect is attempted
    /// then — and with `ConnectFailed` when the coupler cannot be reached;
    /// `OpenFailed` is never produced here, since opening the resource is the
    /// caller's business. On success every signal's status starts `false`.
    pub fn from_yaml_str(device_name: &str, contents: &str) -> (r: Result<SignalDevice, ConfigError>)
        ensures
            r matches Ok(d) ==> {
                &&& d@.device_name == device_name@
                &&& d@.resource_location == config::spec_resource_location(device_name@)
                &&& forall|i: int|
                    0 <= i < d@.signals.len() ==> (#[trigger] d@.signals[i])@.status == false
            },
            r matches Err(e) ==> (e == ConfigError::ParseFailed || e == ConfigError::ConnectFailed),
            r == Err::<SignalDevice, ConfigError>(ConfigError::ParseFailed)
                <==> !config::spec_parses_to_document(contents@),
    {
        let docs = match config::load_yaml_docs(contents) {
            Ok(d) => d,
            Err(_) => return Err(ConfigError::ParseFailed),
        };
        if docs.len() == 0 {
            return Err(ConfigError::ParseFailed);
        }
        let doc = &docs[0];
        let coupler = config::resolve_coupler(config::coupler_from_doc(doc));
        let entries = config::signal_entries_from_doc(doc);
        let resource_location = config::resource_location_for(device_name);
        let connect_result = transport::connect_coupler(coupler.as_str(), CONNECT_TIMEOUT_MS);
        Self::device_from_parts(device_name, resource_location, coupler, &entries, connect_result)
    }
}

/// After a refresh writes status `b` into the first signal matching `name`
/// and leaves every other signal alone, that signal is still the first match
/// for `name`, and its status is `b`: what `refresh_signal` reports is what
/// the following `get_signal` observes.
pub proof fn lemma_refresh_then_lookup(
    signals: Seq<Signal>,
    updated: Seq<Signal>,
    name: Seq<char>,
    i: int,
    b: bool,
)
    requires
        is_first_match(signals, name, i),
        updated.len() == signals.len(),
        updated[i]@ == (SignalView { status: b, ..signals[i]@ }),
        forall|j: int| 0 <= j < signals.len() && j != i ==> updated[j] == signals[j],
    ensures
        is_first_match(updated, name, i),
        updated[i]@.status == b,
{
}

} // verus!
