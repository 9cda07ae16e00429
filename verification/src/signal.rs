//! A single named discrete input and its last observed status.

use vstd::prelude::*;

verus! {

/// Mathematical view of a [`Signal`]: the identity fields as sequences of
/// characters, plus the cached status bit.
pub ghost struct SignalView {
    pub name: Seq<char>,
    pub kind: Seq<char>,
    pub offset: u16,
    pub status: bool,
}

/// A discrete input on the coupler: an immutable identity (name, type,
/// zero-indexed register offset) paired with the last observed on/off status.
///
/// The status starts out `false` and is only ever overwritten with the result
/// of a successful transport read by the owning device.
pub struct Signal {
    signal_name: String,
    signal_type: String,
    signal_offset: u16,
    signal_status: bool,
}

impl View for Signal {
    type V = SignalView;

    closed spec fn view(&self) -> SignalView {
        SignalView {
            name: self.signal_name@,
            kind: self.signal_type@,
            offset: self.signal_offset,
            status: self.signal_status,
        }
    }
}

/// The text form of a status bit: `"ON"` for `true`, `"OFF"` for `false`.
pub open spec fn spec_status_text(status: bool) -> Seq<char> {
    if status {
        "ON"@
    } else {
        "OFF"@
    }
}

impl Signal {
    /// Constructs a signal with the given identity and a status of `false`.
    pub fn new(signal_name: String, signal_type: String, signal_offset: u16) -> (s: Signal)
        ensures
            s@ == (SignalView {
                name: signal_name@,
                kind: signal_type@,
                offset: signal_offset,
                status: false,
            }),
    {
        Signal { signal_name, signal_type, signal_offset, signal_status: false }
    }

    pub fn get_signal_name(&self) -> (r: &String)
        ensures
            r@ == self@.name,
    {
        &self.signal_name
    }

    pub fn get_signal_offset(&self) -> (r: &u16)
        ensures
            *r == self@.offset,
    {
        &self.signal_offset
    }

    pub fn get_signal_type(&self) -> (r: &String)
        ensures
            r@ == self@.kind,
    {
        &self.signal_type
    }

    pub fn get_signal_status(&self) -> (r: &bool)
        ensures
            *r == self@.status,
    {
        &self.signal_status
    }

    /// Overwrites the cached status; the identity fields are untouched.
    pub fn set_signal_status(&mut self, new_val: bool)
        ensures
            final(self)@ == (SignalView { status: new_val, ..old(self)@ }),
    {
        self.signal_status = new_val;
    }

    /// Renders the cached status as text: `"ON"` exactly when the status is
    /// `true`, `"OFF"` otherwise.
    pub fn as_text(&self) -> (r: String)
        ensures
            r@ == spec_status_text(self@.status),
    {
        if self.signal_status {
            "ON".to_owned()
        } else {
            "OFF".to_owned()
        }
    }
}

} // verus!
