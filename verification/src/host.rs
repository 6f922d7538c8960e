//! Null-checked helpers for the host's optional function table. Each entry of
//! the counterpart's table may be absent; a helper turns absence into a
//! side-appropriate default — `false` for a query, a no-op for a notify —
//! and otherwise invokes the entry and forwards its literal return value.
//! The boundary layer hands the entries in as optional callables built from
//! the table the handle was cast to.

use vstd::prelude::*;

use crate::flags::RescanType;
use crate::handle::HostAudioPorts;

verus! {

impl HostAudioPorts {
    /// Asks the host whether it supports a rescan flag combination. An
    /// absent table entry answers `false` — an unsupported capability, not
    /// an error; a present one is called with the set's raw bits and its
    /// answer is forwarded unchanged.
    pub fn is_rescan_flag_supported<F: Fn(u32) -> bool>(&self, query: Option<F>, flag: RescanType)
        -> (r: bool)
        requires
            query matches Some(f) ==> call_requires(f, (flag.bits,)),
        ensures
            query is None ==> r == false,
            query matches Some(f) ==> call_ensures(f, (flag.bits,), r),
    {
        match query {
            None => false,
            Some(supported) => supported(flag.bits()),
        }
    }

    /// Notifies the host that port metadata changed. An absent table entry
    /// makes this a no-op — the capability is simply not there; a present
    /// one is called with the set's raw bits.
    pub fn rescan<F: Fn(u32)>(&self, notify: Option<F>, flag: RescanType)
        requires
            notify matches Some(f) ==> call_requires(f, (flag.bits,)),
        ensures
            notify matches Some(f) ==> call_ensures(f, (flag.bits,), ()),
    {
        match notify {
            None => (),
            Some(rescan) => rescan(flag.bits()),
        }
    }
}

} // verus!
