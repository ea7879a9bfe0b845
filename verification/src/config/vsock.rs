//! VSock configuration.

use vstd::prelude::*;

verus! {

/// The mathematical content of a [`VSock`].
pub struct VSockView {
    /// The context ID.
    pub guest_cid: u32,
    /// The host-side Unix socket path.
    pub uds_path: Seq<char>,
}

/// VSock configuration: a guest/host socket family identified by a 32-bit
/// context id, carried over a Unix socket on the host side.
#[derive(Debug)]
pub struct VSock {
    guest_cid: u32,
    uds_path: String,
}

impl View for VSock {
    type V = VSockView;

    closed spec fn view(&self) -> VSockView {
        VSockView { guest_cid: self.guest_cid, uds_path: self.uds_path@ }
    }
}

impl VSock {
    /// Create a new `VSock` instance.
    pub fn new(guest_cid: u32, uds_path: &str) -> (r: Self)
        ensures
            r@ == (VSockView { guest_cid, uds_path: uds_path@ }),
    {
        VSock { guest_cid, uds_path: uds_path.to_owned() }
    }

    /// The context ID.
    pub fn guest_cid(&self) -> (r: u32)
        ensures
            r == self@.guest_cid,
    {
        self.guest_cid
    }

    /// The path to the Unix socket file.
    ///
    /// For guest-initiated connections, a `_PORT` suffix is expected in the
    /// actual socket filename.
    pub fn uds_path(&self) -> (r: &str)
        ensures
            r@ == self@.uds_path,
    {
        self.uds_path.as_str()
    }
}

} // verus!
