//! Network configuration.

use vstd::prelude::*;

verus! {

/// The mathematical content of an [`Interface`].
pub struct InterfaceView {
    /// The name of the host-side interface.
    pub host_if_name: Seq<char>,
    /// The interface name inside the VM.
    pub vm_if_name: Seq<char>,
    /// The MAC address of the VM, if one was set.
    pub vm_mac_address: Option<Seq<char>>,
}

/// Network interface configuration.
#[derive(Debug)]
pub struct Interface {
    host_if_name: String,
    vm_if_name: String,
    vm_mac_address: Option<String>,
}

impl View for Interface {
    type V = InterfaceView;

    closed spec fn view(&self) -> InterfaceView {
        InterfaceView {
            host_if_name: self.host_if_name@,
            vm_if_name: self.vm_if_name@,
            vm_mac_address: match self.vm_mac_address {
                Some(s) => Some(s@),
                None => None,
            },
        }
    }
}

impl Interface {
    /// Create a new `Interface` instance.
    pub fn new(host_if_name: &str, vm_if_name: &str, vm_mac_address: Option<&str>) -> (r: Self)
        ensures
            r@.host_if_name == host_if_name@,
            r@.vm_if_name == vm_if_name@,
            r@.vm_mac_address == (match vm_mac_address {
                Some(s) => Some(s@),
                None => None::<Seq<char>>,
            }),
    {
        Interface {
            host_if_name: host_if_name.to_owned(),
            vm_if_name: vm_if_name.to_owned(),
            vm_mac_address: match vm_mac_address {
                Some(s) => Some(s.to_owned()),
                None => None,
            },
        }
    }

    /// The name of the host interface.
    pub fn host_if_name(&self) -> (r: &str)
        ensures
            r@ == self@.host_if_name,
    {
        self.host_if_name.as_str()
    }

    /// The interface name in the VM.
    pub fn vm_if_name(&self) -> (r: &str)
        ensures
            r@ == self@.vm_if_name,
    {
        self.vm_if_name.as_str()
    }

    /// MAC address of the VM.
    pub fn vm_mac_address(&self) -> (r: Option<&str>)
        ensures
            (r is Some) == (self@.vm_mac_address is Some),
            r matches Some(s) ==> Some(s@) == self@.vm_mac_address,
    {
        match &self.vm_mac_address {
            Some(s) => Some(s.as_str()),
            None => None,
        }
    }
}

} // verus!
