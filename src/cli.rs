//! The command-line parameters and where they say to connect.
use vstd::prelude::*;

verus! {

/// The command-line parameters: a serial port or a TCP address of the device.
pub struct Params {
    pub port: Option<String>,
    pub address: Option<String>,
}

/// How to reach the device.
#[derive(Debug, PartialEq, Eq)]
pub enum Source {
    /// Open this serial port.
    Serial(String),
    /// Connect to this IP address and port.
    Tcp(String),
    /// Ask the user.
    Ask,
}

impl Params {
    /// A given serial port comes first, then a given address; with neither the
    /// user is asked.
    pub fn source(&self) -> (r: Source)
        ensures
            self.port matches Some(p) ==> r == Source::Serial(p),
            self.port is None ==> (self.address matches Some(a) ==> r == Source::Tcp(a)),
            self.port is None && self.address is None ==> r == Source::Ask,
    {
        if let Some(p) = &self.port {
            return Source::Serial(p.clone());
        }
        if let Some(a) = &self.address {
            return Source::Tcp(a.clone());
        }
        Source::Ask
    }
}

} // verus!
