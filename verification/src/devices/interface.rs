//! `<interface>` devices (network cards).
use vstd::prelude::*;
use crate::text::push_str;

verus! {

/// An `<interface>` element of a domain's `<devices>`.
#[derive(Debug, Clone)]
pub struct DeviceInterface {
    pub interface_type: String,
    pub mac: Option<MacAddress>,
    pub source: Option<InterfaceSource>,
    pub model: Option<InterfaceModel>,
    pub address: Option<InterfaceAddress>,
}

/// The `<mac>` of an interface.
#[derive(Debug, Clone)]
pub struct MacAddress {
    pub address: String,
}

/// The `<source>` of an interface.
#[derive(Debug, Clone)]
pub struct InterfaceSource {
    pub network: Option<String>,
    pub bridge: Option<String>,
    pub dev: Option<String>,
}

/// The `<model>` of an interface.
#[derive(Debug, Clone)]
pub struct InterfaceModel {
    pub model_type: String,
}

/// The `<address>` of an interface.
#[derive(Debug, Clone)]
pub struct InterfaceAddress {
    pub address_type: String,
}

/// What an interface connects to: the source's network, else its bridge,
/// else its device.
pub open spec fn interface_source_name(n: DeviceInterface) -> Option<Seq<char>> {
    match n.source {
        Some(s) => match s.network {
            Some(x) => Some(x@),
            None => match s.bridge {
                Some(x) => Some(x@),
                None => match s.dev {
                    Some(x) => Some(x@),
                    None => None,
                },
            },
        },
        None => None,
    }
}

/// The model of an interface, `unknown` when it has none.
pub open spec fn interface_model_type(n: DeviceInterface) -> Seq<char> {
    match n.model {
        Some(m) => m.model_type@,
        None => "unknown"@,
    }
}

impl DeviceInterface {
    pub fn source_name(&self) -> (r: Option<&str>)
        ensures
            match r {
                Some(x) => interface_source_name(*self) == Some(x@),
                None => interface_source_name(*self) is None,
            },
    {
        match &self.source {
            Some(s) => match &s.network {
                Some(x) => Some(x.as_str()),
                None => match &s.bridge {
                    Some(x) => Some(x.as_str()),
                    None => match &s.dev {
                        Some(x) => Some(x.as_str()),
                        None => None,
                    },
                },
            },
            None => None,
        }
    }

    pub fn model_type(&self) -> (r: &str)
        ensures
            r@ == interface_model_type(*self),
    {
        match &self.model {
            Some(m) => m.model_type.as_str(),
            None => "unknown",
        }
    }

    /// The name shown for the device in the hardware list.
    pub open spec fn display_name_spec(&self) -> Seq<char> {
        "NIC "@ + match interface_source_name(*self) {
            Some(x) => x,
            None => "unknown"@,
        } + " ("@ + interface_model_type(*self) + ")"@
    }

    /// `NIC SOURCE (MODEL)`, with `unknown` for a missing source.
    pub fn display_name(&self) -> (r: String)
        ensures
            r@ == self.display_name_spec(),
    {
        let mut r = String::new();
        push_str(&mut r, "NIC ");
        match self.source_name() {
            Some(x) => push_str(&mut r, x),
            None => push_str(&mut r, "unknown"),
        }
        push_str(&mut r, " (");
        push_str(&mut r, self.model_type());
        push_str(&mut r, ")");
        r
    }
}

} // verus!
