use vstd::prelude::*;

verus! {

/// The memflow connector that reaches the machine running the game.
#[derive(Clone, Copy, Debug, PartialEq, Eq, Structural, PartialOrd, Ord)]
pub enum Connector {
    Qemu,
    Kvm,
    Pcileech,
}

impl Default for Connector {
    fn default() -> (r: Connector)
        ensures
            r == Connector::Qemu,
    {
        Connector::Qemu
    }
}

/// The name of a connector's memflow plugin.
pub open spec fn connector_name(c: Connector) -> Seq<char> {
    match c {
        Connector::Qemu => "qemu"@,
        Connector::Kvm => "kvm"@,
        Connector::Pcileech => "pcileech"@,
    }
}

impl Connector {
    /// The name of the connector's memflow plugin: `qemu`, `kvm` or `pcileech`.
    pub fn to_string(&self) -> (r: String)
        ensures
            r@ == connector_name(*self),
    {
        match self {
            Connector::Qemu => "qemu".to_owned(),
            Connector::Kvm => "kvm".to_owned(),
            Connector::Pcileech => "pcileech".to_owned(),
        }
    }
}

} // verus!
