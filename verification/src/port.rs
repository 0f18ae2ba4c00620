use vstd::prelude::*;

verus! {

/// A hardware input/output port, identified by its address.
///
/// The actual `in`/`out` instructions are issued by the hardware layer
/// around this crate; the port value itself is plain data.
#[derive(Clone, Copy, Debug, PartialEq, Eq, Structural)]
pub struct Port {
    /// Address of the port.
    pub id: u16,
}

impl Port {
    /// A handle for the port at address `id`.
    pub fn new(id: u16) -> (r: Port)
        ensures
            r.id == id,
    {
        Port { id }
    }
}

} // verus!
