use vstd::prelude::*;

verus! {

/// A mount of a container.
#[derive(Clone, Debug, PartialEq)]
pub struct MountsInner {
    /// Mount type
    pub type_: Option<Type>,
    /// Path of dir to mount
    pub source: Option<String>,
    /// Dir of container to bind mount
    pub destination: Option<String>,
    /// Bind mount mode
    pub mode: Option<String>,
    /// Whether the mount should be read-write
    pub rw: Option<bool>,
    /// A propagation mode with the value [r]private, [r]shared, or [r]slave.
    pub propagation: Option<Propagation>,
}

impl MountsInner {
    /// A value with no field set.
    pub fn new() -> (value: MountsInner)
        ensures
            value == (MountsInner {
                type_: None,
                source: None,
                destination: None,
                mode: None,
                rw: None,
                propagation: None,
            }),
    {
        MountsInner {
            type_: None,
            source: None,
            destination: None,
            mode: None,
            rw: None,
            propagation: None,
        }
    }
}

/// Mount type
#[derive(Clone, Copy, Debug, Eq, PartialEq, Ord, PartialOrd, Hash, Structural)]
pub enum Type {
    Bind,
    Volume,
    Tmpfs,
    Npipe,
}

impl Default for Type {
    fn default() -> (value: Type)
        ensures
            value == Type::Bind,
    {
        Self::Bind
    }
}

/// A propagation mode with the value [r]private, [r]shared, or [r]slave.
#[derive(Clone, Copy, Debug, Eq, PartialEq, Ord, PartialOrd, Hash, Structural)]
pub enum Propagation {
    Private,
    Rprivate,
    Shared,
    Rshared,
    Slave,
    Rslave,
}

impl Default for Propagation {
    fn default() -> (value: Propagation)
        ensures
            value == Propagation::Private,
    {
        Self::Private
    }
}

} // verus!
