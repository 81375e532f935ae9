use vstd::prelude::*;

verus! {

/// Transport used by a runtime context.
#[derive(Debug, Clone, Copy, PartialEq, Eq, Structural)]
pub enum Transport {
    Unspec,
    Netlink,
}

/// Kind of runtime object a request is built on.
#[derive(Debug, Clone, Copy, PartialEq, Eq, Structural)]
pub enum ObjType {
    Unspec,
    Table,
    Extern,
}

/// Entity on whose behalf a table entry is created.
#[derive(Debug, Clone, Copy, PartialEq, Eq, Structural)]
pub enum Entity {
    Unspec,
    Kernel,
    Tc,
    Timer,
}

/// Transaction phase reported with each batch of a response.
#[derive(Debug, Clone, Copy, PartialEq, Eq, Structural)]
pub enum Phase {
    Unspec,
    Sot,
    Mot,
    Eot,
    Abt,
}

/// Table policy.
#[derive(Debug, Clone, Copy, PartialEq, Eq, Structural)]
pub enum Policy {
    Unspec,
    Basic,
}

pub open spec fn transport_code(t: Transport) -> i32 {
    match t {
        Transport::Unspec => 0,
        Transport::Netlink => 1,
    }
}

pub open spec fn obj_type_code(t: ObjType) -> i32 {
    match t {
        ObjType::Unspec => 0,
        ObjType::Table => 1,
        ObjType::Extern => 2,
    }
}

pub open spec fn entity_code(e: Entity) -> i32 {
    match e {
        Entity::Unspec => 0,
        Entity::Kernel => 1,
        Entity::Tc => 2,
        Entity::Timer => 3,
    }
}

pub open spec fn phase_code(p: Phase) -> i32 {
    match p {
        Phase::Unspec => 0,
        Phase::Sot => 1,
        Phase::Mot => 2,
        Phase::Eot => 3,
        Phase::Abt => 4,
    }
}

pub open spec fn policy_code(p: Policy) -> i32 {
    match p {
        Policy::Unspec => 0,
        Policy::Basic => 1,
    }
}

/// The phase that a numeric phase code names; unknown codes read as `Unspec`.
pub open spec fn phase_of_code(v: i32) -> Phase {
    if v == 1 {
        Phase::Sot
    } else if v == 2 {
        Phase::Mot
    } else if v == 3 {
        Phase::Eot
    } else if v == 4 {
        Phase::Abt
    } else {
        Phase::Unspec
    }
}

impl Transport {
    /// The numeric code of the transport in the control library's API.
    pub fn raw(&self) -> (r: i32)
        ensures
            r == transport_code(*self),
    {
        match self {
            Transport::Unspec => 0,
            Transport::Netlink => 1,
        }
    }
}

impl ObjType {
    /// The numeric code of the object type in the control library's API.
    pub fn raw(&self) -> (r: i32)
        ensures
            r == obj_type_code(*self),
    {
        match self {
            ObjType::Unspec => 0,
            ObjType::Table => 1,
            ObjType::Extern => 2,
        }
    }
}

impl Entity {
    /// The numeric code of the entity in the control library's API.
    pub fn raw(&self) -> (r: i32)
        ensures
            r == entity_code(*self),
    {
        match self {
            Entity::Unspec => 0,
            Entity::Kernel => 1,
            Entity::Tc => 2,
            Entity::Timer => 3,
        }
    }
}

impl Policy {
    /// The numeric code of the policy in the control library's API.
    pub fn raw(&self) -> (r: i32)
        ensures
            r == policy_code(*self),
    {
        match self {
            Policy::Unspec => 0,
            Policy::Basic => 1,
        }
    }
}

impl Phase {
    /// The numeric code of the phase in the control library's API.
    pub fn raw(&self) -> (r: i32)
        ensures
            r == phase_code(*self),
    {
        match self {
            Phase::Unspec => 0,
            Phase::Sot => 1,
            Phase::Mot => 2,
            Phase::Eot => 3,
            Phase::Abt => 4,
        }
    }

    /// Reads a phase code as the control library reports it.
    pub fn from_raw(v: i32) -> (p: Phase)
        ensures
            p == phase_of_code(v),
    {
        if v == 1 {
            Phase::Sot
        } else if v == 2 {
            Phase::Mot
        } else if v == 3 {
            Phase::Eot
        } else if v == 4 {
            Phase::Abt
        } else {
            Phase::Unspec
        }
    }

    /// Whether a response batch in this phase carries entries for the caller:
    /// only the start and the middle of a transaction do.
    pub fn carries_data(&self) -> (r: bool)
        ensures
            r <==> (*self == Phase::Sot || *self == Phase::Mot),
    {
        match self {
            Phase::Sot => true,
            Phase::Mot => true,
            _ => false,
        }
    }
}

/// Message flags of a request, as a set of bits.
#[derive(Debug, Clone, Copy, PartialEq, Eq, Structural)]
pub struct MsgFlags {
    bits: u32,
}

impl MsgFlags {
    /// The flag asking for the request to be applied at the root.
    pub fn root() -> (f: MsgFlags)
        ensures
            f.spec_bits() == 1,
    {
        MsgFlags { bits: 1 }
    }

    /// The flag asking for an acknowledgement.
    pub fn ack() -> (f: MsgFlags)
        ensures
            f.spec_bits() == 2,
    {
        MsgFlags { bits: 2 }
    }

    /// The flag asking for the request to be echoed back.
    pub fn echo() -> (f: MsgFlags)
        ensures
            f.spec_bits() == 4,
    {
        MsgFlags { bits: 4 }
    }

    pub closed spec fn spec_bits(self) -> u32 {
        self.bits
    }

    /// The set with no flag.
    pub fn empty() -> (f: MsgFlags)
        ensures
            f.spec_bits() == 0,
    {
        MsgFlags { bits: 0 }
    }

    /// The raw bits of the set.
    pub fn bits(&self) -> (b: u32)
        ensures
            b == self.spec_bits(),
    {
        self.bits
    }

    /// The set holding the flags of both operands.
    pub fn union(self, other: MsgFlags) -> (f: MsgFlags)
        ensures
            f.spec_bits() == self.spec_bits() | other.spec_bits(),
    {
        MsgFlags { bits: self.bits | other.bits }
    }

    /// Whether every flag of `other` is in the set.
    pub fn contains(&self, other: MsgFlags) -> (r: bool)
        ensures
            r == (self.spec_bits() & other.spec_bits() == other.spec_bits()),
    {
        self.bits & other.bits == other.bits
    }
}

} // verus!
