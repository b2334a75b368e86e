//! The error type shared by the validation stack, the guard and the bridge.

use vstd::prelude::*;

verus! {

/// An illegal structural call, or an illegal use of a stream.
#[derive(Clone, Copy, Debug, PartialEq, Eq, Structural)]
pub enum Violation {
    /// A stream was entered again after a failure, or while it was in use.
    Poisoned,
    /// The bridge was used with no position set or no builder in its slot.
    InvalidSerializer,
    /// The bridge's slot held a builder of the wrong kind for the call.
    InvalidSerializerValue,
    /// `begin` while a container is open.
    BeginInsideContainer,
    /// A primitive inside a container with no key, value or element announced.
    PrimitiveWithoutPosition,
    /// `map_key` when the innermost open container is not a map awaiting a key.
    MapKeyNotExpected,
    /// `map_value` when the innermost open container is not a map that just got a key.
    MapValueWithoutKey,
    /// `map_end` when the innermost open container is not a balanced map.
    MapEndNotExpected,
    /// `seq_elem` when the innermost open container is not a sequence.
    SeqElemOutsideSeq,
    /// `seq_end` when the innermost open container is not a sequence.
    SeqEndOutsideSeq,
    /// `end` while a container is open.
    EndWithOpenContainers,
}

/// The builder operation that a foreign error came out of.
#[derive(Clone, Copy, Debug, PartialEq, Eq, Structural)]
pub enum Context {
    /// Starting a sequence or a map on the root builder.
    Begin,
    /// Serializing a map key.
    MapKey,
    /// Serializing a map value.
    MapValue,
    /// Serializing a sequence element.
    SeqElem,
    /// Serializing a primitive on the root builder.
    Root,
    /// Completing a sequence.
    SeqEnd,
    /// Completing a map.
    MapEnd,
}

/// What went wrong: a structural misuse, or a failure of the foreign builder
/// together with the operation that failed.
#[derive(Clone, Debug, PartialEq, Eq)]
pub enum Error {
    Protocol(Violation),
    Foreign { context: Context, detail: String },
}

impl Violation {
    /// The text that describes the violation.
    pub open spec fn text(self) -> Seq<char> {
        match self {
            Violation::Poisoned => "attempt to use a poisoned stream"@,
            Violation::InvalidSerializer => "attempt to use an invalid serializer"@,
            Violation::InvalidSerializerValue => "invalid serializer value"@,
            Violation::BeginInsideContainer => "begin with open containers"@,
            Violation::PrimitiveWithoutPosition => "primitive without a position"@,
            Violation::MapKeyNotExpected => "map key without a map awaiting a key"@,
            Violation::MapValueWithoutKey => "map value without key"@,
            Violation::MapEndNotExpected => "map end without a balanced map"@,
            Violation::SeqElemOutsideSeq => "sequence element without a sequence"@,
            Violation::SeqEndOutsideSeq => "sequence end without a sequence"@,
            Violation::EndWithOpenContainers => "end with open containers"@,
        }
    }

    pub fn message(&self) -> (res: &'static str)
        ensures
            res@ == self.text(),
    {
        match self {
            Violation::Poisoned => "attempt to use a poisoned stream",
            Violation::InvalidSerializer => "attempt to use an invalid serializer",
            Violation::InvalidSerializerValue => "invalid serializer value",
            Violation::BeginInsideContainer => "begin with open containers",
            Violation::PrimitiveWithoutPosition => "primitive without a position",
            Violation::MapKeyNotExpected => "map key without a map awaiting a key",
            Violation::MapValueWithoutKey => "map value without key",
            Violation::MapEndNotExpected => "map end without a balanced map",
            Violation::SeqElemOutsideSeq => "sequence element without a sequence",
            Violation::SeqEndOutsideSeq => "sequence end without a sequence",
            Violation::EndWithOpenContainers => "end with open containers",
        }
    }
}

impl Context {
    /// The text that names the failed operation.
    pub open spec fn text(self) -> Seq<char> {
        match self {
            Context::Begin => "error maping serializer"@,
            Context::MapKey => "error map serializing key"@,
            Context::MapValue => "error serializing map value"@,
            Context::SeqElem => "error serializing sequence element"@,
            Context::Root => "error serializing 128bit signed integer"@,
            Context::SeqEnd => "error completing sequence"@,
            Context::MapEnd => "error completing map"@,
        }
    }

    pub fn message(&self) -> (res: &'static str)
        ensures
            res@ == self.text(),
    {
        match self {
            Context::Begin => "error maping serializer",
            Context::MapKey => "error map serializing key",
            Context::MapValue => "error serializing map value",
            Context::SeqElem => "error serializing sequence element",
            Context::Root => "error serializing 128bit signed integer",
            Context::SeqEnd => "error completing sequence",
            Context::MapEnd => "error completing map",
        }
    }
}

impl Error {
    /// The text of the error without the foreign detail.
    pub open spec fn text(self) -> Seq<char> {
        match self {
            Error::Protocol(v) => v.text(),
            Error::Foreign { context, .. } => context.text(),
        }
    }

    /// A structural error for the given violation.
    pub fn msg(violation: Violation) -> (res: Error)
        ensures
            res == Error::Protocol(violation),
    {
        Error::Protocol(violation)
    }

    /// Wraps what a foreign builder reported, with the operation that failed.
    pub fn foreign(context: Context, detail: String) -> (res: Error)
        ensures
            res == (Error::Foreign { context, detail }),
    {
        Error::Foreign { context, detail }
    }

    /// The message: the violation's text, or the failed operation's.
    pub fn message(&self) -> (res: &'static str)
        ensures
            res@ == self.text(),
    {
        match self {
            Error::Protocol(v) => v.message(),
            Error::Foreign { context, .. } => context.message(),
        }
    }

    /// What the foreign builder reported, where the error came from it.
    pub fn detail(&self) -> (res: Option<&String>)
        ensures
            match *self {
                Error::Protocol(_) => res is None,
                Error::Foreign { detail, .. } => res == Some(&detail),
            },
    {
        match self {
            Error::Protocol(_) => None,
            Error::Foreign { detail, .. } => Some(detail),
        }
    }

    /// Whether the error reports a structural misuse.
    pub fn is_protocol(&self) -> (res: bool)
        ensures
            res == (*self is Protocol),
    {
        match self {
            Error::Protocol(_) => true,
            Error::Foreign { .. } => false,
        }
    }
}

} // verus!
