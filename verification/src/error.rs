//! Why an encode or decode attempt failed.

use vstd::prelude::*;

verus! {

/// The failures of the codec. Each one ends the operation that met it.
#[derive(Debug)]
pub enum BPErr {
    /// The operation has no wire form yet.
    NotImplementable,
    /// The format leaves this kind of value out on purpose.
    NotSpecified,
    /// A character outside the 7-bit ASCII range.
    NonAsciiChar,
    /// The byte stream could not supply or take the bytes.
    IoErr(std::io::Error),
    /// A failure raised by the side that walks the data, with its message.
    Custom(String),
    /// A boolean tag other than 0 or 1.
    NotBool,
    /// A presence tag other than 0 or 1.
    NotOption,
    /// A unit byte other than 0.
    NotUnit,
    /// Text that is not UTF-8.
    Utf8Err(core::str::Utf8Error),
    /// An integer that does not fit the width asked for.
    IntCastErr(core::num::TryFromIntError),
}

/// What a `BPErr` says, without the opaque values some variants carry.
pub enum Fault {
    /// The operation has no wire form yet.
    NotImplementable,
    /// The format leaves this kind of value out on purpose.
    NotSpecified,
    /// A character outside the 7-bit ASCII range.
    NonAsciiChar,
    /// The byte stream could not supply or take the bytes.
    Stream,
    /// A failure raised by the side that walks the data, with its message.
    Custom(Seq<char>),
    /// A boolean tag other than 0 or 1.
    NotBool,
    /// A presence tag other than 0 or 1.
    NotOption,
    /// A unit byte other than 0.
    NotUnit,
    /// Text that is not UTF-8.
    Utf8,
    /// An integer that does not fit the width asked for.
    Range,
}

impl View for BPErr {
    type V = Fault;

    open spec fn view(&self) -> Fault {
        match self {
            BPErr::NotImplementable => Fault::NotImplementable,
            BPErr::NotSpecified => Fault::NotSpecified,
            BPErr::NonAsciiChar => Fault::NonAsciiChar,
            BPErr::IoErr(_) => Fault::Stream,
            BPErr::Custom(msg) => Fault::Custom(msg@),
            BPErr::NotBool => Fault::NotBool,
            BPErr::NotOption => Fault::NotOption,
            BPErr::NotUnit => Fault::NotUnit,
            BPErr::Utf8Err(_) => Fault::Utf8,
            BPErr::IntCastErr(_) => Fault::Range,
        }
    }
}

impl BPErr {
    /// A failure of the data-model side, carrying its message.
    pub fn custom(msg: String) -> (e: BPErr)
        ensures
            e == BPErr::Custom(msg),
    {
        BPErr::Custom(msg)
    }
}

impl From<std::io::Error> for BPErr {
    fn from(value: std::io::Error) -> (e: BPErr) {
        BPErr::IoErr(value)
    }
}

impl vstd::std_specs::convert::FromSpecImpl<std::io::Error> for BPErr {
    open spec fn obeys_from_spec() -> bool {
        true
    }

    open spec fn from_spec(value: std::io::Error) -> BPErr {
        BPErr::IoErr(value)
    }
}

impl From<core::str::Utf8Error> for BPErr {
    fn from(value: core::str::Utf8Error) -> (e: BPErr) {
        BPErr::Utf8Err(value)
    }
}

impl vstd::std_specs::convert::FromSpecImpl<core::str::Utf8Error> for BPErr {
    open spec fn obeys_from_spec() -> bool {
        true
    }

    open spec fn from_spec(value: core::str::Utf8Error) -> BPErr {
        BPErr::Utf8Err(value)
    }
}

impl From<core::num::TryFromIntError> for BPErr {
    fn from(value: core::num::TryFromIntError) -> (e: BPErr) {
        BPErr::IntCastErr(value)
    }
}

impl vstd::std_specs::convert::FromSpecImpl<core::num::TryFromIntError> for BPErr {
    open spec fn obeys_from_spec() -> bool {
        true
    }

    open spec fn from_spec(value: core::num::TryFromIntError) -> BPErr {
        BPErr::IntCastErr(value)
    }
}

} // verus!
