//! The host runtime's value model, its error kinds and its pending-error
//! channel, and the conversion of native values into host values.
use vstd::prelude::*;

verus! {

/// A value as the host runtime represents it.
#[derive(PartialEq, Eq, Structural, Clone, Copy, Debug)]
pub enum HostValue {
    /// The host's "no value" singleton.
    NoneValue,
    Bool(bool),
    Int(i128),
    /// A reference to another object the host owns, by handle.
    Object(usize),
}

/// Why a native value could not be represented as a host value.
#[derive(PartialEq, Eq, Structural, Clone, Copy, Debug)]
pub enum ConversionError {
    /// The integer lies outside the range of host integers.
    IntegerOverflow,
}

/// Why a host handle could not be bound to a native receiver.
#[derive(PartialEq, Eq, Structural, Clone, Copy, Debug)]
pub enum BindError {
    /// The handle names no object.
    NoSuchObject,
    /// The object is not of the registered native type.
    WrongType,
    /// An access window that conflicts with the requested one is open.
    AlreadyBorrowed,
    /// No further shared window can be counted on the object.
    TooManyReaders,
}

/// An exception kind the host can hold in its pending-error channel.
#[derive(Debug)]
pub enum HostError {
    /// Iteration ended; carries the payload it ended with.
    StopIteration(HostValue),
    /// The receiver could not be bound: the host's "bad internal state" error.
    InternalState(BindError),
    /// A value or payload could not be converted to a host value.
    Conversion(ConversionError),
    /// The native operation reported a failure of its own.
    User(HostValue),
    /// Native code unwound; the message describes the unwind.
    Fatal(String),
}

/// The part of the host runtime's state that an ABI call can change: the
/// pending-error channel.
#[derive(Debug)]
pub struct Host {
    pub pending: Option<HostError>,
}

impl Host {
    pub fn new() -> (r: Host)
        ensures
            r.pending is None,
    {
        Host { pending: None }
    }

    /// Removes and returns the pending error, leaving the channel empty.
    pub fn take_pending(&mut self) -> (r: Option<HostError>)
        ensures
            r == old(self).pending,
            final(self).pending is None,
    {
        let r = self.pending.take();
        r
    }
}

/// The host state and ABI result after a call produced `res`: a value is
/// returned as it is, an error is set pending and no value is returned.
pub open spec fn delivered(host: Host, res: Result<HostValue, HostError>) -> (Host, Option<HostValue>) {
    match res {
        Ok(v) => (host, Some(v)),
        Err(e) => (Host { pending: Some(e) }, None),
    }
}

/// Hands a call's result to the host: the ABI's value-or-null with the
/// pending-error channel set on null.
pub fn deliver(host: &mut Host, res: Result<HostValue, HostError>) -> (r: Option<HostValue>)
    ensures
        (*final(host), r) == delivered(*old(host), res),
{
    match res {
        Ok(v) => Some(v),
        Err(e) => {
            host.pending = Some(e);
            None
        },
    }
}

/// A native value that can be converted to the host's representation.
pub trait IntoHost: Sized {
    /// The host value this value converts to, or why it cannot.
    spec fn host_repr(self) -> Result<HostValue, ConversionError>;

    fn into_host(self) -> (r: Result<HostValue, ConversionError>)
        ensures
            r == self.host_repr(),
    ;
}

impl IntoHost for HostValue {
    open spec fn host_repr(self) -> Result<HostValue, ConversionError> {
        Ok(self)
    }

    fn into_host(self) -> (r: Result<HostValue, ConversionError>) {
        Ok(self)
    }
}

impl IntoHost for () {
    open spec fn host_repr(self) -> Result<HostValue, ConversionError> {
        Ok(HostValue::NoneValue)
    }

    fn into_host(self) -> (r: Result<HostValue, ConversionError>) {
        Ok(HostValue::NoneValue)
    }
}

impl IntoHost for bool {
    open spec fn host_repr(self) -> Result<HostValue, ConversionError> {
        Ok(HostValue::Bool(self))
    }

    fn into_host(self) -> (r: Result<HostValue, ConversionError>) {
        Ok(HostValue::Bool(self))
    }
}

impl IntoHost for u32 {
    open spec fn host_repr(self) -> Result<HostValue, ConversionError> {
        Ok(HostValue::Int(self as i128))
    }

    fn into_host(self) -> (r: Result<HostValue, ConversionError>) {
        Ok(HostValue::Int(self as i128))
    }
}

impl IntoHost for u64 {
    open spec fn host_repr(self) -> Result<HostValue, ConversionError> {
        Ok(HostValue::Int(self as i128))
    }

    fn into_host(self) -> (r: Result<HostValue, ConversionError>) {
        Ok(HostValue::Int(self as i128))
    }
}

impl IntoHost for usize {
    open spec fn host_repr(self) -> Result<HostValue, ConversionError> {
        Ok(HostValue::Int(self as i128))
    }

    fn into_host(self) -> (r: Result<HostValue, ConversionError>) {
        Ok(HostValue::Int(self as i128))
    }
}

impl IntoHost for i64 {
    open spec fn host_repr(self) -> Result<HostValue, ConversionError> {
        Ok(HostValue::Int(self as i128))
    }

    fn into_host(self) -> (r: Result<HostValue, ConversionError>) {
        Ok(HostValue::Int(self as i128))
    }
}

/// Host integers are the `i128` range: larger values do not convert.
impl IntoHost for u128 {
    open spec fn host_repr(self) -> Result<HostValue, ConversionError> {
        if self <= i128::MAX as u128 {
            Ok(HostValue::Int(self as i128))
        } else {
            Err(ConversionError::IntegerOverflow)
        }
    }

    fn into_host(self) -> (r: Result<HostValue, ConversionError>) {
        if self <= i128::MAX as u128 {
            Ok(HostValue::Int(self as i128))
        } else {
            Err(ConversionError::IntegerOverflow)
        }
    }
}

/// An absent value is the host's "no value" singleton.
impl<T: IntoHost> IntoHost for Option<T> {
    open spec fn host_repr(self) -> Result<HostValue, ConversionError> {
        match self {
            Some(v) => v.host_repr(),
            None => Ok(HostValue::NoneValue),
        }
    }

    fn into_host(self) -> (r: Result<HostValue, ConversionError>) {
        match self {
            Some(v) => v.into_host(),
            None => Ok(HostValue::NoneValue),
        }
    }
}

} // verus!
