//! The outcome of one iteration step and its conversion into the host's
//! value-or-pending-error representation.
use vstd::prelude::*;
use crate::host::{ConversionError, Host, HostError, HostValue, IntoHost, deliver, delivered};

verus! {

/// Output of an advance operation: either the next value of the iteration,
/// or the end of the iteration with a payload for the host's
/// iteration-exhausted signal.
#[derive(Debug)]
pub enum IterNextOutput<T, U> {
    Yield(T),
    Return(U),
}

/// An outcome whose value and payload are already host values.
pub type PyIterNextOutput = IterNextOutput<HostValue, HostValue>;

/// A result of native logic that can be converted to `Target`, the form the
/// next stage of a call expects.
pub trait IntoCallbackOutput<Target>: Sized {
    /// The converted value, or the host error the conversion reports.
    spec fn callback_output(self) -> Result<Target, HostError>;

    fn convert(self) -> (r: Result<Target, HostError>)
        ensures
            r == self.callback_output(),
    ;
}

/// A conversion failure as the error of a call.
pub open spec fn conversion_result(r: Result<HostValue, ConversionError>) -> Result<HostValue, HostError> {
    match r {
        Ok(v) => Ok(v),
        Err(c) => Err(HostError::Conversion(c)),
    }
}

/// A host value is returned as it is.
impl IntoCallbackOutput<HostValue> for HostValue {
    open spec fn callback_output(self) -> Result<HostValue, HostError> {
        Ok(self)
    }

    fn convert(self) -> (r: Result<HostValue, HostError>) {
        Ok(self)
    }
}

/// The ABI form of an outcome: a yielded value is the call's value; the end
/// of iteration is the iteration-exhausted error carrying the payload.
impl IntoCallbackOutput<HostValue> for PyIterNextOutput {
    open spec fn callback_output(self) -> Result<HostValue, HostError> {
        match self {
            IterNextOutput::Yield(v) => Ok(v),
            IterNextOutput::Return(p) => Err(HostError::StopIteration(p)),
        }
    }

    fn convert(self) -> (r: Result<HostValue, HostError>) {
        match self {
            IterNextOutput::Yield(v) => Ok(v),
            IterNextOutput::Return(p) => Err(HostError::StopIteration(p)),
        }
    }
}

/// Converts the value or the payload of an outcome to host values; a
/// conversion failure is the call's error.
impl<T: IntoHost, U: IntoHost> IntoCallbackOutput<PyIterNextOutput> for IterNextOutput<T, U> {
    open spec fn callback_output(self) -> Result<PyIterNextOutput, HostError> {
        match self {
            IterNextOutput::Yield(v) => match v.host_repr() {
                Ok(h) => Ok(IterNextOutput::Yield(h)),
                Err(c) => Err(HostError::Conversion(c)),
            },
            IterNextOutput::Return(p) => match p.host_repr() {
                Ok(h) => Ok(IterNextOutput::Return(h)),
                Err(c) => Err(HostError::Conversion(c)),
            },
        }
    }

    fn convert(self) -> (r: Result<PyIterNextOutput, HostError>) {
        match self {
            IterNextOutput::Yield(v) => match v.into_host() {
                Ok(h) => Ok(IterNextOutput::Yield(h)),
                Err(c) => Err(HostError::Conversion(c)),
            },
            IterNextOutput::Return(p) => match p.into_host() {
                Ok(h) => Ok(IterNextOutput::Return(h)),
                Err(c) => Err(HostError::Conversion(c)),
            },
        }
    }
}

/// A present value is yielded; absence ends the iteration with the host's
/// "no value" singleton as payload.
impl<T: IntoHost> IntoCallbackOutput<PyIterNextOutput> for Option<T> {
    open spec fn callback_output(self) -> Result<PyIterNextOutput, HostError> {
        match self {
            Some(v) => match v.host_repr() {
                Ok(h) => Ok(IterNextOutput::Yield(h)),
                Err(c) => Err(HostError::Conversion(c)),
            },
            None => Ok(IterNextOutput::Return(HostValue::NoneValue)),
        }
    }

    fn convert(self) -> (r: Result<PyIterNextOutput, HostError>) {
        match self {
            Some(v) => match v.into_host() {
                Ok(h) => Ok(IterNextOutput::Yield(h)),
                Err(c) => Err(HostError::Conversion(c)),
            },
            None => Ok(IterNextOutput::Return(HostValue::NoneValue)),
        }
    }
}

/// A failure reported by the native logic itself is passed on unchanged.
impl<R: IntoCallbackOutput<X>, X> IntoCallbackOutput<X> for Result<R, HostError> {
    open spec fn callback_output(self) -> Result<X, HostError> {
        match self {
            Ok(r) => r.callback_output(),
            Err(e) => Err(e),
        }
    }

    fn convert(self) -> (r: Result<X, HostError>) {
        match self {
            Ok(r) => r.convert(),
            Err(e) => Err(e),
        }
    }
}

/// The ABI result of an advance operation that returned `r`: its outcome,
/// then that outcome's value-or-error form.
pub open spec fn next_result<R: IntoCallbackOutput<PyIterNextOutput>>(r: R) -> Result<HostValue, HostError> {
    match r.callback_output() {
        Ok(o) => <PyIterNextOutput as IntoCallbackOutput<HostValue>>::callback_output(o),
        Err(e) => Err(e),
    }
}

/// The ABI result of an outcome, stated directly: a yielded value converts
/// to the call's value, an end converts its payload into the
/// iteration-exhausted error, and a failed conversion is the call's error.
pub open spec fn outcome_result<T: IntoHost, U: IntoHost>(out: IterNextOutput<T, U>) -> Result<HostValue, HostError> {
    match out {
        IterNextOutput::Yield(v) => conversion_result(v.host_repr()),
        IterNextOutput::Return(p) => match p.host_repr() {
            Ok(h) => Err(HostError::StopIteration(h)),
            Err(c) => Err(HostError::Conversion(c)),
        },
    }
}

/// The ABI result of an optional value: present values are yielded, absence
/// is the iteration-exhausted error with the "no value" payload.
pub open spec fn option_result<T: IntoHost>(o: Option<T>) -> Result<HostValue, HostError> {
    match o {
        Some(v) => conversion_result(v.host_repr()),
        None => Err(HostError::StopIteration(HostValue::NoneValue)),
    }
}

/// Converts whatever an advance operation returned and hands it to the host.
pub fn next_to_host<R: IntoCallbackOutput<PyIterNextOutput>>(host: &mut Host, r: R) -> (out: Option<HostValue>)
    ensures
        (*final(host), out) == delivered(*old(host), next_result(r)),
{
    let res = match r.convert() {
        Ok(o) => <PyIterNextOutput as IntoCallbackOutput<HostValue>>::convert(o),
        Err(e) => Err(e),
    };
    deliver(host, res)
}

/// Hands an outcome to the host: a yielded value is returned, an end sets
/// the iteration-exhausted error with the converted payload pending.
pub fn advance_to_host<T: IntoHost, U: IntoHost>(host: &mut Host, out: IterNextOutput<T, U>) -> (r: Option<HostValue>)
    ensures
        (*final(host), r) == delivered(*old(host), outcome_result(out)),
{
    proof {
        lemma_next_result_of_outcome(out);
    }
    next_to_host(host, out)
}

/// Hands an optional value to the host as `advance_to_host` would hand the
/// outcome it stands for.
pub fn option_to_host<T: IntoHost>(host: &mut Host, o: Option<T>) -> (r: Option<HostValue>)
    ensures
        (*final(host), r) == delivered(*old(host), option_result(o)),
{
    proof {
        lemma_next_result_of_option(o);
    }
    next_to_host(host, o)
}

/// Going through an outcome's conversions gives its ABI result.
pub proof fn lemma_next_result_of_outcome<T: IntoHost, U: IntoHost>(out: IterNextOutput<T, U>)
    ensures
        next_result(out) == outcome_result(out),
{
}

/// Going through an optional value's conversions gives its ABI result.
pub proof fn lemma_next_result_of_option<T: IntoHost>(o: Option<T>)
    ensures
        next_result(o) == option_result(o),
{
}

/// Yielding a convertible value returns that value's host form and leaves
/// the host's pending-error channel as it was.
pub proof fn law_yield_returns_value<T: IntoHost, U: IntoHost>(host: Host, v: T)
    requires
        v.host_repr() is Ok,
    ensures
        delivered(host, outcome_result(IterNextOutput::<T, U>::Yield(v))) == (host, Some(
            v.host_repr()->Ok_0,
        )),
{
}

/// Ending with a convertible payload returns no value and leaves the
/// iteration-exhausted error, built from the payload's host form, pending.
pub proof fn law_return_sets_stop<T: IntoHost, U: IntoHost>(host: Host, p: U)
    requires
        p.host_repr() is Ok,
    ensures
        delivered(host, outcome_result(IterNextOutput::<T, U>::Return(p))) == (
            Host { pending: Some(HostError::StopIteration(p.host_repr()->Ok_0)) },
            None::<HostValue>,
        ),
{
}

/// A present value has the same effect on the host as yielding it, and
/// absence the same effect as ending with the "no value" singleton.
pub proof fn law_option_matches_outcome<T: IntoHost, U: IntoHost>(host: Host, v: T)
    ensures
        delivered(host, option_result(Some(v))) == delivered(
            host,
            outcome_result(IterNextOutput::<T, U>::Yield(v)),
        ),
        delivered(host, option_result(None::<T>)) == delivered(
            host,
            outcome_result(IterNextOutput::<T, HostValue>::Return(HostValue::NoneValue)),
        ),
{
}

} // verus!
