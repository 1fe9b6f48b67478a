use iter_protocol::host::{ConversionError, Host, HostError, HostValue, IntoHost};
use iter_protocol::outcome::{advance_to_host, next_to_host, option_to_host, IntoCallbackOutput, IterNextOutput, PyIterNextOutput};

#[test]
fn yield_returns_converted_value() {
    let mut host = Host::new();
    let r = advance_to_host(&mut host, IterNextOutput::<u32, ()>::Yield(7));
    assert_eq!(r, Some(HostValue::Int(7)));
    assert!(host.pending.is_none());
}

#[test]
fn yield_keeps_earlier_pending_error() {
    let mut host = Host::new();
    host.pending = Some(HostError::User(HostValue::Int(3)));
    let r = advance_to_host(&mut host, IterNextOutput::<bool, ()>::Yield(true));
    assert_eq!(r, Some(HostValue::Bool(true)));
    assert!(matches!(host.pending, Some(HostError::User(HostValue::Int(3)))));
}

#[test]
fn return_sets_stop_iteration_with_payload() {
    let mut host = Host::new();
    let r = advance_to_host(&mut host, IterNextOutput::<u32, i64>::Return(-4));
    assert_eq!(r, None);
    assert!(matches!(host.pending, Some(HostError::StopIteration(HostValue::Int(-4)))));
}

#[test]
fn return_without_payload_still_sets_stop_iteration() {
    let mut host = Host::new();
    let r = advance_to_host(&mut host, IterNextOutput::<u32, ()>::Return(()));
    assert_eq!(r, None);
    assert!(matches!(host.pending, Some(HostError::StopIteration(HostValue::NoneValue))));
}

#[test]
fn yield_conversion_failure_is_the_error() {
    let mut host = Host::new();
    let r = advance_to_host(&mut host, IterNextOutput::<u128, ()>::Yield(u128::MAX));
    assert_eq!(r, None);
    assert!(matches!(
        host.pending,
        Some(HostError::Conversion(ConversionError::IntegerOverflow))
    ));
}

#[test]
fn return_conversion_failure_is_the_error() {
    let mut host = Host::new();
    let r = advance_to_host(&mut host, IterNextOutput::<u32, u128>::Return(1u128 << 127));
    assert_eq!(r, None);
    assert!(matches!(
        host.pending,
        Some(HostError::Conversion(ConversionError::IntegerOverflow))
    ));
}

#[test]
fn largest_host_integer_converts() {
    assert_eq!(i128::MAX as u128, (1u128 << 127) - 1);
    assert_eq!(((1u128 << 127) - 1).into_host(), Ok(HostValue::Int(i128::MAX)));
    assert_eq!((1u128 << 127).into_host(), Err(ConversionError::IntegerOverflow));
}

#[test]
fn option_some_matches_yield() {
    let mut a = Host::new();
    let mut b = Host::new();
    let ra = option_to_host(&mut a, Some(9u64));
    let rb = advance_to_host(&mut b, IterNextOutput::<u64, ()>::Yield(9));
    assert_eq!(ra, Some(HostValue::Int(9)));
    assert_eq!(ra, rb);
    assert_eq!(format!("{:?}", a), format!("{:?}", b));
}

#[test]
fn option_none_matches_return_of_no_value() {
    let mut a = Host::new();
    let mut b = Host::new();
    let ra = option_to_host(&mut a, None::<u64>);
    let rb = advance_to_host(&mut b, IterNextOutput::<u64, HostValue>::Return(HostValue::NoneValue));
    assert_eq!(ra, None);
    assert_eq!(ra, rb);
    assert!(matches!(a.pending, Some(HostError::StopIteration(HostValue::NoneValue))));
    assert_eq!(format!("{:?}", a), format!("{:?}", b));
}

#[test]
fn user_error_passes_through() {
    let mut host = Host::new();
    let res: Result<Option<u32>, HostError> = Err(HostError::User(HostValue::Int(12)));
    let r = next_to_host(&mut host, res);
    assert_eq!(r, None);
    assert!(matches!(host.pending, Some(HostError::User(HostValue::Int(12)))));
}

#[test]
fn user_success_is_converted() {
    let mut host = Host::new();
    let res: Result<Option<u32>, HostError> = Ok(Some(5));
    assert_eq!(next_to_host(&mut host, res), Some(HostValue::Int(5)));
    assert!(host.pending.is_none());
}

#[test]
fn host_outcome_to_abi() {
    let y: PyIterNextOutput = IterNextOutput::Yield(HostValue::Object(2));
    let ry: Result<HostValue, HostError> = y.convert();
    assert!(matches!(ry, Ok(HostValue::Object(2))));
    let s: PyIterNextOutput = IterNextOutput::Return(HostValue::Bool(false));
    let rs: Result<HostValue, HostError> = s.convert();
    assert!(matches!(rs, Err(HostError::StopIteration(HostValue::Bool(false)))));
}

#[test]
fn optional_value_converts_to_none_singleton() {
    assert_eq!(None::<u32>.into_host(), Ok(HostValue::NoneValue));
    assert_eq!(Some(3usize).into_host(), Ok(HostValue::Int(3)));
    assert_eq!(().into_host(), Ok(HostValue::NoneValue));
}

#[test]
fn take_pending_empties_channel() {
    let mut host = Host::new();
    let _ = option_to_host(&mut host, None::<u32>);
    assert!(matches!(host.take_pending(), Some(HostError::StopIteration(HostValue::NoneValue))));
    assert!(host.pending.is_none());
}
