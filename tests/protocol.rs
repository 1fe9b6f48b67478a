use iter_protocol::cell::{BorrowFlag, ObjectTable};
use iter_protocol::counter::{Countdown, Counter};
use iter_protocol::host::{BindError, Host, HostError, HostValue};
use iter_protocol::outcome::IterNextOutput;
use iter_protocol::protocol::{
    advance_only_slots, finish_iter, finish_next, iterator_slots, tp_iter, tp_iternext, SlotId,
    SlotTable, TypeSlot, UserCall,
};

#[test]
fn counter_end_to_end() {
    let mut objects: ObjectTable<Counter> = ObjectTable::new();
    let h = objects.add_native(Counter::new());
    let mut host = Host::new();
    for expected in 1..=5i128 {
        let r = tp_iternext(&mut objects, &mut host, h);
        assert_eq!(r, Some(HostValue::Int(expected)));
        assert!(host.pending.is_none());
    }
    let r = tp_iternext(&mut objects, &mut host, h);
    assert_eq!(r, None);
    assert!(matches!(host.take_pending(), Some(HostError::StopIteration(HostValue::NoneValue))));
    let r = tp_iternext(&mut objects, &mut host, h);
    assert_eq!(r, None);
    assert!(matches!(host.take_pending(), Some(HostError::StopIteration(HostValue::NoneValue))));
    assert_eq!(objects.get(h).map(|c| c.count), Some(5));
    assert_eq!(objects.flag(h), Some(BorrowFlag::Unused));
}

#[test]
fn counter_slot_table_has_no_begin_entry() {
    let t = advance_only_slots::<Counter>();
    assert!(t.lookup(SlotId::TpIter).is_none());
    assert_eq!(t.lookup(SlotId::TpIterNext), Some(TypeSlot { slot: SlotId::TpIterNext }));
}

#[test]
fn countdown_declares_both_slots() {
    let t = iterator_slots::<Countdown>();
    assert_eq!(t.lookup(SlotId::TpIter), Some(TypeSlot { slot: SlotId::TpIter }));
    assert_eq!(t.lookup(SlotId::TpIterNext), Some(TypeSlot { slot: SlotId::TpIterNext }));
}

#[test]
fn registering_a_slot_twice_keeps_one_entry() {
    let mut t = SlotTable::new();
    assert!(t.lookup(SlotId::TpIterNext).is_none());
    t.register(TypeSlot { slot: SlotId::TpIterNext });
    t.register(TypeSlot { slot: SlotId::TpIterNext });
    assert!(t.lookup(SlotId::TpIterNext).is_some());
    assert!(t.lookup(SlotId::TpIter).is_none());
}

#[test]
fn countdown_iter_returns_own_handle() {
    let mut objects: ObjectTable<Countdown> = ObjectTable::new();
    let h = objects.add_native(Countdown { handle: 0, remaining: 2 });
    let mut host = Host::new();
    assert_eq!(tp_iter(&mut objects, &mut host, h), Some(HostValue::Object(h)));
    assert!(host.pending.is_none());
    assert_eq!(objects.flag(h), Some(BorrowFlag::Unused));
}

#[test]
fn countdown_runs_down_then_stops() {
    let mut objects: ObjectTable<Countdown> = ObjectTable::new();
    let h = objects.add_native(Countdown { handle: 0, remaining: 2 });
    let mut host = Host::new();
    assert_eq!(tp_iternext(&mut objects, &mut host, h), Some(HostValue::Int(1)));
    assert_eq!(tp_iternext(&mut objects, &mut host, h), Some(HostValue::Int(0)));
    assert_eq!(tp_iternext(&mut objects, &mut host, h), None);
    assert!(matches!(host.pending, Some(HostError::StopIteration(HostValue::NoneValue))));
}

#[test]
fn second_exclusive_bind_fails_until_release() {
    let mut objects: ObjectTable<Counter> = ObjectTable::new();
    let h = objects.add_native(Counter::new());
    let w = objects.try_borrow_mut(h).ok().unwrap();
    assert_eq!(objects.flag(h), Some(BorrowFlag::Exclusive));
    assert!(matches!(objects.try_borrow_mut(h), Err(BindError::AlreadyBorrowed)));
    assert!(matches!(objects.try_borrow(h), Err(BindError::AlreadyBorrowed)));
    objects.release_mut(w);
    assert_eq!(objects.flag(h), Some(BorrowFlag::Unused));
    let w2 = objects.try_borrow_mut(h).ok().unwrap();
    objects.release_mut(w2);
}

#[test]
fn shared_windows_are_counted() {
    let mut objects: ObjectTable<Counter> = ObjectTable::new();
    let h = objects.add_native(Counter::new());
    let a = objects.try_borrow(h).ok().unwrap();
    let b = objects.try_borrow(h).ok().unwrap();
    assert_eq!(objects.flag(h), Some(BorrowFlag::Shared(2)));
    assert_eq!(objects.value(&a).count, 0);
    assert!(matches!(objects.try_borrow_mut(h), Err(BindError::AlreadyBorrowed)));
    objects.release(a);
    assert_eq!(objects.flag(h), Some(BorrowFlag::Shared(1)));
    objects.release(b);
    assert_eq!(objects.flag(h), Some(BorrowFlag::Unused));
}

#[test]
fn advance_during_open_window_is_internal_state_error() {
    let mut objects: ObjectTable<Counter> = ObjectTable::new();
    let h = objects.add_native(Counter::new());
    let mut host = Host::new();
    let w = objects.try_borrow(h).ok().unwrap();
    assert_eq!(tp_iternext(&mut objects, &mut host, h), None);
    assert!(matches!(
        host.pending,
        Some(HostError::InternalState(BindError::AlreadyBorrowed))
    ));
    assert_eq!(objects.get(h).map(|c| c.count), Some(0));
    objects.release(w);
}

#[test]
fn wrong_type_is_internal_state_error() {
    let mut objects: ObjectTable<Counter> = ObjectTable::new();
    let f = objects.add_foreign(42);
    let mut host = Host::new();
    assert_eq!(tp_iternext(&mut objects, &mut host, f), None);
    assert!(matches!(host.pending, Some(HostError::InternalState(BindError::WrongType))));
    assert_eq!(objects.flag(f), None);
}

#[test]
fn missing_object_is_internal_state_error() {
    let mut objects: ObjectTable<Countdown> = ObjectTable::new();
    let mut host = Host::new();
    assert_eq!(tp_iter(&mut objects, &mut host, 3), None);
    assert!(matches!(host.pending, Some(HostError::InternalState(BindError::NoSuchObject))));
}

#[test]
fn unwind_becomes_fatal_error() {
    let mut host = Host::new();
    let r = finish_next(&mut host, UserCall::<Option<u32>>::Unwound("boom".to_string()));
    assert_eq!(r, None);
    assert!(matches!(&host.pending, Some(HostError::Fatal(m)) if m == "boom"));
    let mut host = Host::new();
    let r = finish_iter(&mut host, UserCall::<HostValue>::Unwound("bad".to_string()));
    assert_eq!(r, None);
    assert!(matches!(&host.pending, Some(HostError::Fatal(m)) if m == "bad"));
}

#[test]
fn returned_call_is_converted() {
    let mut host = Host::new();
    let r = finish_next(&mut host, UserCall::Returned(IterNextOutput::<u32, ()>::Yield(8)));
    assert_eq!(r, Some(HostValue::Int(8)));
    assert!(host.pending.is_none());
}
