//! Capability declarations for native iterator types, the slot table a type
//! registers with the host, and the trampolines the host calls through
//! those slots.
use vstd::prelude::*;
use crate::cell::{BorrowFlag, HostObject, ObjectTable, PyCell};
use crate::host::{Host, HostError, HostValue, deliver, delivered};
use crate::outcome::{IntoCallbackOutput, PyIterNextOutput, next_result, next_to_host};

verus! {

/// A native type that takes part in the host's iterator protocol. Which
/// operations it offers is declared by the capability traits below: an
/// undeclared operation has no slot and cannot be called.
pub trait PyIterProtocol: Sized {
}

/// The begin-iteration capability: the type produces the host value that
/// iterates over it.
pub trait PyIterIterProtocol: PyIterProtocol {
    type Result: IntoCallbackOutput<HostValue>;

    /// What `__iter__` returns for this state.
    spec fn iter_output(&self) -> Self::Result;

    fn __iter__(slf: &Self) -> (r: Self::Result)
        ensures
            r == slf.iter_output(),
    ;
}

/// The advance-iteration capability: the type produces the next outcome and
/// moves to its next state.
pub trait PyIterNextProtocol: PyIterProtocol {
    type Result: IntoCallbackOutput<PyIterNextOutput>;

    /// What `__next__` returns for this state.
    spec fn next_output(&self) -> Self::Result;

    /// The state after `__next__`.
    spec fn next_state(&self) -> Self;

    fn __next__(slf: &mut Self) -> (r: Self::Result)
        ensures
            r == old(slf).next_output(),
            *final(slf) == old(slf).next_state(),
    ;
}

/// The slots of the host's iterator protocol.
#[derive(PartialEq, Eq, Structural, Clone, Copy, Debug)]
pub enum SlotId {
    /// Begin iteration; served by `tp_iter`.
    TpIter,
    /// Advance iteration; served by `tp_iternext`.
    TpIterNext,
}

/// One entry of a type's slot table.
#[derive(PartialEq, Eq, Structural, Clone, Copy, Debug)]
pub struct TypeSlot {
    pub slot: SlotId,
}

/// Slot entries for the capabilities a type declares. Each is available
/// only where the type declares the capability it serves.
pub trait PyIterSlots: PyIterProtocol {
    fn get_iter() -> (r: TypeSlot)
        where
            Self: PyIterIterProtocol,
        ensures
            r.slot == SlotId::TpIter,
    {
        TypeSlot { slot: SlotId::TpIter }
    }

    fn get_iternext() -> (r: TypeSlot)
        where
            Self: PyIterNextProtocol,
        ensures
            r.slot == SlotId::TpIterNext,
    {
        TypeSlot { slot: SlotId::TpIterNext }
    }
}

/// The slots a type registers with the host, each at most once.
pub struct SlotTable {
    slots: Vec<TypeSlot>,
}

impl SlotTable {
    /// The registered slots, in order of registration.
    pub closed spec fn view(&self) -> Seq<SlotId> {
        self.slots@.map_values(|s: TypeSlot| s.slot)
    }

    /// No slot is registered twice.
    pub closed spec fn wf(&self) -> bool {
        self@.no_duplicates()
    }

    /// The table holds an entry for `id`.
    pub open spec fn declares(&self, id: SlotId) -> bool {
        self@.contains(id)
    }

    pub fn new() -> (r: SlotTable)
        ensures
            r.wf(),
            r@ == Seq::<SlotId>::empty(),
    {
        SlotTable { slots: Vec::new() }
    }

    /// The entry for `id`, if the table holds one.
    pub fn lookup(&self, id: SlotId) -> (r: Option<TypeSlot>)
        ensures
            r == (if self.declares(id) {
                Some(TypeSlot { slot: id })
            } else {
                None
            }),
    {
        let mut i: usize = 0;
        while i < self.slots.len()
            invariant
                0 <= i <= self.slots@.len(),
                forall|j: int| 0 <= j < i ==> self@[j] != id,
            decreases self.slots@.len() - i,
        {
            if self.slots[i].slot == id {
                proof {
                    assert(self@[i as int] == id);
                }
                return Some(TypeSlot { slot: id });
            }
            i = i + 1;
        }
        proof {
            if self.declares(id) {
                let k = choose|k: int| 0 <= k < self@.len() && self@[k] == id;
                assert(self@[k] == id);
            }
        }
        None
    }

    /// Adds `s` to the table; a slot that is already there stays as it is.
    pub fn register(&mut self, s: TypeSlot)
        requires
            old(self).wf(),
        ensures
            final(self).wf(),
            final(self)@ == (if old(self).declares(s.slot) {
                old(self)@
            } else {
                old(self)@.push(s.slot)
            }),
    {
        if self.lookup(s.slot).is_none() {
            self.slots.push(s);
            proof {
                assert(self@ =~= old(self)@.push(s.slot));
            }
        }
    }
}

/// What native logic did when the trampoline invoked it: it returned a
/// result, or it unwound with a message.
pub enum UserCall<R> {
    Returned(R),
    Unwound(String),
}

/// The ABI result of an advance call: an unwind is a fatal error with no
/// value; a returned result goes through the outcome conversions.
pub open spec fn next_call_result<R: IntoCallbackOutput<PyIterNextOutput>>(c: UserCall<R>) -> Result<HostValue, HostError> {
    match c {
        UserCall::Returned(r) => next_result(r),
        UserCall::Unwound(m) => Err(HostError::Fatal(m)),
    }
}

/// The ABI result of a begin call: an unwind is a fatal error with no
/// value; a returned result is converted to a host value.
pub open spec fn iter_call_result<R: IntoCallbackOutput<HostValue>>(c: UserCall<R>) -> Result<HostValue, HostError> {
    match c {
        UserCall::Returned(r) => r.callback_output(),
        UserCall::Unwound(m) => Err(HostError::Fatal(m)),
    }
}

/// The last stage of an advance call: converts what the native logic did
/// and hands it to the host.
pub fn finish_next<R: IntoCallbackOutput<PyIterNextOutput>>(host: &mut Host, call: UserCall<R>) -> (r: Option<HostValue>)
    ensures
        (*final(host), r) == delivered(*old(host), next_call_result(call)),
{
    match call {
        UserCall::Returned(res) => next_to_host(host, res),
        UserCall::Unwound(m) => deliver(host, Err(HostError::Fatal(m))),
    }
}

/// The last stage of a begin call: converts what the native logic did and
/// hands it to the host.
pub fn finish_iter<R: IntoCallbackOutput<HostValue>>(host: &mut Host, call: UserCall<R>) -> (r: Option<HostValue>)
    ensures
        (*final(host), r) == delivered(*old(host), iter_call_result(call)),
{
    match call {
        UserCall::Returned(res) => {
            let v = res.convert();
            deliver(host, v)
        },
        UserCall::Unwound(m) => deliver(host, Err(HostError::Fatal(m))),
    }
}

/// The advance slot: binds the object behind `h` exclusively, advances it,
/// closes the window and hands the outcome to the host. A failed bind is
/// the host's internal-state error and leaves the table as it was.
pub fn tp_iternext<T: PyIterNextProtocol>(objects: &mut ObjectTable<T>, host: &mut Host, h: usize) -> (r: Option<HostValue>)
    requires
        old(objects).wf(),
    ensures
        final(objects).wf(),
        match old(objects).exclusive_error(h) {
            Some(e) => {
                &&& final(objects)@ == old(objects)@
                &&& (*final(host), r) == delivered(*old(host), Err(HostError::InternalState(e)))
            },
            None => {
                &&& final(objects)@ == old(objects)@.update(
                    h as int,
                    HostObject::Native(
                        PyCell { value: old(objects).value_of(h).next_state(), flag: BorrowFlag::Unused },
                    ),
                )
                &&& (*final(host), r) == delivered(
                    *old(host),
                    next_result(old(objects).value_of(h).next_output()),
                )
            },
        },
{
    let w = match objects.try_borrow_mut(h) {
        Ok(w) => w,
        Err(e) => {
            return deliver(host, Err(HostError::InternalState(e)));
        },
    };
    let res = T::__next__(objects.value_mut(&w));
    objects.release_mut(w);
    proof {
        assert(objects@ =~= old(objects)@.update(
            h as int,
            HostObject::Native(
                PyCell { value: old(objects).value_of(h).next_state(), flag: BorrowFlag::Unused },
            ),
        ));
    }
    finish_next(host, UserCall::Returned(res))
}

/// The begin slot: binds the object behind `h` for shared access, asks it
/// for its iterator, closes the window and hands the result to the host.
/// The table is left as it was.
pub fn tp_iter<T: PyIterIterProtocol>(objects: &mut ObjectTable<T>, host: &mut Host, h: usize) -> (r: Option<HostValue>)
    requires
        old(objects).wf(),
    ensures
        final(objects).wf(),
        final(objects)@ == old(objects)@,
        match old(objects).shared_error(h) {
            Some(e) => (*final(host), r) == delivered(*old(host), Err(HostError::InternalState(e))),
            None => (*final(host), r) == delivered(
                *old(host),
                old(objects).value_of(h).iter_output().callback_output(),
            ),
        },
{
    let w = match objects.try_borrow(h) {
        Ok(w) => w,
        Err(e) => {
            return deliver(host, Err(HostError::InternalState(e)));
        },
    };
    let ghost f = old(objects).flag_of(h);
    let res = T::__iter__(objects.value(&w));
    objects.release(w);
    proof {
        assert(crate::cell::shared_after(f) is Ok);
        assert(crate::cell::shared_released(crate::cell::shared_after(f)->Ok_0) == f);
        assert(old(objects)@[h as int] == HostObject::Native(
            PyCell { value: old(objects).value_of(h), flag: f },
        ));
        assert(objects@ =~= old(objects)@);
    }
    finish_iter(host, UserCall::Returned(res))
}

/// The slot table of a type that declares only the advance capability.
pub fn advance_only_slots<T: PyIterSlots + PyIterNextProtocol>() -> (r: SlotTable)
    ensures
        r.wf(),
        r@ == seq![SlotId::TpIterNext],
{
    let mut t = SlotTable::new();
    t.register(T::get_iternext());
    t
}

/// The slot table of a type that declares both capabilities.
pub fn iterator_slots<T: PyIterSlots + PyIterIterProtocol + PyIterNextProtocol>() -> (r: SlotTable)
    ensures
        r.wf(),
        r@ == seq![SlotId::TpIter, SlotId::TpIterNext],
{
    let mut t = SlotTable::new();
    t.register(T::get_iter());
    t.register(T::get_iternext());
    t
}

/// A type that declares only the advance capability registers no begin
/// slot at all, so the host finds no entry for it.
pub proof fn law_undeclared_slot_absent(t: SlotTable)
    requires
        t@ == seq![SlotId::TpIterNext],
    ensures
        !t.declares(SlotId::TpIter),
        t.declares(SlotId::TpIterNext),
{
    assert(t@[0] == SlotId::TpIterNext);
}

/// An unwind in native logic reaches the host as a fatal error carrying its
/// message, and the call returns no value, whichever slot was called.
pub proof fn law_unwind_is_fatal<R: IntoCallbackOutput<PyIterNextOutput>, S: IntoCallbackOutput<HostValue>>(
    host: Host,
    m: String,
)
    ensures
        delivered(host, next_call_result(UserCall::<R>::Unwound(m))) == (
            Host { pending: Some(HostError::Fatal(m)) },
            None::<HostValue>,
        ),
        delivered(host, iter_call_result(UserCall::<S>::Unwound(m))) == (
            Host { pending: Some(HostError::Fatal(m)) },
            None::<HostValue>,
        ),
{
}

} // verus!
