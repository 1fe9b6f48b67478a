//! The receiver binder: host handles index a table of objects, and a native
//! object's state is reached only through a shared or exclusive access
//! window that is opened for one call and closed before it returns.
use vstd::prelude::*;
use vstd::pervasive::unreached;
use crate::host::BindError;

verus! {

/// The access windows open on a native object.
#[derive(PartialEq, Eq, Structural, Clone, Copy, Debug)]
pub enum BorrowFlag {
    Unused,
    /// The number of shared windows open.
    Shared(usize),
    Exclusive,
}

/// A native object's state together with its open access windows.
#[derive(Debug)]
pub struct PyCell<T> {
    pub value: T,
    pub flag: BorrowFlag,
}

/// An object the host owns: one of the registered native type, or one of
/// another type, known by its type tag.
#[derive(Debug)]
pub enum HostObject<T> {
    Native(PyCell<T>),
    Foreign(u64),
}

/// An open shared window on the object behind `handle`.
pub struct SharedWindow {
    handle: usize,
}

/// An open exclusive window on the object behind `handle`.
pub struct ExclusiveWindow {
    handle: usize,
}

impl SharedWindow {
    pub closed spec fn handle_of(&self) -> usize {
        self.handle
    }

    pub fn handle(&self) -> (r: usize)
        ensures
            r == self.handle_of(),
    {
        self.handle
    }
}

impl ExclusiveWindow {
    pub closed spec fn handle_of(&self) -> usize {
        self.handle
    }

    pub fn handle(&self) -> (r: usize)
        ensures
            r == self.handle_of(),
    {
        self.handle
    }
}

/// The objects the host owns, indexed by handle.
pub struct ObjectTable<T> {
    objects: Vec<HostObject<T>>,
}

impl<T> View for ObjectTable<T> {
    type V = Seq<HostObject<T>>;

    closed spec fn view(&self) -> Seq<HostObject<T>> {
        self.objects@
    }
}

/// The flag after one more shared window, if the object accepts one.
pub open spec fn shared_after(flag: BorrowFlag) -> Result<BorrowFlag, BindError> {
    match flag {
        BorrowFlag::Unused => Ok(BorrowFlag::Shared(1)),
        BorrowFlag::Shared(n) => if n < usize::MAX {
            Ok(BorrowFlag::Shared((n + 1) as usize))
        } else {
            Err(BindError::TooManyReaders)
        },
        BorrowFlag::Exclusive => Err(BindError::AlreadyBorrowed),
    }
}

/// The flag after one shared window closes.
pub open spec fn shared_released(flag: BorrowFlag) -> BorrowFlag {
    match flag {
        BorrowFlag::Shared(n) => if n <= 1 {
            BorrowFlag::Unused
        } else {
            BorrowFlag::Shared((n - 1) as usize)
        },
        _ => flag,
    }
}

impl<T> ObjectTable<T> {
    /// Every open shared window is counted: no native object has a shared
    /// flag with a count of zero.
    pub open spec fn wf(&self) -> bool {
        forall|i: int|
            0 <= i < self@.len() && #[trigger] self@[i] is Native ==> self@[i]->Native_0.flag
                != BorrowFlag::Shared(0)
    }

    /// The borrow flag of the native object behind `h`.
    pub open spec fn flag_of(&self, h: usize) -> BorrowFlag
        recommends
            self.is_native(h),
    {
        self@[h as int]->Native_0.flag
    }

    /// The state of the native object behind `h`.
    pub open spec fn value_of(&self, h: usize) -> T
        recommends
            self.is_native(h),
    {
        self@[h as int]->Native_0.value
    }

    /// `h` names an object of the registered native type.
    pub open spec fn is_native(&self, h: usize) -> bool {
        h < self@.len() && self@[h as int] is Native
    }

    /// Why `h` cannot be bound at all, whatever windows are open.
    pub open spec fn handle_error(&self, h: usize) -> Option<BindError> {
        if h >= self@.len() {
            Some(BindError::NoSuchObject)
        } else if self@[h as int] is Foreign {
            Some(BindError::WrongType)
        } else {
            None
        }
    }

    /// Why an exclusive window on `h` cannot be opened: `h` names no native
    /// object, or a window of either kind is open on it.
    pub open spec fn exclusive_error(&self, h: usize) -> Option<BindError> {
        match self.handle_error(h) {
            Some(e) => Some(e),
            None => if self.flag_of(h) != BorrowFlag::Unused {
                Some(BindError::AlreadyBorrowed)
            } else {
                None
            },
        }
    }

    /// Why a shared window on `h` cannot be opened: `h` names no native
    /// object, an exclusive window is open on it, or its count of shared
    /// windows is full.
    pub open spec fn shared_error(&self, h: usize) -> Option<BindError> {
        match self.handle_error(h) {
            Some(e) => Some(e),
            None => match shared_after(self.flag_of(h)) {
                Ok(_) => None,
                Err(e) => Some(e),
            },
        }
    }

    /// The table with the native object behind `h` given flag `f`.
    pub open spec fn with_flag(&self, h: usize, f: BorrowFlag) -> Seq<HostObject<T>>
        recommends
            self.is_native(h),
    {
        self@.update(
            h as int,
            HostObject::Native(PyCell { value: self.value_of(h), flag: f }),
        )
    }

    pub fn new() -> (r: ObjectTable<T>)
        ensures
            r.wf(),
            r@ == Seq::<HostObject<T>>::empty(),
    {
        ObjectTable { objects: Vec::new() }
    }

    /// Adds a native object with no window open and returns its handle.
    pub fn add_native(&mut self, value: T) -> (h: usize)
        requires
            old(self).wf(),
            old(self)@.len() < usize::MAX,
        ensures
            final(self).wf(),
            h == old(self)@.len(),
            final(self)@ == old(self)@.push(
                HostObject::Native(PyCell { value, flag: BorrowFlag::Unused }),
            ),
    {
        let h = self.objects.len();
        self.objects.push(HostObject::Native(PyCell { value, flag: BorrowFlag::Unused }));
        h
    }

    /// Adds an object of another type and returns its handle.
    pub fn add_foreign(&mut self, type_tag: u64) -> (h: usize)
        requires
            old(self).wf(),
            old(self)@.len() < usize::MAX,
        ensures
            final(self).wf(),
            h == old(self)@.len(),
            final(self)@ == old(self)@.push(HostObject::Foreign(type_tag)),
    {
        let h = self.objects.len();
        self.objects.push(HostObject::Foreign(type_tag));
        h
    }

    /// The borrow flag of the native object behind `h`, if there is one.
    pub fn flag(&self, h: usize) -> (r: Option<BorrowFlag>)
        ensures
            r == (if self.is_native(h) {
                Some(self.flag_of(h))
            } else {
                None
            }),
    {
        if h < self.objects.len() {
            match &self.objects[h] {
                HostObject::Native(c) => Some(c.flag),
                HostObject::Foreign(_) => None,
            }
        } else {
            None
        }
    }

    /// The state of the native object behind `h`, if there is one.
    pub fn get(&self, h: usize) -> (r: Option<&T>)
        ensures
            r == (if self.is_native(h) {
                Some(&self.value_of(h))
            } else {
                None
            }),
    {
        if h < self.objects.len() {
            match &self.objects[h] {
                HostObject::Native(c) => Some(&c.value),
                HostObject::Foreign(_) => None,
            }
        } else {
            None
        }
    }

    fn set_flag(&mut self, h: usize, f: BorrowFlag)
        requires
            old(self).is_native(h),
        ensures
            final(self)@ == old(self).with_flag(h, f),
    {
        match &mut self.objects[h] {
            HostObject::Native(c) => {
                c.flag = f;
            },
            HostObject::Foreign(_) => {},
        }
    }

    /// Opens a shared window on the object behind `h`. Fails when `h` names
    /// no native object or an exclusive window is open.
    pub fn try_borrow(&mut self, h: usize) -> (r: Result<SharedWindow, BindError>)
        requires
            old(self).wf(),
        ensures
            final(self).wf(),
            match r {
                Ok(w) => {
                    &&& old(self).shared_error(h) is None
                    &&& w.handle_of() == h
                    &&& final(self)@ == old(self).with_flag(
                        h,
                        shared_after(old(self).flag_of(h))->Ok_0,
                    )
                },
                Err(e) => {
                    &&& old(self).shared_error(h) == Some(e)
                    &&& final(self)@ == old(self)@
                },
            },
    {
        let f = match self.flag(h) {
            Some(f) => f,
            None => {
                if h < self.objects.len() {
                    return Err(BindError::WrongType);
                } else {
                    return Err(BindError::NoSuchObject);
                }
            },
        };
        let next = match f {
            BorrowFlag::Unused => BorrowFlag::Shared(1),
            BorrowFlag::Shared(n) => {
                if n < usize::MAX {
                    BorrowFlag::Shared(n + 1)
                } else {
                    return Err(BindError::TooManyReaders);
                }
            },
            BorrowFlag::Exclusive => {
                return Err(BindError::AlreadyBorrowed);
            },
        };
        self.set_flag(h, next);
        Ok(SharedWindow { handle: h })
    }

    /// Opens an exclusive window on the object behind `h`. Fails when `h`
    /// names no native object or any window is open.
    pub fn try_borrow_mut(&mut self, h: usize) -> (r: Result<ExclusiveWindow, BindError>)
        requires
            old(self).wf(),
        ensures
            final(self).wf(),
            match r {
                Ok(w) => {
                    &&& old(self).exclusive_error(h) is None
                    &&& w.handle_of() == h
                    &&& final(self)@ == old(self).with_flag(h, BorrowFlag::Exclusive)
                },
                Err(e) => {
                    &&& old(self).exclusive_error(h) == Some(e)
                    &&& final(self)@ == old(self)@
                },
            },
    {
        match self.flag(h) {
            Some(BorrowFlag::Unused) => {
                self.set_flag(h, BorrowFlag::Exclusive);
                Ok(ExclusiveWindow { handle: h })
            },
            Some(_) => Err(BindError::AlreadyBorrowed),
            None => {
                if h < self.objects.len() {
                    Err(BindError::WrongType)
                } else {
                    Err(BindError::NoSuchObject)
                }
            },
        }
    }

    /// Closes a shared window.
    pub fn release(&mut self, w: SharedWindow)
        requires
            old(self).wf(),
            old(self).is_native(w.handle_of()),
            old(self).flag_of(w.handle_of()) is Shared,
        ensures
            final(self).wf(),
            final(self)@ == old(self).with_flag(
                w.handle_of(),
                shared_released(old(self).flag_of(w.handle_of())),
            ),
    {
        let h = w.handle;
        let next = match self.flag(h) {
            Some(BorrowFlag::Shared(n)) => {
                if n <= 1 {
                    BorrowFlag::Unused
                } else {
                    BorrowFlag::Shared(n - 1)
                }
            },
            Some(f) => f,
            None => BorrowFlag::Unused,
        };
        self.set_flag(h, next);
    }

    /// Closes an exclusive window.
    pub fn release_mut(&mut self, w: ExclusiveWindow)
        requires
            old(self).wf(),
            old(self).is_native(w.handle_of()),
            old(self).flag_of(w.handle_of()) == BorrowFlag::Exclusive,
        ensures
            final(self).wf(),
            final(self)@ == old(self).with_flag(w.handle_of(), BorrowFlag::Unused),
    {
        self.set_flag(w.handle, BorrowFlag::Unused);
    }

    /// The state behind an open shared window.
    pub fn value(&self, w: &SharedWindow) -> (r: &T)
        requires
            self.is_native(w.handle_of()),
            self.flag_of(w.handle_of()) is Shared,
        ensures
            *r == self.value_of(w.handle_of()),
    {
        match &self.objects[w.handle] {
            HostObject::Native(c) => &c.value,
            HostObject::Foreign(_) => unreached(),
        }
    }

    /// The state behind an open exclusive window, for the caller to change.
    pub fn value_mut(&mut self, w: &ExclusiveWindow) -> (r: &mut T)
        requires
            old(self).is_native(w.handle_of()),
            old(self).flag_of(w.handle_of()) == BorrowFlag::Exclusive,
        ensures
            *r == old(self).value_of(w.handle_of()),
            final(self)@ == old(self)@.update(
                w.handle_of() as int,
                HostObject::Native(PyCell { value: *final(r), flag: old(self).flag_of(w.handle_of()) }),
            ),
    {
        match &mut self.objects[w.handle] {
            HostObject::Native(c) => &mut c.value,
            HostObject::Foreign(_) => unreached(),
        }
    }
}

/// While an exclusive window is open on an object, no second window of
/// either kind can be opened on it; once that window is closed the table is
/// as it was and an exclusive window can be opened again.
pub proof fn law_exclusive_window<T>(
    before: ObjectTable<T>,
    during: ObjectTable<T>,
    after: ObjectTable<T>,
    h: usize,
)
    requires
        before.wf(),
        before.exclusive_error(h) is None,
        during@ == before.with_flag(h, BorrowFlag::Exclusive),
        after@ == during.with_flag(h, BorrowFlag::Unused),
    ensures
        during.exclusive_error(h) == Some(BindError::AlreadyBorrowed),
        during.shared_error(h) == Some(BindError::AlreadyBorrowed),
        after@ == before@,
        after.exclusive_error(h) is None,
{
    assert(before@[h as int] == HostObject::Native(
        PyCell { value: before.value_of(h), flag: BorrowFlag::Unused },
    ));
    assert(after@ =~= before@);
}

/// While a shared window is open on an object, an exclusive window cannot
/// be opened on it.
pub proof fn law_shared_excludes_exclusive<T>(before: ObjectTable<T>, during: ObjectTable<T>, h: usize)
    requires
        before.wf(),
        before.shared_error(h) is None,
        during@ == before.with_flag(h, shared_after(before.flag_of(h))->Ok_0),
    ensures
        during.exclusive_error(h) == Some(BindError::AlreadyBorrowed),
{
}

} // verus!
