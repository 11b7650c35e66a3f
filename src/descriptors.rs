//! The descriptor table: handles are indices into a slot array, released
//! indices are recycled through a free list, and an object may be held under
//! several handles at once.
use crate::RtFd;
use vstd::prelude::*;

verus! {

/// One slot of the table.
pub enum Slot<T> {
    /// Not in use; its index waits in the free list.
    Free,
    /// Handed out but not yet filled: every access to it fails.
    Reserved { id: u64 },
    /// Holds an object; `id` names the object, shared by every handle that aliases it.
    Live { id: u64, file: T },
}

/// What the table is, as mathematics.
pub struct TableModel<T> {
    pub slots: Seq<Slot<T>>,
    pub free: Seq<RtFd>,
    pub next_id: nat,
}

pub open spec fn slot_id<T>(s: Slot<T>) -> Option<u64> {
    match s {
        Slot::Free => None,
        Slot::Reserved { id } => Some(id),
        Slot::Live { id, .. } => Some(id),
    }
}

impl<T> TableModel<T> {
    pub open spec fn in_range(self, fd: int) -> bool {
        0 <= fd < self.slots.len()
    }

    pub open spec fn wf(self) -> bool {
        &&& self.slots.len() <= i32::MAX
        &&& self.next_id <= u64::MAX
        &&& self.free.no_duplicates()
        &&& forall|k: int|
            0 <= k < self.free.len() ==> #[trigger] self.in_range(self.free[k] as int)
                && self.slots[self.free[k] as int] is Free
        &&& forall|i: int|
            0 <= i < self.slots.len() && (#[trigger] self.slots[i]) is Free
                ==> self.free.contains(i as RtFd)
        &&& forall|i: int|
            0 <= i < self.slots.len() && (#[trigger] slot_id(self.slots[i])) is Some
                ==> slot_id(self.slots[i])->0 < self.next_id
    }

    /// The object under `fd`, if `fd` holds one.
    pub open spec fn lookup(self, fd: int) -> Option<T> {
        if self.in_range(fd) {
            match self.slots[fd] {
                Slot::Live { file, .. } => Some(file),
                _ => None,
            }
        } else {
            None
        }
    }

    /// The name of the object under `fd`, if `fd` holds one.
    pub open spec fn object(self, fd: int) -> Option<u64> {
        if self.is_live(fd) {
            slot_id(self.slots[fd])
        } else {
            None
        }
    }

    pub open spec fn is_live(self, fd: int) -> bool {
        self.in_range(fd) && self.slots[fd] is Live
    }

    /// Whether a handle can be handed out: a recycled index, or room for a
    /// new one, and an unused object name.
    pub open spec fn can_reserve(self) -> bool {
        &&& self.next_id < u64::MAX
        &&& self.free.len() > 0 || self.slots.len() < i32::MAX
    }

    /// The handle that the next reservation hands out: the most recently
    /// freed index, else a new one at the end.
    pub open spec fn next_handle(self) -> int {
        if self.free.len() > 0 {
            self.free.last() as int
        } else {
            self.slots.len() as int
        }
    }

    pub open spec fn after_reserve(self) -> TableModel<T> {
        let h = self.next_handle();
        let reserved = Slot::Reserved { id: self.next_id as u64 };
        if self.free.len() > 0 {
            TableModel {
                slots: self.slots.update(h, reserved),
                free: self.free.drop_last(),
                next_id: self.next_id + 1,
            }
        } else {
            TableModel {
                slots: self.slots.push(reserved),
                free: self.free,
                next_id: self.next_id + 1,
            }
        }
    }

    pub open spec fn is_reserved(self, fd: int) -> bool {
        self.in_range(fd) && self.slots[fd] is Reserved
    }

    /// `fd` receives `file` under the object name `id`.
    pub open spec fn after_fill(self, fd: int, id: u64, file: T) -> TableModel<T> {
        TableModel { slots: self.slots.update(fd, Slot::Live { id, file }), ..self }
    }

    /// Whether the object under `fd` is held by no other handle.
    pub open spec fn is_last(self, fd: int) -> bool {
        forall|j: int|
            0 <= j < self.slots.len() && j != fd && (#[trigger] self.slots[j]) is Live
                ==> slot_id(self.slots[j]) != slot_id(self.slots[fd])
    }

    pub open spec fn after_release(self, fd: int) -> TableModel<T> {
        if self.is_live(fd) {
            TableModel {
                slots: self.slots.update(fd, Slot::Free),
                free: self.free.push(fd as RtFd),
                next_id: self.next_id,
            }
        } else {
            self
        }
    }
}

/// An object taken out of the table by a release.
pub struct Released<T> {
    pub file: T,
    /// No other handle still holds the object: its owner may close it now.
    pub last: bool,
}

/// The handle table.
pub struct Descriptors<T> {
    slots: Vec<Slot<T>>,
    freelist: Vec<RtFd>,
    next_id: u64,
}

impl<T> View for Descriptors<T> {
    type V = TableModel<T>;

    closed spec fn view(&self) -> TableModel<T> {
        TableModel { slots: self.slots@, free: self.freelist@, next_id: self.next_id as nat }
    }
}

} // verus!

verus! {

impl<T> Descriptors<T> {
    /// An empty table.
    pub fn new() -> (r: Self)
        ensures
            r@.wf(),
            r@.slots.len() == 0,
            r@.free.len() == 0,
            r@.next_id == 0,
    {
        Descriptors { slots: Vec::new(), freelist: Vec::new(), next_id: 0 }
    }

    /// The object under `fd`; `None` for a negative, never handed out,
    /// released or still unfilled handle.
    pub fn get(&self, fd: RtFd) -> (r: Option<&T>)
        ensures
            match r {
                Some(f) => self@.lookup(fd as int) == Some(*f),
                None => self@.lookup(fd as int) is None,
            },
    {
        if fd < 0 || fd as usize >= self.slots.len() {
            return None;
        }
        match &self.slots[fd as usize] {
            Slot::Live { file, .. } => Some(file),
            _ => None,
        }
    }

    /// Reserves a handle: the most recently freed index, else a new slot at
    /// the end. The slot stays unusable until it is filled. `None` when no
    /// handle can be given out.
    pub fn get_free_fd(&mut self) -> (r: Option<RtFd>)
        requires
            old(self)@.wf(),
        ensures
            final(self)@.wf(),
            r is Some <==> old(self)@.can_reserve(),
            r is Some ==> r->0 == old(self)@.next_handle() && final(self)@ == old(self)@.after_reserve(),
            r is Some ==> final(self)@.is_reserved(r->0 as int)
                && slot_id(final(self)@.slots[r->0 as int]) == Some(old(self)@.next_id as u64),
            r is None ==> final(self)@ == old(self)@,
    {
        if self.next_id == u64::MAX {
            return None;
        }
        let id = self.next_id;
        let fd: RtFd;
        if self.freelist.len() > 0 {
            let f = self.freelist.pop().unwrap();
            proof {
                assert(self.freelist@ == old(self)@.free.drop_last());
                let o = old(self)@;
                assert(o.free[o.free.len() - 1] == f);
                assert(o.in_range(o.free[o.free.len() - 1] as int));
            }
            self.slots.set(f as usize, Slot::Reserved { id });
            fd = f;
        } else if self.slots.len() < i32::MAX as usize {
            fd = self.slots.len() as RtFd;
            self.slots.push(Slot::Reserved { id });
        } else {
            return None;
        }
        self.next_id = id + 1;
        proof {
            let m = self@;
            let o = old(self)@;
            assert(m.slots =~= o.after_reserve().slots);
            assert(m.free =~= o.after_reserve().free);
            lemma_reserve_keeps_wf(o);
        }
        Some(fd)
    }

    /// Puts `file` into the reserved slot `fd` under the object name that the
    /// reservation gave it. Fails, changing nothing, where `fd` is not reserved.
    pub fn fill(&mut self, fd: RtFd, file: T) -> (r: bool)
        requires
            old(self)@.wf(),
        ensures
            final(self)@.wf(),
            r == old(self)@.is_reserved(fd as int),
            r ==> final(self)@ == old(self)@.after_fill(
                fd as int,
                slot_id(old(self)@.slots[fd as int])->0,
                file,
            ),
            !r ==> final(self)@ == old(self)@,
    {
        if fd < 0 || fd as usize >= self.slots.len() {
            return false;
        }
        let id = match &self.slots[fd as usize] {
            Slot::Reserved { id } => *id,
            _ => { return false; },
        };
        self.fill_as(fd, id, file);
        true
    }

    fn fill_as(&mut self, fd: RtFd, id: u64, file: T)
        requires
            old(self)@.wf(),
            old(self)@.is_reserved(fd as int),
            id < old(self)@.next_id,
        ensures
            final(self)@.wf(),
            final(self)@ == old(self)@.after_fill(fd as int, id, file),
    {
        self.slots.set(fd as usize, Slot::Live { id, file });
        proof {
            let m = self@;
            let o = old(self)@;
            assert(m == o.after_fill(fd as int, id, file));
            assert forall|k: int| 0 <= k < m.free.len() implies #[trigger] m.in_range(m.free[k] as int)
                && m.slots[m.free[k] as int] is Free by {
                assert(o.in_range(o.free[k] as int));
            }
            assert forall|i: int| 0 <= i < m.slots.len() && (#[trigger] m.slots[i]) is Free
                implies m.free.contains(i as RtFd) by {
                assert(o.slots[i] is Free);
            }
            assert forall|i: int| 0 <= i < m.slots.len() && (#[trigger] slot_id(m.slots[i])) is Some
                implies slot_id(m.slots[i])->0 < m.next_id by {
                if i != fd {
                    assert(m.slots[i] == o.slots[i]);
                }
            }
        }
    }

    /// Hands out a handle and fills it with what `func` builds for it; the
    /// slot is reserved, so unusable, while `func` runs.
    pub fn insert<F: FnOnce(RtFd) -> T>(&mut self, func: F) -> (r: Option<RtFd>)
        requires
            old(self)@.wf(),
            forall|fd: RtFd| func.requires((fd,)),
        ensures
            final(self)@.wf(),
            r is Some <==> old(self)@.can_reserve(),
            r is None ==> final(self)@ == old(self)@,
            r is Some ==> r->0 == old(self)@.next_handle() && exists|f: T|
                func.ensures((r->0,), f) && final(self)@ == old(self)@.after_reserve().after_fill(
                    r->0 as int,
                    old(self)@.next_id as u64,
                    f,
                ),
    {
        match self.get_free_fd() {
            None => None,
            Some(fd) => {
                let file = func(fd);
                let id = self.next_id - 1;
                self.fill_as(fd, id, file);
                Some(fd)
            },
        }
    }

    /// Whether no handle but `fd` holds the object named `id`.
    fn held_once(&self, fd: usize, id: u64) -> (r: bool)
        requires
            fd < self@.slots.len(),
            slot_id(self@.slots[fd as int]) == Some(id),
        ensures
            r == self@.is_last(fd as int),
    {
        let mut j: usize = 0;
        while j < self.slots.len()
            invariant
                fd < self@.slots.len(),
                slot_id(self@.slots[fd as int]) == Some(id),
                j <= self.slots@.len(),
                forall|k: int|
                    0 <= k < j && k != fd && (#[trigger] self@.slots[k]) is Live
                        ==> slot_id(self@.slots[k]) != Some(id),
            decreases self.slots@.len() - j,
        {
            if j != fd {
                match &self.slots[j] {
                    Slot::Live { id: other, .. } => {
                        if *other == id {
                            assert(self@.slots[j as int] is Live);
                            return false;
                        }
                    },
                    _ => {},
                }
            }
            j = j + 1;
        }
        true
    }

    /// Takes the object out of `fd`, leaves the slot free and puts `fd` on
    /// the free list. `None`, changing nothing, where `fd` holds no object.
    pub fn pop(&mut self, fd: RtFd) -> (r: Option<Released<T>>)
        requires
            old(self)@.wf(),
        ensures
            final(self)@.wf(),
            final(self)@ == old(self)@.after_release(fd as int),
            r is Some <==> old(self)@.is_live(fd as int),
            r is Some ==> Some(r->0.file) == old(self)@.lookup(fd as int)
                && r->0.last == old(self)@.is_last(fd as int),
    {
        if fd < 0 || fd as usize >= self.slots.len() {
            return None;
        }
        let i = fd as usize;
        let id = match &self.slots[i] {
            Slot::Live { id, .. } => *id,
            _ => { return None; },
        };
        let last = self.held_once(i, id);
        let mut val = Slot::Free;
        std::mem::swap(&mut val, &mut self.slots[i]);
        self.freelist.push(fd);
        proof {
            let m = self@;
            let o = old(self)@;
            assert(m.slots =~= o.after_release(fd as int).slots);
            assert(m.free =~= o.after_release(fd as int).free);
            assert forall|k: int| 0 <= k < m.free.len() implies #[trigger] m.in_range(m.free[k] as int)
                && m.slots[m.free[k] as int] is Free by {
                if k < o.free.len() {
                    assert(o.in_range(o.free[k] as int));
                    assert(o.free[k] == m.free[k]);
                }
            }
            assert(m.free.no_duplicates()) by {
                assert forall|a: int, b: int| 0 <= a < b < m.free.len() implies m.free[a] != m.free[b] by {
                    if b == m.free.len() - 1 {
                        assert(o.in_range(o.free[a] as int));
                    } else {
                        assert(o.free[a] == m.free[a] && o.free[b] == m.free[b]);
                    }
                }
            }
            assert forall|i: int| 0 <= i < m.slots.len() && (#[trigger] m.slots[i]) is Free
                implies m.free.contains(i as RtFd) by {
                if i == fd {
                    assert(m.free[m.free.len() - 1] == fd);
                } else {
                    assert(o.slots[i] is Free);
                    assert(o.free.contains(i as RtFd));
                    let k = choose|k: int| 0 <= k < o.free.len() && o.free[k] == i as RtFd;
                    assert(m.free[k] == i as RtFd);
                }
            }
            assert forall|i: int| 0 <= i < m.slots.len() && (#[trigger] slot_id(m.slots[i])) is Some
                implies slot_id(m.slots[i])->0 < m.next_id by {
                assert(m.slots[i] == o.slots[i]);
            }
        }
        match val {
            Slot::Live { file, .. } => Some(Released { file, last }),
            _ => None,
        }
    }
}

impl<T: Clone> Descriptors<T> {
    /// A second handle for the object under `fd`, holding a clone of it under
    /// the same object name. `None`, changing nothing, where `fd` holds no
    /// object or no handle can be given out.
    pub fn duplicate(&mut self, fd: RtFd) -> (r: Option<RtFd>)
        requires
            old(self)@.wf(),
        ensures
            final(self)@.wf(),
            r is Some <==> old(self)@.is_live(fd as int) && old(self)@.can_reserve(),
            r is None ==> final(self)@ == old(self)@,
            r is Some ==> r->0 == old(self)@.next_handle() && exists|f: T|
                cloned(old(self)@.lookup(fd as int)->0, f) && final(self)@
                    == old(self)@.after_reserve().after_fill(
                    r->0 as int,
                    old(self)@.object(fd as int)->0,
                    f,
                ),
    {
        if fd < 0 || fd as usize >= self.slots.len() {
            return None;
        }
        let (id, copy) = match &self.slots[fd as usize] {
            Slot::Live { id, file } => {
                let c = file.clone();
                proof {
                    assert(cloned(*file, c));
                }
                (*id, c)
            },
            _ => { return None; },
        };
        proof {
            assert(slot_id(self@.slots[fd as int]) == Some(id));
        }
        match self.get_free_fd() {
            None => None,
            Some(h) => {
                self.fill_as(h, id, copy);
                proof {
                    assert(cloned(old(self)@.lookup(fd as int)->0, copy));
                }
                Some(h)
            },
        }
    }
}

} // verus!

verus! {

/// A handle keeps its object while other handles are reserved, filled or
/// released: only releasing that handle itself takes the object away. A
/// freshly filled handle yields what it was filled with.
pub proof fn law_lookup_until_release<T>(t: TableModel<T>, h: int, fd: int, id: u64, f: T)
    requires
        t.wf(),
        t.is_live(h),
        fd != h,
    ensures
        t.after_release(fd).lookup(h) == t.lookup(h),
        t.after_release(fd).object(h) == t.object(h),
        t.can_reserve() ==> t.after_reserve().lookup(h) == t.lookup(h)
            && t.after_reserve().object(h) == t.object(h),
        t.is_reserved(fd) ==> t.after_fill(fd, id, f).lookup(h) == t.lookup(h)
            && t.after_fill(fd, id, f).object(h) == t.object(h),
        t.can_reserve() ==> t.after_reserve().after_fill(t.next_handle(), id, f).lookup(
            t.next_handle(),
        ) == Some(f),
{
    if t.can_reserve() {
        lemma_reserve_takes_unused(t);
    }
}

proof fn lemma_reserve_takes_unused<T>(t: TableModel<T>)
    requires
        t.wf(),
        t.can_reserve(),
    ensures
        t.next_handle() == t.slots.len() || (t.in_range(t.next_handle()) && t.slots[t.next_handle()] is Free),
        t.after_reserve().is_reserved(t.next_handle()),
        forall|j: int| t.in_range(j) && j != t.next_handle() ==> t.after_reserve().slots[j] == t.slots[j],
        t.after_reserve().slots.len() == if t.free.len() > 0 { t.slots.len() } else { t.slots.len() + 1 },
        t.after_reserve().next_id == t.next_id + 1,
{
    if t.free.len() > 0 {
        assert(t.in_range(t.free[t.free.len() - 1] as int));
    }
}

proof fn lemma_reserve_keeps_wf<T>(o: TableModel<T>)
    requires
        o.wf(),
        o.can_reserve(),
    ensures
        o.after_reserve().wf(),
{
    let m = o.after_reserve();
    if o.free.len() > 0 {
        assert(o.in_range(o.free[o.free.len() - 1] as int));
    }
    assert forall|k: int| 0 <= k < m.free.len() implies #[trigger] m.in_range(m.free[k] as int)
        && m.slots[m.free[k] as int] is Free by {
        assert(o.in_range(o.free[k] as int));
        if o.free.len() > 0 {
            assert(o.free[k] == m.free[k]);
            assert(o.free[k] != o.free.last()) by {
                assert(o.free[o.free.len() - 1] == o.free.last());
            }
        } else {
            assert(o.free[k] == m.free[k]);
        }
    }
    assert forall|i: int| 0 <= i < m.slots.len() && (#[trigger] m.slots[i]) is Free
        implies m.free.contains(i as RtFd) by {
        assert(i < o.slots.len());
        assert(o.slots[i] is Free);
        assert(o.free.contains(i as RtFd));
        let k = choose|k: int| 0 <= k < o.free.len() && o.free[k] == i as RtFd;
        if o.free.len() > 0 {
            assert(k != o.free.len() - 1);
            assert(m.free[k] == i as RtFd);
        }
    }
    assert forall|i: int| 0 <= i < m.slots.len() && (#[trigger] slot_id(m.slots[i])) is Some
        implies slot_id(m.slots[i])->0 < m.next_id by {
        if i < o.slots.len() && i != o.next_handle() {
            assert(m.slots[i] == o.slots[i]);
        }
    }
}

/// Two reservations in a row never hand out the same handle, whatever is
/// filled in between.
pub proof fn law_reservations_distinct<T>(t: TableModel<T>, id: u64, f: T)
    requires
        t.wf(),
        t.can_reserve(),
    ensures
        t.after_reserve().wf(),
        t.after_reserve().can_reserve() ==> t.after_reserve().next_handle() != t.next_handle(),
        ({
            let t2 = t.after_reserve().after_fill(t.next_handle(), id, f);
            t2.can_reserve() ==> t2.next_handle() != t.next_handle()
        }),
{
    lemma_reserve_takes_unused(t);
    lemma_reserve_keeps_wf(t);
    let t1 = t.after_reserve();
    if t1.can_reserve() && t1.free.len() > 0 {
        assert(t1.in_range(t1.free[t1.free.len() - 1] as int));
    }
}

/// A released handle is the next one handed out, under a new object name:
/// the new occupant is unrelated to the old. Where the release took the
/// last handle of the object, no slot holds that object any more, and no
/// later reservation names it again.
pub proof fn law_release_then_reuse<T>(t: TableModel<T>, h: int)
    requires
        t.wf(),
        t.is_live(h),
    ensures
        ({
            let t1 = t.after_release(h);
            let old_id = t.object(h)->0;
            &&& t1.lookup(h) is None
            &&& t1.next_id < u64::MAX ==> t1.can_reserve() && t1.next_handle() == h
            &&& t1.next_id > old_id
            &&& t.is_last(h) ==> forall|j: int| #[trigger] t1.object(j) != Some(old_id)
        }),
{
    let t1 = t.after_release(h);
    assert(slot_id(t.slots[h]) is Some);
    assert(t1.free.last() == h as RtFd);
    assert forall|j: int| t.is_last(h) implies #[trigger] t1.object(j) != Some(t.object(h)->0) by {
        if t1.is_live(j) {
            assert(j != h);
            assert(t1.slots[j] == t.slots[j]);
        }
    }
}

/// A duplicate is a different handle for the same object; releasing the
/// first handle leaves the duplicate's object in place and is not the last
/// release of it. Once the duplicate goes too, the object has no handle left.
pub proof fn law_duplicate<T>(t: TableModel<T>, h: int, f: T)
    requires
        t.wf(),
        t.is_live(h),
        t.can_reserve(),
    ensures
        ({
            let h2 = t.next_handle();
            let t1 = t.after_reserve().after_fill(h2, t.object(h)->0, f);
            let t2 = t1.after_release(h);
            &&& h2 != h
            &&& t1.object(h2) == t.object(h)
            &&& t1.lookup(h2) == Some(f)
            &&& !t1.is_last(h)
            &&& t2.object(h2) == t.object(h)
            &&& t2.lookup(h2) == Some(f)
            &&& t.is_last(h) ==> t2.is_last(h2)
        }),
{
    lemma_reserve_takes_unused(t);
    let h2 = t.next_handle();
    let t1 = t.after_reserve().after_fill(h2, t.object(h)->0, f);
    let t2 = t1.after_release(h);
    assert(t1.slots[h2] is Live);
    assert(t2.slots[h2] == t1.slots[h2]);
    if t.is_last(h) {
        assert forall|j: int|
            0 <= j < t2.slots.len() && j != h2 && (#[trigger] t2.slots[j]) is Live
                implies slot_id(t2.slots[j]) != slot_id(t2.slots[h2]) by {
            assert(j != h);
            assert(t.in_range(j));
            assert(t1.slots[j] == t.slots[j]);
            assert(t2.slots[j] == t.slots[j]);
        }
    }
}

/// A handle that holds no object is reported as not found, by lookup and by
/// release alike, and a release of it changes nothing; a released handle
/// stays so until it is handed out again.
pub proof fn law_not_found<T>(t: TableModel<T>, h: int)
    requires
        t.wf(),
    ensures
        !t.is_live(h) ==> t.lookup(h) is None && t.object(h) is None && t.after_release(h) == t,
        t.is_live(h) ==> !t.after_release(h).is_live(h) && t.after_release(h).lookup(h) is None
            && t.after_release(h).after_release(h) == t.after_release(h),
{
}

} // verus!
