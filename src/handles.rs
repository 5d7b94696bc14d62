use vstd::prelude::*;

verus! {

/// Open objects addressed by integer handles. Handle `h` names slot `h - 1`;
/// handles are never reused, so a stale handle is refused rather than
/// reaching another object. Zero and negative handles are never valid.
pub struct HandleTable<T> {
    slots: Vec<Option<T>>,
}

impl<T> View for HandleTable<T> {
    type V = Seq<Option<T>>;

    closed spec fn view(&self) -> Seq<Option<T>> {
        self.slots@
    }
}

/// `h` names an open object of a table whose slots are `s`.
pub open spec fn handle_is_open<T>(s: Seq<Option<T>>, h: i64) -> bool {
    1 <= h <= s.len() && s[h - 1] is Some
}

/// The largest number of objects a table ever hands out.
pub const MAX_HANDLES: usize = 0x7fff_ffff;

impl<T> HandleTable<T> {
    pub fn new() -> (r: HandleTable<T>)
        ensures
            r@ == Seq::<Option<T>>::empty(),
    {
        HandleTable { slots: Vec::new() }
    }

    /// Stores `v` and returns its handle, or gives `v` back when the table has
    /// handed out every handle it can.
    pub fn insert(&mut self, v: T) -> (r: Result<i64, T>)
        ensures
            old(self)@.len() < MAX_HANDLES ==> {
                &&& r == Ok::<i64, T>((old(self)@.len() + 1) as i64)
                &&& final(self)@ == old(self)@.push(Some(v))
            },
            old(self)@.len() >= MAX_HANDLES ==> r == Err::<i64, T>(v) && final(self)@ == old(self)@,
    {
        if self.slots.len() >= MAX_HANDLES {
            return Err(v);
        }
        self.slots.push(Some(v));
        Ok(self.slots.len() as i64)
    }

    /// Whether `h` names an open object.
    pub fn contains(&self, h: i64) -> (r: bool)
        ensures
            r == handle_is_open(self@, h),
    {
        if h < 1 || h as u64 > self.slots.len() as u64 {
            return false;
        }
        self.slots[(h - 1) as usize].is_some()
    }

    /// Takes the object that `h` names out of the table (closing it), or
    /// `None` when `h` names no open object.
    pub fn take(&mut self, h: i64) -> (r: Option<T>)
        ensures
            handle_is_open(old(self)@, h) ==> {
                &&& r == old(self)@[h - 1]
                &&& final(self)@ == old(self)@.update(h - 1, None)
            },
            !handle_is_open(old(self)@, h) ==> r is None && final(self)@ == old(self)@,
    {
        if h < 1 || h as u64 > self.slots.len() as u64 {
            return None;
        }
        let i = (h - 1) as usize;
        let mut out: Option<T> = None;
        std::mem::swap(&mut out, &mut self.slots[i]);
        out
    }

    /// Puts an object back under the handle it was taken from. Refused, and
    /// `v` given back, when `h` was never handed out or its slot is occupied.
    pub fn restore(&mut self, h: i64, v: T) -> (r: Option<T>)
        ensures
            (1 <= h <= old(self)@.len() && old(self)@[h - 1] is None) ==> {
                &&& r is None
                &&& final(self)@ == old(self)@.update(h - 1, Some(v))
            },
            !(1 <= h <= old(self)@.len() && old(self)@[h - 1] is None) ==> r == Some(v)
                && final(self)@ == old(self)@,
    {
        if h < 1 || h as u64 > self.slots.len() as u64 {
            return Some(v);
        }
        let i = (h - 1) as usize;
        if self.slots[i].is_some() {
            return Some(v);
        }
        self.slots.set(i, Some(v));
        None
    }
}

} // verus!
