use vstd::prelude::*;

verus! {

/// The value nested inside an [`Incremented`] event: a copy of the new count.
#[derive(Clone, Copy, Debug, PartialEq, Eq, Structural)]
pub struct InnerCounter {
    pub inner_counter: u64,
}

/// The event produced by one increment. `new_counter` is the count after the
/// increment (the field that an event log indexes), and `inner` repeats it.
#[derive(Clone, Copy, Debug, PartialEq, Eq, Structural)]
pub struct Incremented {
    pub new_counter: u64,
    pub inner: InnerCounter,
}

impl Incremented {
    /// The event reports the value `v`, both at the top and in its nested record.
    pub open spec fn reports(self, v: u64) -> bool {
        self.new_counter == v && self.inner.inner_counter == v
    }
}

/// A service that holds one 64-bit unsigned count.
#[derive(Debug)]
pub struct Counter {
    count: u64,
}

impl View for Counter {
    type V = u64;

    closed spec fn view(&self) -> u64 {
        self.count
    }
}

/// Construction from `start` succeeds, with the count equal to `start`.
pub open spec fn constructed(start: u64, r: Result<Counter, String>) -> bool {
    r is Ok && r->Ok_0@ == start
}

/// The message of the error that an increment at the largest count returns.
pub open spec fn overflow_message() -> Seq<char> {
    "counter overflow"@
}

/// One read of a counter whose count is `before`: it returns `before` and leaves
/// the count as it was.
pub open spec fn read(before: u64, r: Result<u64, String>, after: u64) -> bool {
    r is Ok && r->Ok_0 == before && after == before
}

/// One write of `v`: it succeeds and the count becomes `v`, whatever it was.
pub open spec fn written(v: u64, r: Result<(), String>, after: u64) -> bool {
    r is Ok && after == v
}

/// One increment of a counter whose count is `before`. Below the largest `u64`
/// the count grows by one and the event reports the new count. At the largest
/// `u64` the increment fails with the overflow message and nothing changes.
pub open spec fn incremented(before: u64, r: Result<Incremented, String>, after: u64) -> bool {
    if before < u64::MAX {
        after == before + 1 && r is Ok && r->Ok_0.reports(after)
    } else {
        after == before && r is Err && r->Err_0@ == overflow_message()
    }
}

impl Counter {
    /// Creates a counter whose count is `start_count`. It never fails.
    pub fn new(start_count: u64) -> (r: Result<Self, String>)
        ensures
            constructed(start_count, r),
    {
        Ok(Counter { count: start_count })
    }

    /// Returns the count. The counter is not changed.
    pub fn get_counter(&mut self) -> (r: Result<u64, String>)
        ensures
            read(old(self)@, r, final(self)@),
    {
        Ok(self.count)
    }

    /// Overwrites the count with `c`, whatever it was.
    pub fn set_counter(&mut self, c: u64) -> (r: Result<(), String>)
        ensures
            written(c, r, final(self)@),
    {
        self.count = c;
        Ok(())
    }

    /// Adds one to the count and returns the event that reports the new count,
    /// for the caller to emit. At the largest `u64` the count is left as it is,
    /// no event is produced, and the error says that the counter would overflow.
    pub fn increment_counter(&mut self) -> (r: Result<Incremented, String>)
        ensures
            incremented(old(self)@, r, final(self)@),
    {
        if self.count == u64::MAX {
            return Err("counter overflow".to_owned());
        }
        self.count = self.count + 1;
        Ok(Incremented { new_counter: self.count, inner: InnerCounter { inner_counter: self.count } })
    }
}

} // verus!
