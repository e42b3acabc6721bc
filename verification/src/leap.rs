//! # Leap seconds — conversion context
//!
//! TAI − UTC changes whenever a leap second is inserted, so every conversion
//! that crosses UTC (or GLONASS, which follows UTC) takes an explicit
//! [`LeapSecondsProvider`] instead of global state: the table can come from
//! a receiver almanac, tests can inject what they need, and results do not
//! depend on future IERS announcements.
//!
//! | Function           | Leap-second context?     |
//! |--------------------|--------------------------|
//! | `glonass_to_utc`   | no (constant shift)      |
//! | `utc_to_glonass`   | no (constant shift)      |
//! | `gps_to_utc`       | yes                      |
//! | `utc_to_gps`       | yes                      |
//! | `gps_to_glonass`   | yes (via UTC)            |
//! | `glonass_to_gps`   | yes (via UTC)            |
//!
//! A table is a sequence of [`LeapEntry`] values sorted by threshold; the
//! offset in force at an instant is the one of the latest entry at or before
//! it ([`offset_at`]).

use vstd::prelude::*;

use crate::arith::u64_fits;
use crate::error::GnssTimeError;
use crate::epoch::days_from_civil;
use crate::scale::{Beidou, Galileo, Glonass, Gps, Tai, Utc};
use crate::time::{checked_u64, spec_convert, time_result, Time};

verus! {

broadcast use crate::time::Time::lemma_spec_new;

/// Maximum number of entries in a [`RuntimeLeapSeconds`] buffer.
pub const RUNTIME_CAPACITY: usize = 64;

/// Error returned by [`RuntimeLeapSeconds::try_extend`].
#[derive(Debug, Clone, Copy, PartialEq, Eq, Hash)]
#[non_exhaustive]
pub enum LeapExtendError {
    /// The new threshold is not strictly greater than the last one.
    NotStrictlyAscending,
    /// The new TAI − UTC value is not exactly one more than the last one.
    NonUnitIncrement,
    /// The runtime buffer is full.
    BufferFull,
}

impl LeapExtendError {
    /// Renders the error as text.
    pub fn to_string(&self) -> (r: String)
        ensures
            r@ == (match *self {
                LeapExtendError::NotStrictlyAscending =>
                    "new entry tai_nanos is not strictly greater than the last entry"@,
                LeapExtendError::NonUnitIncrement =>
                    "new entry tai_minus_utc be exactly one more tham the last entry"@,
                LeapExtendError::BufferFull =>
                    "runtime leap-second buffer is full; cannot add more entries"@,
            }),
    {
        match self {
            LeapExtendError::NotStrictlyAscending => String::from_str(
                "new entry tai_nanos is not strictly greater than the last entry",
            ),
            LeapExtendError::NonUnitIncrement => String::from_str(
                "new entry tai_minus_utc be exactly one more tham the last entry",
            ),
            LeapExtendError::BufferFull => String::from_str(
                "runtime leap-second buffer is full; cannot add more entries",
            ),
        }
    }
}

/// One leap-second table entry: from `tai_nanos` (internal TAI nanoseconds,
/// inclusive) onward, `TAI − UTC = tai_minus_utc` seconds.
#[derive(Debug, Clone, Copy, PartialEq, Eq, Hash)]
pub struct LeapEntry {
    /// Internal TAI nanoseconds (inclusive lower bound).
    pub tai_nanos: u64,
    /// TAI − UTC in whole seconds, valid from this moment onward.
    pub tai_minus_utc: i32,
}

impl LeapEntry {
    /// Creates a new leap-second entry.
    pub fn new(tai_nanos: u64, tai_minus_utc: i32) -> (r: Self)
        ensures
            r == (LeapEntry { tai_nanos, tai_minus_utc }),
    {
        LeapEntry { tai_nanos, tai_minus_utc }
    }
}

/// The thresholds of `s` are strictly increasing.
pub open spec fn strictly_ascending(s: Seq<LeapEntry>) -> bool {
    forall|i: int, j: int| 0 <= i < j < s.len() ==> s[i].tai_nanos < s[j].tai_nanos
}

/// Every entry of `s` is one second more than the one before it.
pub open spec fn unit_steps(s: Seq<LeapEntry>) -> bool {
    forall|i: int| 0 <= i < s.len() ==> #[trigger] s[i].tai_minus_utc == s[0].tai_minus_utc + i
}

/// Number of entries of `s` whose threshold is at or before `t`.
pub open spec fn count_le(s: Seq<LeapEntry>, t: int) -> nat
    decreases s.len(),
{
    if s.len() == 0 {
        0
    } else {
        count_le(s.drop_last(), t) + if s.last().tai_nanos <= t {
            1nat
        } else {
            0nat
        }
    }
}

/// TAI − UTC at TAI instant `t` according to table `s`: the value of the
/// latest entry at or before `t`; the first entry's value before the table
/// starts; 19 (the value at the GPS epoch) for an empty table.
pub open spec fn offset_at(s: Seq<LeapEntry>, t: int) -> i32 {
    if s.len() == 0 {
        19
    } else if count_le(s, t) == 0 {
        s[0].tai_minus_utc
    } else {
        s[count_le(s, t) - 1].tai_minus_utc
    }
}

/// In an ascending table, the entries at or before `t` are exactly the first
/// `count_le(s, t)` ones.
pub proof fn lemma_count_le_split(s: Seq<LeapEntry>, t: int)
    requires
        strictly_ascending(s),
    ensures
        count_le(s, t) <= s.len(),
        forall|i: int| 0 <= i < count_le(s, t) ==> #[trigger] s[i].tai_nanos <= t,
        forall|i: int| count_le(s, t) <= i < s.len() ==> #[trigger] s[i].tai_nanos > t,
    decreases s.len(),
{
    if s.len() > 0 {
        let p = s.drop_last();
        assert(strictly_ascending(p));
        lemma_count_le_split(p, t);
        if s.last().tai_nanos <= t {
            assert forall|i: int| 0 <= i < s.len() implies #[trigger] s[i].tai_nanos <= t by {
                if i < s.len() - 1 {
                    assert(s[i].tai_nanos < s[s.len() - 1].tai_nanos);
                }
            }
            if count_le(p, t) < p.len() {
                assert(p[count_le(p, t) as int].tai_nanos > t);
                assert(s[count_le(p, t) as int].tai_nanos <= t);
            }
        } else {
            assert forall|i: int| 0 <= i < count_le(s, t) implies #[trigger] s[i].tai_nanos
                <= t by {
                assert(p[i].tai_nanos <= t);
            }
            assert forall|i: int| count_le(s, t) <= i < s.len() implies #[trigger] s[i].tai_nanos
                > t by {
                if i < s.len() - 1 {
                    assert(p[i].tai_nanos > t);
                }
            }
        }
    }
}

/// The split point of an ascending table at `t` is unique.
pub proof fn lemma_count_le_unique(s: Seq<LeapEntry>, t: int, k: int)
    requires
        strictly_ascending(s),
        0 <= k <= s.len(),
        forall|i: int| 0 <= i < k ==> #[trigger] s[i].tai_nanos <= t,
        forall|i: int| k <= i < s.len() ==> #[trigger] s[i].tai_nanos > t,
    ensures
        count_le(s, t) == k,
{
    lemma_count_le_split(s, t);
    let c = count_le(s, t) as int;
    if c < k {
        assert(s[c].tai_nanos > t);
        assert(s[c].tai_nanos <= t);
    } else if c > k {
        assert(s[k].tai_nanos > t);
        assert(s[k].tai_nanos <= t);
    }
}

/// Binary search for the TAI − UTC value in force at `nanos`.
fn lookup(entries: &[LeapEntry], nanos: u64) -> (r: i32)
    requires
        strictly_ascending(entries@),
    ensures
        r == offset_at(entries@, nanos as int),
{
    if entries.len() == 0 {
        return 19;
    }
    let mut lo: usize = 0;
    let mut hi: usize = entries.len();
    while lo < hi
        invariant
            0 <= lo <= hi <= entries@.len(),
            strictly_ascending(entries@),
            forall|i: int| 0 <= i < lo ==> #[trigger] entries@[i].tai_nanos <= nanos,
            forall|i: int| hi <= i < entries@.len() ==> #[trigger] entries@[i].tai_nanos > nanos,
        decreases hi - lo,
    {
        let mid = lo + (hi - lo) / 2;
        if entries[mid].tai_nanos <= nanos {
            assert forall|i: int| 0 <= i < mid + 1 implies #[trigger] entries@[i].tai_nanos
                <= nanos by {
                if i < mid {
                    assert(entries@[i].tai_nanos < entries@[mid as int].tai_nanos);
                }
            }
            lo = mid + 1;
        } else {
            assert forall|i: int| mid <= i < entries@.len() implies #[trigger] entries@[i].tai_nanos
                > nanos by {
                if i > mid {
                    assert(entries@[mid as int].tai_nanos < entries@[i].tai_nanos);
                }
            }
            hi = mid;
        }
    }
    proof {
        lemma_count_le_unique(entries@, nanos as int, lo as int);
    }
    if lo == 0 {
        entries[0].tai_minus_utc
    } else {
        entries[lo - 1].tai_minus_utc
    }
}

/// Source of TAI − UTC corrections for conversions involving UTC and
/// GLONASS; implement it to supply a custom table (for example one read
/// from a receiver almanac).
///
/// An implementation names, in `spec_tai_minus_utc_at`, the value its
/// method answers; the conversions are proved against that function, so an
/// implementation outside this crate is trusted to answer it.
pub trait LeapSecondsProvider {
    /// TAI − UTC (seconds) that this provider reports at TAI nanoseconds
    /// `tai`.
    spec fn spec_tai_minus_utc_at(&self, tai: u64) -> i32;

    /// Returns TAI − UTC (in seconds) for the given TAI moment.
    fn tai_minus_utc_at(&self, tai: Time<Tai>) -> (r: i32)
        ensures
            r == self.spec_tai_minus_utc_at(tai@),
    ;
}

/// Static leap-second correction table over a `'static` slice of entries
/// sorted by threshold.
///
/// For times after the last entry, the last known value is returned.
pub struct LeapSeconds {
    entries: &'static [LeapEntry],
}

impl View for LeapSeconds {
    type V = Seq<LeapEntry>;

    /// The entries of the table.
    closed spec fn view(&self) -> Seq<LeapEntry> {
        self.entries@
    }
}

/// The built-in table: every TAI − UTC value in force since the GPS epoch
/// (1980-01-06, TAI − UTC = 19) through 2017-01-01 (TAI − UTC = 37), per
/// IERS Bulletin C.
pub open spec fn builtin_table() -> Seq<LeapEntry> {
    seq![
        LeapEntry { tai_nanos: 0, tai_minus_utc: 19 },
        LeapEntry { tai_nanos: 46_828_820_000_000_000, tai_minus_utc: 20 },
        LeapEntry { tai_nanos: 78_364_821_000_000_000, tai_minus_utc: 21 },
        LeapEntry { tai_nanos: 109_900_822_000_000_000, tai_minus_utc: 22 },
        LeapEntry { tai_nanos: 173_059_223_000_000_000, tai_minus_utc: 23 },
        LeapEntry { tai_nanos: 252_028_824_000_000_000, tai_minus_utc: 24 },
        LeapEntry { tai_nanos: 315_187_225_000_000_000, tai_minus_utc: 25 },
        LeapEntry { tai_nanos: 346_723_226_000_000_000, tai_minus_utc: 26 },
        LeapEntry { tai_nanos: 393_984_027_000_000_000, tai_minus_utc: 27 },
        LeapEntry { tai_nanos: 425_520_028_000_000_000, tai_minus_utc: 28 },
        LeapEntry { tai_nanos: 457_056_029_000_000_000, tai_minus_utc: 29 },
        LeapEntry { tai_nanos: 504_489_630_000_000_000, tai_minus_utc: 30 },
        LeapEntry { tai_nanos: 551_750_431_000_000_000, tai_minus_utc: 31 },
        LeapEntry { tai_nanos: 599_184_032_000_000_000, tai_minus_utc: 32 },
        LeapEntry { tai_nanos: 820_108_833_000_000_000, tai_minus_utc: 33 },
        LeapEntry { tai_nanos: 914_803_234_000_000_000, tai_minus_utc: 34 },
        LeapEntry { tai_nanos: 1_025_136_035_000_000_000, tai_minus_utc: 35 },
        LeapEntry { tai_nanos: 1_119_744_036_000_000_000, tai_minus_utc: 36 },
        LeapEntry { tai_nanos: 1_167_264_037_000_000_000, tai_minus_utc: 37 },
    ]
}

/// The built-in table is sorted, steps by one second per entry, and its
/// entries are far apart (more than a year).
pub proof fn lemma_builtin_ascending()
    ensures
        strictly_ascending(builtin_table()),
        unit_steps(builtin_table()),
        builtin_table().len() == 19,
        builtin_table()[0] == (LeapEntry { tai_nanos: 0, tai_minus_utc: 19 }),
        forall|i: int|
            0 <= i < builtin_table().len() - 1 ==> #[trigger] builtin_table()[i].tai_nanos
                + 31_000_000_000_000_000 < builtin_table()[i + 1].tai_nanos,
{
    let s = builtin_table();
    assert forall|i: int|
        0 <= i < s.len() - 1 implies #[trigger] s[i].tai_nanos + 31_000_000_000_000_000
        < s[i + 1].tai_nanos by {
    }
    assert forall|i: int, j: int| 0 <= i < j < s.len() implies s[i].tai_nanos
        < s[j].tai_nanos by {
    }
}

impl LeapSeconds {
    #[verifier::type_invariant]
    spec fn wf(self) -> bool {
        strictly_ascending(self.entries@)
    }

    /// Built-in table valid through 2017-01-01 (19 entries, TAI − UTC from
    /// 19 to 37).
    pub fn builtin() -> (r: &'static LeapSeconds)
        ensures
            r@ == builtin_table(),
    {
        let r: &'static LeapSeconds = &LeapSeconds {
            entries: &[
                LeapEntry { tai_nanos: 0, tai_minus_utc: 19 },
                LeapEntry { tai_nanos: 46_828_820_000_000_000, tai_minus_utc: 20 },
                LeapEntry { tai_nanos: 78_364_821_000_000_000, tai_minus_utc: 21 },
                LeapEntry { tai_nanos: 109_900_822_000_000_000, tai_minus_utc: 22 },
                LeapEntry { tai_nanos: 173_059_223_000_000_000, tai_minus_utc: 23 },
                LeapEntry { tai_nanos: 252_028_824_000_000_000, tai_minus_utc: 24 },
                LeapEntry { tai_nanos: 315_187_225_000_000_000, tai_minus_utc: 25 },
                LeapEntry { tai_nanos: 346_723_226_000_000_000, tai_minus_utc: 26 },
                LeapEntry { tai_nanos: 393_984_027_000_000_000, tai_minus_utc: 27 },
                LeapEntry { tai_nanos: 425_520_028_000_000_000, tai_minus_utc: 28 },
                LeapEntry { tai_nanos: 457_056_029_000_000_000, tai_minus_utc: 29 },
                LeapEntry { tai_nanos: 504_489_630_000_000_000, tai_minus_utc: 30 },
                LeapEntry { tai_nanos: 551_750_431_000_000_000, tai_minus_utc: 31 },
                LeapEntry { tai_nanos: 599_184_032_000_000_000, tai_minus_utc: 32 },
                LeapEntry { tai_nanos: 820_108_833_000_000_000, tai_minus_utc: 33 },
                LeapEntry { tai_nanos: 914_803_234_000_000_000, tai_minus_utc: 34 },
                LeapEntry { tai_nanos: 1_025_136_035_000_000_000, tai_minus_utc: 35 },
                LeapEntry { tai_nanos: 1_119_744_036_000_000_000, tai_minus_utc: 36 },
                LeapEntry { tai_nanos: 1_167_264_037_000_000_000, tai_minus_utc: 37 },
            ],
        };
        r
    }

    /// Creates a table from a static slice sorted by `tai_nanos` in strictly
    /// ascending order (same as [`LeapSeconds::from_table`]).
    pub fn from_slice(entries: &'static [LeapEntry]) -> (r: Self)
        requires
            strictly_ascending(entries@),
        ensures
            r@ == entries@,
    {
        LeapSeconds { entries }
    }

    /// Creates a table from a static slice sorted by `tai_nanos` in strictly
    /// ascending order.
    pub fn from_table(entries: &'static [LeapEntry]) -> (r: Self)
        requires
            strictly_ascending(entries@),
        ensures
            r@ == entries@,
    {
        LeapSeconds { entries }
    }

    /// Number of entries.
    pub fn len(&self) -> (r: usize)
        ensures
            r == self@.len(),
    {
        self.entries.len()
    }

    /// `true` if the table has no entries.
    pub fn is_empty(&self) -> (r: bool)
        ensures
            r == (self@.len() == 0),
    {
        self.entries.len() == 0
    }

    /// All table entries.
    pub fn entries(&self) -> (r: &[LeapEntry])
        ensures
            r@ == self@,
    {
        self.entries
    }

    /// TAI timestamp of the most recent leap-second event; `None` when the
    /// table holds at most the base entry.
    pub fn last_update(&self) -> (r: Option<Time<Tai>>)
        ensures
            r == last_update_of(self@),
    {
        if self.entries.len() <= 1 {
            return None;
        }
        let t = Time::<Tai>::from_nanos(self.entries[self.entries.len() - 1].tai_nanos);
        proof {
            Time::lemma_ext(t, Time::<Tai>::spec_new(self@.last().tai_nanos));
        }
        Some(t)
    }

    /// The current TAI − UTC value (that of the last entry), or 19 for an
    /// empty table.
    pub fn current_tai_minus_utc(&self) -> (r: i32)
        ensures
            r == current_of(self@),
    {
        if self.entries.len() == 0 {
            return 19;
        }
        self.entries[self.entries.len() - 1].tai_minus_utc
    }
}

/// The most recent event of table `s`: the last threshold, when there is
/// more than the base entry.
pub open spec fn last_update_of(s: Seq<LeapEntry>) -> Option<Time<Tai>> {
    if s.len() <= 1 {
        None
    } else {
        Some(Time::<Tai>::spec_new(s.last().tai_nanos))
    }
}

/// The value of the last entry of `s`, or 19 for an empty table.
pub open spec fn current_of(s: Seq<LeapEntry>) -> i32 {
    if s.len() == 0 {
        19
    } else {
        s.last().tai_minus_utc
    }
}

impl LeapSecondsProvider for LeapSeconds {
    open spec fn spec_tai_minus_utc_at(&self, tai: u64) -> i32 {
        offset_at(self@, tai as int)
    }

    fn tai_minus_utc_at(&self, tai: Time<Tai>) -> (r: i32) {
        proof {
            use_type_invariant(self);
        }
        lookup(self.entries, tai.as_nanos())
    }
}

/// What [`RuntimeLeapSeconds::try_extend`] answers for appending `entry` to
/// table `s`.
pub open spec fn extend_outcome(s: Seq<LeapEntry>, entry: LeapEntry) -> Result<(), LeapExtendError> {
    if s.len() >= RUNTIME_CAPACITY {
        Err(LeapExtendError::BufferFull)
    } else if s.len() > 0 && entry.tai_nanos <= s.last().tai_nanos {
        Err(LeapExtendError::NotStrictlyAscending)
    } else if s.len() > 0 && entry.tai_minus_utc != s.last().tai_minus_utc + 1 {
        Err(LeapExtendError::NonUnitIncrement)
    } else {
        Ok(())
    }
}

/// A heap-free, fixed-capacity leap-second table for embedded and receiver
/// use; holds up to [`RUNTIME_CAPACITY`] entries sorted by threshold.
#[derive(Debug)]
pub struct RuntimeLeapSeconds {
    buf: [LeapEntry; RUNTIME_CAPACITY],
    len: usize,
}

impl View for RuntimeLeapSeconds {
    type V = Seq<LeapEntry>;

    /// The live entries of the table.
    closed spec fn view(&self) -> Seq<LeapEntry> {
        self.buf@.subrange(0, self.len as int)
    }
}

impl RuntimeLeapSeconds {
    #[verifier::type_invariant]
    spec fn wf(self) -> bool {
        &&& self.len <= RUNTIME_CAPACITY
        &&& strictly_ascending(self.buf@.subrange(0, self.len as int))
    }

    /// Creates an empty runtime table.
    pub fn new() -> (r: Self)
        ensures
            r@ == Seq::<LeapEntry>::empty(),
    {
        let r = RuntimeLeapSeconds {
            buf: [LeapEntry { tai_nanos: 0, tai_minus_utc: 0 }; 64],
            len: 0,
        };
        assert(r@ =~= Seq::<LeapEntry>::empty());
        r
    }

    /// Copies an ascending table of at most [`RUNTIME_CAPACITY`] entries.
    fn copy_of(entries: &[LeapEntry]) -> (r: Self)
        requires
            strictly_ascending(entries@),
            entries@.len() <= RUNTIME_CAPACITY,
        ensures
            r@ == entries@,
    {
        let mut buf: [LeapEntry; 64] = [LeapEntry { tai_nanos: 0, tai_minus_utc: 0 }; 64];
        let n = entries.len();
        let mut i: usize = 0;
        while i < n
            invariant
                n == entries@.len(),
                n <= 64,
                i <= n,
                buf@.len() == 64,
                buf@.subrange(0, i as int) == entries@.subrange(0, i as int),
            decreases n - i,
        {
            buf[i] = entries[i];
            i = i + 1;
            assert(buf@.subrange(0, i as int) =~= entries@.subrange(0, i as int));
        }
        assert(entries@.subrange(0, n as int) =~= entries@);
        RuntimeLeapSeconds { buf, len: n }
    }

    /// Creates a runtime table holding the built-in table.
    pub fn from_builtin() -> (r: Self)
        ensures
            r@ == builtin_table(),
    {
        let b = LeapSeconds::builtin();
        proof {
            lemma_builtin_ascending();
        }
        Self::copy_of(b.entries())
    }

    /// Creates a runtime table from entries sorted by threshold;
    /// [`LeapExtendError::BufferFull`] if there are more than
    /// [`RUNTIME_CAPACITY`].
    pub fn from_slice(entries: &[LeapEntry]) -> (r: Result<Self, LeapExtendError>)
        requires
            strictly_ascending(entries@),
        ensures
            entries@.len() > RUNTIME_CAPACITY ==> r == Err::<Self, LeapExtendError>(
                LeapExtendError::BufferFull,
            ),
            entries@.len() <= RUNTIME_CAPACITY ==> r is Ok && r->Ok_0@ == entries@,
    {
        if entries.len() > RUNTIME_CAPACITY {
            return Err(LeapExtendError::BufferFull);
        }
        Ok(Self::copy_of(entries))
    }

    /// Appends a new leap-second event.
    ///
    /// The entry must have a threshold strictly after the last one and a
    /// value exactly one more; otherwise [`LeapExtendError::NotStrictlyAscending`]
    /// or [`LeapExtendError::NonUnitIncrement`]. A full buffer gives
    /// [`LeapExtendError::BufferFull`]. Only internal consistency is checked.
    pub fn try_extend(&mut self, entry: LeapEntry) -> (r: Result<(), LeapExtendError>)
        ensures
            r == extend_outcome(old(self)@, entry),
            r is Ok ==> final(self)@ == old(self)@.push(entry),
            r is Err ==> final(self)@ == old(self)@,
    {
        proof {
            use_type_invariant(&*self);
        }
        let len = self.len;
        if len >= RUNTIME_CAPACITY {
            return Err(LeapExtendError::BufferFull);
        }
        if len > 0 {
            let last = self.buf[len - 1];
            assert(last == old(self)@.last());
            if entry.tai_nanos <= last.tai_nanos {
                return Err(LeapExtendError::NotStrictlyAscending);
            }
            if entry.tai_minus_utc as i64 != last.tai_minus_utc as i64 + 1 {
                return Err(LeapExtendError::NonUnitIncrement);
            }
        }
        let mut buf = self.buf;
        buf[len] = entry;
        proof {
            let s = buf@.subrange(0, len + 1);
            assert(s =~= old(self)@.push(entry));
            assert forall|i: int, j: int| 0 <= i < j < s.len() implies s[i].tai_nanos
                < s[j].tai_nanos by {
                if j == len {
                    if i < len - 1 {
                        assert(old(self)@[i].tai_nanos < old(self)@[len - 1].tai_nanos);
                    }
                } else {
                    assert(old(self)@[i].tai_nanos < old(self)@[j].tai_nanos);
                }
            }
        }
        *self = RuntimeLeapSeconds { buf, len: len + 1 };
        Ok(())
    }

    /// Number of entries.
    pub fn len(&self) -> (r: usize)
        ensures
            r == self@.len(),
    {
        proof {
            use_type_invariant(self);
        }
        self.len
    }

    /// `true` if the table has no entries.
    pub fn is_empty(&self) -> (r: bool)
        ensures
            r == (self@.len() == 0),
    {
        proof {
            use_type_invariant(self);
        }
        self.len == 0
    }

    /// All live entries.
    pub fn entries(&self) -> (r: &[LeapEntry])
        ensures
            r@ == self@,
    {
        proof {
            use_type_invariant(self);
        }
        vstd::slice::slice_subrange(self.buf.as_slice(), 0, self.len)
    }

    /// TAI timestamp of the most recent event; `None` for a table of at most
    /// one entry.
    pub fn last_update(&self) -> (r: Option<Time<Tai>>)
        ensures
            r == last_update_of(self@),
    {
        proof {
            use_type_invariant(self);
        }
        if self.len <= 1 {
            return None;
        }
        let t = Time::<Tai>::from_nanos(self.buf[self.len - 1].tai_nanos);
        proof {
            Time::lemma_ext(t, Time::<Tai>::spec_new(self@.last().tai_nanos));
        }
        Some(t)
    }

    /// The current TAI − UTC value (that of the last entry), or 19 for an
    /// empty table.
    pub fn current_tai_minus_utc(&self) -> (r: i32)
        ensures
            r == current_of(self@),
    {
        proof {
            use_type_invariant(self);
        }
        if self.len == 0 {
            return 19;
        }
        self.buf[self.len - 1].tai_minus_utc
    }
}

impl Default for RuntimeLeapSeconds {
    /// An empty table.
    fn default() -> (r: Self)
        ensures
            r@ == Seq::<LeapEntry>::empty(),
    {
        RuntimeLeapSeconds::new()
    }
}

impl LeapSecondsProvider for RuntimeLeapSeconds {
    open spec fn spec_tai_minus_utc_at(&self, tai: u64) -> i32 {
        offset_at(self@, tai as int)
    }

    fn tai_minus_utc_at(&self, tai: Time<Tai>) -> (r: i32) {
        proof {
            use_type_invariant(self);
        }
        lookup(self.entries(), tai.as_nanos())
    }
}

impl<P: LeapSecondsProvider> LeapSecondsProvider for &P {
    open spec fn spec_tai_minus_utc_at(&self, tai: u64) -> i32 {
        (**self).spec_tai_minus_utc_at(tai)
    }

    fn tai_minus_utc_at(&self, tai: Time<Tai>) -> (r: i32) {
        (**self).tai_minus_utc_at(tai)
    }
}


// ---------------------------------------------------------------------------
// Conversions
// ---------------------------------------------------------------------------

/// Nanoseconds from the UTC epoch (1972-01-01) to the GLONASS epoch
/// (1995-12-31 21:00:00 UTC): `UTC_nanos = GLO_nanos + this`.
pub const GLONASS_FROM_UTC_EPOCH_NS: i64 = 757_371_600_000_000_000;

/// Nanoseconds from the UTC epoch (1972-01-01) to the GPS epoch
/// (1980-01-06).
pub const UTC_TO_GPS_EPOCH_NS: i64 = 252_892_800_000_000_000;

/// The two epoch shifts are the calendar distances they name: GLONASS
/// counts from 1996-01-01 in UTC+3 h, GPS from 1980-01-06.
pub proof fn lemma_epoch_shifts()
    ensures
        757_371_600_000_000_000 == (days_from_civil(1996, 1, 1) - days_from_civil(1972, 1, 1))
            * 86_400_000_000_000 - 3 * 3_600_000_000_000,
        252_892_800_000_000_000 == (days_from_civil(1980, 1, 6) - days_from_civil(1972, 1, 1))
            * 86_400_000_000_000,
{
}

/// The TAI − UTC function of a provider.
pub open spec fn offsets_of<P: LeapSecondsProvider>(ls: &P) -> spec_fn(u64) -> i32 {
    |t: u64| ls.spec_tai_minus_utc_at(t)
}

/// The TAI − UTC function of table `s`.
pub open spec fn table_offsets(s: Seq<LeapEntry>) -> spec_fn(u64) -> i32 {
    |t: u64| offset_at(s, t as int)
}

/// GPS nanoseconds `g` fall in a leap-second window: TAI − UTC differs
/// between the TAI instant of `g` and one second earlier.
pub open spec fn in_leap_window(f: spec_fn(u64) -> i32, g: int) -> bool {
    let tai = g + 19_000_000_000;
    let prev = if tai >= 1_000_000_000 {
        tai - 1_000_000_000
    } else {
        tai
    };
    f(tai as u64) != f(prev as u64)
}

/// A static table answers the offsets of its entries.
pub proof fn lemma_static_table_offsets(ls: &LeapSeconds)
    ensures
        offsets_of(ls) == table_offsets(ls@),
{
    assert(offsets_of(ls) =~= table_offsets(ls@));
}

/// A runtime table answers the offsets of its entries.
pub proof fn lemma_runtime_table_offsets(ls: &RuntimeLeapSeconds)
    ensures
        offsets_of(ls) == table_offsets(ls@),
{
    assert(offsets_of(ls) =~= table_offsets(ls@));
}

/// Chains a fallible step after a fallible result.
pub open spec fn and_then(r: Result<u64, GnssTimeError>, f: spec_fn(u64) -> Result<u64, GnssTimeError>) -> Result<u64, GnssTimeError> {
    match r {
        Ok(v) => f(v),
        Err(e) => Err(e),
    }
}

/// UTC nanoseconds of GLONASS nanoseconds `n` (a constant epoch shift).
pub open spec fn spec_glonass_to_utc(n: int) -> Result<u64, GnssTimeError> {
    checked_u64(n + 757_371_600_000_000_000)
}

/// GLONASS nanoseconds of UTC nanoseconds `n` (a constant epoch shift).
pub open spec fn spec_utc_to_glonass(n: int) -> Result<u64, GnssTimeError> {
    checked_u64(n - 757_371_600_000_000_000)
}

/// UTC nanoseconds of GPS nanoseconds `g`:
/// `UTC = GPS − (TAI−UTC − 19) s + 2927 days`, TAI − UTC taken at the TAI
/// instant of `g`.
pub open spec fn spec_gps_to_utc(f: spec_fn(u64) -> i32, g: int) -> Result<u64, GnssTimeError> {
    and_then(
        checked_u64(g + 19_000_000_000),
        |tai: u64|
            checked_u64(
                g - (f(tai) - 19) * 1_000_000_000
                    + 252_892_800_000_000_000,
            ),
    )
}

/// `x` when it fits into `u64`, else `fallback`.
pub open spec fn u64_or(x: int, fallback: u64) -> u64 {
    if u64_fits(x) {
        x as u64
    } else {
        fallback
    }
}

/// First estimate of the TAI instant of UTC nanoseconds `u` (TAI − UTC
/// taken as 19 s), clamped to the TAI epoch.
pub open spec fn utc_tai_first(u: int) -> u64 {
    u64_or(u - 252_892_800_000_000_000 + 19_000_000_000, 0)
}

/// Refined TAI instant of UTC nanoseconds `u`, using the offset at the first
/// estimate.
pub open spec fn utc_tai_second(f: spec_fn(u64) -> i32, u: int) -> u64 {
    u64_or(
        u - 252_892_800_000_000_000 + f(utc_tai_first(u))
            * 1_000_000_000,
        utc_tai_first(u),
    )
}

/// GPS nanoseconds of UTC nanoseconds `u`:
/// `GPS = UTC + (TAI−UTC − 19) s − 2927 days`, TAI − UTC taken at the
/// refined TAI instant of `u`.
pub open spec fn spec_utc_to_gps(f: spec_fn(u64) -> i32, u: int) -> Result<u64, GnssTimeError> {
    checked_u64(
        u + (f(utc_tai_second(f, u)) - 19) * 1_000_000_000
            - 252_892_800_000_000_000,
    )
}

/// Converts GLONASS -> UTC (a constant epoch shift; GLONASS follows UTC
/// including leap seconds). [`GnssTimeError::Overflow`] if the result does
/// not fit.
pub fn glonass_to_utc(glo: Time<Glonass>) -> (r: Result<Time<Utc>, GnssTimeError>)
    ensures
        time_result(r) == spec_glonass_to_utc(glo@ as int),
{
    let utc_ns = (glo.as_nanos() as i128) + (GLONASS_FROM_UTC_EPOCH_NS as i128);
    if utc_ns < 0 || utc_ns > u64::MAX as i128 {
        return Err(GnssTimeError::Overflow);
    }
    Ok(Time::<Utc>::from_nanos(utc_ns as u64))
}

/// Converts UTC -> GLONASS (a constant epoch shift).
/// [`GnssTimeError::Overflow`] before the GLONASS epoch.
pub fn utc_to_glonass(utc: Time<Utc>) -> (r: Result<Time<Glonass>, GnssTimeError>)
    ensures
        time_result(r) == spec_utc_to_glonass(utc@ as int),
{
    let glo_ns = (utc.as_nanos() as i128) - (GLONASS_FROM_UTC_EPOCH_NS as i128);
    if glo_ns < 0 || glo_ns > u64::MAX as i128 {
        return Err(GnssTimeError::Overflow);
    }
    Ok(Time::<Glonass>::from_nanos(glo_ns as u64))
}

/// Converts GPS -> UTC with the TAI − UTC offset from `ls`.
/// [`GnssTimeError::Overflow`] if the result does not fit into `u64`.
pub fn gps_to_utc<P: LeapSecondsProvider>(gps: Time<Gps>, ls: &P) -> (r: Result<
    Time<Utc>,
    GnssTimeError,
>)
    ensures
        time_result(r) == spec_gps_to_utc(offsets_of(ls), gps@ as int),
{
    let tai = match gps.to_tai() {
        Ok(t) => t,
        Err(e) => return Err(e),
    };
    let n = ls.tai_minus_utc_at(tai);
    let utc_ns = (gps.as_nanos() as i128) - ((n as i128 - 19) * 1_000_000_000)
        + (UTC_TO_GPS_EPOCH_NS as i128);
    if utc_ns < 0 || utc_ns > u64::MAX as i128 {
        return Err(GnssTimeError::Overflow);
    }
    Ok(Time::<Utc>::from_nanos(utc_ns as u64))
}

/// Converts UTC -> GPS with the TAI − UTC offset from `ls`, in two passes
/// so that the offset is looked up at the right side of a leap second.
/// [`GnssTimeError::Overflow`] if the result does not fit (before the GPS
/// epoch).
pub fn utc_to_gps<P: LeapSecondsProvider>(utc: Time<Utc>, ls: &P) -> (r: Result<
    Time<Gps>,
    GnssTimeError,
>)
    ensures
        time_result(r) == spec_utc_to_gps(offsets_of(ls), utc@ as int),
{
    let approx_tai_ns = (utc.as_nanos() as i128) - (UTC_TO_GPS_EPOCH_NS as i128)
        + 19_000_000_000i128;
    let tai1 = if approx_tai_ns >= 0 && approx_tai_ns <= u64::MAX as i128 {
        Time::<Tai>::from_nanos(approx_tai_ns as u64)
    } else {
        Time::<Tai>::epoch()
    };
    let n1 = ls.tai_minus_utc_at(tai1);
    let refined_tai_ns = (utc.as_nanos() as i128) - (UTC_TO_GPS_EPOCH_NS as i128) + (n1 as i128
        * 1_000_000_000);
    let tai2 = if refined_tai_ns >= 0 && refined_tai_ns <= u64::MAX as i128 {
        Time::<Tai>::from_nanos(refined_tai_ns as u64)
    } else {
        tai1
    };
    let n = ls.tai_minus_utc_at(tai2);
    let gps_ns = (utc.as_nanos() as i128) + ((n as i128 - 19) * 1_000_000_000) - (
    UTC_TO_GPS_EPOCH_NS as i128);
    if gps_ns < 0 || gps_ns > u64::MAX as i128 {
        return Err(GnssTimeError::Overflow);
    }
    Ok(Time::<Gps>::from_nanos(gps_ns as u64))
}


/// Converts GLONASS -> GPS via UTC (needs leap-second context).
pub fn glonass_to_gps<P: LeapSecondsProvider>(glo: Time<Glonass>, ls: &P) -> (r: Result<
    Time<Gps>,
    GnssTimeError,
>)
    ensures
        time_result(r) == and_then(
            spec_glonass_to_utc(glo@ as int),
            |u: u64| spec_utc_to_gps(offsets_of(ls), u as int),
        ),
{
    match glonass_to_utc(glo) {
        Ok(utc) => utc_to_gps(utc, ls),
        Err(e) => Err(e),
    }
}

/// Converts GLONASS -> Galileo via UTC (needs leap-second context).
pub fn glonass_to_galileo<P: LeapSecondsProvider>(glo: Time<Glonass>, ls: &P) -> (r: Result<
    Time<Galileo>,
    GnssTimeError,
>)
    ensures
        time_result(r) == and_then(
            spec_glonass_to_utc(glo@ as int),
            |u: u64| spec_utc_to_galileo(offsets_of(ls), u as int),
        ),
{
    match glonass_to_utc(glo) {
        Ok(utc) => utc_to_galileo(utc, ls),
        Err(e) => Err(e),
    }
}

/// Converts GLONASS -> BeiDou via UTC (needs leap-second context).
pub fn glonass_to_beidou<P: LeapSecondsProvider>(glo: Time<Glonass>, ls: &P) -> (r: Result<
    Time<Beidou>,
    GnssTimeError,
>)
    ensures
        time_result(r) == and_then(
            spec_glonass_to_utc(glo@ as int),
            |u: u64| spec_utc_to_beidou(offsets_of(ls), u as int),
        ),
{
    match glonass_to_utc(glo) {
        Ok(utc) => utc_to_beidou(utc, ls),
        Err(e) => Err(e),
    }
}

/// Converts GPS -> GLONASS via UTC (needs leap-second context).
pub fn gps_to_glonass<P: LeapSecondsProvider>(gps: Time<Gps>, ls: &P) -> (r: Result<
    Time<Glonass>,
    GnssTimeError,
>)
    ensures
        time_result(r) == and_then(
            spec_gps_to_utc(offsets_of(ls), gps@ as int),
            |u: u64| spec_utc_to_glonass(u as int),
        ),
{
    match gps_to_utc(gps, ls) {
        Ok(utc) => utc_to_glonass(utc),
        Err(e) => Err(e),
    }
}

/// Galileo -> UTC (needs leap-second context); Galileo shares GPS's TAI
/// offset, so this goes through GPS.
pub fn galileo_to_utc<P: LeapSecondsProvider>(gal: Time<Galileo>, ls: &P) -> (r: Result<
    Time<Utc>,
    GnssTimeError,
>)
    ensures
        time_result(r) == and_then(
            spec_convert::<Galileo, Gps>(gal@ as int),
            |g: u64| spec_gps_to_utc(offsets_of(ls), g as int),
        ),
{
    match gal.try_convert::<Gps>() {
        Ok(gps) => gps_to_utc(gps, ls),
        Err(e) => Err(e),
    }
}

/// Galileo -> GLONASS via UTC (needs leap-second context).
pub fn galileo_to_glonass<P: LeapSecondsProvider>(gal: Time<Galileo>, ls: &P) -> (r: Result<
    Time<Glonass>,
    GnssTimeError,
>)
    ensures
        time_result(r) == and_then(
            spec_galileo_to_utc(offsets_of(ls), gal@ as int),
            |u: u64| spec_utc_to_glonass(u as int),
        ),
{
    match galileo_to_utc(gal, ls) {
        Ok(utc) => utc_to_glonass(utc),
        Err(e) => Err(e),
    }
}

/// BeiDou -> UTC (needs leap-second context), through GPS
/// (BDT = GPS − 14 s).
pub fn beidou_to_utc<P: LeapSecondsProvider>(bdt: Time<Beidou>, ls: &P) -> (r: Result<
    Time<Utc>,
    GnssTimeError,
>)
    ensures
        time_result(r) == and_then(
            spec_convert::<Beidou, Gps>(bdt@ as int),
            |g: u64| spec_gps_to_utc(offsets_of(ls), g as int),
        ),
{
    match bdt.try_convert::<Gps>() {
        Ok(gps) => gps_to_utc(gps, ls),
        Err(e) => Err(e),
    }
}

/// BeiDou -> GLONASS via UTC (needs leap-second context).
pub fn beidou_to_glonass<P: LeapSecondsProvider>(bdt: Time<Beidou>, ls: &P) -> (r: Result<
    Time<Glonass>,
    GnssTimeError,
>)
    ensures
        time_result(r) == and_then(
            spec_beidou_to_utc(offsets_of(ls), bdt@ as int),
            |u: u64| spec_utc_to_glonass(u as int),
        ),
{
    match beidou_to_utc(bdt, ls) {
        Ok(utc) => utc_to_glonass(utc),
        Err(e) => Err(e),
    }
}

/// Converts UTC -> Galileo (needs leap-second context).
pub fn utc_to_galileo<P: LeapSecondsProvider>(utc: Time<Utc>, ls: &P) -> (r: Result<
    Time<Galileo>,
    GnssTimeError,
>)
    ensures
        time_result(r) == spec_utc_to_galileo(offsets_of(ls), utc@ as int),
{
    match utc_to_gps(utc, ls) {
        Ok(gps) => gps.try_convert::<Galileo>(),
        Err(e) => Err(e),
    }
}

/// Converts UTC -> BeiDou (needs leap-second context).
pub fn utc_to_beidou<P: LeapSecondsProvider>(utc: Time<Utc>, ls: &P) -> (r: Result<
    Time<Beidou>,
    GnssTimeError,
>)
    ensures
        time_result(r) == spec_utc_to_beidou(offsets_of(ls), utc@ as int),
{
    match utc_to_gps(utc, ls) {
        Ok(gps) => gps.try_convert::<Beidou>(),
        Err(e) => Err(e),
    }
}

/// Galileo nanoseconds of UTC nanoseconds `u`, via GPS.
pub open spec fn spec_utc_to_galileo(f: spec_fn(u64) -> i32, u: int) -> Result<u64, GnssTimeError> {
    and_then(spec_utc_to_gps(f, u), |g: u64| spec_convert::<Gps, Galileo>(g as int))
}

/// BeiDou nanoseconds of UTC nanoseconds `u`, via GPS.
pub open spec fn spec_utc_to_beidou(f: spec_fn(u64) -> i32, u: int) -> Result<u64, GnssTimeError> {
    and_then(spec_utc_to_gps(f, u), |g: u64| spec_convert::<Gps, Beidou>(g as int))
}

/// UTC nanoseconds of Galileo nanoseconds `n`, via GPS.
pub open spec fn spec_galileo_to_utc(f: spec_fn(u64) -> i32, n: int) -> Result<u64, GnssTimeError> {
    and_then(spec_convert::<Galileo, Gps>(n), |g: u64| spec_gps_to_utc(f, g as int))
}

/// UTC nanoseconds of BeiDou nanoseconds `n`, via GPS.
pub open spec fn spec_beidou_to_utc(f: spec_fn(u64) -> i32, n: int) -> Result<u64, GnssTimeError> {
    and_then(spec_convert::<Beidou, Gps>(n), |g: u64| spec_gps_to_utc(f, g as int))
}

impl Time<Gps> {
    /// GPS time of a Unix timestamp (seconds since 1970-01-01 UTC), through
    /// UTC with the offsets of `ls`.
    pub fn from_unix_seconds<P: LeapSecondsProvider>(unix_seconds: i64, ls: P) -> (r: Result<
        Self,
        GnssTimeError,
    >)
        ensures
            time_result(r) == and_then(
                checked_u64((unix_seconds - 63_072_000) * 1_000_000_000),
                |u: u64| spec_utc_to_gps(offsets_of(&ls), u as int),
            ),
    {
        match Time::<Utc>::from_unix_seconds(unix_seconds) {
            Ok(utc) => utc_to_gps(utc, &ls),
            Err(e) => Err(e),
        }
    }

    /// This GPS timestamp as whole seconds since 1970-01-01 UTC, through UTC
    /// with the offsets of `ls`.
    pub fn as_unix_seconds<P: LeapSecondsProvider>(self, ls: P) -> (r: Result<i64, GnssTimeError>)
        ensures
            r == (match spec_gps_to_utc(offsets_of(&ls), self@ as int) {
                Ok(u) => Ok((u / 1_000_000_000 + 63_072_000) as i64),
                Err(e) => Err(e),
            }),
    {
        match gps_to_utc(self, &ls) {
            Ok(utc) => Ok(utc.as_unix_seconds()),
            Err(e) => Err(e),
        }
    }

    /// GPS -> UTC with the built-in table.
    pub fn to_utc(self) -> (r: Result<Time<Utc>, GnssTimeError>)
        ensures
            time_result(r) == spec_gps_to_utc(table_offsets(builtin_table()), self@ as int),
    {
        let b = LeapSeconds::builtin();
        assert(offsets_of(b) =~= table_offsets(builtin_table()));
        gps_to_utc(self, b)
    }

    /// GPS -> UTC with a custom provider.
    pub fn to_utc_with<P: LeapSecondsProvider>(self, ls: &P) -> (r: Result<Time<Utc>, GnssTimeError>)
        ensures
            time_result(r) == spec_gps_to_utc(offsets_of(ls), self@ as int),
    {
        gps_to_utc(self, ls)
    }
}

impl Time<Utc> {
    /// UTC -> GPS with the built-in table.
    pub fn to_gps(self) -> (r: Result<Time<Gps>, GnssTimeError>)
        ensures
            time_result(r) == spec_utc_to_gps(table_offsets(builtin_table()), self@ as int),
    {
        let b = LeapSeconds::builtin();
        assert(offsets_of(b) =~= table_offsets(builtin_table()));
        utc_to_gps(self, b)
    }

    /// UTC -> GPS with a custom provider.
    pub fn to_gps_with<P: LeapSecondsProvider>(self, ls: &P) -> (r: Result<Time<Gps>, GnssTimeError>)
        ensures
            time_result(r) == spec_utc_to_gps(offsets_of(ls), self@ as int),
    {
        utc_to_gps(self, ls)
    }
}


// ---------------------------------------------------------------------------
// Laws of leap-second tables and the GPS ↔ UTC conversion
// ---------------------------------------------------------------------------

/// Entries `i` and `i + 1` of `s` are at least `g` nanoseconds apart.
pub open spec fn gap_ok(s: Seq<LeapEntry>, i: int, g: int) -> bool {
    s[i].tai_nanos + g <= s[i + 1].tai_nanos
}

/// Consecutive thresholds of `s` are at least `g` nanoseconds apart.
pub open spec fn min_gap(s: Seq<LeapEntry>, g: int) -> bool {
    forall|i: int| 0 <= i < s.len() - 1 ==> #[trigger] gap_ok(s, i, g)
}

/// A table like the built-in one: sorted, one second per step, starting at
/// the GPS epoch with TAI − UTC = 19, with consecutive thresholds further
/// apart than the largest GPS − UTC difference it contains.
pub open spec fn gps_era_table(s: Seq<LeapEntry>) -> bool {
    &&& strictly_ascending(s)
    &&& unit_steps(s)
    &&& s.len() >= 1
    &&& s[0] == (LeapEntry { tai_nanos: 0, tai_minus_utc: 19 })
    &&& min_gap(s, (s.len() - 1) * 1_000_000_000 + 1)
}

/// More of the table lies at or before a later instant.
proof fn lemma_count_le_mono(s: Seq<LeapEntry>, t1: int, t2: int)
    requires
        t1 <= t2,
    ensures
        count_le(s, t1) <= count_le(s, t2),
    decreases s.len(),
{
    if s.len() > 0 {
        lemma_count_le_mono(s.drop_last(), t1, t2);
    }
}

/// Within less than the minimum gap, at most one more entry comes into
/// force.
proof fn lemma_count_le_close(s: Seq<LeapEntry>, t1: int, t2: int, g: int)
    requires
        strictly_ascending(s),
        min_gap(s, g),
        t1 <= t2 < t1 + g,
    ensures
        count_le(s, t1) <= count_le(s, t2) <= count_le(s, t1) + 1,
{
    lemma_count_le_mono(s, t1, t2);
    lemma_count_le_split(s, t1);
    lemma_count_le_split(s, t2);
    let c1 = count_le(s, t1) as int;
    if count_le(s, t2) > c1 + 1 {
        assert(s[c1].tai_nanos > t1);
        assert(s[c1 + 1].tai_nanos <= t2);
        assert(gap_ok(s, c1, g));
    }
}

/// In a table with one-second steps, the offset is the first value plus the
/// number of steps in force.
proof fn lemma_offset_by_count(s: Seq<LeapEntry>, t: int)
    requires
        strictly_ascending(s),
        unit_steps(s),
        s.len() >= 1,
    ensures
        offset_at(s, t) == s[0].tai_minus_utc + (if count_le(s, t) == 0 {
            0
        } else {
            count_le(s, t) - 1
        }),
{
    lemma_count_le_split(s, t);
    if count_le(s, t) > 0 {
        assert(s[count_le(s, t) - 1].tai_minus_utc == s[0].tai_minus_utc + count_le(s, t) - 1);
    }
}

/// In a GPS-era table every instant has the base entry in force, and
/// TAI − UTC is 18 plus the number of entries in force.
proof fn lemma_gps_era_offset(s: Seq<LeapEntry>, t: int)
    requires
        gps_era_table(s),
        t >= 0,
    ensures
        count_le(s, t) >= 1,
        offset_at(s, t) == 18 + count_le(s, t),
{
    lemma_count_le_split(s, t);
    if count_le(s, t) == 0 {
        assert(s[0].tai_nanos > t);
    }
    lemma_offset_by_count(s, t);
}

/// The thresholds of a GPS-era table grow at least as fast as the gap.
proof fn lemma_gps_era_threshold(s: Seq<LeapEntry>, j: int)
    requires
        gps_era_table(s),
        0 <= j < s.len(),
    ensures
        s[j].tai_nanos >= j * ((s.len() - 1) * 1_000_000_000 + 1),
    decreases j,
{
    let g = (s.len() - 1) * 1_000_000_000 + 1;
    if j > 0 {
        lemma_gps_era_threshold(s, j - 1);
        assert(gap_ok(s, j - 1, g));
        assert(j * g == (j - 1) * g + g) by (nonlinear_arith);
    } else {
        assert(j * g == 0) by (nonlinear_arith)
            requires
                j == 0,
        ;
    }
}

/// TAI − UTC never decreases as TAI advances, in a table with one-second
/// steps.
pub proof fn lemma_offset_monotone(s: Seq<LeapEntry>, t1: int, t2: int)
    requires
        strictly_ascending(s),
        unit_steps(s),
        t1 <= t2,
    ensures
        offset_at(s, t1) <= offset_at(s, t2),
{
    if s.len() > 0 {
        lemma_count_le_mono(s, t1, t2);
        lemma_offset_by_count(s, t1);
        lemma_offset_by_count(s, t2);
    }
}

/// TAI − UTC rises by at most one second over any interval shorter than the
/// smallest distance between two entries.
pub proof fn lemma_offset_step_at_most_one(s: Seq<LeapEntry>, t1: int, t2: int, g: int)
    requires
        strictly_ascending(s),
        unit_steps(s),
        min_gap(s, g),
        t1 <= t2 < t1 + g,
    ensures
        offset_at(s, t2) - offset_at(s, t1) <= 1,
{
    if s.len() > 0 {
        lemma_count_le_close(s, t1, t2, g);
        lemma_offset_by_count(s, t1);
        lemma_offset_by_count(s, t2);
    }
}

/// The offset at any instant is one of the table's values (19 for an empty
/// table).
pub proof fn lemma_offset_from_table(s: Seq<LeapEntry>, t: int)
    ensures
        s.len() == 0 ==> offset_at(s, t) == 19,
        s.len() > 0 ==> exists|i: int| 0 <= i < s.len() && offset_at(s, t) == #[trigger] s[i].tai_minus_utc,
{
    if s.len() > 0 {
        if count_le(s, t) == 0 {
            assert(offset_at(s, t) == s[0].tai_minus_utc);
        } else {
            lemma_count_le_bound(s, t);
            assert(offset_at(s, t) == s[count_le(s, t) - 1].tai_minus_utc);
        }
    }
}

/// At most all entries are in force.
proof fn lemma_count_le_bound(s: Seq<LeapEntry>, t: int)
    ensures
        count_le(s, t) <= s.len(),
    decreases s.len(),
{
    if s.len() > 0 {
        lemma_count_le_bound(s.drop_last(), t);
    }
}

/// Appending an entry that [`RuntimeLeapSeconds::try_extend`] accepts keeps
/// a table sorted and stepping by one second.
pub proof fn lemma_extend_keeps_table(s: Seq<LeapEntry>, entry: LeapEntry)
    requires
        extend_outcome(s, entry) is Ok,
    ensures
        strictly_ascending(s) ==> strictly_ascending(s.push(entry)),
        unit_steps(s) ==> unit_steps(s.push(entry)),
        s.push(entry).len() <= RUNTIME_CAPACITY,
{
    let t = s.push(entry);
    if strictly_ascending(s) {
        assert forall|i: int, j: int| 0 <= i < j < t.len() implies t[i].tai_nanos
            < t[j].tai_nanos by {
            if j == s.len() && i < s.len() - 1 {
                assert(s[i].tai_nanos < s[s.len() - 1].tai_nanos);
            }
        }
    }
    if unit_steps(s) {
        assert forall|i: int| 0 <= i < t.len() implies #[trigger] t[i].tai_minus_utc
            == t[0].tai_minus_utc + i by {
            if i == s.len() && s.len() > 0 {
                assert(s[s.len() - 1].tai_minus_utc == s[0].tai_minus_utc + s.len() - 1);
            }
        }
    }
}

/// GPS → UTC → GPS gives the instant back, except inside a leap-second
/// window, where it gives the instant one second earlier.
pub proof fn lemma_gps_utc_gps(s: Seq<LeapEntry>, g: u64)
    requires
        gps_era_table(s),
        spec_gps_to_utc(table_offsets(s), g as int) is Ok,
    ensures
        spec_utc_to_gps(table_offsets(s), spec_gps_to_utc(table_offsets(s), g as int)->Ok_0 as int)
            == checked_u64(g - (if in_leap_window(table_offsets(s), g as int) {
            1_000_000_000int
        } else {
            0
        })),
{
    let f = table_offsets(s);
    let k = (s.len() - 1) * 1_000_000_000;
    let tt = g + 19_000_000_000;
    let e = 252_892_800_000_000_000int;
    lemma_gps_era_offset(s, tt);
    let c = count_le(s, tt) as int;
    let j = c - 1;
    let u = spec_gps_to_utc(f, g as int)->Ok_0 as int;
    assert(u == g - j * 1_000_000_000 + e);
    lemma_count_le_bound(s, tt);
    lemma_count_le_split(s, tt);
    lemma_gps_era_threshold(s, j);
    assert(j * (k + 1) >= j * 1_000_000_000) by (nonlinear_arith)
        requires
            0 <= j <= s.len() - 1,
            k == (s.len() - 1) * 1_000_000_000,
    ;
    let a1 = tt - j * 1_000_000_000;
    assert(a1 >= 0);
    assert(a1 + j * 1_000_000_000 < a1 + k + 1) by (nonlinear_arith)
        requires
            0 <= j <= s.len() - 1,
            k == (s.len() - 1) * 1_000_000_000,
    ;
    assert(utc_tai_first(u) == a1);
    lemma_count_le_close(s, a1, tt, k + 1);
    lemma_gps_era_offset(s, a1);
    lemma_gps_era_offset(s, tt - 1_000_000_000);
    lemma_count_le_mono(s, tt - 1_000_000_000, tt);
    if j >= 1 {
        lemma_count_le_mono(s, a1, tt - 1_000_000_000);
    }
    assert(f(a1 as u64) == 18 + count_le(s, a1));
    assert(f(tt as u64) == 18 + c);
    assert(f((tt - 1_000_000_000) as u64) == 18 + count_le(s, tt - 1_000_000_000));
    if count_le(s, a1) == c {
        assert(utc_tai_second(f, u) == tt);
    } else {
        assert(utc_tai_second(f, u) == tt - 1_000_000_000);
    }
}

/// UTC → GPS → UTC gives the instant back, for every UTC instant from the
/// GPS epoch on that stays clear of the top of the range.
pub proof fn lemma_utc_gps_utc(s: Seq<LeapEntry>, u: u64)
    requires
        gps_era_table(s),
        u >= 252_892_800_000_000_000,
        u - 252_892_800_000_000_000 + 19_000_000_000 + (s.len() - 1) * 1_000_000_000 <= u64::MAX,
    ensures
        spec_utc_to_gps(table_offsets(s), u as int) is Ok,
        spec_gps_to_utc(table_offsets(s), spec_utc_to_gps(table_offsets(s), u as int)->Ok_0 as int)
            == Ok::<u64, GnssTimeError>(u),
{
    let f = table_offsets(s);
    let k = (s.len() - 1) * 1_000_000_000;
    let e = 252_892_800_000_000_000int;
    let a1 = u - e + 19_000_000_000;
    assert(utc_tai_first(u as int) == a1);
    lemma_gps_era_offset(s, a1);
    lemma_count_le_bound(s, a1);
    let c1 = count_le(s, a1) as int;
    assert(f(a1 as u64) == 18 + c1);
    let a2 = a1 + (c1 - 1) * 1_000_000_000;
    assert((c1 - 1) * 1_000_000_000 <= k) by (nonlinear_arith)
        requires
            1 <= c1 <= s.len(),
            k == (s.len() - 1) * 1_000_000_000,
    ;
    assert(utc_tai_second(f, u as int) == a2);
    lemma_count_le_close(s, a1, a2, k + 1);
    lemma_gps_era_offset(s, a2);
    let c2 = count_le(s, a2) as int;
    assert(f(a2 as u64) == 18 + c2);
    lemma_count_le_bound(s, a2);
    let g = u + (c2 - 1) * 1_000_000_000 - e;
    assert((c2 - 1) * 1_000_000_000 <= k) by (nonlinear_arith)
        requires
            1 <= c2 <= s.len(),
            k == (s.len() - 1) * 1_000_000_000,
    ;
    assert(spec_utc_to_gps(f, u as int) == checked_u64(g));
    let t2 = g + 19_000_000_000;
    lemma_gps_era_offset(s, t2);
    if c2 == c1 {
        assert(t2 == a2);
    } else {
        assert(t2 == a2 + 1_000_000_000);
        lemma_count_le_mono(s, a2, t2);
        assert(c1 * 1_000_000_000 <= k) by (nonlinear_arith)
            requires
                1 <= c1 + 1 <= s.len(),
                k == (s.len() - 1) * 1_000_000_000,
        ;
        lemma_count_le_close(s, a1, t2, k + 1);
    }
    assert(f(t2 as u64) == 18 + count_le(s, t2));
}

/// UTC never runs backwards as GPS time advances by at least one second
/// (and by less than the smallest distance between two entries).
pub proof fn lemma_gps_to_utc_monotone(s: Seq<LeapEntry>, g: u64, d: int, gap: int)
    requires
        strictly_ascending(s),
        unit_steps(s),
        min_gap(s, gap),
        1_000_000_000 <= d < gap,
        spec_gps_to_utc(table_offsets(s), g as int) is Ok,
        spec_gps_to_utc(table_offsets(s), g + d) is Ok,
    ensures
        spec_gps_to_utc(table_offsets(s), g as int)->Ok_0 <= spec_gps_to_utc(table_offsets(s), g + d)->Ok_0,
{
    let f = table_offsets(s);
    let tt = g + 19_000_000_000;
    lemma_offset_step_at_most_one(s, tt, tt + d, gap);
    assert(f(tt as u64) == offset_at(s, tt));
    assert(f((tt + d) as u64) == offset_at(s, tt + d));
}

/// GPS never runs backwards as UTC advances (from the GPS epoch on, away
/// from the top of the range).
pub proof fn lemma_utc_to_gps_monotone(s: Seq<LeapEntry>, u1: u64, u2: u64)
    requires
        gps_era_table(s),
        252_892_800_000_000_000 <= u1 <= u2,
        u2 - 252_892_800_000_000_000 + 19_000_000_000 + (s.len() - 1) * 1_000_000_000 <= u64::MAX,
    ensures
        spec_utc_to_gps(table_offsets(s), u1 as int) is Ok,
        spec_utc_to_gps(table_offsets(s), u2 as int) is Ok,
        spec_utc_to_gps(table_offsets(s), u1 as int)->Ok_0 <= spec_utc_to_gps(table_offsets(s), u2 as int)->Ok_0,
{
    let f = table_offsets(s);
    let k = (s.len() - 1) * 1_000_000_000;
    lemma_utc_gps_utc(s, u1);
    lemma_utc_gps_utc(s, u2);
    let e = 252_892_800_000_000_000int;
    let a1 = u1 - e + 19_000_000_000;
    let b1 = u2 - e + 19_000_000_000;
    lemma_gps_era_offset(s, a1);
    lemma_gps_era_offset(s, b1);
    lemma_count_le_bound(s, a1);
    lemma_count_le_bound(s, b1);
    lemma_count_le_mono(s, a1, b1);
    let a2 = a1 + (count_le(s, a1) - 1) * 1_000_000_000;
    let b2 = b1 + (count_le(s, b1) - 1) * 1_000_000_000;
    assert((count_le(s, b1) - 1) * 1_000_000_000 <= k) by (nonlinear_arith)
        requires
            1 <= count_le(s, b1) <= s.len(),
            k == (s.len() - 1) * 1_000_000_000,
    ;
    assert((count_le(s, a1) - 1) * 1_000_000_000 <= (count_le(s, b1) - 1) * 1_000_000_000) by (nonlinear_arith)
        requires
            count_le(s, a1) <= count_le(s, b1),
    ;
    assert((count_le(s, a1) - 1) * 1_000_000_000 <= k) by (nonlinear_arith)
        requires
            1 <= count_le(s, a1) <= s.len(),
            k == (s.len() - 1) * 1_000_000_000,
    ;
    assert(utc_tai_first(u1 as int) == a1);
    assert(utc_tai_first(u2 as int) == b1);
    assert(f(a1 as u64) == 18 + count_le(s, a1));
    assert(f(b1 as u64) == 18 + count_le(s, b1));
    assert(utc_tai_second(f, u1 as int) == a2);
    assert(utc_tai_second(f, u2 as int) == b2);
    lemma_count_le_mono(s, a2, b2);
    lemma_gps_era_offset(s, a2);
    lemma_gps_era_offset(s, b2);
    assert(f(a2 as u64) == 18 + count_le(s, a2));
    assert(f(b2 as u64) == 18 + count_le(s, b2));
}

/// The built-in table is a GPS-era table.
pub proof fn lemma_builtin_is_gps_era()
    ensures
        gps_era_table(builtin_table()),
        min_gap(builtin_table(), 31_000_000_000_000_000),
{
    lemma_builtin_ascending();
    let s = builtin_table();
    assert forall|i: int| 0 <= i < s.len() - 1 implies #[trigger] gap_ok(s, i, 31_000_000_000_000_000) by {
        assert(s[i].tai_nanos + 31_000_000_000_000_000 < s[i + 1].tai_nanos);
    }
    assert forall|i: int| 0 <= i < s.len() - 1 implies #[trigger] gap_ok(s, i, (s.len() - 1) * 1_000_000_000 + 1) by {
        assert(gap_ok(s, i, 31_000_000_000_000_000));
    }
}


/// GLONASS → UTC → GLONASS gives the instant back.
pub proof fn lemma_glonass_utc_glonass(n: u64)
    requires
        spec_glonass_to_utc(n as int) is Ok,
    ensures
        spec_utc_to_glonass(spec_glonass_to_utc(n as int)->Ok_0 as int) == Ok::<u64, GnssTimeError>(n),
{
}

/// UTC → GLONASS → UTC gives the instant back.
pub proof fn lemma_utc_glonass_utc(u: u64)
    requires
        spec_utc_to_glonass(u as int) is Ok,
    ensures
        spec_glonass_to_utc(spec_utc_to_glonass(u as int)->Ok_0 as int) == Ok::<u64, GnssTimeError>(u),
{
}


/// The BeiDou instant of a UTC instant is its GPS instant 14 s earlier (the
/// same TAI instant: BDT + 33 s = GPS + 19 s); it fails exactly where the
/// GPS conversion fails, the GPS instant is within 14 s of the GPS epoch, or
/// it has no TAI instant.
pub proof fn lemma_utc_to_beidou_is_gps_minus_14s(f: spec_fn(u64) -> i32, u: int)
    ensures
        spec_utc_to_beidou(f, u) == (match spec_utc_to_gps(f, u) {
            Ok(g) => if 14_000_000_000 <= g && g + 19_000_000_000 <= u64::MAX {
                Ok((g - 14_000_000_000) as u64)
            } else {
                Err(GnssTimeError::Overflow)
            },
            Err(e) => Err(e),
        }),
        spec_utc_to_beidou(f, u) matches Ok(b) ==> spec_utc_to_gps(f, u) matches Ok(g) && b
            + 33_000_000_000 == g + 19_000_000_000,
{
}

/// The Galileo instant of a UTC instant is its GPS instant (both scales are
/// TAI − 19 s), using the same TAI − UTC offsets; it fails where the GPS
/// conversion fails or the GPS instant has no TAI instant.
pub proof fn lemma_utc_to_galileo_is_gps(f: spec_fn(u64) -> i32, u: int)
    ensures
        spec_utc_to_galileo(f, u) == (match spec_utc_to_gps(f, u) {
            Ok(g) => if g + 19_000_000_000 <= u64::MAX {
                Ok(g)
            } else {
                Err(GnssTimeError::Overflow)
            },
            Err(e) => Err(e),
        }),
{
}

/// With a GPS-era table, the Galileo instant of any UTC instant from the
/// GPS epoch on is the instant that converts back to it: Galileo time goes
/// through the leap seconds just as GPS time does.
pub proof fn lemma_utc_galileo_utc(s: Seq<LeapEntry>, u: u64)
    requires
        gps_era_table(s),
        u >= 252_892_800_000_000_000,
        u - 252_892_800_000_000_000 + 19_000_000_000 + (s.len() - 1) * 1_000_000_000 <= u64::MAX,
    ensures
        spec_utc_to_galileo(table_offsets(s), u as int) is Ok,
        spec_galileo_to_utc(table_offsets(s), spec_utc_to_galileo(table_offsets(s), u as int)->Ok_0 as int)
            == Ok::<u64, GnssTimeError>(u),
{
    lemma_utc_gps_utc(s, u);
    let g = spec_utc_to_gps(table_offsets(s), u as int)->Ok_0;
    lemma_gps_era_offset(s, (u - 252_892_800_000_000_000 + 19_000_000_000) as int);
    lemma_count_le_bound(s, (u - 252_892_800_000_000_000 + 19_000_000_000) as int);
    lemma_utc_to_galileo_is_gps(table_offsets(s), u as int);
}

} // verus!
