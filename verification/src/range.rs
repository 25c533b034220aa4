//! Bulks over ranges of integers.
use vstd::prelude::*;

use core::ops::{Range, RangeInclusive};

use crate::bulk::Bulk;

verus! {

/// An integer type whose values can be stepped through one at a time.
pub trait Step: Copy {
    /// The value as a mathematical integer.
    spec fn index(self) -> int;

    /// `i` is a value of the type.
    spec fn in_range(i: int) -> bool;

    /// The values of the type form an interval.
    proof fn lemma_in_range_between(a: int, b: int, c: int)
        requires
            Self::in_range(a),
            Self::in_range(c),
            a <= b <= c,
        ensures
            Self::in_range(b),
    ;

    /// Whether `self` is at most `other`.
    fn is_le(self, other: Self) -> (b: bool)
        ensures
            b == (self.index() <= other.index()),
    ;

    /// The number of steps from `self` up to `end`.
    fn count_to(self, end: Self) -> (n: usize)
        requires
            self.index() <= end.index(),
            end.index() - self.index() <= usize::MAX,
        ensures
            n == end.index() - self.index(),
    ;

    /// The value `n` steps after `self`.
    fn forward(self, n: usize) -> (r: Self)
        requires
            Self::in_range(self.index() + n),
        ensures
            r.index() == self.index() + n,
    ;
}

impl Step for u8 {
    open spec fn index(self) -> int {
        self as int
    }

    open spec fn in_range(i: int) -> bool {
        u8::MIN <= i <= u8::MAX
    }

    proof fn lemma_in_range_between(a: int, b: int, c: int) {
    }

    fn is_le(self, other: u8) -> (b: bool) {
        self <= other
    }

    fn count_to(self, end: u8) -> (n: usize) {
        (end - self) as usize
    }

    fn forward(self, n: usize) -> (r: u8) {
        ((self as u128) + (n as u128)) as u8
    }
}

impl Step for u16 {
    open spec fn index(self) -> int {
        self as int
    }

    open spec fn in_range(i: int) -> bool {
        u16::MIN <= i <= u16::MAX
    }

    proof fn lemma_in_range_between(a: int, b: int, c: int) {
    }

    fn is_le(self, other: u16) -> (b: bool) {
        self <= other
    }

    fn count_to(self, end: u16) -> (n: usize) {
        (end - self) as usize
    }

    fn forward(self, n: usize) -> (r: u16) {
        ((self as u128) + (n as u128)) as u16
    }
}

impl Step for u32 {
    open spec fn index(self) -> int {
        self as int
    }

    open spec fn in_range(i: int) -> bool {
        u32::MIN <= i <= u32::MAX
    }

    proof fn lemma_in_range_between(a: int, b: int, c: int) {
    }

    fn is_le(self, other: u32) -> (b: bool) {
        self <= other
    }

    fn count_to(self, end: u32) -> (n: usize) {
        (end - self) as usize
    }

    fn forward(self, n: usize) -> (r: u32) {
        ((self as u128) + (n as u128)) as u32
    }
}

impl Step for u64 {
    open spec fn index(self) -> int {
        self as int
    }

    open spec fn in_range(i: int) -> bool {
        u64::MIN <= i <= u64::MAX
    }

    proof fn lemma_in_range_between(a: int, b: int, c: int) {
    }

    fn is_le(self, other: u64) -> (b: bool) {
        self <= other
    }

    fn count_to(self, end: u64) -> (n: usize) {
        (end - self) as usize
    }

    fn forward(self, n: usize) -> (r: u64) {
        ((self as u128) + (n as u128)) as u64
    }
}

impl Step for usize {
    open spec fn index(self) -> int {
        self as int
    }

    open spec fn in_range(i: int) -> bool {
        usize::MIN <= i <= usize::MAX
    }

    proof fn lemma_in_range_between(a: int, b: int, c: int) {
    }

    fn is_le(self, other: usize) -> (b: bool) {
        self <= other
    }

    fn count_to(self, end: usize) -> (n: usize) {
        (end - self) as usize
    }

    fn forward(self, n: usize) -> (r: usize) {
        ((self as u128) + (n as u128)) as usize
    }
}

impl Step for i32 {
    open spec fn index(self) -> int {
        self as int
    }

    open spec fn in_range(i: int) -> bool {
        i32::MIN <= i <= i32::MAX
    }

    proof fn lemma_in_range_between(a: int, b: int, c: int) {
    }

    fn is_le(self, other: i32) -> (b: bool) {
        self <= other
    }

    fn count_to(self, end: i32) -> (n: usize) {
        ((end as i128) - (self as i128)) as usize
    }

    fn forward(self, n: usize) -> (r: i32) {
        ((self as i128) + (n as i128)) as i32
    }
}

impl Step for i64 {
    open spec fn index(self) -> int {
        self as int
    }

    open spec fn in_range(i: int) -> bool {
        i64::MIN <= i <= i64::MAX
    }

    proof fn lemma_in_range_between(a: int, b: int, c: int) {
    }

    fn is_le(self, other: i64) -> (b: bool) {
        self <= other
    }

    fn count_to(self, end: i64) -> (n: usize) {
        ((end as i128) - (self as i128)) as usize
    }

    fn forward(self, n: usize) -> (r: i64) {
        ((self as i128) + (n as i128)) as i64
    }
}

impl Step for i8 {
    open spec fn index(self) -> int {
        self as int
    }

    open spec fn in_range(i: int) -> bool {
        i8::MIN <= i <= i8::MAX
    }

    proof fn lemma_in_range_between(a: int, b: int, c: int) {
    }

    fn is_le(self, other: i8) -> (b: bool) {
        self <= other
    }

    fn count_to(self, end: i8) -> (n: usize) {
        ((end as i128) - (self as i128)) as usize
    }

    fn forward(self, n: usize) -> (r: i8) {
        ((self as i128) + (n as i128)) as i8
    }
}

impl Step for i16 {
    open spec fn index(self) -> int {
        self as int
    }

    open spec fn in_range(i: int) -> bool {
        i16::MIN <= i <= i16::MAX
    }

    proof fn lemma_in_range_between(a: int, b: int, c: int) {
    }

    fn is_le(self, other: i16) -> (b: bool) {
        self <= other
    }

    fn count_to(self, end: i16) -> (n: usize) {
        ((end as i128) - (self as i128)) as usize
    }

    fn forward(self, n: usize) -> (r: i16) {
        ((self as i128) + (n as i128)) as i16
    }
}

impl Step for isize {
    open spec fn index(self) -> int {
        self as int
    }

    open spec fn in_range(i: int) -> bool {
        isize::MIN <= i <= isize::MAX
    }

    proof fn lemma_in_range_between(a: int, b: int, c: int) {
    }

    fn is_le(self, other: isize) -> (b: bool) {
        self <= other
    }

    fn count_to(self, end: isize) -> (n: usize) {
        ((end as i128) - (self as i128)) as usize
    }

    fn forward(self, n: usize) -> (r: isize) {
        ((self as i128) + (n as i128)) as isize
    }
}

/// The number of values from `start` to `end`, the end included or not.
pub open spec fn range_count(start: int, end: int, inclusive: bool) -> int {
    if inclusive {
        if start <= end {
            end - start + 1
        } else {
            0
        }
    } else {
        if start < end {
            end - start
        } else {
            0
        }
    }
}

/// A bulk over the values of a range, in increasing order.
pub struct IntoBulk<T> {
    start: T,
    end: T,
    inclusive: bool,
}

impl<T> View for IntoBulk<T> {
    type V = (T, T, bool);

    closed spec fn view(&self) -> (T, T, bool) {
        (self.start, self.end, self.inclusive)
    }
}

impl<T: Step> IntoBulk<T> {
    /// A bulk over the values from `start` up to `end`, `end` included when `inclusive`.
    pub fn new(start: T, end: T, inclusive: bool) -> (r: Self)
        ensures
            r@ == (start, end, inclusive),
    {
        IntoBulk { start, end, inclusive }
    }
}

/// A bulk over the values from `start` up to, but not including, `end`.
pub fn range<T: Step>(start: T, end: T) -> (r: IntoBulk<T>)
    ensures
        r@ == (start, end, false),
{
    IntoBulk::new(start, end, false)
}

/// A bulk over the values from `start` up to and including `end`.
pub fn range_inclusive<T: Step>(start: T, end: T) -> (r: IntoBulk<T>)
    ensures
        r@ == (start, end, true),
{
    IntoBulk::new(start, end, true)
}

impl<T: Step> Bulk for IntoBulk<T> {
    type Item = T;

    open spec fn wf(&self) -> bool {
        &&& range_count(self@.0.index(), self@.1.index(), self@.2) <= usize::MAX
        &&& T::in_range(self@.0.index())
        &&& T::in_range(self@.1.index())
    }

    open spec fn spec_len(&self) -> nat {
        range_count(self@.0.index(), self@.1.index(), self@.2) as nat
    }

    open spec fn yields(&self, s: Seq<T>) -> bool {
        &&& s.len() == range_count(self@.0.index(), self@.1.index(), self@.2)
        &&& forall|i: int| 0 <= i < s.len() ==> (#[trigger] s[i]).index() == self@.0.index() + i
    }

    proof fn lemma_yields_len(&self, s: Seq<T>) {
    }

    fn len(&self) -> (n: usize) {
        let ghost b = *self;
        assert(b@ == (self.start, self.end, self.inclusive));
        assert(b.spec_len() == range_count(self.start.index(), self.end.index(), self.inclusive));
        if self.start.is_le(self.end) {
            if self.inclusive {
                self.start.count_to(self.end) + 1
            } else {
                self.start.count_to(self.end)
            }
        } else {
            0
        }
    }

    fn collect_vec(self) -> (v: Vec<T>) {
        let ghost b = self;
        assert(b@ == (self.start, self.end, self.inclusive));
        let n = self.len();
        let mut v: Vec<T> = Vec::new();
        let mut k: usize = 0;
        while k < n
            invariant
                b@ == (self.start, self.end, self.inclusive),
                b.wf(),
                n == range_count(b@.0.index(), b@.1.index(), b@.2),
                k <= n,
                v@.len() == k,
                forall|i: int| 0 <= i < k ==> (#[trigger] v@[i]).index() == b@.0.index() + i,
            decreases n - k,
        {
            proof {
                T::lemma_in_range_between(b@.0.index(), b@.0.index() + k, b@.1.index());
            }
            v.push(self.start.forward(k));
            k = k + 1;
        }
        assert(b.yields(v@));
        v
    }
}

/// The bounds of an inclusive range (`RangeInclusive::into_inner` in std; its documentation
/// leaves them unspecified once the range has been iterated to exhaustion).
#[verifier::external_body]
fn inclusive_bounds<T>(range: RangeInclusive<T>) -> (r: (T, T))
    ensures
        !range@.exhausted ==> r.0 == range@.start && r.1 == range@.end,
{
    range.into_inner()
}

impl<T: Step> crate::into_bulk::IntoBulk for Range<T> {
    type IntoBulk = IntoBulk<T>;

    open spec fn converts(&self, b: IntoBulk<T>) -> bool {
        b@ == (self.start, self.end, false)
    }

    open spec fn bulkable(&self) -> bool {
        &&& range_count(self.start.index(), self.end.index(), false) <= usize::MAX
        &&& T::in_range(self.start.index())
        &&& T::in_range(self.end.index())
    }

    fn into_bulk(self) -> (b: IntoBulk<T>) {
        IntoBulk::new(self.start, self.end, false)
    }
}

impl<T: Step> crate::into_bulk::IntoBulk for RangeInclusive<T> {
    type IntoBulk = IntoBulk<T>;

    open spec fn converts(&self, b: IntoBulk<T>) -> bool {
        !self@.exhausted ==> b@ == (self@.start, self@.end, true)
    }

    open spec fn bulkable(&self) -> bool {
        &&& !self@.exhausted
        &&& range_count(self@.start.index(), self@.end.index(), true) <= usize::MAX
        &&& T::in_range(self@.start.index())
        &&& T::in_range(self@.end.index())
    }

    fn into_bulk(self) -> (b: IntoBulk<T>) {
        let (start, end) = inclusive_bounds(self);
        IntoBulk::new(start, end, true)
    }
}

} // verus!
