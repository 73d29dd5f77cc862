use vstd::prelude::*;

verus! {

/// Cause special behaviors when inserted into a container.
#[derive(Debug, Clone, Copy, PartialEq, Eq, Structural)]
#[non_exhaustive]
pub enum LayoutControl {
    /// Does not cause special behaviors, optional.
    Normal,
    /// Breaks the line in a container after rendering this item.
    Linebreak,
    /// Breaks the line in a container without taking up space.
    ///
    /// Dimension is used to determine line height.
    ///
    /// The sprite will not be rendered and its children will not be updated.
    LinebreakMarker,
    /// Ignore layout and use default rendering.
    IgnoreLayout,
    /// For `compact`, `span` and `paragraph`, trim WhiteSpace at the beginning and end of each layout.
    ///
    /// If removed this way, the sprite will not be rendered and its children will not be updated.
    WhiteSpace,
    /// Experimental: Unimplemented.
    EntireRow,
}

impl Default for LayoutControl {
    fn default() -> (r: Self)
        ensures
            r == LayoutControl::Normal,
    {
        LayoutControl::Normal
    }
}

impl LayoutControl {
    /// Is either [`Linebreak`](LayoutControl::Linebreak) or [`LinebreakMarker`](LayoutControl::LinebreakMarker)
    pub fn is_linebreak(&self) -> (r: bool)
        ensures
            r == (*self == LayoutControl::Linebreak || *self == LayoutControl::LinebreakMarker),
    {
        matches!(self, LayoutControl::Linebreak | LayoutControl::LinebreakMarker)
    }
}

/// Items that may be trimmed at the ends of a layout.
pub trait Trimmable {
    spec fn spec_is_white_space(&self) -> bool;

    fn is_white_space(&self) -> (r: bool)
        ensures
            r == self.spec_is_white_space(),
    ;
}

impl Trimmable for LayoutControl {
    open spec fn spec_is_white_space(&self) -> bool {
        *self == LayoutControl::WhiteSpace
    }

    fn is_white_space(&self) -> (r: bool) {
        *self == LayoutControl::WhiteSpace
    }
}

/// `r` is `s` without its leading and trailing white space: everything cut away
/// is white space, and `r` neither starts nor ends with white space.
pub open spec fn spec_is_trimmed<T: Trimmable>(s: Seq<T>, r: Seq<T>) -> bool {
    exists|lo: int, hi: int|
        {
            &&& 0 <= lo <= hi <= s.len()
            &&& r == s.subrange(lo, hi)
            &&& forall|i: int| 0 <= i < lo ==> (#[trigger] s[i]).spec_is_white_space()
            &&& forall|i: int| hi <= i < s.len() ==> (#[trigger] s[i]).spec_is_white_space()
            &&& lo < hi ==> !s[lo].spec_is_white_space() && !s[hi - 1].spec_is_white_space()
        }
}

/// Removes white space at both ends of a slice.
pub fn trim<T: Trimmable>(slice: &[T]) -> (r: &[T])
    ensures
        spec_is_trimmed(slice@, r@),
        r@.len() == 0 <==> forall|i: int| 0 <= i < slice@.len() ==> (#[trigger] slice@[i]).spec_is_white_space(),
{
    let len = slice.len();
    let mut min: usize = 0;
    let mut max: usize = len;
    let mut i: usize = 0;
    while i < len
        invariant_except_break
            i > 0 ==> min == i - 1,
            i == 0 ==> min == 0,
            forall|j: int| 0 <= j < i ==> (#[trigger] slice@[j]).spec_is_white_space(),
        invariant
            len == slice@.len(),
            min <= i <= len,
        ensures
            i < len ==> min == i && !slice@[i as int].spec_is_white_space()
                && forall|j: int| 0 <= j < i ==> (#[trigger] slice@[j]).spec_is_white_space(),
            i == len ==> (len > 0 ==> min == len - 1) && (len == 0 ==> min == 0)
                && forall|j: int| 0 <= j < len ==> (#[trigger] slice@[j]).spec_is_white_space(),
        decreases len - i,
    {
        min = i;
        if !slice[i].is_white_space() {
            break;
        }
        i = i + 1;
    }
    let ghost found = i < len;
    let mut j: usize = len;
    while j > min
        invariant_except_break
            max == j,
            forall|k: int| j <= k < len ==> (#[trigger] slice@[k]).spec_is_white_space(),
        invariant
            len == slice@.len(),
            min <= j <= len,
            min < len || len == 0,
        ensures
            min <= max <= len,
            forall|k: int| max <= k < len ==> (#[trigger] slice@[k]).spec_is_white_space(),
            max > min ==> !slice@[max - 1].spec_is_white_space(),
        decreases j,
    {
        let k = j - 1;
        if !slice[k].is_white_space() {
            break;
        }
        max = k;
        j = k;
    }
    let r = &slice[min..max];
    proof {
        if found {
            assert(min < max);
        } else if len > 0 {
            assert(max == min);
        }
        assert(r@ == slice@.subrange(min as int, max as int));
        assert(spec_is_trimmed(slice@, r@));
        if found {
            assert(r@[0] == slice@[min as int]);
        }
    }
    r
}

/// Trimming has exactly one result, and trimming a trimmed slice changes nothing.
pub proof fn lemma_trim_unique_idempotent<T: Trimmable>(s: Seq<T>, r1: Seq<T>, r2: Seq<T>)
    requires
        spec_is_trimmed(s, r1),
        spec_is_trimmed(s, r2),
    ensures
        r1 == r2,
        spec_is_trimmed(r1, r1),
{
    let (lo1, hi1) = choose|lo: int, hi: int|
        {
            &&& 0 <= lo <= hi <= s.len()
            &&& r1 == s.subrange(lo, hi)
            &&& forall|i: int| 0 <= i < lo ==> (#[trigger] s[i]).spec_is_white_space()
            &&& forall|i: int| hi <= i < s.len() ==> (#[trigger] s[i]).spec_is_white_space()
            &&& lo < hi ==> !s[lo].spec_is_white_space() && !s[hi - 1].spec_is_white_space()
        };
    let (lo2, hi2) = choose|lo: int, hi: int|
        {
            &&& 0 <= lo <= hi <= s.len()
            &&& r2 == s.subrange(lo, hi)
            &&& forall|i: int| 0 <= i < lo ==> (#[trigger] s[i]).spec_is_white_space()
            &&& forall|i: int| hi <= i < s.len() ==> (#[trigger] s[i]).spec_is_white_space()
            &&& lo < hi ==> !s[lo].spec_is_white_space() && !s[hi - 1].spec_is_white_space()
        };
    if lo1 < hi1 && lo2 < hi2 {
        if lo1 < lo2 {
            assert(s[lo1].spec_is_white_space());
        }
        if lo2 < lo1 {
            assert(s[lo2].spec_is_white_space());
        }
        if hi1 < hi2 {
            assert(s[hi2 - 1].spec_is_white_space());
        }
        if hi2 < hi1 {
            assert(s[hi1 - 1].spec_is_white_space());
        }
        assert(r1 =~= r2);
    } else if lo1 < hi1 {
        assert(s[lo1].spec_is_white_space());
    } else if lo2 < hi2 {
        assert(s[lo2].spec_is_white_space());
    } else {
        assert(r1 =~= r2);
    }
    assert(r1 == r1.subrange(0, r1.len() as int));
    if lo1 < hi1 {
        assert(r1[0] == s[lo1]);
        assert(r1[r1.len() - 1] == s[hi1 - 1]);
    }
    assert(spec_is_trimmed(r1, r1));
}

} // verus!
