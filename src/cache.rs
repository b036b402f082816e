use vstd::prelude::*;
use crate::raster::{RenderError, RenderedIcon, render_icon};
use crate::reading::BatteryReading;

verus! {

/// Number of icons the cache keeps unless told otherwise.
pub const DEFAULT_CAPACITY: usize = 8;

/// What the cache holds for a reading: the icon's pixels, width and height.
pub type IconView = (Seq<u8>, u32, u32);

/// Icons already drawn, keyed by reading, oldest first. When full, the icon
/// produced longest ago makes room for the new one.
pub struct IconCache {
    entries: Vec<(BatteryReading, RenderedIcon)>,
    capacity: usize,
}

/// Whether some entry is keyed by `r`.
pub open spec fn has_key(s: Seq<(BatteryReading, IconView)>, r: BatteryReading) -> bool {
    exists|i: int| 0 <= i < s.len() && #[trigger] s[i].0 == r
}

/// Whether `s` holds `(r, v)`.
pub open spec fn holds_entry(s: Seq<(BatteryReading, IconView)>, r: BatteryReading, v: IconView) -> bool {
    exists|i: int| 0 <= i < s.len() && #[trigger] s[i] == (r, v)
}

/// No reading occurs twice.
pub open spec fn keys_unique(s: Seq<(BatteryReading, IconView)>) -> bool {
    forall|i: int, j: int| 0 <= i < s.len() && 0 <= j < s.len() && i != j ==> #[trigger] s[i].0 != #[trigger] s[j].0
}

/// The entries after storing `(r, v)` under capacity `cap`: the oldest goes
/// first when the cache is full, and the new entry comes last.
pub open spec fn stored(s: Seq<(BatteryReading, IconView)>, cap: nat, r: BatteryReading, v: IconView) -> Seq<(BatteryReading, IconView)> {
    let base = if s.len() >= cap { s.skip(1) } else { s };
    base.push((r, v))
}

impl View for IconCache {
    type V = Seq<(BatteryReading, IconView)>;

    closed spec fn view(&self) -> Seq<(BatteryReading, IconView)> {
        self.entries@.map_values(|e: (BatteryReading, RenderedIcon)| (e.0, e.1@))
    }
}

impl IconCache {
    pub closed spec fn spec_capacity(&self) -> nat {
        self.capacity as nat
    }

    /// Holds at most `capacity` entries, at least one slot, each reading once.
    pub open spec fn wf(&self) -> bool {
        &&& 0 < self.spec_capacity()
        &&& self@.len() <= self.spec_capacity()
        &&& keys_unique(self@)
    }

    /// An empty cache for at most `capacity` icons.
    pub fn new(capacity: usize) -> (c: IconCache)
        requires
            capacity > 0,
        ensures
            c.wf(),
            c@.len() == 0,
            c.spec_capacity() == capacity,
    {
        let c = IconCache { entries: Vec::new(), capacity };
        assert(c@ =~= Seq::<(BatteryReading, IconView)>::empty());
        c
    }

    /// An empty cache for `DEFAULT_CAPACITY` icons.
    pub fn with_default_capacity() -> (c: IconCache)
        ensures
            c.wf(),
            c@.len() == 0,
            c.spec_capacity() == DEFAULT_CAPACITY,
    {
        IconCache::new(DEFAULT_CAPACITY)
    }

    pub fn len(&self) -> (n: usize)
        ensures
            n == self@.len(),
    {
        self.entries.len()
    }

    pub fn capacity(&self) -> (n: usize)
        ensures
            n == self.spec_capacity(),
    {
        self.capacity
    }

    /// The icon cached for `r`, if any.
    pub fn lookup(&self, r: &BatteryReading) -> (res: Option<RenderedIcon>)
        ensures
            res is None <==> !has_key(self@, *r),
            res matches Some(icon) ==> holds_entry(self@, *r, icon@),
    {
        let mut i: usize = 0;
        while i < self.entries.len()
            invariant
                i <= self@.len(),
                self@.len() == self.entries@.len(),
                forall|k: int| 0 <= k < i ==> self@[k].0 != *r,
            decreases self@.len() - i,
        {
            if self.entries[i].0 == *r {
                let icon = self.entries[i].1.duplicate();
                assert(self@[i as int] == (*r, icon@));
                return Some(icon);
            }
            i = i + 1;
        }
        None
    }

    /// Stores the icon of a reading not yet cached, evicting the oldest
    /// entry when full.
    pub fn insert(&mut self, r: BatteryReading, icon: RenderedIcon)
        requires
            old(self).wf(),
            !has_key(old(self)@, r),
        ensures
            final(self).wf(),
            final(self).spec_capacity() == old(self).spec_capacity(),
            final(self)@ == stored(old(self)@, old(self).spec_capacity(), r, icon@),
    {
        let ghost before = self@;
        if self.entries.len() >= self.capacity {
            self.entries.remove(0);
            assert(self@ =~= before.skip(1));
        }
        let ghost mid = self@;
        self.entries.push((r, icon));
        assert(self@ =~= mid.push((r, icon@)));
        assert(self@ =~= stored(before, self.spec_capacity(), r, icon@));
        assert forall|i: int, j: int| 0 <= i < self@.len() && 0 <= j < self@.len() && i != j implies
            #[trigger] self@[i].0 != #[trigger] self@[j].0 by {
            if i < mid.len() && j < mid.len() {
                if before.len() >= self.spec_capacity() {
                    assert(mid[i] == before[i + 1] && mid[j] == before[j + 1]);
                }
            } else if i == mid.len() {
                if before.len() >= self.spec_capacity() {
                    assert(mid[j] == before[j + 1]);
                } else {
                    assert(mid[j] == before[j]);
                }
            } else {
                if before.len() >= self.spec_capacity() {
                    assert(mid[i] == before[i + 1]);
                } else {
                    assert(mid[i] == before[i]);
                }
            }
        }
    }

    /// The icon of `r`: the cached one when there is one, with the cache left
    /// as it was; else freshly drawn and stored.
    pub fn get_or_render(&mut self, r: &BatteryReading, opts: &resvg::usvg::Options) -> (res: Result<RenderedIcon, RenderError>)
        requires
            old(self).wf(),
        ensures
            final(self).wf(),
            final(self).spec_capacity() == old(self).spec_capacity(),
            has_key(old(self)@, *r) ==> res is Ok && final(self)@ == old(self)@ && holds_entry(old(self)@, *r, res->Ok_0@),
            !has_key(old(self)@, *r) ==> match res {
                Ok(icon) => final(self)@ == stored(old(self)@, old(self).spec_capacity(), *r, icon@),
                Err(_) => final(self)@ == old(self)@,
            },
    {
        match self.lookup(r) {
            Some(icon) => Ok(icon),
            None => match render_icon(r, opts) {
                Ok(icon) => {
                    let copy = icon.duplicate();
                    self.insert(*r, icon);
                    Ok(copy)
                },
                Err(e) => Err(e),
            },
        }
    }
}

/// Storing an entry never takes the cache past its capacity, however many
/// distinct readings have been stored before.
pub proof fn lemma_stored_within_capacity(
    s: Seq<(BatteryReading, IconView)>,
    cap: nat,
    r: BatteryReading,
    v: IconView,
)
    requires
        0 < cap,
        s.len() <= cap,
    ensures
        stored(s, cap, r, v).len() <= cap,
{
}

/// A well-formed cache holds at most its capacity.
pub proof fn lemma_cache_bounded(c: &IconCache)
    requires
        c.wf(),
    ensures
        c@.len() <= c.spec_capacity(),
{
}

/// Right after an icon is stored for `r`, looking `r` up finds that very icon,
/// and only it.
pub proof fn lemma_stored_then_found(
    s: Seq<(BatteryReading, IconView)>,
    cap: nat,
    r: BatteryReading,
    v: IconView,
    w: IconView,
)
    requires
        0 < cap,
        s.len() <= cap,
        keys_unique(s),
        !has_key(s, r),
    ensures
        has_key(stored(s, cap, r, v), r),
        holds_entry(stored(s, cap, r, v), r, v),
        holds_entry(stored(s, cap, r, v), r, w) ==> w == v,
{
    let t = stored(s, cap, r, v);
    let last = t.len() - 1;
    assert(t[last] == (r, v));
    assert(t[last].0 == r);
    if holds_entry(t, r, w) {
        let i = choose|i: int| 0 <= i < t.len() && #[trigger] t[i] == (r, w);
        if i != last {
            if s.len() >= cap {
                assert(t[i] == s.skip(1)[i]);
                assert(s[i + 1].0 == r);
            } else {
                assert(t[i] == s[i]);
                assert(s[i].0 == r);
            }
        }
    }
}

/// In a cache whose readings are distinct, two lookups of one reading give
/// the same icon.
pub proof fn lemma_lookup_unique(s: Seq<(BatteryReading, IconView)>, r: BatteryReading, v: IconView, w: IconView)
    requires
        keys_unique(s),
        holds_entry(s, r, v),
        holds_entry(s, r, w),
    ensures
        v == w,
{
    let i = choose|i: int| 0 <= i < s.len() && #[trigger] s[i] == (r, v);
    let j = choose|j: int| 0 <= j < s.len() && #[trigger] s[j] == (r, w);
    if i != j {
        assert(s[i].0 != s[j].0);
    }
}

/// Two successive `get_or_render` calls with one reading give the same icon.
/// `s` holds the entries before the first call, which gave `v` and left `t`
/// (either a hit that kept the entries, or a miss that stored `v`); the second
/// call, on `t`, hits and gives some `w`, which must be `v`.
pub proof fn lemma_repeat_render_same_icon(
    s: Seq<(BatteryReading, IconView)>,
    cap: nat,
    r: BatteryReading,
    v: IconView,
    t: Seq<(BatteryReading, IconView)>,
    w: IconView,
)
    requires
        0 < cap,
        s.len() <= cap,
        keys_unique(s),
        has_key(s, r) ==> t == s && holds_entry(s, r, v),
        !has_key(s, r) ==> t == stored(s, cap, r, v),
        holds_entry(t, r, w),
    ensures
        has_key(t, r),
        w == v,
{
    if has_key(s, r) {
        lemma_lookup_unique(s, r, v, w);
        let i = choose|i: int| 0 <= i < s.len() && #[trigger] s[i] == (r, v);
        assert(s[i].0 == r);
    } else {
        lemma_stored_then_found(s, cap, r, v, w);
    }
}

} // verus!
