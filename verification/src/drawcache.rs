//! What the painter keeps between frames: the card shaders, the blurred cover, and the palette.
use vstd::prelude::*;
use crate::text::same_text;

verus! {

/// How many card shaders are kept: a departing card, an arriving one, a cover strip and the quit
/// dialog can be up at once.
pub const CACHE_SLOTS: usize = 4;

/// The shaders in the order of their last use, the latest first. A shader stands here as the number
/// of what it was built from; a slot is empty where nothing was built.
pub struct ShaderCache {
    pub slots: Vec<Option<u64>>,
}

/// The slots once a shader was asked for: it is in front, and the others keep their order. One that
/// was not there takes the place of the last.
pub open spec fn used(slots: Seq<Option<u64>>, key: u64) -> Seq<Option<u64>> {
    match slots.index_of_first(Some(key)) {
        Some(i) => seq![Some(key)] + slots.remove(i),
        None => seq![Some(key)] + slots.drop_last(),
    }
}

/// The slots once several shaders were asked for in turn, the first `n` of `keys`.
pub open spec fn used_all(slots: Seq<Option<u64>>, keys: Seq<u64>, n: int) -> Seq<Option<u64>>
    decreases n,
{
    if n <= 0 {
        slots
    } else {
        used(used_all(slots, keys, n - 1), keys[n - 1])
    }
}

impl View for ShaderCache {
    type V = Seq<Option<u64>>;

    open spec fn view(&self) -> Seq<Option<u64>> {
        self.slots@
    }
}

impl ShaderCache {
    pub open spec fn wf(&self) -> bool {
        self.slots.len() == CACHE_SLOTS
    }

    pub fn new() -> (r: ShaderCache)
        ensures
            r.wf(),
            r@ == Seq::new(CACHE_SLOTS as nat, |i: int| None::<u64>),
    {
        let mut slots: Vec<Option<u64>> = Vec::new();
        let mut i: usize = 0;
        while i < CACHE_SLOTS
            invariant
                i <= CACHE_SLOTS,
                slots@ == Seq::new(i as nat, |k: int| None::<u64>),
            decreases CACHE_SLOTS - i,
        {
            slots.push(None);
            i = i + 1;
            assert(slots@ =~= Seq::new(i as nat, |k: int| None::<u64>));
        }
        ShaderCache { slots }
    }

    fn find(&self, key: u64) -> (r: Option<usize>)
        ensures
            match (r, self@.index_of_first(Some(key))) {
                (Some(k), Some(i)) => k == i && k < self.slots.len(),
                (None, None) => true,
                _ => false,
            },
    {
        let ghost all = self@;
        proof {
            all.index_of_first_ensures(Some(key));
        }
        let mut i: usize = 0;
        while i < self.slots.len()
            invariant
                i <= self.slots.len(),
                all == self.slots@,
                forall|k: int| 0 <= k < i ==> all[k] != Some(key),
                match all.index_of_first(Some(key)) {
                    Some(p) => 0 <= p < all.len() && all[p] == Some(key) && forall|j: int|
                        0 <= j < p ==> all[j] != Some(key),
                    None => !all.contains(Some(key)),
                },
            decreases self.slots.len() - i,
        {
            let here: bool = match self.slots[i] {
                Some(k) => k == key,
                None => false,
            };
            if here {
                assert(all[i as int] == Some(key));
                assert(all.contains(Some(key)));
                return Some(i);
            }
            i = i + 1;
        }
        None
    }

    /// Asks for a shader, which is in front from then on. Reports whether it is to be built.
    pub fn request(&mut self, key: u64) -> (r: bool)
        requires
            old(self).wf(),
        ensures
            final(self).wf(),
            final(self)@ == used(old(self)@, key),
            r == !old(self)@.contains(Some(key)),
    {
        let ghost before = self@;
        proof {
            before.index_of_first_ensures(Some(key));
        }
        match self.find(key) {
            Some(at) => {
                self.slots.remove(at);
                self.slots.insert(0, Some(key));
                assert(self@ =~= used(before, key));
                false
            },
            None => {
                self.slots.pop();
                self.slots.insert(0, Some(key));
                assert(self@ =~= used(before, key));
                true
            },
        }
    }

    /// The shader just asked for could not be built: its slot is empty, and the next request for it
    /// tries again.
    pub fn not_built(&mut self)
        requires
            old(self).wf(),
        ensures
            final(self).wf(),
            final(self)@ == old(self)@.update(0, None),
    {
        self.slots.set(0, None);
    }

    /// Lets every shader go: each holds the images it was built from.
    pub fn release(&mut self)
        ensures
            final(self).wf(),
            final(self)@ == Seq::new(CACHE_SLOTS as nat, |i: int| None::<u64>),
    {
        let fresh = ShaderCache::new();
        self.slots = fresh.slots;
    }
}

/// Asking for a shader that is kept lets none go, and builds none.
pub proof fn law_kept_shaders_stay(slots: Seq<Option<u64>>, key: u64, other: u64)
    requires
        slots.contains(Some(key)),
    ensures
        used(slots, key).len() == slots.len(),
        used(slots, key).contains(Some(other)) <==> slots.contains(Some(other)),
{
    slots.index_of_first_ensures(Some(key));
    let i = slots.index_of_first(Some(key))->0;
    let after = used(slots, key);
    assert(after[0] == Some(key));
    if slots.contains(Some(other)) {
        let p = choose|p: int| 0 <= p < slots.len() && slots[p] == Some(other);
        if p < i {
            assert(after[p + 1] == Some(other));
        } else if p > i {
            assert(after[p] == Some(other));
        } else {
            assert(after[0] == Some(other));
        }
    }
    if after.contains(Some(other)) {
        let p = choose|p: int| 0 <= p < after.len() && after[p] == Some(other);
        if p == 0 {
            assert(slots[i] == Some(other));
        } else if p - 1 < i {
            assert(slots[p - 1] == Some(other));
        } else {
            assert(slots[p] == Some(other));
        }
    }
}

/// A shader at place `p` is at most one place further back once another was asked for.
proof fn lemma_one_step_back(slots: Seq<Option<u64>>, key: u64, other: u64, p: int) -> (q: int)
    requires
        0 <= p < slots.len() - 1,
        slots[p] == Some(key),
    ensures
        0 <= q <= p + 1,
        q < used(slots, other).len() == slots.len(),
        used(slots, other)[q] == Some(key),
{
    slots.index_of_first_ensures(Some(other));
    let after = used(slots, other);
    match slots.index_of_first(Some(other)) {
        Some(i) => {
            assert(after.len() == slots.len());
            if p == i {
                assert(after[0] == Some(key));
                0
            } else if p < i {
                assert(after[p + 1] == slots[p]);
                p + 1
            } else {
                assert(after[p] == slots[p]);
                p
            }
        },
        None => {
            assert(after[p + 1] == slots[p]);
            p + 1
        },
    }
}

proof fn lemma_steps_back(slots: Seq<Option<u64>>, key: u64, keys: Seq<u64>, n: int) -> (q: int)
    requires
        slots.len() == CACHE_SLOTS,
        slots[0] == Some(key),
        0 <= n < CACHE_SLOTS,
        n <= keys.len(),
    ensures
        0 <= q <= n,
        used_all(slots, keys, n).len() == CACHE_SLOTS,
        used_all(slots, keys, n)[q] == Some(key),
    decreases n,
{
    if n == 0 {
        0
    } else {
        let p = lemma_steps_back(slots, key, keys, n - 1);
        lemma_one_step_back(used_all(slots, keys, n - 1), key, keys[n - 1], p)
    }
}

/// As many cards as there are slots can be up at once: a shader that was asked for is still kept
/// after any three further requests.
pub proof fn law_shaders_coexist(slots: Seq<Option<u64>>, key: u64, keys: Seq<u64>)
    requires
        slots.len() == CACHE_SLOTS,
        keys.len() < CACHE_SLOTS,
    ensures
        used_all(used(slots, key), keys, keys.len() as int).contains(Some(key)),
{
    slots.index_of_first_ensures(Some(key));
    let first = used(slots, key);
    assert(first.len() == CACHE_SLOTS && first[0] == Some(key));
    let q = lemma_steps_back(first, key, keys, keys.len() as int);
    assert(used_all(first, keys, keys.len() as int)[q] == Some(key));
}

/// What a blurred cover was made from: the image, and how far it is blurred in whole pixels, so that
/// the small steps of a zoom share one.
#[derive(Clone, Copy, PartialEq, Eq, Structural, Debug)]
pub struct CoverKey {
    pub image: u32,
    pub sigma: i32,
}

/// The one blurred cover that is kept.
#[derive(Clone, Copy, PartialEq, Eq, Structural, Debug)]
pub struct CoverCache {
    pub held: Option<CoverKey>,
}

impl CoverCache {
    pub fn new() -> (r: CoverCache)
        ensures
            r.held is None,
    {
        CoverCache { held: None }
    }

    /// Whether a cover is to be blurred anew.
    pub fn wants_blur(&self, key: CoverKey) -> (r: bool)
        ensures
            r == (self.held != Some(key)),
    {
        match self.held {
            Some(k) => k != key,
            None => true,
        }
    }

    /// Takes a newly blurred cover in place of the one before; where it could not be blurred none is
    /// kept.
    pub fn blurred(&mut self, key: CoverKey, ok: bool)
        ensures
            final(self).held == (if ok {
                Some(key)
            } else {
                None
            }),
    {
        self.held = if ok {
            Some(key)
        } else {
            None
        };
    }

    pub fn clear_cover(&mut self)
        ensures
            final(self).held is None,
    {
        self.held = None;
    }
}

/// The palette that the menu is drawn in, by its id.
pub struct CurrentPalette {
    pub id: String,
}

impl CurrentPalette {
    /// No palette, before the first frame names one.
    pub fn new() -> (r: CurrentPalette)
        ensures
            r.id@ == Seq::<char>::empty(),
    {
        let id = String::new();
        assert(id@ =~= Seq::<char>::empty());
        CurrentPalette { id }
    }

    /// Names the palette of this frame.
    pub fn set_current_palette(&mut self, id: &str)
        ensures
            final(self).id@ == id@,
    {
        if !same_text(self.id.as_str(), id) {
            self.id = id.to_owned();
        }
    }

    pub fn current_palette(&self) -> (r: String)
        ensures
            r@ == self.id@,
    {
        self.id.clone()
    }
}

} // verus!
