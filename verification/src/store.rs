//! Model of the image side of the external asset store: descriptors keyed
//! by texture handle. Lookup resolves a handle to the first entry that
//! carries it, and replacement rewrites that entry's descriptor in place.
use vstd::prelude::*;
use vstd::pervasive::VecAdditionalExecFns;
use crate::texture::ImageDescriptor;
use crate::texture::TextureHandle;

verus! {

/// The descriptor of the first entry carrying handle `h`, if any.
pub open spec fn store_lookup(
    s: Seq<(TextureHandle, ImageDescriptor)>,
    h: TextureHandle,
) -> Option<ImageDescriptor>
    decreases s.len(),
{
    if s.len() == 0 {
        None
    } else if s[0].0 == h {
        Some(s[0].1)
    } else {
        store_lookup(s.drop_first(), h)
    }
}

/// The position of the first entry carrying handle `h`; meaningful only
/// when `store_lookup` finds one.
pub open spec fn store_first_index(
    s: Seq<(TextureHandle, ImageDescriptor)>,
    h: TextureHandle,
) -> int
    decreases s.len(),
{
    if s.len() == 0 {
        0
    } else if s[0].0 == h {
        0
    } else {
        1 + store_first_index(s.drop_first(), h)
    }
}

/// The store after rewriting the descriptor under handle `h` to `d`; a
/// handle that resolves to nothing leaves the store as it was.
pub open spec fn store_set(
    s: Seq<(TextureHandle, ImageDescriptor)>,
    h: TextureHandle,
    d: ImageDescriptor,
) -> Seq<(TextureHandle, ImageDescriptor)> {
    if store_lookup(s, h) is Some {
        s.update(store_first_index(s, h), (h, d))
    } else {
        s
    }
}

/// When an entry at position `k` carries `h` and no earlier entry does,
/// lookup resolves to that entry and `k` is the first index.
pub proof fn lemma_first_match(
    s: Seq<(TextureHandle, ImageDescriptor)>,
    h: TextureHandle,
    k: int,
)
    requires
        0 <= k < s.len(),
        s[k].0 == h,
        forall|j: int| 0 <= j < k ==> s[j].0 != h,
    ensures
        store_lookup(s, h) == Some(s[k].1),
        store_first_index(s, h) == k,
    decreases s.len(),
{
    if k > 0 {
        assert(s[0].0 != h);
        assert(s.drop_first()[k - 1] == s[k]);
        assert(forall|j: int| 0 <= j < k - 1 ==> s.drop_first()[j] == s[j + 1]);
        lemma_first_match(s.drop_first(), h, k - 1);
    }
}

/// When no entry carries `h`, lookup resolves to nothing.
pub proof fn lemma_no_match(s: Seq<(TextureHandle, ImageDescriptor)>, h: TextureHandle)
    requires
        forall|j: int| 0 <= j < s.len() ==> s[j].0 != h,
    ensures
        store_lookup(s, h) is None,
    decreases s.len(),
{
    if s.len() > 0 {
        assert(forall|j: int| 0 <= j < s.len() - 1 ==> s.drop_first()[j] == s[j + 1]);
        lemma_no_match(s.drop_first(), h);
    }
}

/// When lookup finds an entry, the first index lies in the store and the
/// entry there carries the handle and the descriptor that lookup returned.
pub proof fn lemma_first_index_in_range(
    s: Seq<(TextureHandle, ImageDescriptor)>,
    h: TextureHandle,
)
    requires
        store_lookup(s, h) is Some,
    ensures
        0 <= store_first_index(s, h) < s.len(),
        s[store_first_index(s, h)].0 == h,
        store_lookup(s, h) == Some(s[store_first_index(s, h)].1),
    decreases s.len(),
{
    if s.len() > 0 && s[0].0 != h {
        lemma_first_index_in_range(s.drop_first(), h);
        assert(s.drop_first()[store_first_index(s.drop_first(), h)]
            == s[1 + store_first_index(s.drop_first(), h)]);
    }
}

/// Rewriting the descriptor under `h` makes lookup of `h` return the new
/// descriptor and leaves lookup of every other handle as it was.
pub proof fn lemma_store_set_lookup(
    s: Seq<(TextureHandle, ImageDescriptor)>,
    h: TextureHandle,
    d: ImageDescriptor,
    h2: TextureHandle,
)
    requires
        store_lookup(s, h) is Some,
    ensures
        store_lookup(store_set(s, h, d), h) == Some(d),
        h2 != h ==> store_lookup(store_set(s, h, d), h2) == store_lookup(s, h2),
        store_set(s, h, d).len() == s.len(),
    decreases s.len(),
{
    lemma_first_index_in_range(s, h);
    let t = store_set(s, h, d);
    if s[0].0 == h {
        assert(t == s.update(0, (h, d)));
        assert(t.drop_first() =~= s.drop_first());
    } else {
        let fi = 1 + store_first_index(s.drop_first(), h);
        lemma_first_index_in_range(s.drop_first(), h);
        assert(t == s.update(fi, (h, d)));
        assert(t[0] == s[0]);
        assert(t.drop_first() =~= store_set(s.drop_first(), h, d)) by {
            assert(forall|j: int|
                0 <= j < s.len() - 1 ==> t.drop_first()[j] == t[j + 1]);
            assert(forall|j: int|
                0 <= j < s.len() - 1 ==> s.drop_first()[j] == s[j + 1]);
        }
        lemma_store_set_lookup(s.drop_first(), h, d, h2);
    }
}

/// The image side of the asset store: texture descriptors keyed by the
/// numeric handle of the asset they describe.
pub struct ImageStore {
    entries: Vec<(TextureHandle, ImageDescriptor)>,
}

impl View for ImageStore {
    type V = Seq<(TextureHandle, ImageDescriptor)>;

    closed spec fn view(&self) -> Seq<(TextureHandle, ImageDescriptor)> {
        self.entries@
    }
}

impl ImageStore {
    /// An empty store.
    pub fn new() -> (s: ImageStore)
        ensures
            s@ == Seq::<(TextureHandle, ImageDescriptor)>::empty(),
    {
        ImageStore { entries: Vec::new() }
    }

    /// The number of entries held.
    pub fn len(&self) -> (n: usize)
        ensures
            n == self@.len(),
    {
        self.entries.len()
    }

    /// Register a newly decoded image under its handle. The new entry
    /// shadows any older entry with the same handle.
    pub fn insert(&mut self, handle: TextureHandle, desc: ImageDescriptor)
        ensures
            final(self)@ == old(self)@.insert(0, (handle, desc)),
            store_lookup(final(self)@, handle) == Some(desc),
            forall|h2: TextureHandle|
                h2 != handle ==> store_lookup(final(self)@, h2) == store_lookup(old(self)@, h2),
    {
        self.entries.insert(0, (handle, desc));
        proof {
            assert(self.entries@.drop_first() =~= old(self)@);
        }
    }

    /// The descriptor currently registered under `handle`, if any.
    pub fn get(&self, handle: TextureHandle) -> (r: Option<ImageDescriptor>)
        ensures
            r == store_lookup(self@, handle),
    {
        let n: usize = self.entries.len();
        let mut i: usize = 0;
        while i < n
            invariant
                n == self.entries@.len(),
                i <= n,
                forall|j: int| 0 <= j < i ==> self.entries@[j].0 != handle,
            decreases n - i,
        {
            if self.entries[i].0 == handle {
                proof {
                    lemma_first_match(self.entries@, handle, i as int);
                }
                return Some(self.entries[i].1);
            }
            i += 1;
        }
        proof {
            lemma_no_match(self.entries@, handle);
        }
        None
    }

    /// Rewrite the descriptor registered under `handle` to `desc`; returns
    /// whether the handle resolved to an entry. A handle that resolves to
    /// nothing leaves the store untouched.
    pub fn replace(&mut self, handle: TextureHandle, desc: ImageDescriptor) -> (found: bool)
        ensures
            final(self)@ == store_set(old(self)@, handle, desc),
            found <==> store_lookup(old(self)@, handle) is Some,
    {
        let n: usize = self.entries.len();
        let mut i: usize = 0;
        while i < n
            invariant
                self.entries@ == old(self)@,
                n == self.entries@.len(),
                i <= n,
                forall|j: int| 0 <= j < i ==> self.entries@[j].0 != handle,
            decreases n - i,
        {
            if self.entries[i].0 == handle {
                proof {
                    lemma_first_match(self.entries@, handle, i as int);
                }
                self.entries.set(i, (handle, desc));
                return true;
            }
            i += 1;
        }
        proof {
            lemma_no_match(self.entries@, handle);
        }
        false
    }
}

} // verus!
