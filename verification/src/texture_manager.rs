//! The name-keyed cache of shared texture handles. Textures themselves are
//! loaded, decoded and owned by the host's GPU layer; this cache maps names
//! to the shared handles the host registered, and behaves as a map where the
//! latest registration of a name wins.

use vstd::prelude::*;

use crate::sprite::TextureRef;

verus! {

/// The map a sequence of (name, handle) registrations denotes: later entries
/// shadow earlier ones.
pub open spec fn map_of(s: Seq<(String, TextureRef)>) -> Map<Seq<char>, TextureRef>
    decreases s.len(),
{
    if s.len() == 0 {
        Map::empty()
    } else {
        map_of(s.drop_last()).insert(s.last().0@, s.last().1)
    }
}

/// A key absent from the entries at `i` and after is decided by the first `i`
/// entries alone.
proof fn lemma_map_of_prefix(s: Seq<(String, TextureRef)>, i: int, k: Seq<char>)
    requires
        0 <= i <= s.len(),
        forall|j: int| i <= j < s.len() ==> (#[trigger] s[j]).0@ != k,
    ensures
        map_of(s).contains_key(k) == map_of(s.take(i)).contains_key(k),
        map_of(s).contains_key(k) ==> map_of(s)[k] == map_of(s.take(i))[k],
    decreases s.len() - i,
{
    if i < s.len() {
        assert(s.last().0@ != k);
        lemma_map_of_prefix(s.drop_last(), i, k);
        assert(s.drop_last().take(i) =~= s.take(i));
    } else {
        assert(s.take(i) =~= s);
    }
}

/// The texture cache.
pub struct TextureManager {
    entries: Vec<(String, TextureRef)>,
}

impl View for TextureManager {
    type V = Map<Seq<char>, TextureRef>;

    closed spec fn view(&self) -> Map<Seq<char>, TextureRef> {
        map_of(self.entries@)
    }
}

impl TextureManager {
    /// An empty cache.
    pub fn new() -> (tm: TextureManager)
        ensures
            tm@ == Map::<Seq<char>, TextureRef>::empty(),
    {
        TextureManager { entries: Vec::new() }
    }

    /// Registers the handle of a texture the host loaded under `name`, and
    /// hands the shared handle back, as the cache's lookup would.
    pub fn load_texture(&mut self, name: &str, texture: TextureRef) -> (r: Option<TextureRef>)
        ensures
            final(self)@ == old(self)@.insert(name@, texture),
            r == Some(texture),
    {
        let owned = name.to_string();
        self.entries.push((owned, texture));
        proof {
            assert(self.entries@.drop_last() =~= old(self).entries@);
            assert(self.entries@.last().0@ == name@);
        }
        Some(texture)
    }

    /// Looks a name up: the handle of its latest registration, or nothing.
    pub fn get_texture(&self, name: &str) -> (r: Option<TextureRef>)
        ensures
            self@.contains_key(name@) ==> r == Some(self@[name@]),
            !self@.contains_key(name@) ==> r is None,
    {
        let owned = name.to_string();
        let mut i: usize = self.entries.len();
        while i > 0
            invariant
                i <= self.entries@.len(),
                owned@ == name@,
                forall|j: int| i <= j < self.entries@.len() ==> (#[trigger] self.entries@[j]).0@ != name@,
            decreases i,
        {
            i = i - 1;
            if self.entries[i].0 == owned {
                proof {
                    lemma_map_of_prefix(self.entries@, i + 1, name@);
                    assert(self.entries@.take(i + 1).drop_last() =~= self.entries@.take(i as int));
                    assert(self.entries@.take(i + 1).last() == self.entries@[i as int]);
                }
                return Some(self.entries[i].1);
            }
        }
        proof {
            lemma_map_of_prefix(self.entries@, 0, name@);
            assert(self.entries@.take(0) =~= Seq::<(String, TextureRef)>::empty());
        }
        None
    }
}

} // verus!
