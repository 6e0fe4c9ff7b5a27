//! Where the renderer keeps converted textures: one texture array per
//! square size from 8 to 1024 texels, and in each array the layers that
//! textures occupy.
use vstd::prelude::*;

verus! {

/// The sides of the square texture arrays, smallest first.
pub open spec fn array_side(index: int) -> u32 {
    if index == 0 { 8 } else if index == 1 { 16 } else if index == 2 { 32 } else if index == 3 { 64 }
    else if index == 4 { 128 } else if index == 5 { 256 } else if index == 6 { 512 } else { 1024 }
}

/// Whether `size` is the side of one of the texture arrays.
pub open spec fn is_array_side(size: u32) -> bool {
    exists|i: int| 0 <= i < 8 && #[trigger] array_side(i) == size
}

/// The texture array for a texture whose larger side is `size`: the one
/// with that side.
pub fn texture_array_index(size: u32) -> (r: usize)
    requires
        is_array_side(size),
    ensures
        r < 8,
        array_side(r as int) == size,
{
    if size == 8 {
        0
    } else if size == 16 {
        1
    } else if size == 32 {
        2
    } else if size == 64 {
        3
    } else if size == 128 {
        4
    } else if size == 256 {
        5
    } else if size == 512 {
        6
    } else {
        7
    }
}

/// Whether placing texture `id` in layers `a` gives layers `b` and choice
/// `c`: the layer that already holds it; else the first free layer, which
/// it takes; else `Full`.
pub open spec fn placed(a: Seq<Option<u64>>, b: Seq<Option<u64>>, id: u64, c: SlotChoice) -> bool {
    match c {
        SlotChoice::Present(i) => {
            &&& i < a.len()
            &&& a[i as int] == Some(id)
            &&& b == a
        },
        SlotChoice::Placed(i) => {
            &&& i < a.len()
            &&& a[i as int] is None
            &&& forall|j: int| 0 <= j < i ==> #[trigger] a[j] is Some
            &&& forall|j: int| 0 <= j < a.len() ==> #[trigger] a[j] != Some(id)
            &&& b == a.update(i as int, Some(id))
        },
        SlotChoice::Full => {
            &&& forall|j: int| 0 <= j < a.len() ==> #[trigger] a[j] is Some && a[j] != Some(id)
            &&& b == a
        },
    }
}

/// The larger of two sides.
pub open spec fn larger(a: u32, b: u32) -> u32 {
    if a >= b { a } else { b }
}

/// Places a texture of the given size in the texture array of its larger
/// side (`arrays` holds the eight arrays, smallest first); answers the array
/// and where the texture goes in it. The other arrays are left as they are.
pub fn place_texture(arrays: &mut Vec<TextureSlots>, width: u32, height: u32, id: u64) -> (r: (usize, SlotChoice))
    requires
        old(arrays)@.len() == 8,
        is_array_side(larger(width, height)),
    ensures
        r.0 < 8,
        array_side(r.0 as int) == larger(width, height),
        final(arrays)@.len() == 8,
        placed(old(arrays)@[r.0 as int].layers@, final(arrays)@[r.0 as int].layers@, id, r.1),
        forall|k: int| 0 <= k < 8 && k != r.0 ==> #[trigger] final(arrays)@[k] == old(arrays)@[k],
{
    let side = if width >= height { width } else { height };
    let index = texture_array_index(side);
    let mut slot = TextureSlots { layers: Vec::new() };
    let ghost before = arrays@;
    std::mem::swap(&mut slot, &mut arrays[index]);
    let choice = slot.place(id);
    std::mem::swap(&mut slot, &mut arrays[index]);
    proof {
        assert forall|k: int| 0 <= k < 8 && k != index implies #[trigger] arrays@[k] == before[k] by {}
    }
    (index, choice)
}

/// The layers of one texture array: the texture each holds, if any.
#[derive(Clone, Debug)]
pub struct TextureSlots {
    pub layers: Vec<Option<u64>>,
}

/// Where a texture goes in an array.
#[derive(Copy, Clone, Debug, PartialEq, Eq, Structural)]
pub enum SlotChoice {
    /// It is already in this layer: nothing to upload.
    Present(usize),
    /// It now takes this layer, the first free one: upload it there.
    Placed(usize),
    /// No layer is free.
    Full,
}

impl TextureSlots {
    /// An array of `count` empty layers.
    pub fn new(count: usize) -> (r: Self)
        ensures
            r.layers@ == Seq::new(count as nat, |i: int| None::<u64>),
    {
        let mut layers: Vec<Option<u64>> = Vec::new();
        let mut i: usize = 0;
        while i < count
            invariant
                i <= count,
                layers@ == Seq::new(i as nat, |j: int| None::<u64>),
            decreases count - i,
        {
            layers.push(None);
            i += 1;
            proof {
                assert(layers@ =~= Seq::new(i as nat, |j: int| None::<u64>));
            }
        }
        TextureSlots { layers }
    }

    /// Finds or makes the layer of texture `id`: the layer that holds it,
    /// else the first free layer, which it then takes; `Full` when it is in
    /// none and none is free.
    pub fn place(&mut self, id: u64) -> (r: SlotChoice)
        ensures
            placed(old(self).layers@, final(self).layers@, id, r),
    {
        let n = self.layers.len();
        let mut free: Option<usize> = None;
        let mut i: usize = 0;
        while i < n
            invariant
                n == self.layers@.len(),
                i <= n,
                self.layers@ == old(self).layers@,
                forall|j: int| 0 <= j < i ==> #[trigger] self.layers@[j] != Some(id),
                match free {
                    Some(f) => f < i && self.layers@[f as int] is None
                        && forall|j: int| 0 <= j < f ==> #[trigger] self.layers@[j] is Some,
                    None => forall|j: int| 0 <= j < i ==> #[trigger] self.layers@[j] is Some,
                },
            decreases n - i,
        {
            match self.layers[i] {
                Some(t) => {
                    if t == id {
                        return SlotChoice::Present(i);
                    }
                },
                None => {
                    if free.is_none() {
                        free = Some(i);
                    }
                },
            }
            i += 1;
        }
        match free {
            Some(f) => {
                self.layers.set(f, Some(id));
                SlotChoice::Placed(f)
            },
            None => SlotChoice::Full,
        }
    }

    /// Frees the layer of texture `id`, if it has one.
    pub fn remove(&mut self, id: u64)
        ensures
            final(self).layers@.len() == old(self).layers@.len(),
            forall|j: int| 0 <= j < old(self).layers@.len() ==> #[trigger] final(self).layers@[j] == if old(self).layers@[j] == Some(id) {
                None
            } else {
                old(self).layers@[j]
            },
    {
        let n = self.layers.len();
        let mut i: usize = 0;
        while i < n
            invariant
                n == self.layers@.len() == old(self).layers@.len(),
                i <= n,
                forall|j: int| 0 <= j < i ==> #[trigger] self.layers@[j] == if old(self).layers@[j] == Some(id) {
                    None
                } else {
                    old(self).layers@[j]
                },
                forall|j: int| i <= j < n ==> #[trigger] self.layers@[j] == old(self).layers@[j],
            decreases n - i,
        {
            if self.layers[i] == Some(id) {
                self.layers.set(i, None);
            }
            i += 1;
        }
    }
}

} // verus!
