use crate::coords::BlockCoord;
use vstd::prelude::*;

verus! {

/// The block that is picked out, if one is, and the four words that tell
/// the renderer of it.
#[derive(Debug)]
pub struct SelectedBlock {
    coord: Option<BlockCoord>,
    uniform: [u32; 4],
}

/// The words for a choice: all zero for none; else 1, then the column and
/// the row of the block, each cut to 32 bits, then the fourth word as it
/// was.
pub open spec fn selection_words(coord: Option<BlockCoord>, before: Seq<u32>) -> Seq<u32> {
    match coord {
        Some(coord) => seq![1u32, (coord@.0 & 0xffff_ffff) as u32, coord@.1 as u32, before[3]],
        None => seq![0u32, 0u32, 0u32, 0u32],
    }
}

impl SelectedBlock {
    /// The block that is picked out.
    pub closed spec fn picked(&self) -> Option<BlockCoord> {
        self.coord
    }

    /// The four words for the renderer.
    pub closed spec fn words(&self) -> Seq<u32> {
        self.uniform@
    }

    pub fn new() -> (selected: Self)
        ensures
            selected.picked() is None,
            selected.words() == seq![0u32, 0u32, 0u32, 0u32],
    {
        let selected = Self { coord: None, uniform: [0;4] };
        assert(selected.uniform@ =~= seq![0u32, 0u32, 0u32, 0u32]);
        selected
    }

    pub fn coord(&self) -> (coord: &Option<BlockCoord>)
        ensures
            *coord == self.picked(),
    {
        &self.coord
    }

    pub fn uniform(&self) -> (words: &[u32; 4])
        ensures
            words@ == self.words(),
    {
        &self.uniform
    }

    /// Picks a block out. To pick the block that is picked out already,
    /// or nothing while nothing is picked out, is to let go of it.
    pub fn update(&mut self, new_coord: Option<BlockCoord>)
        ensures
            final(self).picked() == if new_coord == old(self).picked() {
                None
            } else {
                new_coord
            },
            final(self).words() == selection_words(final(self).picked(), old(self).words()),
    {
        let same = match (&new_coord, &self.coord) {
            (Some(new), Some(old)) => new.x() == old.x() && new.y() == old.y(),
            (None, None) => true,
            _ => false,
        };
        proof {
            BlockCoord::lemma_view_tells(new_coord, self.coord);
        }
        if same {
            self.coord = None;
            self.uniform = [0;4];
        } else {
            self.coord = new_coord;
            match &self.coord {
                Some(coord) => {
                    let x: u64 = coord.x();
                    let y: u16 = coord.y();
                    assert(x & 0xffff_ffff <= 0xffff_ffff) by (bit_vector);
                    self.uniform[0] = 1;
                    self.uniform[1] = (x & 0xffff_ffff) as u32;
                    self.uniform[2] = y as u32;
                },
                None => {
                    self.uniform = [0;4];
                },
            }
        }
        assert(self.uniform@ =~= selection_words(self.coord, old(self).uniform@));
    }
}

} // verus!
