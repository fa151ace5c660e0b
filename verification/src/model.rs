use vstd::prelude::*;

use crate::color::RGB;
use crate::console::{DrawCall, RebuildAction};
use crate::geometry::{store_indices, store_vertices, Vertex, MAX_BUILT_QUADS, MAX_QUADS};
use crate::grid::Grid;
use crate::sparse_console::{BufferHandles, SparseTile};

verus! {

/// The mathematical state of a sparse console.
pub struct ConsoleState {
    pub grid: Grid,
    /// The stored cells in drawing order: a later entry covers an earlier one
    /// at the same index.
    pub tiles: Seq<SparseTile>,
    /// Whether the store has changed since the buffers were last built.
    pub dirty: bool,
    pub vertices: Seq<Vertex>,
    pub indices: Seq<i32>,
    pub handles: BufferHandles,
}

impl ConsoleState {
    /// The state of a new console: nothing stored, nothing built, and dirty,
    /// so that the first frame builds.
    pub open spec fn initial(width: nat, height: nat, handles: BufferHandles) -> ConsoleState {
        ConsoleState {
            grid: Grid { width, height },
            tiles: Seq::empty(),
            dirty: true,
            vertices: Seq::empty(),
            indices: Seq::empty(),
            handles,
        }
    }

    /// Every index fits in 32 bits, every stored cell lies on the grid, and a
    /// clean console holds its geometry in its cache: the store is small
    /// enough to be built, and unless it is empty the cached buffers are
    /// those of the store.
    pub open spec fn wf(self) -> bool {
        &&& self.grid.cells() <= u32::MAX
        &&& self.grid.holds(self.tiles)
        &&& !self.dirty ==> self.buildable()
        &&& !self.dirty && self.tiles.len() > 0 ==> {
            &&& self.vertices == store_vertices(self.grid.width as int, self.tiles)
            &&& self.indices == store_indices(self.tiles.len())
        }
    }

    /// The console with its cache marked as stale.
    pub open spec fn invalidated(self) -> ConsoleState {
        ConsoleState { dirty: true, ..self }
    }

    /// The one way in which the store grows: new entries go behind the old
    /// ones, and the console is dirty.
    pub open spec fn appended(self, tiles: Seq<SparseTile>) -> ConsoleState {
        ConsoleState { tiles: self.tiles + tiles, dirty: true, ..self }
    }

    /// The console after its store was emptied.
    pub open spec fn cleared(self) -> ConsoleState {
        ConsoleState { tiles: Seq::empty(), dirty: true, ..self }
    }

    /// Whether the store holds an entry at the index `idx`.
    pub open spec fn has_cell(self, idx: int) -> bool {
        exists|k: int| 0 <= k < self.tiles.len() && (#[trigger] self.tiles[k]).idx == idx
    }

    /// The console after the topmost entry at `(x, y)` got the background
    /// `bg`. No entry is added.
    pub open spec fn with_background(self, x: int, y: int, bg: RGB) -> ConsoleState {
        let k = last_position(self.tiles, self.grid.cell_index(x, y));
        ConsoleState {
            tiles: self.tiles.update(k, SparseTile { bg, ..self.tiles[k] }),
            dirty: true,
            ..self
        }
    }

    /// Whether the geometry of the whole store can be built.
    pub open spec fn buildable(self) -> bool {
        self.tiles.len() <= MAX_BUILT_QUADS
    }

    /// Whether one draw call can take the whole store.
    pub open spec fn drawable(self) -> bool {
        self.tiles.len() <= MAX_QUADS
    }

    /// What a rebuild asks of the graphics owner: an upload if the console is
    /// dirty and holds anything.
    pub open spec fn rebuild_action(self) -> RebuildAction {
        if self.dirty && self.tiles.len() > 0 {
            RebuildAction::Upload
        } else {
            RebuildAction::Keep
        }
    }

    /// The console after a rebuild that was asked for. A clean console stays
    /// as it is; an empty store leaves the cached buffers untouched; any other
    /// store replaces them by its geometry.
    pub open spec fn rebuilt(self) -> ConsoleState {
        if self.dirty && self.tiles.len() > 0 {
            ConsoleState {
                dirty: false,
                vertices: store_vertices(self.grid.width as int, self.tiles),
                indices: store_indices(self.tiles.len()),
                ..self
            }
        } else {
            ConsoleState { dirty: false, ..self }
        }
    }

    /// The draw call that a console issues for its frame: six indices for
    /// every stored cell, after what a rebuild asks for.
    pub open spec fn draw_call(self) -> DrawCall {
        DrawCall { action: self.rebuild_action(), index_count: (6 * self.tiles.len()) as i32 }
    }
}

/// The position of the last entry at the index `idx`, or -1 where there is
/// none.
pub open spec fn last_position(tiles: Seq<SparseTile>, idx: int) -> int
    decreases tiles.len(),
{
    if tiles.len() == 0 {
        -1
    } else if tiles.last().idx == idx {
        tiles.len() - 1
    } else {
        last_position(tiles.drop_last(), idx)
    }
}

/// `last_position` finds an entry exactly where there is one, and then the
/// one behind which no other entry has the index.
pub proof fn lemma_last_position(tiles: Seq<SparseTile>, idx: int)
    ensures
        -1 <= last_position(tiles, idx) < tiles.len(),
        last_position(tiles, idx) >= 0 <==> exists|k: int|
            0 <= k < tiles.len() && (#[trigger] tiles[k]).idx == idx,
        last_position(tiles, idx) >= 0 ==> tiles[last_position(tiles, idx)].idx == idx,
        forall|j: int|
            last_position(tiles, idx) < j < tiles.len() ==> (#[trigger] tiles[j]).idx != idx,
    decreases tiles.len(),
{
    if tiles.len() > 0 && tiles.last().idx != idx {
        lemma_last_position(tiles.drop_last(), idx);
        assert forall|j: int| last_position(tiles, idx) < j < tiles.len() implies (
        #[trigger] tiles[j]).idx != idx by {
            if j < tiles.len() - 1 {
                assert(tiles.drop_last()[j] == tiles[j]);
            }
        }
    }
}

/// An entry at `idx` behind which no other entry has that index is the one
/// that `last_position` finds.
pub proof fn lemma_last_position_found(tiles: Seq<SparseTile>, idx: int, k: int)
    requires
        0 <= k < tiles.len(),
        tiles[k].idx == idx,
        forall|j: int| k < j < tiles.len() ==> (#[trigger] tiles[j]).idx != idx,
    ensures
        last_position(tiles, idx) == k,
{
    lemma_last_position(tiles, idx);
}

/// Appending in two steps is appending the two runs as one.
pub proof fn lemma_appended_twice(s: ConsoleState, a: Seq<SparseTile>, b: Seq<SparseTile>)
    ensures
        s.appended(a).appended(b) == s.appended(a + b),
{
    assert((s.tiles + a) + b =~= s.tiles + (a + b));
}

/// Appending the next entry of a run to its first `k` entries gives its first
/// `k + 1` entries.
pub proof fn lemma_appended_next(s: ConsoleState, run: Seq<SparseTile>, k: int)
    requires
        0 <= k < run.len(),
    ensures
        s.appended(run.take(k)).appended(seq![run[k]]) == s.appended(run.take(k + 1)),
{
    assert(run.take(k) + seq![run[k]] =~= run.take(k + 1));
    lemma_appended_twice(s, run.take(k), seq![run[k]]);
}

} // verus!
