//! Line editor and history store.
//!
//! The editor owns one in-progress line of at most `MAX_INPUT - 1` bytes
//! and a cursor offset inside it, plus a bounded history of previously
//! submitted lines, most recent first, browsable with a browse index and a
//! browsing flag. Out-of-range operations clamp silently: inserting into a
//! full line, deleting at the start, and moving past either end do
//! nothing.

use vstd::prelude::*;

use crate::commands::spec_trim_start;
use crate::commands::trim_start_idx;

verus! {

/// The input buffer's capacity; a line holds at most `MAX_INPUT - 1` bytes.
pub const MAX_INPUT: usize = 256;

/// How many past lines the history retains.
pub const MAX_HISTORY: usize = 10;

/// Mathematical model of the editor: the line, the cursor offset, and the
/// history with its browse state.
pub ghost struct EditorView {
    pub buffer: Seq<u8>,
    pub cursor: int,
    pub history: Seq<Seq<u8>>,
    pub history_index: int,
    pub browsing: bool,
}

impl EditorView {
    /// The editor invariant: the line fits, the cursor is inside it, the
    /// history fits and its entries fit, and while browsing the browse
    /// index points at an entry.
    pub open spec fn wf(self) -> bool {
        &&& self.buffer.len() <= MAX_INPUT - 1
        &&& 0 <= self.cursor <= self.buffer.len()
        &&& self.history.len() <= MAX_HISTORY
        &&& forall|i: int|
            0 <= i < self.history.len() ==> #[trigger] self.history[i].len() <= MAX_INPUT - 1
        &&& 0 <= self.history_index
        &&& (self.browsing ==> self.history_index < self.history.len())
    }
}

/// The history after one submitted line is pushed to the front: existing
/// entries shift down one place, and whatever is pushed beyond the
/// capacity is discarded.
pub open spec fn push_history(h: Seq<Seq<u8>>, l: Seq<u8>) -> Seq<Seq<u8>> {
    if h.len() < MAX_HISTORY {
        seq![l] + h
    } else {
        seq![l] + h.take(MAX_HISTORY - 1)
    }
}

/// The history that a run of submitted lines leaves behind, starting from
/// an empty store, oldest line submitted first.
pub open spec fn fold_submits(lines: Seq<Seq<u8>>) -> Seq<Seq<u8>>
    decreases lines.len(),
{
    if lines.len() == 0 {
        Seq::empty()
    } else {
        push_history(fold_submits(lines.drop_last()), lines.last())
    }
}

/// Submitting any run of lines retains exactly the `MAX_HISTORY` most
/// recent, ordered most recent first; the older excess is gone.
pub proof fn lemma_history_retention(lines: Seq<Seq<u8>>)
    ensures
        fold_submits(lines).len() == if lines.len() <= MAX_HISTORY {
            lines.len() as int
        } else {
            MAX_HISTORY as int
        },
        forall|i: int|
            0 <= i < fold_submits(lines).len() ==> #[trigger] fold_submits(lines)[i]
                == lines[lines.len() - 1 - i],
    decreases lines.len(),
{
    if lines.len() > 0 {
        lemma_history_retention(lines.drop_last());
        let h = fold_submits(lines.drop_last());
        let r = fold_submits(lines);
        assert(r == push_history(h, lines.last()));
        assert forall|i: int| 0 <= i < r.len() implies #[trigger] r[i]
            == lines[lines.len() - 1 - i] by {
            if i == 0 {
                assert(r[0] == lines.last());
            } else {
                assert(r[i] == h[i - 1]);
                assert(h[i - 1] == lines.drop_last()[lines.drop_last().len() - 1 - (i - 1)]);
            }
        }
    }
}

/// Copies a byte buffer.
pub fn copy_buffer(src: &[u8]) -> (dst: Vec<u8>)
    ensures
        dst@ == src@,
{
    let mut dst: Vec<u8> = Vec::new();
    let mut i: usize = 0;
    while i < src.len()
        invariant
            i <= src@.len(),
            dst@ == src@.take(i as int),
        decreases src@.len() - i,
    {
        dst.push(src[i]);
        proof {
            assert(src@.take(i + 1) =~= src@.take(i as int).push(src@[i as int]));
        }
        i += 1;
    }
    proof {
        assert(src@.take(src@.len() as int) =~= src@);
    }
    dst
}

/// The editor state: the line being edited, the cursor offset, and the
/// history store with its browse state.
pub struct Editor {
    buffer: Vec<u8>,
    cursor: usize,
    history: Vec<Vec<u8>>,
    history_index: usize,
    browsing: bool,
}

impl View for Editor {
    type V = EditorView;

    closed spec fn view(&self) -> EditorView {
        EditorView {
            buffer: self.buffer@,
            cursor: self.cursor as int,
            history: self.history.deep_view(),
            history_index: self.history_index as int,
            browsing: self.browsing,
        }
    }
}

impl Editor {
    /// The editor invariant, stated over the model.
    pub open spec fn wf(&self) -> bool {
        self@.wf()
    }

    /// A fresh editor: empty line, empty history, not browsing.
    pub fn new() -> (e: Editor)
        ensures
            e.wf(),
            e@.buffer.len() == 0,
            e@.cursor == 0,
            e@.history.len() == 0,
            e@.history_index == 0,
            !e@.browsing,
    {
        let e = Editor {
            buffer: Vec::new(),
            cursor: 0,
            history: Vec::new(),
            history_index: 0,
            browsing: false,
        };
        proof {
            assert(e.history.deep_view() =~= Seq::<Seq<u8>>::empty());
        }
        e
    }

    /// Inserts a byte at the cursor, shifting the tail right; a no-op when
    /// the line is full.
    pub fn insert_char(&mut self, c: u8)
        requires
            old(self).wf(),
        ensures
            final(self).wf(),
            final(self)@.history == old(self)@.history,
            final(self)@.history_index == old(self)@.history_index,
            final(self)@.browsing == old(self)@.browsing,
            old(self)@.buffer.len() == MAX_INPUT - 1 ==> final(self)@.buffer == old(self)@.buffer
                && final(self)@.cursor == old(self)@.cursor,
            old(self)@.buffer.len() < MAX_INPUT - 1 ==> final(self)@.buffer
                == old(self)@.buffer.insert(old(self)@.cursor, c)
                && final(self)@.cursor == old(self)@.cursor + 1,
    {
        if self.buffer.len() >= MAX_INPUT - 1 {
            return;
        }
        self.buffer.insert(self.cursor, c);
        self.cursor = self.cursor + 1;
    }

    /// Removes the byte before the cursor, shifting the tail left; a no-op
    /// at the start of the line.
    pub fn delete_char(&mut self)
        requires
            old(self).wf(),
        ensures
            final(self).wf(),
            final(self)@.history == old(self)@.history,
            final(self)@.history_index == old(self)@.history_index,
            final(self)@.browsing == old(self)@.browsing,
            old(self)@.cursor == 0 ==> final(self)@.buffer == old(self)@.buffer
                && final(self)@.cursor == 0,
            old(self)@.cursor > 0 ==> final(self)@.buffer == old(self)@.buffer.remove(
                old(self)@.cursor - 1,
            ) && final(self)@.cursor == old(self)@.cursor - 1,
    {
        if self.cursor == 0 {
            return;
        }
        self.buffer.remove(self.cursor - 1);
        self.cursor = self.cursor - 1;
    }

    /// Moves the cursor one place left; a no-op at the start.
    pub fn move_cursor_left(&mut self)
        requires
            old(self).wf(),
        ensures
            final(self).wf(),
            final(self)@.buffer == old(self)@.buffer,
            final(self)@.history == old(self)@.history,
            final(self)@.history_index == old(self)@.history_index,
            final(self)@.browsing == old(self)@.browsing,
            final(self)@.cursor == if old(self)@.cursor > 0 {
                old(self)@.cursor - 1
            } else {
                0
            },
    {
        if self.cursor > 0 {
            self.cursor = self.cursor - 1;
        }
    }

    /// Moves the cursor one place right; a no-op at the end of the line.
    pub fn move_cursor_right(&mut self)
        requires
            old(self).wf(),
        ensures
            final(self).wf(),
            final(self)@.buffer == old(self)@.buffer,
            final(self)@.history == old(self)@.history,
            final(self)@.history_index == old(self)@.history_index,
            final(self)@.browsing == old(self)@.browsing,
            final(self)@.cursor == if old(self)@.cursor < old(self)@.buffer.len() {
                old(self)@.cursor + 1
            } else {
                old(self)@.cursor
            },
    {
        if self.cursor < self.buffer.len() {
            self.cursor = self.cursor + 1;
        }
    }

    /// Pushes the current line to the front of the history, unless it is
    /// blank after trimming: a blank submit leaves no entry.
    pub fn add_to_history(&mut self)
        requires
            old(self).wf(),
        ensures
            final(self).wf(),
            final(self)@.buffer == old(self)@.buffer,
            final(self)@.cursor == old(self)@.cursor,
            final(self)@.history_index == old(self)@.history_index,
            final(self)@.browsing == old(self)@.browsing,
            final(self)@.history == if spec_trim_start(old(self)@.buffer).len() == 0 {
                old(self)@.history
            } else {
                push_history(old(self)@.history, old(self)@.buffer)
            },
    {
        let ws = trim_start_idx(self.buffer.as_slice());
        if ws == self.buffer.len() {
            proof {
                assert(spec_trim_start(self@.buffer).len() == 0);
            }
            return;
        }
        proof {
            assert(spec_trim_start(self@.buffer).len() > 0);
        }
        let entry = copy_buffer(self.buffer.as_slice());
        let ghost pre_hist = self.history.deep_view();
        self.history.insert(0, entry);
        proof {
            assert(self.history.deep_view() =~~= seq![old(self)@.buffer] + pre_hist);
        }
        if self.history.len() > MAX_HISTORY {
            let ghost mid_hist = self.history.deep_view();
            self.history.truncate(MAX_HISTORY);
            proof {
                assert(self.history.deep_view() =~~= mid_hist.take(MAX_HISTORY as int));
                assert(mid_hist.take(MAX_HISTORY as int) =~~= seq![old(self)@.buffer] + pre_hist.take(
                    MAX_HISTORY - 1,
                ));
            }
        }
        proof {
            assert(self.history.deep_view() =~~= push_history(pre_hist, old(self)@.buffer));
        }
    }

    /// Replaces the line with the history entry at `index`, cursor at its
    /// end; a no-op when `index` is out of range.
    pub fn load_from_history(&mut self, index: usize)
        requires
            old(self).wf(),
        ensures
            final(self).wf(),
            final(self)@.history == old(self)@.history,
            final(self)@.history_index == old(self)@.history_index,
            final(self)@.browsing == old(self)@.browsing,
            index < old(self)@.history.len() ==> final(self)@.buffer
                == old(self)@.history[index as int]
                && final(self)@.cursor == old(self)@.history[index as int].len(),
            index >= old(self)@.history.len() ==> final(self)@.buffer == old(self)@.buffer
                && final(self)@.cursor == old(self)@.cursor,
    {
        if index < self.history.len() {
            let entry = copy_buffer(self.history[index].as_slice());
            proof {
                assert(entry@ == self@.history[index as int]);
            }
            self.cursor = entry.len();
            self.buffer = entry;
        }
    }

    /// The "recall older" step: starts browsing at the most recent entry,
    /// or moves one entry older, clamping at the oldest; loads that entry
    /// into the line. Does nothing when the history is empty. Returns
    /// whether the line was reloaded.
    pub fn recall_older(&mut self) -> (r: bool)
        requires
            old(self).wf(),
        ensures
            final(self).wf(),
            final(self)@.history == old(self)@.history,
            r == (old(self)@.history.len() > 0),
            old(self)@.history.len() == 0 ==> final(self)@ == old(self)@,
            old(self)@.history.len() > 0 ==> ({
                let idx = if !old(self)@.browsing {
                    0
                } else if old(self)@.history_index < old(self)@.history.len() - 1 {
                    old(self)@.history_index + 1
                } else {
                    old(self)@.history_index
                };
                &&& final(self)@.browsing
                &&& final(self)@.history_index == idx
                &&& final(self)@.buffer == old(self)@.history[idx]
                &&& final(self)@.cursor == old(self)@.history[idx].len()
            }),
    {
        if self.history.len() == 0 {
            return false;
        }
        if !self.browsing {
            self.browsing = true;
            self.history_index = 0;
        } else if self.history_index < self.history.len() - 1 {
            self.history_index = self.history_index + 1;
        }
        let idx = self.history_index;
        self.load_from_history(idx);
        true
    }

    /// The "recall newer" step: moves one entry newer while browsing and
    /// loads it; at the most recent entry, or when not browsing, the line
    /// is left unchanged. Returns whether the line was reloaded.
    pub fn recall_newer(&mut self) -> (r: bool)
        requires
            old(self).wf(),
        ensures
            final(self).wf(),
            final(self)@.history == old(self)@.history,
            r == (old(self)@.browsing && old(self)@.history_index > 0),
            !r ==> final(self)@ == old(self)@,
            r ==> ({
                let idx = old(self)@.history_index - 1;
                &&& final(self)@.browsing
                &&& final(self)@.history_index == idx
                &&& final(self)@.buffer == old(self)@.history[idx]
                &&& final(self)@.cursor == old(self)@.history[idx].len()
            }),
    {
        if self.browsing && self.history_index > 0 {
            self.history_index = self.history_index - 1;
            let idx = self.history_index;
            self.load_from_history(idx);
            true
        } else {
            false
        }
    }

    /// Empties the line and leaves history browsing, as a submit does.
    pub fn reset_line(&mut self)
        requires
            old(self).wf(),
        ensures
            final(self).wf(),
            final(self)@.history == old(self)@.history,
            final(self)@.buffer.len() == 0,
            final(self)@.cursor == 0,
            final(self)@.history_index == 0,
            !final(self)@.browsing,
    {
        self.buffer = Vec::new();
        self.cursor = 0;
        self.history_index = 0;
        self.browsing = false;
    }

    /// Leaves history browsing without touching the line, as typing does.
    pub fn stop_browsing(&mut self)
        requires
            old(self).wf(),
        ensures
            final(self).wf(),
            final(self)@.buffer == old(self)@.buffer,
            final(self)@.cursor == old(self)@.cursor,
            final(self)@.history == old(self)@.history,
            final(self)@.history_index == old(self)@.history_index,
            !final(self)@.browsing,
    {
        self.browsing = false;
    }

    /// A copy of the line.
    pub fn buffer_copy(&self) -> (v: Vec<u8>)
        ensures
            v@ == self@.buffer,
    {
        copy_buffer(self.buffer.as_slice())
    }

    /// The line's length.
    pub fn buffer_len(&self) -> (r: usize)
        ensures
            r == self@.buffer.len(),
    {
        self.buffer.len()
    }

    /// The cursor offset within the line.
    pub fn cursor(&self) -> (r: usize)
        ensures
            r == self@.cursor,
    {
        self.cursor
    }

    /// How many entries the history holds.
    pub fn history_count(&self) -> (r: usize)
        ensures
            r == self@.history.len(),
    {
        self.history.len()
    }

    /// A copy of the history entry at `index`, most recent first.
    pub fn history_entry(&self, index: usize) -> (v: Vec<u8>)
        requires
            index < self@.history.len(),
        ensures
            v@ == self@.history[index as int],
    {
        let v = copy_buffer(self.history[index].as_slice());
        proof {
            assert(v@ == self@.history[index as int]);
        }
        v
    }

    /// Whether the editor is browsing the history.
    pub fn is_browsing(&self) -> (r: bool)
        ensures
            r == self@.browsing,
    {
        self.browsing
    }

    /// The browse index.
    pub fn history_index(&self) -> (r: usize)
        ensures
            r == self@.history_index,
    {
        self.history_index
    }
}

} // verus!
