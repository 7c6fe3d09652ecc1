//! The shell loop's state and decisions.
//!
//! The shell owns the display and the line editor, routes key events to
//! them, and on Enter submits the line to the command dispatcher. It is
//! pure state transformation: the caller reads keys from the hardware,
//! hands each decoded event to `handle_key`, performs the returned
//! hardware action, and flushes the display.

use vstd::prelude::*;

use crate::commands::spec_process_outcome;
use crate::commands::spec_trim_start;
use crate::commands::process_cmd;
use crate::commands::HwAction;
use crate::editor::push_history;
use crate::editor::Editor;
use crate::editor::EditorView;
use crate::editor::MAX_INPUT;
use crate::keyboard::KEY_DOWN;
use crate::keyboard::KEY_LEFT;
use crate::keyboard::KEY_RIGHT;
use crate::keyboard::KEY_UP;
use crate::vga::blank_grid;
use crate::vga::cell_of;
use crate::vga::spec_print;
use crate::vga::spec_putchar;
use crate::vga::spec_rewrite;
use crate::vga::Display;
use crate::vga::DisplayView;
use crate::vga::BACKSPACE;
use crate::vga::BLANK_CELL;
use crate::vga::NEWLINE;
use crate::vga::VGA_WIDTH;

verus! {

/// Width of the prompt: the input line starts at this column.
pub const PROMPT_LEN: usize = 2;

/// The bytes of `"> "`.
pub open spec fn prompt_text() -> Seq<u8> {
    seq![62u8, 32u8]
}

fn build_prompt_text() -> (v: Vec<u8>)
    ensures
        v@ == prompt_text(),
{
    let mut v: Vec<u8> = Vec::new();
    v.push(62);
    v.push(32);
    proof {
        assert(v@ =~= prompt_text());
    }
    v
}

/// The bytes of `"Kernel Rust 64-bit iniciado!\n"`.
pub open spec fn banner_text() -> Seq<u8> {
    seq![
        75u8, 101u8, 114u8, 110u8, 101u8, 108u8, 32u8, 82u8, 117u8, 115u8, 116u8, 32u8, 54u8,
        52u8, 45u8, 98u8, 105u8, 116u8, 32u8, 105u8, 110u8, 105u8, 99u8, 105u8, 97u8, 100u8,
        111u8, 33u8, 10u8,
    ]
}

fn build_banner_text() -> (v: Vec<u8>)
    ensures
        v@ == banner_text(),
{
    let mut v: Vec<u8> = Vec::new();
    v.push(75);
    v.push(101);
    v.push(114);
    v.push(110);
    v.push(101);
    v.push(108);
    v.push(32);
    v.push(82);
    v.push(117);
    v.push(115);
    v.push(116);
    v.push(32);
    v.push(54);
    v.push(52);
    v.push(45);
    v.push(98);
    v.push(105);
    v.push(116);
    v.push(32);
    v.push(105);
    v.push(110);
    v.push(105);
    v.push(99);
    v.push(105);
    v.push(97);
    v.push(100);
    v.push(111);
    v.push(33);
    v.push(10);
    proof {
        assert(v@ =~= banner_text());
    }
    v
}

/// Mathematical model of the shell: the display and the editor.
pub ghost struct ShellView {
    pub disp: DisplayView,
    pub ed: EditorView,
}

/// Whether the line, drawn after the prompt, fits on one display row with
/// at least one blank cell after it.
pub open spec fn line_fits(buf: Seq<u8>) -> bool {
    PROMPT_LEN + buf.len() < VGA_WIDTH
}

/// The display shows the line: on the cursor's row, the cells after the
/// prompt hold exactly the line's bytes and then blanks, and the cursor
/// column is the prompt width plus the cursor offset.
pub open spec fn echoed(d: DisplayView, buf: Seq<u8>, cursor: int) -> bool {
    &&& forall|c: int|
        PROMPT_LEN <= c < VGA_WIDTH ==> #[trigger] d.cell(d.y, c) == if c - PROMPT_LEN
            < buf.len() {
            cell_of(buf[c - PROMPT_LEN])
        } else {
            BLANK_CELL
        }
    &&& d.x == PROMPT_LEN + cursor
}

/// The display after the cursor is repositioned to column `x`, clamped to
/// the last column.
pub open spec fn spec_set_x(v: DisplayView, x: int) -> DisplayView {
    DisplayView {
        grid: v.grid,
        x: if x < VGA_WIDTH {
            x
        } else {
            VGA_WIDTH - 1
        },
        y: v.y,
    }
}

/// The display after a full redraw of the line and a cursor reposition.
pub open spec fn spec_redraw(v: DisplayView, buf: Seq<u8>, cursor: int) -> DisplayView {
    spec_set_x(spec_rewrite(v, PROMPT_LEN as int, buf), PROMPT_LEN + cursor)
}

/// The transition of one printable byte: inserted at the cursor (a no-op
/// when the line is full), browsing left, line redrawn.
pub open spec fn insert_step(pre: ShellView, post: ShellView, c: u8) -> bool {
    let nbuf = if pre.ed.buffer.len() < MAX_INPUT - 1 {
        pre.ed.buffer.insert(pre.ed.cursor, c)
    } else {
        pre.ed.buffer
    };
    let ncur = if pre.ed.buffer.len() < MAX_INPUT - 1 {
        pre.ed.cursor + 1
    } else {
        pre.ed.cursor
    };
    &&& post.ed.buffer == nbuf
    &&& post.ed.cursor == ncur
    &&& post.ed.history == pre.ed.history
    &&& post.ed.history_index == pre.ed.history_index
    &&& !post.ed.browsing
    &&& post.disp == spec_redraw(pre.disp, nbuf, ncur)
}

/// The transition of a backspace: the byte before the cursor removed (a
/// no-op at the start), line redrawn.
pub open spec fn backspace_step(pre: ShellView, post: ShellView) -> bool {
    let nbuf = if pre.ed.cursor > 0 {
        pre.ed.buffer.remove(pre.ed.cursor - 1)
    } else {
        pre.ed.buffer
    };
    let ncur = if pre.ed.cursor > 0 {
        pre.ed.cursor - 1
    } else {
        0int
    };
    &&& post.ed.buffer == nbuf
    &&& post.ed.cursor == ncur
    &&& post.ed.history == pre.ed.history
    &&& post.ed.history_index == pre.ed.history_index
    &&& post.ed.browsing == pre.ed.browsing
    &&& post.disp == spec_redraw(pre.disp, nbuf, ncur)
}

/// The transition of a cursor move: the offset clamped one place left or
/// right, only the hardware cursor repositioned.
pub open spec fn move_step(pre: ShellView, post: ShellView, right: bool) -> bool {
    let ncur = if right {
        if pre.ed.cursor < pre.ed.buffer.len() {
            pre.ed.cursor + 1
        } else {
            pre.ed.cursor
        }
    } else {
        if pre.ed.cursor > 0 {
            pre.ed.cursor - 1
        } else {
            0int
        }
    };
    &&& post.ed.buffer == pre.ed.buffer
    &&& post.ed.cursor == ncur
    &&& post.ed.history == pre.ed.history
    &&& post.ed.history_index == pre.ed.history_index
    &&& post.ed.browsing == pre.ed.browsing
    &&& post.disp == spec_set_x(pre.disp, PROMPT_LEN + ncur)
}

/// The transition of the "recall older" key: begin browsing at the most
/// recent entry or step toward the oldest, load it, redraw; nothing
/// happens on an empty history.
pub open spec fn recall_older_step(pre: ShellView, post: ShellView) -> bool {
    if pre.ed.history.len() == 0 {
        post.disp == pre.disp && post.ed == pre.ed
    } else {
        let idx = if !pre.ed.browsing {
            0int
        } else if pre.ed.history_index < pre.ed.history.len() - 1 {
            pre.ed.history_index + 1
        } else {
            pre.ed.history_index
        };
        &&& post.ed.buffer == pre.ed.history[idx]
        &&& post.ed.cursor == pre.ed.history[idx].len()
        &&& post.ed.history == pre.ed.history
        &&& post.ed.history_index == idx
        &&& post.ed.browsing
        &&& post.disp == spec_redraw(pre.disp, pre.ed.history[idx], pre.ed.history[idx].len() as int)
    }
}

/// The transition of the "recall newer" key: step toward the most recent
/// entry, load it, redraw; at the most recent entry, or when not
/// browsing, nothing changes.
pub open spec fn recall_newer_step(pre: ShellView, post: ShellView) -> bool {
    if pre.ed.browsing && pre.ed.history_index > 0 {
        let idx = pre.ed.history_index - 1;
        &&& post.ed.buffer == pre.ed.history[idx]
        &&& post.ed.cursor == pre.ed.history[idx].len()
        &&& post.ed.history == pre.ed.history
        &&& post.ed.history_index == idx
        &&& post.ed.browsing
        &&& post.disp == spec_redraw(pre.disp, pre.ed.history[idx], pre.ed.history[idx].len() as int)
    } else {
        post.disp == pre.disp && post.ed == pre.ed
    }
}

/// The transition of Enter: newline echoed, the line pushed to the
/// history unless blank, the line dispatched, the editor reset, a fresh
/// prompt printed; the action is whatever the dispatcher asked for.
pub open spec fn submit_step(pre: ShellView, post: ShellView, act: HwAction) -> bool {
    let after_nl = spec_putchar(pre.disp, NEWLINE);
    let outcome = spec_process_outcome(after_nl, pre.ed.buffer);
    &&& post.ed.buffer.len() == 0
    &&& post.ed.cursor == 0
    &&& post.ed.history == if spec_trim_start(pre.ed.buffer).len() == 0 {
        pre.ed.history
    } else {
        push_history(pre.ed.history, pre.ed.buffer)
    }
    &&& post.ed.history_index == 0
    &&& !post.ed.browsing
    &&& post.disp == spec_print(outcome.0, prompt_text())
    &&& act == outcome.1
}

/// The transition of one key event, whichever kind it is; events outside
/// every recognized kind change nothing.
pub open spec fn key_step(pre: ShellView, post: ShellView, c: u8, act: HwAction) -> bool {
    if c == NEWLINE {
        submit_step(pre, post, act)
    } else if c == BACKSPACE {
        backspace_step(pre, post) && act == HwAction::Nothing
    } else if c == KEY_LEFT {
        move_step(pre, post, false) && act == HwAction::Nothing
    } else if c == KEY_RIGHT {
        move_step(pre, post, true) && act == HwAction::Nothing
    } else if c == KEY_UP {
        recall_older_step(pre, post) && act == HwAction::Nothing
    } else if c == KEY_DOWN {
        recall_newer_step(pre, post) && act == HwAction::Nothing
    } else if 0x20 <= c < 0x80 {
        insert_step(pre, post, c) && act == HwAction::Nothing
    } else {
        post.disp == pre.disp && post.ed == pre.ed && act == HwAction::Nothing
    }
}

/// Whether a byte is one of the in-line editing events: backspace, a
/// cursor key, or a printable byte.
pub open spec fn is_edit_key(c: u8) -> bool {
    c == BACKSPACE || c == KEY_LEFT || c == KEY_RIGHT || (0x20 <= c && c < 0x80)
}

/// The shell state after one editing key: the transition that `key_step`
/// pins down for backspace, the cursor keys and printable bytes.
pub open spec fn apply_edit_key(pre: ShellView, c: u8) -> ShellView {
    if c == BACKSPACE {
        let nbuf = if pre.ed.cursor > 0 {
            pre.ed.buffer.remove(pre.ed.cursor - 1)
        } else {
            pre.ed.buffer
        };
        let ncur = if pre.ed.cursor > 0 {
            pre.ed.cursor - 1
        } else {
            0int
        };
        ShellView {
            disp: spec_redraw(pre.disp, nbuf, ncur),
            ed: EditorView {
                buffer: nbuf,
                cursor: ncur,
                history: pre.ed.history,
                history_index: pre.ed.history_index,
                browsing: pre.ed.browsing,
            },
        }
    } else if c == KEY_LEFT || c == KEY_RIGHT {
        let ncur = if c == KEY_RIGHT {
            if pre.ed.cursor < pre.ed.buffer.len() {
                pre.ed.cursor + 1
            } else {
                pre.ed.cursor
            }
        } else {
            if pre.ed.cursor > 0 {
                pre.ed.cursor - 1
            } else {
                0int
            }
        };
        ShellView {
            disp: spec_set_x(pre.disp, PROMPT_LEN + ncur),
            ed: EditorView {
                buffer: pre.ed.buffer,
                cursor: ncur,
                history: pre.ed.history,
                history_index: pre.ed.history_index,
                browsing: pre.ed.browsing,
            },
        }
    } else if 0x20 <= c && c < 0x80 {
        let nbuf = if pre.ed.buffer.len() < MAX_INPUT - 1 {
            pre.ed.buffer.insert(pre.ed.cursor, c)
        } else {
            pre.ed.buffer
        };
        let ncur = if pre.ed.buffer.len() < MAX_INPUT - 1 {
            pre.ed.cursor + 1
        } else {
            pre.ed.cursor
        };
        ShellView {
            disp: spec_redraw(pre.disp, nbuf, ncur),
            ed: EditorView {
                buffer: nbuf,
                cursor: ncur,
                history: pre.ed.history,
                history_index: pre.ed.history_index,
                browsing: false,
            },
        }
    } else {
        pre
    }
}

/// The shell state after a run of editing keys, first key first.
pub open spec fn apply_edit_keys(pre: ShellView, keys: Seq<u8>) -> ShellView
    decreases keys.len(),
{
    if keys.len() == 0 {
        pre
    } else {
        apply_edit_key(apply_edit_keys(pre, keys.drop_last()), keys.last())
    }
}

/// What one editing key does, according to `key_step`, is exactly
/// `apply_edit_key`: the contracts of `handle_key` and this law speak of
/// the same transition.
pub proof fn lemma_key_step_is_apply(pre: ShellView, post: ShellView, c: u8, act: HwAction)
    requires
        is_edit_key(c),
        key_step(pre, post, c, act),
    ensures
        post == apply_edit_key(pre, c),
{
}

/// One editing key keeps the displayed line and cursor column equal to
/// the editor's buffer and offset, provided the line (with one byte of
/// slack for an insert) fits on the visible row.
proof fn lemma_edit_key_keeps_sync(pre: ShellView, c: u8)
    requires
        pre.disp.wf(),
        is_edit_key(c),
        0 <= pre.ed.cursor <= pre.ed.buffer.len(),
        echoed(pre.disp, pre.ed.buffer, pre.ed.cursor),
        PROMPT_LEN + pre.ed.buffer.len() + 1 < VGA_WIDTH,
    ensures
        ({
            let post = apply_edit_key(pre, c);
            &&& post.disp.wf()
            &&& 0 <= post.ed.cursor <= post.ed.buffer.len()
            &&& post.ed.buffer.len() <= pre.ed.buffer.len() + 1
            &&& post.ed.history == pre.ed.history
            &&& echoed(post.disp, post.ed.buffer, post.ed.cursor)
        }),
{
    let post = apply_edit_key(pre, c);
    let d = post.disp;
    let nbuf = post.ed.buffer;
    let ncur = post.ed.cursor;
    if c == KEY_LEFT || c == KEY_RIGHT {
        lemma_move_keeps_echo(pre.disp, d, pre.ed.buffer);
    } else {
        let rewritten = spec_rewrite(pre.disp, PROMPT_LEN as int, nbuf);
        assert(d.grid == rewritten.grid);
        assert(d.grid.len() == pre.disp.grid.len());
        assert forall|co: int| PROMPT_LEN <= co < VGA_WIDTH implies #[trigger] d.cell(d.y, co)
            == if co - PROMPT_LEN < nbuf.len() {
            cell_of(nbuf[co - PROMPT_LEN])
        } else {
            BLANK_CELL
        } by {
            assert(d.cell(d.y, co) == rewritten.grid[pre.disp.y * VGA_WIDTH + co]);
        }
    }
}

/// For any run of insert, delete and cursor-move keys that keeps the line
/// short enough for the visible row, the displayed line content and the
/// cursor column always equal the editor's buffer and offset, and the
/// history is untouched.
pub proof fn lemma_edit_run_keeps_sync(pre: ShellView, keys: Seq<u8>)
    requires
        pre.disp.wf(),
        0 <= pre.ed.cursor <= pre.ed.buffer.len(),
        echoed(pre.disp, pre.ed.buffer, pre.ed.cursor),
        forall|i: int| 0 <= i < keys.len() ==> is_edit_key(#[trigger] keys[i]),
        PROMPT_LEN + pre.ed.buffer.len() + keys.len() < VGA_WIDTH,
    ensures
        ({
            let post = apply_edit_keys(pre, keys);
            &&& post.disp.wf()
            &&& 0 <= post.ed.cursor <= post.ed.buffer.len()
            &&& post.ed.buffer.len() <= pre.ed.buffer.len() + keys.len()
            &&& post.ed.history == pre.ed.history
            &&& echoed(post.disp, post.ed.buffer, post.ed.cursor)
        }),
    decreases keys.len(),
{
    if keys.len() > 0 {
        let front = keys.drop_last();
        assert(forall|i: int| 0 <= i < front.len() ==> is_edit_key(#[trigger] front[i]));
        lemma_edit_run_keeps_sync(pre, front);
        let mid = apply_edit_keys(pre, front);
        lemma_edit_key_keeps_sync(mid, keys.last());
    }
}

/// Repositioning the cursor keeps the displayed line: a display that
/// showed the line on its row still shows it after only `x` changed.
proof fn lemma_move_keeps_echo(pre: DisplayView, post: DisplayView, buf: Seq<u8>)
    requires
        post.grid == pre.grid,
        post.y == pre.y,
    ensures
        forall|c: int|
            PROMPT_LEN <= c < VGA_WIDTH ==> #[trigger] post.cell(post.y, c) == pre.cell(pre.y, c),
{
    assert forall|c: int| PROMPT_LEN <= c < VGA_WIDTH implies #[trigger] post.cell(post.y, c)
        == pre.cell(pre.y, c) by {
        assert(post.cell(post.y, c) == post.grid[post.y * VGA_WIDTH + c]);
        assert(pre.cell(pre.y, c) == pre.grid[pre.y * VGA_WIDTH + c]);
    }
}

/// The shell: the display, the line editor, and the routing between them.
pub struct Shell {
    disp: Display,
    ed: Editor,
}

impl View for Shell {
    type V = ShellView;

    closed spec fn view(&self) -> ShellView {
        ShellView { disp: self.disp@, ed: self.ed@ }
    }
}

impl Shell {
    /// The shell invariant: both components well formed.
    pub open spec fn wf(&self) -> bool {
        self@.disp.wf() && self@.ed.wf()
    }

    /// A fresh shell: blank display, empty line, empty history.
    pub fn new() -> (s: Shell)
        ensures
            s.wf(),
            s@.disp.grid == blank_grid(),
            s@.disp.x == 0,
            s@.disp.y == 0,
            s@.ed.buffer.len() == 0,
            s@.ed.cursor == 0,
            s@.ed.history.len() == 0,
            !s@.ed.browsing,
    {
        Shell { disp: Display::new(), ed: Editor::new() }
    }

    /// Read access to the display, for flushing it to hardware.
    pub fn display(&self) -> (r: &Display)
        ensures
            r@ == self@.disp,
    {
        &self.disp
    }

    /// Read access to the editor.
    pub fn editor(&self) -> (r: &Editor)
        ensures
            r@ == self@.ed,
    {
        &self.ed
    }

    /// Prints the prompt at the cursor.
    pub fn prompt(&mut self)
        requires
            old(self).wf(),
        ensures
            final(self).wf(),
            final(self)@.disp == spec_print(old(self)@.disp, prompt_text()),
            final(self)@.ed == old(self)@.ed,
    {
        let p = build_prompt_text();
        self.disp.print(p.as_slice());
    }

    /// Clears the screen, prints the banner and the first prompt.
    pub fn start(&mut self)
        requires
            old(self).wf(),
        ensures
            final(self).wf(),
            final(self)@.disp == spec_print(
                spec_print(
                    DisplayView { grid: blank_grid(), x: 0, y: 0 },
                    banner_text(),
                ),
                prompt_text(),
            ),
            final(self)@.ed == old(self)@.ed,
    {
        self.disp.clear();
        let b = build_banner_text();
        self.disp.print(b.as_slice());
        self.prompt();
    }

    /// Redraws the line after the prompt and repositions the cursor.
    fn redraw(&mut self)
        requires
            old(self).wf(),
        ensures
            final(self).wf(),
            final(self)@.ed == old(self)@.ed,
            final(self)@.disp == spec_redraw(
                old(self)@.disp,
                old(self)@.ed.buffer,
                old(self)@.ed.cursor,
            ),
            line_fits(old(self)@.ed.buffer) ==> echoed(
                final(self)@.disp,
                old(self)@.ed.buffer,
                old(self)@.ed.cursor,
            ),
    {
        let buf = self.ed.buffer_copy();
        self.disp.rewrite_input(PROMPT_LEN, buf.as_slice());
        let cur = self.ed.cursor();
        self.disp.set_cursor_x(PROMPT_LEN + cur);
        proof {
            let pre = old(self)@.disp;
            let b = old(self)@.ed.buffer;
            if line_fits(b) {
                let d = self@.disp;
                assert forall|c: int| PROMPT_LEN <= c < VGA_WIDTH implies #[trigger] d.cell(d.y, c)
                    == if c - PROMPT_LEN < b.len() {
                    cell_of(b[c - PROMPT_LEN])
                } else {
                    BLANK_CELL
                } by {
                    assert(d.grid[d.y * VGA_WIDTH + c] == spec_rewrite(
                        pre,
                        PROMPT_LEN as int,
                        b,
                    ).grid[pre.y * VGA_WIDTH + c]);
                }
            }
        }
    }

    /// Inserts a printable byte at the cursor (a no-op when the line is
    /// full), leaves history browsing, and redraws the line. When the
    /// line fits on the row, the display shows it afterwards.
    pub fn insert_char(&mut self, c: u8)
        requires
            old(self).wf(),
        ensures
            final(self).wf(),
            insert_step(old(self)@, final(self)@, c),
            line_fits(final(self)@.ed.buffer) ==> echoed(
                final(self)@.disp,
                final(self)@.ed.buffer,
                final(self)@.ed.cursor,
            ),
    {
        self.ed.insert_char(c);
        self.ed.stop_browsing();
        self.redraw();
    }

    /// Removes the byte before the cursor (a no-op at the start of the
    /// line) and redraws the line. When the line fits on the row, the
    /// display shows it afterwards.
    pub fn delete_char(&mut self)
        requires
            old(self).wf(),
        ensures
            final(self).wf(),
            backspace_step(old(self)@, final(self)@),
            line_fits(final(self)@.ed.buffer) ==> echoed(
                final(self)@.disp,
                final(self)@.ed.buffer,
                final(self)@.ed.cursor,
            ),
    {
        self.ed.delete_char();
        self.redraw();
    }

    /// Moves the cursor one place left, clamped at the start, and
    /// repositions the hardware cursor. A display that showed the line
    /// still shows it.
    pub fn move_cursor_left(&mut self)
        requires
            old(self).wf(),
        ensures
            final(self).wf(),
            move_step(old(self)@, final(self)@, false),
            echoed(old(self)@.disp, old(self)@.ed.buffer, old(self)@.ed.cursor) && line_fits(
                old(self)@.ed.buffer,
            ) ==> echoed(final(self)@.disp, final(self)@.ed.buffer, final(self)@.ed.cursor),
    {
        self.ed.move_cursor_left();
        let cur = self.ed.cursor();
        self.disp.set_cursor_x(PROMPT_LEN + cur);
        proof {
            lemma_move_keeps_echo(old(self)@.disp, self@.disp, old(self)@.ed.buffer);
        }
    }

    /// Moves the cursor one place right, clamped at the end of the line,
    /// and repositions the hardware cursor. A display that showed the
    /// line still shows it.
    pub fn move_cursor_right(&mut self)
        requires
            old(self).wf(),
        ensures
            final(self).wf(),
            move_step(old(self)@, final(self)@, true),
            echoed(old(self)@.disp, old(self)@.ed.buffer, old(self)@.ed.cursor) && line_fits(
                old(self)@.ed.buffer,
            ) ==> echoed(final(self)@.disp, final(self)@.ed.buffer, final(self)@.ed.cursor),
    {
        self.ed.move_cursor_right();
        let cur = self.ed.cursor();
        self.disp.set_cursor_x(PROMPT_LEN + cur);
        proof {
            lemma_move_keeps_echo(old(self)@.disp, self@.disp, old(self)@.ed.buffer);
        }
    }

    /// Handles the "recall older" key: loads the next older entry (or the
    /// most recent, when browsing starts) and redraws; nothing happens on
    /// an empty history.
    pub fn recall_older(&mut self)
        requires
            old(self).wf(),
        ensures
            final(self).wf(),
            recall_older_step(old(self)@, final(self)@),
            line_fits(final(self)@.ed.buffer) && old(self)@.ed.history.len() > 0 ==> echoed(
                final(self)@.disp,
                final(self)@.ed.buffer,
                final(self)@.ed.cursor,
            ),
    {
        let loaded = self.ed.recall_older();
        if loaded {
            self.redraw();
        }
    }

    /// Handles the "recall newer" key: loads the next newer entry while
    /// browsing and redraws; at the most recent entry the line is left
    /// unchanged.
    pub fn recall_newer(&mut self)
        requires
            old(self).wf(),
        ensures
            final(self).wf(),
            recall_newer_step(old(self)@, final(self)@),
            line_fits(final(self)@.ed.buffer) && old(self)@.ed.browsing && old(
                self,
            )@.ed.history_index > 0 ==> echoed(
                final(self)@.disp,
                final(self)@.ed.buffer,
                final(self)@.ed.cursor,
            ),
    {
        let loaded = self.ed.recall_newer();
        if loaded {
            self.redraw();
        }
    }

    /// Submits the line: echoes the newline, pushes the line to the
    /// history unless it is blank, dispatches it, resets the editor, and
    /// prints a fresh prompt. Returns the hardware action the caller must
    /// perform.
    pub fn submit(&mut self) -> (act: HwAction)
        requires
            old(self).wf(),
        ensures
            final(self).wf(),
            submit_step(old(self)@, final(self)@, act),
    {
        self.disp.putchar(NEWLINE);
        let line = self.ed.buffer_copy();
        self.ed.add_to_history();
        let act = process_cmd(&mut self.disp, line.as_slice());
        self.ed.reset_line();
        self.prompt();
        act
    }

    /// Routes one key event: Enter submits, backspace deletes, the
    /// navigation keys move the cursor or browse the history, printable
    /// bytes are inserted, and anything else is ignored. Returns the
    /// hardware action the caller must perform.
    pub fn handle_key(&mut self, c: u8) -> (act: HwAction)
        requires
            old(self).wf(),
        ensures
            final(self).wf(),
            key_step(old(self)@, final(self)@, c, act),
    {
        if c == NEWLINE {
            self.submit()
        } else if c == BACKSPACE {
            self.delete_char();
            HwAction::Nothing
        } else if c == KEY_LEFT {
            self.move_cursor_left();
            HwAction::Nothing
        } else if c == KEY_RIGHT {
            self.move_cursor_right();
            HwAction::Nothing
        } else if c == KEY_UP {
            self.recall_older();
            HwAction::Nothing
        } else if c == KEY_DOWN {
            self.recall_newer();
            HwAction::Nothing
        } else if c >= 0x20 && c < 0x80 {
            self.insert_char(c);
            HwAction::Nothing
        } else {
            HwAction::Nothing
        }
    }
}

} // verus!
