//! The editing state machine: cursor and viewport model, the scroll/clamp
//! algorithm, and the row-buffer editing primitives that keypresses drive.

use vstd::prelude::*;
use vstd::string::StringExecFns;
use crate::document::{Document, Erow};
use crate::document::{rendered_of, texts_of};
use crate::text::{chars_to_string, dec_rep, u32_to_string};

verus! {

/// A key event, as decoded by the terminal layer.
#[derive(Clone, Copy)]
pub enum Key {
    Char(char),
    Ctrl(char),
    Up,
    Down,
    Left,
    Right,
    Backspace,
    Other,
}

/// What the surrounding program must do after a keypress was dispatched.
pub enum EditorAction {
    /// Nothing beyond redrawing.
    Nothing,
    /// Replace the file at `path` with `content`, whole.
    WriteFile { path: String, content: String },
    /// Ask the user for a filename, then hand it to `finish_save`.
    PromptFilename,
}

/// The whole editing state: cursor position within the viewport (`x`, `y`,
/// both 1-based), the viewport's top-left file coordinates (`rowoff`,
/// `coloff`), the row buffer, the optional file binding, the terminal size,
/// and the transient status message.
pub struct Editor {
    pub x: usize,
    pub y: usize,
    pub rowoff: usize,
    pub coloff: usize,
    pub quit_now: bool,
    pub rows: Vec<Erow>,
    pub doc: Option<Document>,
    pub width: usize,
    pub height: usize,
    pub status_message: String,
}

/// Everything but the row buffer is unchanged between `pre` and `post`.
pub open spec fn rows_only_changed(pre: Editor, post: Editor) -> bool {
    &&& post.x == pre.x
    &&& post.y == pre.y
    &&& post.rowoff == pre.rowoff
    &&& post.coloff == pre.coloff
    &&& post.quit_now == pre.quit_now
    &&& post.doc == pre.doc
    &&& post.width == pre.width
    &&& post.height == pre.height
    &&& post.status_message == pre.status_message
}

/// Everything but the cursor and scroll offsets is unchanged between `pre`
/// and `post`.
pub open spec fn cursor_only_changed(pre: Editor, post: Editor) -> bool {
    &&& post.rows == pre.rows
    &&& post.coloff == pre.coloff
    &&& post.quit_now == pre.quit_now
    &&& post.doc == pre.doc
    &&& post.width == pre.width
    &&& post.height == pre.height
    &&& post.status_message == pre.status_message
}

impl Editor {
    /// The buffer index limit for the cursor's absolute row: the cursor may
    /// stand on any existing row, or on row 1 of an empty buffer.
    pub open spec fn max_filerow(self) -> int {
        if self.rows.len() == 0 {
            1
        } else {
            self.rows.len() as int
        }
    }

    /// The absolute (1-based) file row under the cursor.
    pub open spec fn filerow(self) -> int {
        self.y + self.rowoff
    }

    /// The greatest viewport row the cursor may occupy.
    pub open spec fn max_scroll_h(self) -> int {
        if self.rows.len() == 0 {
            1
        } else if self.height - 1 <= self.rows.len() {
            self.height - 1
        } else {
            self.rows.len() as int
        }
    }

    /// The length of the row under the cursor.
    pub open spec fn cur_row_len(self) -> int {
        self.rows@[self.filerow() - 1].data@.len() as int
    }

    /// The greatest viewport column the cursor may occupy: one past the end
    /// of the current row, capped by the viewport width.
    pub open spec fn max_scroll_w(self) -> int {
        if self.rows.len() == 0 {
            1
        } else if self.width <= self.cur_row_len() + 1 {
            self.width as int
        } else {
            self.cur_row_len() + 1
        }
    }

    /// The texts of the rows, in buffer order.
    pub open spec fn row_texts(self) -> Seq<Seq<char>> {
        texts_of(self.rows@)
    }

    /// The rendered texts of the rows, in buffer order.
    pub open spec fn rendered_texts(self) -> Seq<Seq<char>> {
        rendered_of(self.rows@)
    }

    /// Well-formedness: the viewport is at least 1 by 2, the cursor stays at
    /// or below the status line, the scroll offset never runs past what a
    /// full screen of rows allows, the cursor's absolute row exists (or is
    /// row 1 of an empty buffer), and there is no horizontal scrolling.
    pub open spec fn wf(self) -> bool {
        &&& 1 <= self.width
        &&& 2 <= self.height
        &&& 1 <= self.x
        &&& 1 <= self.y <= self.height - 1
        &&& self.rowoff == 0 || self.rowoff + self.height <= self.rows.len() + 1
        &&& self.filerow() <= self.max_filerow()
        &&& self.coloff == 0
    }

    /// A fresh session over an already-loaded buffer and binding, for a
    /// terminal of the given size. The cursor starts at the top-left corner,
    /// unscrolled, with the welcome banner in the status line.
    pub fn new(rows: Vec<Erow>, doc: Option<Document>, width: usize, height: usize) -> (e: Editor)
        requires
            1 <= width,
            2 <= height,
        ensures
            e.wf(),
            e.x == 1,
            e.y == 1,
            e.rowoff == 0,
            e.coloff == 0,
            e.quit_now == false,
            e.rows == rows,
            e.doc == doc,
            e.width == width,
            e.height == height,
            e.status_message@ == "Welcome to Text Editor! CTRL-Q to quit."@,
    {
        Editor {
            x: 1,
            y: 1,
            rowoff: 0,
            coloff: 0,
            quit_now: false,
            rows,
            doc,
            width,
            height,
            status_message: String::from_str("Welcome to Text Editor! CTRL-Q to quit."),
        }
    }

    /// The absolute (1-based) file row under the cursor.
    pub fn get_filerow(&self) -> (r: usize)
        requires
            self.wf(),
        ensures
            r == self.filerow(),
    {
        self.y + self.rowoff
    }

    /// Inserts an empty row at index `at`; an out-of-range insert is rejected
    /// as a no-op, not clamped.
    pub fn insert_row(&mut self, at: usize)
        ensures
            rows_only_changed(*old(self), *final(self)),
            at > old(self).rows@.len() ==> final(self).rows == old(self).rows,
            at <= old(self).rows@.len() ==> {
                &&& final(self).rows@.len() == old(self).rows@.len() + 1
                &&& forall|i: int| 0 <= i < at ==> final(self).rows@[i] == old(self).rows@[i]
                &&& final(self).rows@[at as int].data@ == Seq::<char>::empty()
                &&& final(self).rows@[at as int].data_rendered@ == Seq::<char>::empty()
                &&& forall|i: int|
                    at < i < final(self).rows@.len() ==> final(self).rows@[i] == old(
                        self,
                    ).rows@[i - 1]
            },
    {
        if at > self.rows.len() {
            return ;
        }
        self.rows.insert(at, Erow::default());
    }

    /// Inserts `c` into row `row` at offset `at`. Writing at the index just
    /// past the last row first appends an empty row there; an offset past the
    /// row's end, or a row further out, is absorbed as a no-op. On an
    /// existing row this is exactly `insert_one` on the row's text.
    pub fn row_insert_char(&mut self, row: usize, at: usize, c: char)
        ensures
            rows_only_changed(*old(self), *final(self)),
            row < old(self).rows@.len() ==> final(self).rows@[row as int].data@ == insert_one(
                old(self).rows@[row as int].data@,
                at as int,
                c,
            ),
            row > old(self).rows@.len() ==> final(self).rows == old(self).rows,
            row == old(self).rows@.len() ==> {
                &&& final(self).rows@.len() == old(self).rows@.len() + 1
                &&& forall|i: int| 0 <= i < row ==> final(self).rows@[i] == old(self).rows@[i]
                &&& final(self).rows@[row as int].data@ == (if at == 0 {
                    seq![c]
                } else {
                    Seq::<char>::empty()
                })
                &&& final(self).rows@[row as int].data_rendered@ == Seq::<char>::empty()
            },
            row < old(self).rows@.len() ==> {
                let rdata = old(self).rows@[row as int].data@;
                &&& (at > rdata.len() ==> final(self).rows == old(self).rows)
                &&& (at <= rdata.len() ==> {
                    &&& final(self).rows@.len() == old(self).rows@.len()
                    &&& final(self).rows@[row as int].data@ == rdata.insert(at as int, c)
                    &&& final(self).rows@[row as int].data_rendered == old(self).rows@[
                        row as int
                    ].data_rendered
                    &&& forall|i: int|
                        0 <= i < old(self).rows@.len() && i != row ==> final(self).rows@[i] == old(
                            self,
                        ).rows@[i]
                })
            },
    {
        if row > self.rows.len() {
            return ;
        }
        if row == self.rows.len() {
            self.insert_row(row);
        }
        if at > self.rows[row].data.len() {
            return ;
        }
        self.rows[row].data.insert(at, c);
    }

    /// Removes the character just before offset `at` in row `row`, as
    /// backspace at column `at` does; `at == 0` and out-of-range indices are
    /// absorbed as no-ops.
    pub fn row_delete_char(&mut self, row: usize, at: usize)
        ensures
            rows_only_changed(*old(self), *final(self)),
            at == 0 || row >= old(self).rows@.len() || at > old(self).rows@[
                row as int
            ].data@.len() ==> final(self).rows == old(self).rows,
            1 <= at && row < old(self).rows@.len() && at <= old(self).rows@[
                row as int
            ].data@.len() ==> {
                &&& final(self).rows@.len() == old(self).rows@.len()
                &&& final(self).rows@[row as int].data@ == old(self).rows@[
                    row as int
                ].data@.remove(at - 1)
                &&& final(self).rows@[row as int].data_rendered == old(self).rows@[
                    row as int
                ].data_rendered
                &&& forall|i: int|
                    0 <= i < old(self).rows@.len() && i != row ==> final(self).rows@[i] == old(
                        self,
                    ).rows@[i]
            },
    {
        if at == 0 {
            return ;
        }
        if row >= self.rows.len() {
            return ;
        }
        if at > self.rows[row].data.len() {
            return ;
        }
        self.rows[row].data.remove(at - 1);
    }

    /// Appends `contents` to row `at`; an out-of-range row is rejected as a
    /// no-op.
    pub fn append_str_to_row(&mut self, at: usize, contents: &Vec<char>)
        ensures
            rows_only_changed(*old(self), *final(self)),
            at >= old(self).rows@.len() ==> final(self).rows == old(self).rows,
            at < old(self).rows@.len() ==> {
                &&& final(self).rows@.len() == old(self).rows@.len()
                &&& final(self).rows@[at as int].data@ == old(self).rows@[at as int].data@
                    + contents@
                &&& final(self).rows@[at as int].data_rendered == old(self).rows@[
                    at as int
                ].data_rendered
                &&& forall|i: int|
                    0 <= i < old(self).rows@.len() && i != at ==> final(self).rows@[i] == old(
                        self,
                    ).rows@[i]
            },
    {
        if at >= self.rows.len() {
            return ;
        }
        let mut i: usize = 0;
        while i < contents.len()
            invariant
                i <= contents@.len(),
                at < old(self).rows@.len(),
                rows_only_changed(*old(self), *self),
                self.rows@.len() == old(self).rows@.len(),
                self.rows@[at as int].data@ == old(self).rows@[at as int].data@ + contents@.take(
                    i as int,
                ),
                self.rows@[at as int].data_rendered == old(self).rows@[at as int].data_rendered,
                forall|k: int|
                    0 <= k < old(self).rows@.len() && k != at ==> self.rows@[k] == old(
                        self,
                    ).rows@[k],
            decreases contents@.len() - i,
        {
            self.rows[at].data.push(contents[i]);
            i = i + 1;
            proof {
                assert(self.rows@[at as int].data@ =~= old(self).rows@[at as int].data@
                    + contents@.take(i as int));
            }
        }
        proof {
            assert(contents@.take(contents@.len() as int) =~= contents@);
        }
    }

    /// Removes everything in row `row` from offset `at` to the end, in place;
    /// an out-of-range row is absorbed as a no-op, and an offset past the end
    /// leaves the row as it is.
    pub fn clear_row_to_end(&mut self, row: usize, at: usize)
        ensures
            rows_only_changed(*old(self), *final(self)),
            row >= old(self).rows@.len() ==> final(self).rows == old(self).rows,
            row < old(self).rows@.len() ==> {
                let rdata = old(self).rows@[row as int].data@;
                &&& final(self).rows@.len() == old(self).rows@.len()
                &&& final(self).rows@[row as int].data@ == (if at <= rdata.len() {
                    rdata.take(at as int)
                } else {
                    rdata
                })
                &&& final(self).rows@[row as int].data_rendered == old(self).rows@[
                    row as int
                ].data_rendered
                &&& forall|i: int|
                    0 <= i < old(self).rows@.len() && i != row ==> final(self).rows@[i] == old(
                        self,
                    ).rows@[i]
            },
    {
        if row >= self.rows.len() {
            return ;
        }
        self.rows[row].data.truncate(at);
    }

    /// Applies one directional key and reconciles cursor and scroll offsets
    /// against the buffer and the terminal size: vertical motion scrolls at
    /// most one row per call, and the column is re-clamped against the row
    /// the cursor lands on.
    #[verifier::rlimit(60)]
    pub fn move_cursor(&mut self, key: Key)
        requires
            old(self).wf(),
        ensures
            final(self).wf(),
            cursor_only_changed(*old(self), *final(self)),
            final(self).y == y_clamped(*old(self), key),
            final(self).rowoff == rowoff_after(*old(self), key),
            final(self).x == x_after(*old(self), key),
            1 <= final(self).y <= final(self).max_scroll_h(),
            1 <= final(self).x <= final(self).max_scroll_w(),
    {
        match key {
            Key::Right => {
                self.x = if self.x < usize::MAX {
                    self.x + 1
                } else {
                    self.x
                };
            },
            Key::Left => {
                self.x = if self.x >= 1 {
                    self.x - 1
                } else {
                    0
                };
            },
            Key::Down => {
                self.y = if self.y < usize::MAX {
                    self.y + 1
                } else {
                    self.y
                };
            },
            Key::Up => {
                self.y = if self.y >= 1 {
                    self.y - 1
                } else {
                    0
                };
            },
            _ => {},
        }
        let max_scroll_h: usize = if self.rows.len() == 0 {
            1
        } else {
            let hh = self.height - 1;
            if hh <= self.rows.len() {
                hh
            } else {
                self.rows.len()
            }
        };
        if self.y < 1 {
            self.y = 1;
            if self.rowoff > 0 {
                self.rowoff = self.rowoff - 1;
            }
        } else if self.y > max_scroll_h {
            self.y = max_scroll_h;
            if self.rows.len() > self.y + self.rowoff {
                self.rowoff = self.rowoff + 1;
            }
        }
        let max_scroll_w: usize = if self.rows.len() == 0 {
            1
        } else {
            let fr = self.y + self.rowoff;
            let rl = self.rows[fr - 1].data.len();
            if self.width <= rl {
                self.width
            } else {
                rl + 1
            }
        };
        if self.x < 1 {
            self.x = 1;
        } else if self.x > max_scroll_w {
            self.x = max_scroll_w;
        }
    }
}

impl Editor {
    /// Splits the current line at the cursor: the text from the cursor's
    /// column onward moves into a fresh row just below, the current row keeps
    /// the text before it, and the cursor lands on the new row's first
    /// column. On an empty buffer the row being split is first created.
    pub fn insert_newline(&mut self)
        requires
            old(self).wf(),
        ensures
            final(self).wf(),
            enter_rel(*old(self), *final(self)),
    {
        let fr = self.get_filerow();
        if fr > self.rows.len() {
            self.insert_row(0);
        }
        let ghost base: Seq<Erow> = self.rows@;
        let cut = self.x - 1;
        let tail = crate::document::suffix_chars(&self.rows[fr - 1].data, cut);
        self.insert_row(fr);
        self.append_str_to_row(fr, &tail);
        self.clear_row_to_end(fr - 1, cut);
        proof {
            assert(self.rows@[fr - 1].data@ == enter_head(*old(self)));
            assert(Seq::<char>::empty() + tail@ =~= tail@);
            assert(self.rows@[fr as int].data@ == enter_tail(*old(self)));
            assert(self.wf());
        }
        self.move_cursor(Key::Down);
        self.x = 1;
        proof {
            if old(self).rows.len() == 0 {
                assert(texts_of(base) =~~= seq![Seq::<char>::empty()]);
                assert(rendered_of(base) =~~= seq![Seq::<char>::empty()]);
            } else {
                assert(texts_of(base) == old(self).row_texts());
                assert(rendered_of(base) == old(self).rendered_texts());
            }
            assert(self.row_texts() =~~= texts_of(base).update(fr - 1, enter_head(*old(self))).insert(
                fr as int,
                enter_tail(*old(self)),
            ));
            assert(self.rendered_texts() =~~= rendered_of(base).insert(
                fr as int,
                Seq::<char>::empty(),
            ));
        }
    }

    /// Inserts `c` at the cursor and moves the cursor one column right,
    /// clamped against the grown row.
    pub fn insert_char_at_cursor(&mut self, c: char)
        requires
            old(self).wf(),
        ensures
            final(self).wf(),
            insert_char_rel(*old(self), *final(self), c),
    {
        let fr = self.get_filerow();
        self.row_insert_char(fr - 1, self.x - 1, c);
        self.move_cursor(Key::Right);
        proof {
            let pre = *old(self);
            if pre.rows.len() == 0 {
                if pre.x == 1 {
                    assert(self.row_texts() =~~= seq![seq![c]]);
                } else {
                    assert(self.row_texts() =~~= seq![Seq::<char>::empty()]);
                }
                assert(self.rendered_texts() =~~= seq![Seq::<char>::empty()]);
            } else {
                assert(self.rendered_texts() =~~= pre.rendered_texts());
                let row = pre.row_texts()[fr - 1];
                if pre.x - 1 <= row.len() {
                    assert(pre.rows@[fr - 1].data@ == row);
                    assert(self.row_texts() =~~= pre.row_texts().update(
                        fr - 1,
                        row.insert(pre.x - 1, c),
                    ));
                } else {
                    assert(self.row_texts() == pre.row_texts());
                }
            }
        }
    }

    /// Backspace: at column 1 below the first row, the current row's whole
    /// text is joined onto the previous row and the emptied row is removed,
    /// with the cursor landing one past the previous row's former end, one
    /// row up; otherwise the character before the cursor is removed and the
    /// cursor moves left.
    pub fn backspace(&mut self)
        requires
            old(self).wf(),
        ensures
            final(self).wf(),
            backspace_rel(*old(self), *final(self)),
    {
        let fr = self.get_filerow();
        if fr > 1 && self.x == 1 {
            let orig_len = self.rows[fr - 2].data.len();
            let cur = crate::document::copy_chars(&self.rows[fr - 1].data);
            self.append_str_to_row(fr - 2, &cur);
            self.rows.remove(fr - 1);
            self.x = if orig_len < usize::MAX {
                orig_len + 1
            } else {
                orig_len
            };
            if self.rowoff > 0 {
                self.rowoff = self.rowoff - 1;
            } else {
                self.y = self.y - 1;
            }
            proof {
                assert(self.row_texts() =~~= old(self).row_texts().update(
                    fr - 2,
                    old(self).row_texts()[fr - 2] + old(self).row_texts()[fr - 1],
                ).remove(fr - 1));
                assert(self.rendered_texts() =~~= old(self).rendered_texts().remove(fr - 1));
            }
        } else {
            self.row_delete_char(fr - 1, self.x - 1);
            self.move_cursor(Key::Left);
            proof {
                if !(old(self).rows.len() == 0 || old(self).x == 1 || old(self).x - 1 > old(
                    self,
                ).row_texts()[fr - 1].len()) {
                    assert(self.row_texts() =~~= old(self).row_texts().update(
                        fr - 1,
                        old(self).row_texts()[fr - 1].remove(old(self).x - 2),
                    ));
                }
                assert(self.rendered_texts() =~~= old(self).rendered_texts());
            }
        }
    }
}

impl Editor {
    /// Sets the transient status line text, optionally stamped with the
    /// current local time as `(hour.minute.second)`.
    pub fn set_status_message(&mut self, msg: &str, show_timestamp: bool)
        ensures
            status_only_changed(*old(self), *final(self)),
            !show_timestamp ==> final(self).status_message@ == msg@,
            show_timestamp ==> exists|h: int, mi: int, se: int|
                0 <= h < 24 && 0 <= mi < 60 && 0 <= se < 60 && final(self).status_message@
                    == timestamped(msg@, h, mi, se),
    {
        if show_timestamp {
            let hms = crate::clock::local_hms();
            self.status_message = timestamped_message(msg, hms.0, hms.1, hms.2);
            proof {
                assert(self.status_message@ == timestamped(
                    msg@,
                    hms.0 as int,
                    hms.1 as int,
                    hms.2 as int,
                ));
            }
        } else {
            self.status_message = String::from_str(msg);
        }
    }

    /// The save key. With a bound document, the exact file text and its path
    /// are handed out for writing, and the status line reports the saved name
    /// with a clock stamp; with no binding, the caller is told to prompt for
    /// a filename and then call `finish_save`.
    pub fn save_document(&mut self) -> (act: EditorAction)
        requires
            old(self).wf(),
        ensures
            final(self).wf(),
            save_rel(*old(self), *final(self), act),
    {
        if self.doc.is_none() {
            return EditorAction::PromptFilename;
        }
        let content = crate::document::render_file_content(&self.rows);
        let path: String = match &self.doc {
            Some(d) => d.filename.clone(),
            None => String::new(),
        };
        let mut msg = String::from_str("Document saved as \"");
        msg.append(path.as_str());
        msg.append("\"!");
        proof {
            assert(msg@ == saved_message(old(self).doc->0.filename@));
        }
        self.set_status_message(msg.as_str(), true);
        EditorAction::WriteFile { path, content }
    }

    /// Completes a save for a buffer that had no backing file: binds it to
    /// `filename`, reports the save in the status line, and hands out the
    /// exact file text to write.
    pub fn finish_save(&mut self, filename: String) -> (act: EditorAction)
        requires
            old(self).wf(),
        ensures
            final(self).wf(),
            final(self).rows == old(self).rows,
            final(self).x == old(self).x,
            final(self).y == old(self).y,
            final(self).rowoff == old(self).rowoff,
            final(self).coloff == old(self).coloff,
            final(self).quit_now == old(self).quit_now,
            final(self).width == old(self).width,
            final(self).height == old(self).height,
            final(self).doc is Some,
            final(self).doc->0.filename@ == filename@,
            final(self).doc->0.saved == true,
            (act matches EditorAction::WriteFile { path, content } && path@ == filename@
                && content@ == crate::document::file_content(old(self).row_texts())),
            exists|h: int, mi: int, se: int|
                0 <= h < 24 && 0 <= mi < 60 && 0 <= se < 60 && final(self).status_message@
                    == timestamped(saved_message(filename@), h, mi, se),
    {
        self.doc = Some(Document { filename, saved: true });
        self.save_document()
    }

    /// One keystroke of the filename prompt: a printable character appends to
    /// the pending input, Backspace removes its last character, and Enter or
    /// Return accepts it — only once it is non-empty; on an empty input they
    /// are rejected outright and the input stays empty. The status line
    /// echoes the prompt label followed by the pending input, and clears on
    /// acceptance. Returns the new pending input and whether it was accepted.
    pub fn prompt_step(&mut self, label: &str, pending: Vec<char>, key: Key) -> (r: (
        Vec<char>,
        bool,
    ))
        ensures
            status_only_changed(*old(self), *final(self)),
            match key {
                Key::Char(c) => {
                    if c == '\n' || c == '\r' {
                        if pending@.len() != 0 {
                            &&& r.1 == true
                            &&& r.0@ == pending@
                            &&& final(self).status_message@ == Seq::<char>::empty()
                        } else {
                            &&& r.1 == false
                            &&& r.0@ == pending@
                            &&& final(self).status_message@ == label@ + pending@
                        }
                    } else {
                        &&& r.1 == false
                        &&& r.0@ == pending@.push(c)
                        &&& final(self).status_message@ == label@ + r.0@
                    }
                },
                Key::Backspace => {
                    &&& r.1 == false
                    &&& r.0@ == (if pending@.len() > 0 {
                        pending@.drop_last()
                    } else {
                        pending@
                    })
                    &&& final(self).status_message@ == label@ + r.0@
                },
                _ => {
                    &&& r.1 == false
                    &&& r.0@ == pending@
                    &&& final(self).status_message@ == label@ + pending@
                },
            },
    {
        let mut pending = pending;
        match key {
            Key::Char(c) => {
                if c == '\n' || c == '\r' {
                    if pending.len() != 0 {
                        self.set_status_message("", false);
                        proof {
                            reveal_strlit("");
                            assert(""@ =~= Seq::<char>::empty());
                        }
                        return (pending, true);
                    }
                } else {
                    pending.push(c);
                }
            },
            Key::Backspace => {
                let ghost before: Seq<char> = pending@;
                if pending.len() > 0 {
                    let _dropped = pending.pop();
                    proof {
                        assert(pending@ =~= before.drop_last());
                    }
                }
            },
            _ => {},
        }
        let mut s = String::from_str(label);
        let ps = chars_to_string(&pending);
        s.append(ps.as_str());
        self.status_message = s;
        (pending, false)
    }
}

impl Editor {
    /// Dispatches one key event: arrows move the cursor, printable characters
    /// insert (newline splits the line), Backspace deletes or joins, one
    /// control combination inserts a line, one saves, one quits, and every
    /// other key is ignored. Returns what the surrounding program must do.
    pub fn handle_keypress(&mut self, key: Key) -> (act: EditorAction)
        requires
            old(self).wf(),
        ensures
            final(self).wf(),
            match key {
                Key::Ctrl(c) => {
                    if c == 'q' {
                        &&& *final(self) == (Editor { quit_now: true, ..*old(self) })
                        &&& act is Nothing
                    } else if c == 'o' {
                        &&& insert_line_rel(*old(self), *final(self))
                        &&& act is Nothing
                    } else if c == 's' {
                        save_rel(*old(self), *final(self), act)
                    } else {
                        &&& *final(self) == *old(self)
                        &&& act is Nothing
                    }
                },
                Key::Up | Key::Down | Key::Left | Key::Right => {
                    &&& cursor_only_changed(*old(self), *final(self))
                    &&& final(self).y == y_clamped(*old(self), key)
                    &&& final(self).rowoff == rowoff_after(*old(self), key)
                    &&& final(self).x == x_after(*old(self), key)
                    &&& act is Nothing
                },
                Key::Char(c) => {
                    if c == '\n' {
                        &&& enter_rel(*old(self), *final(self))
                        &&& act is Nothing
                    } else {
                        &&& insert_char_rel(*old(self), *final(self), c)
                        &&& act is Nothing
                    }
                },
                Key::Backspace => {
                    &&& backspace_rel(*old(self), *final(self))
                    &&& act is Nothing
                },
                Key::Other => {
                    &&& *final(self) == *old(self)
                    &&& act is Nothing
                },
            },
    {
        match key {
            Key::Ctrl(c) => {
                if c == 'q' {
                    self.quit_now = true;
                    EditorAction::Nothing
                } else if c == 'o' {
                    let fr = self.get_filerow();
                    self.insert_row(fr - 1);
                    proof {
                        assert(self.row_texts() =~~= old(self).row_texts().insert(
                            old(self).filerow() - 1,
                            Seq::<char>::empty(),
                        ));
                        assert(self.rendered_texts() =~~= old(self).rendered_texts().insert(
                            old(self).filerow() - 1,
                            Seq::<char>::empty(),
                        ));
                    }
                    EditorAction::Nothing
                } else if c == 's' {
                    self.save_document()
                } else {
                    EditorAction::Nothing
                }
            },
            Key::Up | Key::Down | Key::Left | Key::Right => {
                self.move_cursor(key);
                EditorAction::Nothing
            },
            Key::Char(c) => {
                if c == '\n' {
                    self.insert_newline();
                } else {
                    self.insert_char_at_cursor(c);
                }
                EditorAction::Nothing
            },
            Key::Backspace => {
                self.backspace();
                EditorAction::Nothing
            },
            Key::Other => EditorAction::Nothing,
        }
    }

    /// The text shown on screen line `screen_row` (0-based from the
    /// viewport's top): the visible prefix of the buffer row scrolled there,
    /// or nothing when no buffer row reaches that line.
    pub fn visible_line(&self, screen_row: usize) -> (out: Option<Vec<char>>)
        requires
            self.wf(),
        ensures
            screen_row + self.rowoff < self.rows@.len() ==> {
                let row = self.rows@[screen_row + self.rowoff].data@;
                let vis: int = if row.len() <= self.width {
                    row.len() as int
                } else {
                    self.width as int
                };
                out is Some && out->0@ == row.take(vis)
            },
            screen_row + self.rowoff >= self.rows@.len() ==> out is None,
    {
        if self.rows.len() == 0 {
            return None;
        }
        if screen_row >= self.rows.len() - self.rowoff {
            return None;
        }
        let idx = self.rowoff + screen_row;
        let row = &self.rows[idx].data;
        let end = if row.len() <= self.width {
            row.len()
        } else {
            self.width
        };
        let mut v = crate::document::copy_chars(row);
        v.truncate(end);
        Some(v)
    }

    /// The cursor's absolute file position `(row, column)`, both 1-based, as
    /// the status line reports it.
    pub fn absolute_position(&self) -> (r: (usize, usize))
        requires
            self.wf(),
        ensures
            r.0 == self.filerow(),
            r.1 == self.x + self.coloff,
    {
        (self.y + self.rowoff, self.x + self.coloff)
    }
}

/// How the insert-line key changes the state: an empty row goes in before the
/// current one, and the cursor and everything else stay.
pub open spec fn insert_line_rel(pre: Editor, post: Editor) -> bool {
    &&& post.row_texts() == pre.row_texts().insert(pre.filerow() - 1, Seq::<char>::empty())
    &&& post.rendered_texts() == pre.rendered_texts().insert(
        pre.filerow() - 1,
        Seq::<char>::empty(),
    )
    &&& post.x == pre.x
    &&& post.y == pre.y
    &&& post.rowoff == pre.rowoff
    &&& post.coloff == pre.coloff
    &&& post.quit_now == pre.quit_now
    &&& post.doc == pre.doc
    &&& post.width == pre.width
    &&& post.height == pre.height
    &&& post.status_message == pre.status_message
}

/// One character insertion into a row's text: the character goes in at
/// offset `at` when that offset lies within the text, and an offset past the
/// end is absorbed, as the row buffer's insert behaves.
pub open spec fn insert_one(s: Seq<char>, at: int, c: char) -> Seq<char> {
    if 0 <= at <= s.len() {
        s.insert(at, c)
    } else {
        s
    }
}

/// A sequence of insertions applied in order: `ops[i].0` is the offset,
/// `ops[i].1` the character.
pub open spec fn apply_insertions(s: Seq<char>, ops: Seq<(int, char)>) -> Seq<char>
    decreases ops.len(),
{
    if ops.len() == 0 {
        s
    } else {
        apply_insertions(insert_one(s, ops[0].0, ops[0].1), ops.drop_first())
    }
}

/// The characters of `ops`, in order.
pub open spec fn chars_of(ops: Seq<(int, char)>) -> Seq<char> {
    ops.map_values(|op: (int, char)| op.1)
}

/// Characters inserted in order, each at the row's then-current end, build
/// exactly the concatenation of those characters after what the row held; a
/// row filled from empty therefore holds the characters in insertion order.
pub proof fn lemma_insertions_concatenate(s: Seq<char>, ops: Seq<(int, char)>)
    requires
        forall|i: int| 0 <= i < ops.len() ==> ops[i].0 == s.len() + i,
    ensures
        apply_insertions(s, ops) == s + chars_of(ops),
    decreases ops.len(),
{
    if ops.len() == 0 {
        assert(chars_of(ops) =~= Seq::<char>::empty());
        assert(s + chars_of(ops) =~= s);
    } else {
        assert(ops[0].0 == s.len() + 0);
        let s1 = insert_one(s, ops[0].0, ops[0].1);
        assert(s1 =~= s.push(ops[0].1));
        assert forall|i: int| 0 <= i < ops.drop_first().len() implies ops.drop_first()[i].0
            == s1.len() + i by {
            assert(ops.drop_first()[i] == ops[i + 1]);
        }
        lemma_insertions_concatenate(s1, ops.drop_first());
        assert(chars_of(ops) =~= seq![ops[0].1] + chars_of(ops.drop_first()));
        assert(apply_insertions(s, ops) =~= s + chars_of(ops));
    }
}

/// Splitting a line at the cursor (Enter) and immediately joining it back
/// (Backspace at column 1 of the new row) restores the whole buffer and the
/// cursor exactly as they stood, for every cut within the line.
pub proof fn lemma_split_then_join_restores(pre: Editor, mid: Editor, post: Editor)
    requires
        pre.wf(),
        pre.rows@.len() >= 1,
        pre.filerow() <= pre.rows@.len(),
        pre.x - 1 <= pre.row_texts()[pre.filerow() - 1].len(),
        enter_rel(pre, mid),
        backspace_rel(mid, post),
    ensures
        post.row_texts() == pre.row_texts(),
        post.rendered_texts() == pre.rendered_texts(),
        post.filerow() == pre.filerow(),
        post.x == pre.x,
{
    let fr = pre.filerow();
    let row = pre.row_texts()[fr - 1];
    let head = enter_head(pre);
    let tail = enter_tail(pre);
    assert(mid.filerow() == fr + 1);
    assert(mid.x == 1);
    assert(mid.row_texts() == pre.row_texts().update(fr - 1, head).insert(fr, tail));
    assert(mid.row_texts()[fr - 1] == head);
    assert(mid.row_texts()[fr as int] == tail);
    assert(head + tail =~= row);
    assert(post.row_texts() == mid.row_texts().update(fr - 1, head + tail).remove(fr as int));
    assert(post.row_texts() =~~= pre.row_texts());
    assert(mid.rendered_texts() == pre.rendered_texts().insert(fr, Seq::<char>::empty()));
    assert(post.rendered_texts() =~~= pre.rendered_texts());
    assert(head.len() == pre.x - 1);
    assert(post.x == sat_add1(head.len() as int));
}

/// Backspace at column 1 of the first row is a no-op: there is no row above
/// to join into, and the leftward clamp keeps the cursor where it was.
pub proof fn lemma_backspace_top_left_noop(pre: Editor, post: Editor)
    requires
        pre.wf(),
        pre.filerow() == 1,
        pre.x == 1,
        backspace_rel(pre, post),
    ensures
        post.row_texts() == pre.row_texts(),
        post.x == pre.x,
        post.y == pre.y,
        post.rowoff == pre.rowoff,
{
}

/// Everything but the status message is unchanged between `pre` and `post`.
pub open spec fn status_only_changed(pre: Editor, post: Editor) -> bool {
    &&& post.x == pre.x
    &&& post.y == pre.y
    &&& post.rowoff == pre.rowoff
    &&& post.coloff == pre.coloff
    &&& post.quit_now == pre.quit_now
    &&& post.rows == pre.rows
    &&& post.doc == pre.doc
    &&& post.width == pre.width
    &&& post.height == pre.height
}

/// `msg` followed by a clock reading, as the status line shows it after a
/// save.
pub open spec fn timestamped(msg: Seq<char>, h: int, mi: int, se: int) -> Seq<char> {
    msg + " ("@ + dec_rep(h as nat) + "."@ + dec_rep(mi as nat) + "."@ + dec_rep(se as nat) + ")"@
}

/// The save confirmation text, before its timestamp.
pub open spec fn saved_message(filename: Seq<char>) -> Seq<char> {
    "Document saved as \""@ + filename + "\"!"@
}

/// How the save key behaves: see `Editor::save_document`.
pub open spec fn save_rel(pre: Editor, post: Editor, act: EditorAction) -> bool {
    &&& post.rows == pre.rows
    &&& post.x == pre.x
    &&& post.y == pre.y
    &&& post.rowoff == pre.rowoff
    &&& post.coloff == pre.coloff
    &&& post.quit_now == pre.quit_now
    &&& post.width == pre.width
    &&& post.height == pre.height
    &&& (pre.doc is None ==> {
        &&& post.doc is None
        &&& post.status_message == pre.status_message
        &&& act is PromptFilename
    })
    &&& (pre.doc is Some ==> {
        &&& post.doc == pre.doc
        &&& (act matches EditorAction::WriteFile { path, content } && path@ == pre.doc->0.filename@
            && content@ == crate::document::file_content(pre.row_texts()))
        &&& (exists|h: int, mi: int, se: int|
            0 <= h < 24 && 0 <= mi < 60 && 0 <= se < 60 && post.status_message@ == timestamped(
                saved_message(pre.doc->0.filename@),
                h,
                mi,
                se,
            ))
    })
}

/// `msg` followed by the clock reading, built executably.
pub fn timestamped_message(msg: &str, h: u32, mi: u32, se: u32) -> (s: String)
    ensures
        s@ == timestamped(msg@, h as int, mi as int, se as int),
{
    let mut s = String::from_str(msg);
    s.append(" (");
    let hs = u32_to_string(h);
    s.append(hs.as_str());
    s.append(".");
    let ms = u32_to_string(mi);
    s.append(ms.as_str());
    s.append(".");
    let ss = u32_to_string(se);
    s.append(ss.as_str());
    s.append(")");
    proof {
        assert(s@ =~= timestamped(msg@, h as int, mi as int, se as int));
    }
    s
}

/// The text the split row keeps: everything before the cursor's column (the
/// whole row when the column lies past its end). On an empty buffer the row
/// being split is empty.
pub open spec fn enter_head(pre: Editor) -> Seq<char> {
    let row = if pre.rows.len() == 0 {
        Seq::<char>::empty()
    } else {
        pre.row_texts()[pre.filerow() - 1]
    };
    if pre.x - 1 <= row.len() {
        row.take(pre.x - 1)
    } else {
        row
    }
}

/// The text the split moves to the new row: everything from the cursor's
/// column onward (nothing when the column lies past the row's end).
pub open spec fn enter_tail(pre: Editor) -> Seq<char> {
    let row = if pre.rows.len() == 0 {
        Seq::<char>::empty()
    } else {
        pre.row_texts()[pre.filerow() - 1]
    };
    if pre.x - 1 <= row.len() {
        row.skip(pre.x - 1)
    } else {
        Seq::<char>::empty()
    }
}

/// How pressing Enter changes the state: the current line is split at the
/// cursor's column, the cursor lands on column 1 of the new row just below
/// (scrolling by one row when it would leave the viewport), and everything
/// else stays.
pub open spec fn enter_rel(pre: Editor, post: Editor) -> bool {
    let base: Seq<Seq<char>> = if pre.rows.len() == 0 {
        seq![Seq::<char>::empty()]
    } else {
        pre.row_texts()
    };
    let fr = pre.filerow();
    let nlen = base.len() + 1;
    let msh: int = if pre.height - 1 <= nlen {
        pre.height - 1
    } else {
        nlen as int
    };
    &&& post.row_texts() == base.update(fr - 1, enter_head(pre)).insert(fr, enter_tail(pre))
    &&& post.rendered_texts() == (if pre.rows.len() == 0 {
        seq![Seq::<char>::empty()]
    } else {
        pre.rendered_texts()
    }).insert(fr, Seq::<char>::empty())
    &&& post.x == 1
    &&& (pre.y + 1 <= msh ==> post.y == pre.y + 1 && post.rowoff == pre.rowoff)
    &&& (pre.y + 1 > msh ==> post.y == msh && post.rowoff == pre.rowoff + 1)
    &&& post.filerow() == fr + 1
    &&& post.coloff == pre.coloff
    &&& post.quit_now == pre.quit_now
    &&& post.doc == pre.doc
    &&& post.width == pre.width
    &&& post.height == pre.height
    &&& post.status_message == pre.status_message
}

/// How inserting a printable character changes the state: the character goes
/// in at the cursor's column (a column past the row's end is absorbed; on an
/// empty buffer a row is created first), the cursor moves one column right,
/// clamped, and everything else stays.
pub open spec fn insert_char_rel(pre: Editor, post: Editor, c: char) -> bool {
    let fr = pre.filerow();
    let newtexts: Seq<Seq<char>> = if pre.rows.len() == 0 {
        if pre.x == 1 {
            seq![seq![c]]
        } else {
            seq![Seq::<char>::empty()]
        }
    } else {
        let row = pre.row_texts()[fr - 1];
        if pre.x - 1 <= row.len() {
            pre.row_texts().update(fr - 1, row.insert(pre.x - 1, c))
        } else {
            pre.row_texts()
        }
    };
    let newrowlen = newtexts[fr - 1].len() as int;
    let msw: int = if pre.width <= newrowlen + 1 {
        pre.width as int
    } else {
        newrowlen + 1
    };
    &&& post.row_texts() == newtexts
    &&& post.rendered_texts() == (if pre.rows.len() == 0 {
        seq![Seq::<char>::empty()]
    } else {
        pre.rendered_texts()
    })
    &&& post.y == pre.y
    &&& post.rowoff == pre.rowoff
    &&& post.x == (if sat_add1(pre.x as int) > msw {
        msw
    } else {
        sat_add1(pre.x as int)
    })
    &&& post.coloff == pre.coloff
    &&& post.quit_now == pre.quit_now
    &&& post.doc == pre.doc
    &&& post.width == pre.width
    &&& post.height == pre.height
    &&& post.status_message == pre.status_message
}

/// How Backspace changes the state. At column 1 below the first row, the
/// current row's text is appended to the previous row, the emptied row is
/// removed from the buffer, and the cursor lands one past the previous row's
/// former end, one row up (a scrolled viewport scrolls up by one instead, so
/// every visible line keeps a backing row). Otherwise the character before
/// the cursor is removed (a no-op at column 1 of the first row, or past the
/// row's end) and the cursor moves one column left, clamped.
pub open spec fn backspace_rel(pre: Editor, post: Editor) -> bool {
    let fr = pre.filerow();
    if fr > 1 && pre.x == 1 {
        let prev = pre.row_texts()[fr - 2];
        let cur = pre.row_texts()[fr - 1];
        &&& post.row_texts() == pre.row_texts().update(fr - 2, prev + cur).remove(fr - 1)
        &&& post.rendered_texts() == pre.rendered_texts().remove(fr - 1)
        &&& post.x == sat_add1(prev.len() as int)
        &&& (pre.rowoff > 0 ==> post.y == pre.y && post.rowoff == pre.rowoff - 1)
        &&& (pre.rowoff == 0 ==> post.y == pre.y - 1 && post.rowoff == 0)
        &&& post.coloff == pre.coloff
        &&& post.quit_now == pre.quit_now
        &&& post.doc == pre.doc
        &&& post.width == pre.width
        &&& post.height == pre.height
        &&& post.status_message == pre.status_message
    } else {
        let newtexts: Seq<Seq<char>> = if pre.rows.len() == 0 || pre.x == 1 || pre.x - 1
            > pre.row_texts()[fr - 1].len() {
            pre.row_texts()
        } else {
            pre.row_texts().update(fr - 1, pre.row_texts()[fr - 1].remove(pre.x - 2))
        };
        let msw: int = if pre.rows.len() == 0 {
            1
        } else if pre.width <= newtexts[fr - 1].len() + 1 {
            pre.width as int
        } else {
            newtexts[fr - 1].len() + 1int
        };
        let x1 = sat_sub1(pre.x as int);
        &&& post.row_texts() == newtexts
        &&& post.rendered_texts() == pre.rendered_texts()
        &&& post.y == pre.y
        &&& post.rowoff == pre.rowoff
        &&& post.x == (if x1 < 1 {
            1
        } else if x1 > msw {
            msw
        } else {
            x1
        })
        &&& post.coloff == pre.coloff
        &&& post.quit_now == pre.quit_now
        &&& post.doc == pre.doc
        &&& post.width == pre.width
        &&& post.height == pre.height
        &&& post.status_message == pre.status_message
    }
}

/// `v + 1`, saturating at the top of `usize`.
pub open spec fn sat_add1(v: int) -> int {
    if v + 1 <= usize::MAX {
        v + 1
    } else {
        v
    }
}

/// `v - 1`, saturating at zero.
pub open spec fn sat_sub1(v: int) -> int {
    if v >= 1 {
        v - 1
    } else {
        0
    }
}

/// The raw cursor row after applying `key`'s vertical delta, before clamping.
pub open spec fn y_after_delta(pre: Editor, key: Key) -> int {
    match key {
        Key::Down => sat_add1(pre.y as int),
        Key::Up => sat_sub1(pre.y as int),
        _ => pre.y as int,
    }
}

/// The raw cursor column after applying `key`'s horizontal delta, before
/// clamping.
pub open spec fn x_after_delta(pre: Editor, key: Key) -> int {
    match key {
        Key::Right => sat_add1(pre.x as int),
        Key::Left => sat_sub1(pre.x as int),
        _ => pre.x as int,
    }
}

/// The cursor row after the vertical clamp.
pub open spec fn y_clamped(pre: Editor, key: Key) -> int {
    let y1 = y_after_delta(pre, key);
    if y1 < 1 {
        1
    } else if y1 > pre.max_scroll_h() {
        pre.max_scroll_h()
    } else {
        y1
    }
}

/// The scroll offset after the vertical clamp: moving past the top scrolls up
/// one row, moving past the bottom scrolls down one row while rows remain.
pub open spec fn rowoff_after(pre: Editor, key: Key) -> int {
    let y1 = y_after_delta(pre, key);
    if y1 < 1 {
        if pre.rowoff > 0 {
            pre.rowoff - 1
        } else {
            pre.rowoff as int
        }
    } else if y1 > pre.max_scroll_h() {
        if pre.rows.len() > pre.max_scroll_h() + pre.rowoff {
            pre.rowoff + 1
        } else {
            pre.rowoff as int
        }
    } else {
        pre.rowoff as int
    }
}

/// The greatest column the cursor may occupy after the vertical clamp, judged
/// against the row it lands on.
pub open spec fn max_scroll_w_after(pre: Editor, key: Key) -> int {
    let fr = y_clamped(pre, key) + rowoff_after(pre, key);
    if pre.rows.len() == 0 {
        1
    } else if pre.width <= pre.rows@[fr - 1].data@.len() + 1 {
        pre.width as int
    } else {
        pre.rows@[fr - 1].data@.len() + 1int
    }
}

/// The cursor column after the horizontal clamp.
pub open spec fn x_after(pre: Editor, key: Key) -> int {
    let x1 = x_after_delta(pre, key);
    if x1 < 1 {
        1
    } else if x1 > max_scroll_w_after(pre, key) {
        max_scroll_w_after(pre, key)
    } else {
        x1
    }
}

} // verus!
