//! The row buffer's element type, the binding between a buffer and a backing
//! file, and the exact text that a save writes.

use vstd::prelude::*;
use crate::text::chars_to_string;

verus! {

/// One line of text in the buffer. `data` holds the characters; `data_rendered`
/// holds the characters as they are shown on screen (set equal to `data` when a
/// row is loaded, and left untouched by edits).
pub struct Erow {
    pub data: Vec<char>,
    pub data_rendered: Vec<char>,
}

impl Erow {
    /// A fresh, empty row.
    pub fn default() -> (r: Erow)
        ensures
            r.data@ == Seq::<char>::empty(),
            r.data_rendered@ == Seq::<char>::empty(),
    {
        Erow { data: Vec::new(), data_rendered: Vec::new() }
    }
}

/// The association between the in-memory buffer and a backing file path.
/// An absent `Document` means the buffer has no backing file yet.
pub struct Document {
    pub filename: String,
    pub saved: bool,
}

/// The text of each row, in buffer order.
pub open spec fn texts_of(rows: Seq<Erow>) -> Seq<Seq<char>> {
    rows.map_values(|r: Erow| r.data@)
}

/// The rendered text of each row, in buffer order.
pub open spec fn rendered_of(rows: Seq<Erow>) -> Seq<Seq<char>> {
    rows.map_values(|r: Erow| r.data_rendered@)
}

/// The text that a save writes for `rows`: every row's content in order, each
/// terminated by a newline, nothing else.
pub open spec fn file_content(rows: Seq<Seq<char>>) -> Seq<char>
    decreases rows.len(),
{
    if rows.len() == 0 {
        Seq::empty()
    } else {
        rows[0] + seq!['\n'] + file_content(rows.drop_first())
    }
}

/// Appending one more row to a buffer appends its newline-terminated text to
/// the written file content.
pub proof fn lemma_file_content_push(rows: Seq<Seq<char>>, r: Seq<char>)
    ensures
        file_content(rows.push(r)) == file_content(rows) + r + seq!['\n'],
    decreases rows.len(),
{
    if rows.len() == 0 {
        assert(rows.push(r).drop_first() =~= Seq::<Seq<char>>::empty());
        assert(file_content(Seq::<Seq<char>>::empty()) == Seq::<char>::empty());
        assert(file_content(rows) == Seq::<char>::empty());
        assert(rows.push(r)[0] == r);
        assert(file_content(rows.push(r)) =~= file_content(rows) + r + seq!['\n']);
    } else {
        assert(rows.push(r).drop_first() =~= rows.drop_first().push(r));
        lemma_file_content_push(rows.drop_first(), r);
        assert(file_content(rows.push(r)) =~= file_content(rows) + r + seq!['\n']);
    }
}

/// A fresh vector holding the same characters as `src`.
pub fn copy_chars(src: &Vec<char>) -> (r: Vec<char>)
    ensures
        r@ == src@,
{
    let mut r: Vec<char> = Vec::new();
    let mut i: usize = 0;
    while i < src.len()
        invariant
            i <= src.len(),
            r@ == src@.take(i as int),
        decreases src.len() - i,
    {
        r.push(src[i]);
        i = i + 1;
        proof {
            assert(r@ =~= src@.take(i as int));
        }
    }
    proof {
        assert(src@.take(src@.len() as int) =~= src@);
    }
    r
}

/// A fresh vector holding the characters of `src` from offset `from` to the
/// end; a `from` past the end yields an empty vector.
pub fn suffix_chars(src: &Vec<char>, from: usize) -> (r: Vec<char>)
    ensures
        from <= src@.len() ==> r@ == src@.skip(from as int),
        from > src@.len() ==> r@ == Seq::<char>::empty(),
{
    let mut r: Vec<char> = Vec::new();
    let mut i: usize = from;
    while i < src.len()
        invariant
            from <= i,
            from <= src@.len() ==> i <= src@.len() && r@ == src@.subrange(from as int, i as int),
            from > src@.len() ==> r@ == Seq::<char>::empty(),
        decreases src@.len() - i,
    {
        r.push(src[i]);
        i = i + 1;
        proof {
            assert(r@ =~= src@.subrange(from as int, i as int));
        }
    }
    proof {
        if from <= src@.len() {
            assert(r@ =~= src@.skip(from as int));
        }
    }
    r
}

/// The exact string that saving writes for `rows`: each row's content followed
/// by a newline. A save replaces the file with this string whole, so a shorter
/// buffer writes a shorter file.
pub fn render_file_content(rows: &Vec<Erow>) -> (s: String)
    ensures
        s@ == file_content(texts_of(rows@)),
{
    let mut buf: Vec<char> = Vec::new();
    let mut i: usize = 0;
    while i < rows.len()
        invariant
            i <= rows.len(),
            buf@ == file_content(texts_of(rows@.take(i as int))),
        decreases rows.len() - i,
    {
        let ghost pre: Seq<char> = buf@;
        let row: &Vec<char> = &rows[i].data;
        let mut j: usize = 0;
        while j < row.len()
            invariant
                j <= row.len(),
                buf@ == pre + row@.take(j as int),
            decreases row.len() - j,
        {
            buf.push(row[j]);
            j = j + 1;
            proof {
                assert(buf@ =~= pre + row@.take(j as int));
            }
        }
        buf.push('\n');
        i = i + 1;
        proof {
            assert(row@.take(row@.len() as int) =~= row@);
            lemma_file_content_push(texts_of(rows@.take(i - 1)), rows@[i - 1].data@);
            assert(texts_of(rows@.take(i as int)) =~= texts_of(rows@.take(i - 1)).push(
                rows@[i - 1].data@,
            ));
            assert(buf@ =~= file_content(texts_of(rows@.take(i as int))));
        }
    }
    proof {
        assert(rows@.take(rows@.len() as int) =~= rows@);
    }
    chars_to_string(&buf)
}

/// Builds the in-memory buffer for a file just loaded as `lines`, bound to
/// `filename` and marked saved. Each line becomes one row, shown as loaded.
pub fn document_from_lines(lines: Vec<Vec<char>>, filename: String) -> (r: (
    Vec<Erow>,
    Option<Document>,
))
    ensures
        r.0@.len() == lines@.len(),
        forall|i: int|
            0 <= i < r.0@.len() ==> r.0@[i].data@ == lines@[i]@ && r.0@[i].data_rendered@
                == lines@[i]@,
        r.1 is Some,
        r.1->0.filename@ == filename@,
        r.1->0.saved == true,
{
    let mut rows: Vec<Erow> = Vec::new();
    let mut i: usize = 0;
    while i < lines.len()
        invariant
            i <= lines.len(),
            rows@.len() == i,
            forall|k: int|
                0 <= k < i ==> rows@[k].data@ == lines@[k]@ && rows@[k].data_rendered@ == lines@[k]@,
        decreases lines.len() - i,
    {
        let data = copy_chars(&lines[i]);
        let data_rendered = copy_chars(&lines[i]);
        rows.push(Erow { data, data_rendered });
        i = i + 1;
    }
    (rows, Some(Document { filename, saved: true }))
}

} // verus!
