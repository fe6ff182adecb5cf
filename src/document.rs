use vstd::prelude::*;

use crate::row::Row;
use vstd::std_specs::iter::IteratorSpec;

verus! {

broadcast use vstd::string::group_string_axioms;

/// `line` without one `'\r'` at its end, if it ends with one.
pub open spec fn strip_cr(line: Seq<char>) -> Seq<char> {
    if line.len() > 0 && line.last() == '\r' {
        line.drop_last()
    } else {
        line
    }
}

/// The lines of `rest`, appended to `done`, where `cur` is the part of the
/// current line that was already read. A line ends at `'\n'`, and a `'\r'`
/// just before it belongs to the terminator; the final line needs no
/// terminator, and no empty line follows a final `'\n'`.
pub open spec fn split_lines(rest: Seq<char>, cur: Seq<char>, done: Seq<Seq<char>>) -> Seq<Seq<char>>
    decreases rest.len(),
{
    if rest.len() == 0 {
        if cur.len() == 0 {
            done
        } else {
            done.push(cur)
        }
    } else if rest[0] == '\n' {
        split_lines(rest.drop_first(), Seq::empty(), done.push(strip_cr(cur)))
    } else {
        split_lines(rest.drop_first(), cur.push(rest[0]), done)
    }
}

/// The lines of `text`, in order.
pub open spec fn lines_of(text: Seq<char>) -> Seq<Seq<char>> {
    split_lines(text, Seq::empty(), Seq::empty())
}

/// The characters of each row.
pub open spec fn rows_view(rows: Seq<Row>) -> Seq<Seq<char>> {
    rows.map_values(|r: Row| r@)
}

/// The rows of a text, in the order in which they appear in it.
pub struct Document {
    rows: Vec<Row>,
}

impl View for Document {
    type V = Seq<Seq<char>>;

    closed spec fn view(&self) -> Seq<Seq<char>> {
        rows_view(self.rows@)
    }
}

impl Default for Document {
    /// A document without rows.
    fn default() -> (r: Document)
        ensures
            r@ == Seq::<Seq<char>>::empty(),
    {
        let r = Document { rows: Vec::new() };
        assert(r@ =~= Seq::<Seq<char>>::empty());
        r
    }
}

/// `cur` without a final `'\r'`.
fn strip_cr_string(cur: String) -> (r: String)
    ensures
        r@ == strip_cr(cur@),
{
    let len = cur.as_str().unicode_len();
    if len > 0 && cur.as_str().get_char(len - 1) == '\r' {
        String::from_str(cur.as_str().substring_char(0, len - 1))
    } else {
        cur
    }
}

impl Document {
    /// The document whose rows are the lines of `text`.
    pub fn from_text(text: &str) -> (r: Document)
        ensures
            r@ == lines_of(text@),
    {
        let mut rows: Vec<Row> = Vec::new();
        let mut cur = String::new();
        let mut it = text.chars();
        assert(rows_view(rows@) =~= Seq::<Seq<char>>::empty());
        loop
            invariant
                it.decrease() is Some,
                split_lines(it.remaining(), cur@, rows_view(rows@)) == lines_of(text@),
            decreases it.decrease()->0,
        {
            match it.next() {
                None => {
                    if cur.as_str().unicode_len() > 0 {
                        let ghost prev = rows@;
                        rows.push(Row::from_string(cur));
                        assert(rows_view(rows@) =~= rows_view(prev).push(cur@));
                    }
                    return Document { rows };
                },
                Some(c) => {
                    if c == '\n' {
                        let line = cur;
                        cur = String::new();
                        let ghost prev = rows@;
                        rows.push(Row::from_string(strip_cr_string(line)));
                        assert(rows_view(rows@) =~= rows_view(prev).push(strip_cr(line@)));
                    } else {
                        crate::row::push_char(&mut cur, c);
                    }
                },
            }
        }
    }

    /// The number of rows.
    pub fn len(&self) -> (r: usize)
        ensures
            r == self@.len(),
    {
        self.rows.len()
    }

    /// The row at `index`, or `None` past the last row.
    pub fn row(&self, index: usize) -> (r: Option<&Row>)
        ensures
            index < self@.len() ==> r is Some && r->0@ == self@[index as int],
            index >= self@.len() ==> r is None,
    {
        if index < self.rows.len() {
            Some(&self.rows[index])
        } else {
            None
        }
    }
}

} // verus!
