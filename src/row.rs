use vstd::prelude::*;

verus! {

/// Appends one character to a string.
/// Relies on std's `String::push`, which adds `c` at the end and changes nothing else.
#[verifier::external_body]
pub(crate) fn push_char(s: &mut String, c: char)
    ensures
        final(s)@ == old(s)@.push(c),
{
    s.push(c);
}

/// One line of a document, without its line terminator.
pub struct Row {
    string: String,
}

impl View for Row {
    type V = Seq<char>;

    closed spec fn view(&self) -> Seq<char> {
        self.string@
    }
}

/// The characters of `line` in the columns `[start, end)`, clipped to the line's length.
pub open spec fn clip(line: Seq<char>, start: int, end: int) -> Seq<char> {
    let e = if end < line.len() { end } else { line.len() as int };
    if start < e {
        line.subrange(start, e)
    } else {
        Seq::empty()
    }
}

/// Rendering never yields more than the columns asked for, nor more than the
/// row holds from `start` on, and nothing at all from `start` past its end.
pub proof fn lemma_render_clipping(line: Seq<char>, start: int, end: int)
    requires
        0 <= start <= end,
    ensures
        clip(line, start, end).len() <= end - start,
        start < line.len() ==> clip(line, start, end).len() <= line.len() - start,
        start >= line.len() ==> clip(line, start, end) == Seq::<char>::empty(),
{
}

impl Row {
    /// A row holding the characters of `text`.
    pub fn from_str(text: &str) -> (r: Row)
        ensures
            r@ == text@,
    {
        Row { string: String::from_str(text) }
    }

    /// A row that takes ownership of `string`.
    pub(crate) fn from_string(string: String) -> (r: Row)
        ensures
            r@ == string@,
    {
        Row { string }
    }

    /// The number of characters in the row.
    pub fn len(&self) -> (r: usize)
        ensures
            r == self@.len(),
    {
        self.string.as_str().unicode_len()
    }

    /// The characters of the row in the columns `[start, end)`; empty where
    /// `start >= end` or `start` lies at or past the end of the row.
    pub fn render(&self, start: usize, end: usize) -> (r: String)
        ensures
            r@ == clip(self@, start as int, end as int),
    {
        let len = self.string.as_str().unicode_len();
        let end = if end < len { end } else { len };
        if start < end {
            String::from_str(self.string.as_str().substring_char(start, end))
        } else {
            String::new()
        }
    }
}

} // verus!
