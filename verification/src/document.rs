use vstd::prelude::*;

verus! {

/// An ordered sequence of text lines, 0-indexed, immutable once loaded.
/// Each line holds a single unit of text with no trailing line terminator.
pub struct Document {
    pub lines: Vec<String>,
}

impl View for Document {
    type V = Seq<Seq<char>>;

    open spec fn view(&self) -> Seq<Seq<char>> {
        self.lines@.map_values(|s: String| s@)
    }
}

impl Document {
    /// Wraps an already-drained sequence of lines as a Document,
    /// preserving order and exact text content.
    pub fn from_lines(lines: Vec<String>) -> (d: Document)
        ensures
            d@.len() == lines@.len(),
            forall|i: int| 0 <= i < lines@.len() ==> d@[i] == lines@[i]@,
    {
        Document { lines }
    }

    /// The number of lines; index `i` is valid iff `0 <= i < len`.
    pub fn len(&self) -> (n: usize)
        ensures
            n == self@.len(),
    {
        self.lines.len()
    }

    /// The line at a valid index.
    pub fn line(&self, i: usize) -> (s: &String)
        requires
            i < self@.len(),
        ensures
            s@ == self@[i as int],
    {
        &self.lines[i]
    }
}

} // verus!
