//! In-memory representation of one source file: its path, its raw bytes and
//! its lines.  The caller reads files from disk and hands their contents in;
//! every analysis pass is a pure function over these values.

use vstd::prelude::*;
use crate::text;

verus! {

/// One source file of the corpus under analysis.
///
/// `lines` is always exactly the line split of `content`, which
/// [`SourceUnit::new`] establishes and nothing can break: the fields are
/// never mutated after construction.
pub struct SourceUnit {
    pub path: Vec<u8>,
    pub content: Vec<u8>,
    pub lines: Vec<Vec<u8>>,
}

impl SourceUnit {
    /// The lines stored with the unit are the line split of its content.
    pub open spec fn wf(&self) -> bool {
        self.lines.deep_view() == text::spec_lines(self.content@)
    }

    /// Build a source unit from a path and the file's raw bytes.
    pub fn new(path: Vec<u8>, content: Vec<u8>) -> (r: SourceUnit)
        ensures
            r.wf(),
            r.path@ == path@,
            r.content@ == content@,
    {
        let lines = text::split_lines(&content);
        SourceUnit { path, content, lines }
    }

    /// Number of lines of the file.
    pub fn line_count(&self) -> (r: usize)
        ensures
            r == self.lines@.len(),
    {
        self.lines.len()
    }
}

/// Every unit of a corpus is well formed.
pub open spec fn corpus_wf(units: Seq<SourceUnit>) -> bool {
    forall|k: int| 0 <= k < units.len() ==> #[trigger] units[k].wf()
}

} // verus!
