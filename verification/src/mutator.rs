//! The file mutator's decision logic: what an in-place rewrite of one file
//! does, decided from plain values.
//!
//! The caller reads the file's size, contents and permission bits, asks for
//! a plan, and carries it out: create a temporary file in the same
//! directory as the target, set its length and the plan's permission bits,
//! write the plan's contents, and rename it over the target in one step —
//! so a concurrent reader only ever sees the old contents or the new, never
//! a partial mix, and failure on any step leaves the original untouched.

use crate::replacer::Replacer;
use vstd::prelude::*;

verus! {

/// Everything the rewrite of one file needs: its full new contents and the
/// permission bits to restore on the replacement.
pub struct RewritePlan {
    /// The full new contents of the file.
    pub contents: Vec<u8>,
    /// The original file's permission bits, to be copied onto the
    /// temporary file before it is renamed over the target.
    pub mode_bits: u32,
}

impl RewritePlan {
    /// Whether the write-and-flush step is needed at all: an empty
    /// replacement needs only the truncating length set.
    pub fn needs_write(&self) -> (needed: bool)
        ensures
            needed == (self.contents@.len() > 0),
    {
        self.contents.len() > 0
    }
}

/// What the mutator decides for one file.
pub enum FileAction {
    /// Leave the file byte-for-byte untouched: it has no readable bytes.
    LeaveUntouched,
    /// Replace the whole file with the plan's contents under the plan's
    /// permission bits, through a sibling temporary file and one rename.
    Rewrite(RewritePlan),
}

impl Replacer {
    /// Decide the in-place rewrite of one file from its current contents
    /// and permission bits: an empty file is a no-op, never rewritten; any
    /// other file gets the full substitution result under its old bits.
    pub fn plan_rewrite(&self, content: &[u8], mode_bits: u32) -> (action: FileAction)
        ensures
            content@.len() == 0 ==> action is LeaveUntouched,
            content@.len() > 0 ==> (action matches FileAction::Rewrite(plan)
                && plan.contents@ == self.result_of(content@) && plan.mode_bits == mode_bits),
    {
        if content.len() == 0 {
            FileAction::LeaveUntouched
        } else {
            FileAction::Rewrite(RewritePlan { contents: self.replace(content), mode_bits })
        }
    }
}

} // verus!
