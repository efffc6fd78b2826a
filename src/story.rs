//! Stories discovered from the catalog, and the filter that selects them.
use vstd::prelude::*;

use crate::text::{
    chars_of, contains_chars, lower_of, lowercase, replace_char, replace_chars, seq_contains,
};

verus! {

/// The tag that excludes a story from capture.
pub const SKIP_TAG: &'static str = "snapvrt-skip";

/// The form in which filter patterns and the texts they search are compared:
/// underscores read as spaces, then lower case. Lower-casing maps neither
/// character to anything else, so the order of the two steps does not matter.
pub open spec fn normalized(s: Seq<char>) -> Seq<char> {
    lower_of(replace_char(s, '_', ' '))
}

/// Normalize a string for filter comparison: `_` and ` ` are equivalent, and
/// case is ignored.
pub fn normalize_for_filter(s: &str) -> (r: String)
    ensures
        r@ == normalized(s@),
{
    let spaced = replace_chars(s, '_', ' ');
    lowercase(spaced.as_str())
}

/// Whether the normalized `text` holds the normalized `pattern`.
pub open spec fn filter_hit(text: Seq<char>, pattern: Seq<char>) -> bool {
    seq_contains(normalized(text), normalized(pattern))
}

/// Whether the normalized `text` holds the normalized `pattern`.
pub fn filter_hits(text: &str, pattern: &str) -> (r: bool)
    ensures
        r == filter_hit(text@, pattern@),
{
    let t = normalize_for_filter(text);
    let p = normalize_for_filter(pattern);
    contains_chars(&chars_of(t.as_str()), &chars_of(p.as_str()))
}

/// A discovered story ready for capture.
#[derive(Debug, Clone)]
pub struct Story {
    pub id: String,
    pub name: String,
    pub title: String,
    pub tags: Vec<String>,
}

impl Story {
    /// The story carries the skip tag.
    pub open spec fn skipped(&self) -> bool {
        exists|i: int| 0 <= i < self.tags@.len() && #[trigger] self.tags@[i]@ == SKIP_TAG@
    }

    /// The pattern occurs, normalized, in the id, the title or the name.
    pub open spec fn matches(&self, pattern: Seq<char>) -> bool {
        filter_hit(self.id@, pattern) || filter_hit(self.title@, pattern) || filter_hit(
            self.name@,
            pattern,
        )
    }

    /// Check if this story should be skipped (tagged `snapvrt-skip`).
    pub fn is_skipped(&self) -> (r: bool)
        ensures
            r == self.skipped(),
    {
        let skip = String::from_str(SKIP_TAG);
        let mut i: usize = 0;
        while i < self.tags.len()
            invariant
                i <= self.tags.len(),
                skip@ == SKIP_TAG@,
                forall|k: int| 0 <= k < i ==> #[trigger] self.tags@[k]@ != SKIP_TAG@,
            decreases self.tags.len() - i,
        {
            if self.tags[i] == skip {
                return true;
            }
            i += 1;
        }
        false
    }

    /// Check if any story field matches a case-insensitive pattern.
    pub fn matches_filter(&self, pattern: &str) -> (r: bool)
        ensures
            r == self.matches(pattern@),
    {
        filter_hits(self.id.as_str(), pattern) || filter_hits(self.title.as_str(), pattern)
            || filter_hits(self.name.as_str(), pattern)
    }
}

} // verus!
