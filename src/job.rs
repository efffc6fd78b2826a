//! Capture jobs: one story at one viewport, with its snapshot id and filter.
use vstd::prelude::*;

use crate::story::{filter_hit, filter_hits, normalized, Story};
use crate::text::{chars_of, push_char, replace_char, replace_chars, string_of};

verus! {

/// The extension that review pages show after a snapshot id.
pub open spec fn png_suffix() -> Seq<char> {
    seq!['.', 'p', 'n', 'g']
}

/// `p` ends with `.png`.
pub open spec fn ends_with_png(p: Seq<char>) -> bool {
    p.len() >= 4 && p.subrange(p.len() - 4, p.len() as int) == png_suffix()
}

/// `p` without a trailing `.png`.
pub open spec fn strip_png(p: Seq<char>) -> Seq<char> {
    if ends_with_png(p) {
        p.subrange(0, p.len() - 4)
    } else {
        p
    }
}

/// The snapshot id of a story at a viewport:
/// `{source}/{viewport}/{title}/{name}`, spaces in title and name turned into
/// underscores; slashes in the title stay and become directory separators.
pub open spec fn snapshot_id_of(
    source: Seq<char>,
    viewport: Seq<char>,
    title: Seq<char>,
    name: Seq<char>,
) -> Seq<char> {
    source + seq!['/'] + viewport + seq!['/'] + replace_char(title, ' ', '_') + seq!['/']
        + replace_char(name, ' ', '_')
}

/// Drop a trailing `.png` from a filter pattern.
pub fn strip_png_suffix(pattern: &str) -> (r: String)
    ensures
        r@ == strip_png(pattern@),
{
    let cs = chars_of(pattern);
    let n = cs.len();
    if n >= 4 && cs[n - 4] == '.' && cs[n - 3] == 'p' && cs[n - 2] == 'n' && cs[n - 1] == 'g' {
        assert(cs@.subrange(n - 4, n as int) == png_suffix());
        let mut head: Vec<char> = Vec::new();
        let mut i: usize = 0;
        while i < n - 4
            invariant
                n == cs.len(),
                n >= 4,
                i <= n - 4,
                head@ == cs@.take(i as int),
            decreases n - 4 - i,
        {
            head.push(cs[i]);
            assert(cs@.take(i + 1) == cs@.take(i as int).push(cs@[i as int]));
            i += 1;
        }
        assert(head@ == cs@.subrange(0, n - 4));
        string_of(&head)
    } else {
        assert(!ends_with_png(cs@)) by {
            if n >= 4 {
                let tail = cs@.subrange(n - 4, n as int);
                assert(tail[0] == cs@[n - 4]);
                assert(tail[1] == cs@[n - 3]);
                assert(tail[2] == cs@[n - 2]);
                assert(tail[3] == cs@[n - 1]);
            }
        }
        string_of(&cs)
    }
}

/// A job of the given source, story fields and viewport is selected by
/// `pattern`: after a trailing `.png` is dropped, the pattern occurs
/// (normalized) in a story field, the viewport name or the snapshot id.
pub open spec fn selects(
    pattern: Seq<char>,
    source: Seq<char>,
    id: Seq<char>,
    title: Seq<char>,
    name: Seq<char>,
    viewport: Seq<char>,
) -> bool {
    let p = strip_png(pattern);
    filter_hit(id, p) || filter_hit(title, p) || filter_hit(name, p) || filter_hit(viewport, p)
        || filter_hit(snapshot_id_of(source, viewport, title, name), p)
}

/// A single capture job.
#[derive(Clone)]
pub struct CaptureJob {
    /// Source name (e.g. "storybook").
    pub source: String,
    /// The story being captured.
    pub story: Story,
    /// Viewport name (e.g. "desktop", "mobile").
    pub viewport: String,
    /// Full URL to navigate to.
    pub url: String,
    /// Viewport width in CSS pixels.
    pub width: u32,
    /// Viewport height in CSS pixels.
    pub height: u32,
}

impl CaptureJob {
    /// The job's snapshot id.
    pub open spec fn id(&self) -> Seq<char> {
        snapshot_id_of(self.source@, self.viewport@, self.story.title@, self.story.name@)
    }

    /// The job is selected by `pattern`: after a trailing `.png` is dropped, it
    /// occurs (normalized) in a story field, the viewport name or the snapshot id.
    pub open spec fn selected_by(&self, pattern: Seq<char>) -> bool {
        selects(
            pattern,
            self.source@,
            self.story.id@,
            self.story.title@,
            self.story.name@,
            self.viewport@,
        )
    }

    /// Hierarchical snapshot ID used as a relative path.
    /// Layout: `{source}/{viewport}/{title_path}/{name}`.
    pub fn snapshot_id(&self) -> (r: String)
        ensures
            r@ == self.id(),
    {
        let title_path = replace_chars(self.story.title.as_str(), ' ', '_');
        let name_part = replace_chars(self.story.name.as_str(), ' ', '_');
        let mut out = self.source.clone();
        push_char(&mut out, '/');
        out.append(self.viewport.as_str());
        push_char(&mut out, '/');
        out.append(title_path.as_str());
        push_char(&mut out, '/');
        out.append(name_part.as_str());
        out
    }

    /// Check if this job matches a case-insensitive filter pattern.
    /// A trailing `.png` is dropped from the pattern; spaces and underscores
    /// are interchangeable.
    pub fn matches_filter(&self, pattern: &str) -> (r: bool)
        ensures
            r == self.selected_by(pattern@),
    {
        let p = strip_png_suffix(pattern);
        if self.story.matches_filter(p.as_str()) {
            return true;
        }
        if filter_hits(self.viewport.as_str(), p.as_str()) {
            return true;
        }
        let id = self.snapshot_id();
        filter_hits(id.as_str(), p.as_str())
    }
}

/// Replacing a character twice is replacing it once.
proof fn lemma_replace_idempotent(s: Seq<char>)
    ensures
        replace_char(replace_char(s, '_', ' '), '_', ' ') == replace_char(s, '_', ' '),
{
    assert(replace_char(replace_char(s, '_', ' '), '_', ' ') =~= replace_char(s, '_', ' '));
}

/// Dropping `.png` and reading underscores as spaces can be done in either order.
proof fn lemma_strip_png_commutes(p: Seq<char>)
    ensures
        strip_png(replace_char(p, '_', ' ')) == replace_char(strip_png(p), '_', ' '),
{
    let q = replace_char(p, '_', ' ');
    if p.len() >= 4 {
        let a = p.subrange(p.len() - 4, p.len() as int);
        let b = q.subrange(q.len() - 4, q.len() as int);
        assert(b =~= replace_char(a, '_', ' '));
        if ends_with_png(q) {
            assert(a =~= png_suffix()) by {
                assert forall|k: int| 0 <= k < 4 implies a[k] == png_suffix()[k] by {
                    assert(b[k] == png_suffix()[k]);
                }
            }
        }
        if ends_with_png(p) {
            assert(b =~= png_suffix());
            assert(q.subrange(0, q.len() - 4) =~= replace_char(p.subrange(0, p.len() - 4), '_', ' '));
        }
    }
}

/// Underscores and spaces in a pattern select the same texts.
proof fn lemma_hit_underscore_blind(t: Seq<char>, p: Seq<char>)
    ensures
        filter_hit(t, replace_char(p, '_', ' ')) == filter_hit(t, p),
{
    lemma_replace_idempotent(p);
    assert(normalized(replace_char(p, '_', ' ')) == normalized(p));
}

/// Filter match is stable under normalization: a pattern and the same pattern
/// with every underscore written as a space select exactly the same jobs.
pub proof fn lemma_filter_underscore_blind(job: CaptureJob, pattern: Seq<char>)
    ensures
        job.selected_by(replace_char(pattern, '_', ' ')) == job.selected_by(pattern),
{
    let p = strip_png(pattern);
    lemma_strip_png_commutes(pattern);
    lemma_hit_underscore_blind(job.story.id@, p);
    lemma_hit_underscore_blind(job.story.title@, p);
    lemma_hit_underscore_blind(job.story.name@, p);
    lemma_hit_underscore_blind(job.viewport@, p);
    lemma_hit_underscore_blind(job.id(), p);
}

/// A pattern followed by `.png` selects the same jobs as the pattern alone
/// (for a pattern that does not already end in `.png`).
pub proof fn lemma_png_suffix_ignored(job: CaptureJob, pattern: Seq<char>)
    requires
        !ends_with_png(pattern),
    ensures
        job.selected_by(pattern + png_suffix()) == job.selected_by(pattern),
{
    let q = pattern + png_suffix();
    assert(q.subrange(q.len() - 4, q.len() as int) =~= png_suffix());
    assert(q.subrange(0, q.len() - 4) =~= pattern);
}

/// The snapshot id is a function of source, viewport, title and name alone;
/// the parts taken from title and name hold no spaces, and every slash of the
/// title stays in place.
pub proof fn lemma_snapshot_id_deterministic(a: CaptureJob, b: CaptureJob)
    requires
        a.source@ == b.source@,
        a.viewport@ == b.viewport@,
        a.story.title@ == b.story.title@,
        a.story.name@ == b.story.name@,
    ensures
        a.id() == b.id(),
        forall|i: int|
            0 <= i < a.story.title@.len() ==> #[trigger] replace_char(a.story.title@, ' ', '_')[i]
                != ' ',
        forall|i: int|
            0 <= i < a.story.name@.len() ==> #[trigger] replace_char(a.story.name@, ' ', '_')[i]
                != ' ',
        forall|i: int|
            0 <= i < a.story.title@.len() && a.story.title@[i] == '/' ==> #[trigger] replace_char(
                a.story.title@,
                ' ',
                '_',
            )[i] == '/',
{
}

} // verus!
