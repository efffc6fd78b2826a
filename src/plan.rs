//! Capture planning: the cartesian product of the catalog's stories (those not
//! tagged to be skipped) with the configured viewports, narrowed by a filter.
use vstd::prelude::*;

use crate::catalog::Storybook;
use crate::config::{CaptureConfig, Viewport};
use crate::driver::views;
use crate::job::CaptureJob;
use crate::story::Story;

verus! {

/// A copy of a list of strings.
pub fn copy_strings(v: &Vec<String>) -> (r: Vec<String>)
    ensures
        views(r@) == views(v@),
{
    let mut r: Vec<String> = Vec::new();
    let mut i: usize = 0;
    while i < v.len()
        invariant
            i <= v.len(),
            views(r@) == views(v@).take(i as int),
        decreases v.len() - i,
    {
        let ghost before = r@;
        let c = v[i].clone();
        assert(c@ == v@[i as int]@);
        r.push(c);
        assert(views(r@) =~= views(before).push(v@[i as int]@));
        assert(views(v@).take(i + 1) =~= views(v@).take(i as int).push(v@[i as int]@));
        i += 1;
    }
    assert(views(v@).take(v.len() as int) =~= views(v@));
    r
}

/// Two stories with the same id, name, title and tags.
pub open spec fn same_story(a: Story, b: Story) -> bool {
    a.id@ == b.id@ && a.name@ == b.name@ && a.title@ == b.title@ && views(a.tags@) == views(
        b.tags@,
    )
}

impl Story {
    /// A copy of the story.
    pub fn duplicate(&self) -> (r: Story)
        ensures
            same_story(r, *self),
    {
        Story {
            id: self.id.clone(),
            name: self.name.clone(),
            title: self.title.clone(),
            tags: copy_strings(&self.tags),
        }
    }
}

/// `job` is the job of story `story` at viewport `vp`, from source `source`
/// of catalog base `base`.
pub open spec fn job_of(
    job: CaptureJob,
    source: Seq<char>,
    base: Seq<char>,
    story: Story,
    vp: (String, Viewport),
) -> bool {
    &&& job.source@ == source
    &&& same_story(job.story, story)
    &&& job.viewport@ == vp.0@
    &&& job.url@ == base + "/iframe.html?id="@ + story.id@
    &&& job.width == vp.1.width
    &&& job.height == vp.1.height
}

/// The pair (story `a`, viewport `b`) is planned: the story is not skipped,
/// and its job is selected by the filter, if there is one.
pub open spec fn kept(
    stories: Seq<Story>,
    vps: Seq<(String, Viewport)>,
    source: Seq<char>,
    filter: Option<Seq<char>>,
    a: int,
    b: int,
) -> bool {
    !stories[a].skipped() && match filter {
        None => true,
        Some(p) => crate::job::selects(
            p,
            source,
            stories[a].id@,
            stories[a].title@,
            stories[a].name@,
            vps[b].0@,
        ),
    }
}

/// The kept pairs of row `a` among the first `m` viewports, in order.
pub open spec fn row(
    stories: Seq<Story>,
    vps: Seq<(String, Viewport)>,
    source: Seq<char>,
    filter: Option<Seq<char>>,
    a: int,
    m: int,
) -> Seq<(int, int)>
    decreases m,
{
    if m <= 0 {
        Seq::empty()
    } else {
        row(stories, vps, source, filter, a, m - 1) + if kept(stories, vps, source, filter, a, m - 1) {
            seq![(a, m - 1)]
        } else {
            Seq::empty()
        }
    }
}

/// The kept pairs of the first `n` stories, story by story, viewports in order.
pub open spec fn planned_pairs(
    stories: Seq<Story>,
    vps: Seq<(String, Viewport)>,
    source: Seq<char>,
    filter: Option<Seq<char>>,
    n: int,
) -> Seq<(int, int)>
    decreases n,
{
    if n <= 0 {
        Seq::empty()
    } else {
        planned_pairs(stories, vps, source, filter, n - 1) + row(
            stories,
            vps,
            source,
            filter,
            n - 1,
            vps.len() as int,
        )
    }
}

/// `jobs` are the jobs of `pairs`, one for one and in order.
pub open spec fn jobs_match(
    jobs: Seq<CaptureJob>,
    pairs: Seq<(int, int)>,
    source: Seq<char>,
    base: Seq<char>,
    stories: Seq<Story>,
    vps: Seq<(String, Viewport)>,
) -> bool {
    &&& jobs.len() == pairs.len()
    &&& forall|k: int|
        0 <= k < jobs.len() ==> job_of(
            #[trigger] jobs[k],
            source,
            base,
            stories[pairs[k].0],
            vps[pairs[k].1],
        )
}

/// The view of an optional string slice.
pub open spec fn opt_str(s: Option<&str>) -> Option<Seq<char>> {
    match s {
        Some(v) => Some(v@),
        None => None,
    }
}

/// Build the job list: every story not tagged to be skipped, at every
/// viewport, story by story; with a filter, only the jobs it selects.
pub fn build_jobs(
    source_name: &str,
    storybook: &Storybook,
    stories: &Vec<Story>,
    viewports: &Vec<(String, Viewport)>,
    filter: Option<&str>,
) -> (r: Vec<CaptureJob>)
    ensures
        jobs_match(
            r@,
            planned_pairs(stories@, viewports@, source_name@, opt_str(filter), stories@.len() as int),
            source_name@,
            storybook.base(),
            stories@,
            viewports@,
        ),
{
    let ghost fil = opt_str(filter);
    let mut jobs: Vec<CaptureJob> = Vec::new();
    let mut a: usize = 0;
    while a < stories.len()
        invariant
            a <= stories.len(),
            fil == opt_str(filter),
            jobs_match(
                jobs@,
                planned_pairs(stories@, viewports@, source_name@, fil, a as int),
                source_name@,
                storybook.base(),
                stories@,
                viewports@,
            ),
        decreases stories.len() - a,
    {
        let skipped = stories[a].is_skipped();
        let mut b: usize = 0;
        while b < viewports.len()
            invariant
                a < stories.len(),
                b <= viewports.len(),
                fil == opt_str(filter),
                skipped == stories@[a as int].skipped(),
                jobs_match(
                    jobs@,
                    planned_pairs(stories@, viewports@, source_name@, fil, a as int) + row(
                        stories@,
                        viewports@,
                        source_name@,
                        fil,
                        a as int,
                        b as int,
                    ),
                    source_name@,
                    storybook.base(),
                    stories@,
                    viewports@,
                ),
            decreases viewports.len() - b,
        {
            let ghost before = jobs@;
            let ghost pairs = planned_pairs(stories@, viewports@, source_name@, fil, a as int) + row(
                stories@,
                viewports@,
                source_name@,
                fil,
                a as int,
                b as int,
            );
            if !skipped {
                let job = CaptureJob {
                    source: String::from_str(source_name),
                    story: stories[a].duplicate(),
                    viewport: viewports[b].0.clone(),
                    url: storybook.story_url(&stories[a]),
                    width: viewports[b].1.width,
                    height: viewports[b].1.height,
                };
                let keep = match filter {
                    None => true,
                    Some(p) => job.matches_filter(p),
                };
                assert(keep == kept(stories@, viewports@, source_name@, fil, a as int, b as int));
                if keep {
                    jobs.push(job);
                    assert(jobs_match(
                        jobs@,
                        pairs.push((a as int, b as int)),
                        source_name@,
                        storybook.base(),
                        stories@,
                        viewports@,
                    )) by {
                        assert forall|k: int| 0 <= k < jobs@.len() implies job_of(
                            #[trigger] jobs@[k],
                            source_name@,
                            storybook.base(),
                            stories@[pairs.push((a as int, b as int))[k].0],
                            viewports@[pairs.push((a as int, b as int))[k].1],
                        ) by {
                            if k < before.len() {
                                assert(jobs@[k] == before[k]);
                            }
                        }
                    }
                }
            }
            assert(row(stories@, viewports@, source_name@, fil, a as int, b + 1) == row(
                stories@,
                viewports@,
                source_name@,
                fil,
                a as int,
                b as int,
            ) + if kept(stories@, viewports@, source_name@, fil, a as int, b as int) {
                seq![(a as int, b as int)]
            } else {
                Seq::empty()
            });
            assert(pairs + seq![(a as int, b as int)] == pairs.push((a as int, b as int)));
            assert(pairs + Seq::<(int, int)>::empty() == pairs);
            b += 1;
        }
        a += 1;
    }
    jobs
}

/// Plans and executes a capture run: the configuration and the job list.
pub struct CapturePlan {
    pub config: CaptureConfig,
    pub jobs: Vec<CaptureJob>,
}

impl CapturePlan {
    /// Number of jobs in the run.
    pub fn total(&self) -> (r: usize)
        ensures
            r == self.jobs@.len(),
    {
        self.jobs.len()
    }

    /// The snapshot ids of all jobs in this run, in order.
    pub fn job_names(&self) -> (r: Vec<String>)
        ensures
            r@.len() == self.jobs@.len(),
            forall|k: int| 0 <= k < r@.len() ==> #[trigger] r@[k]@ == self.jobs@[k].id(),
    {
        let mut r: Vec<String> = Vec::new();
        let mut i: usize = 0;
        while i < self.jobs.len()
            invariant
                i <= self.jobs.len(),
                r@.len() == i,
                forall|k: int| 0 <= k < i ==> #[trigger] r@[k]@ == self.jobs@[k].id(),
            decreases self.jobs.len() - i,
        {
            r.push(self.jobs[i].snapshot_id());
            i += 1;
        }
        r
    }
}

} // verus!
