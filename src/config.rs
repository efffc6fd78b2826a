//! Configuration values the engine reads: the capture settings with their
//! defaults and overlay rule, viewports and sources.
use vstd::prelude::*;

use crate::pool::DEFAULT_PARALLEL;

verus! {

/// How the final screenshot is taken.
#[derive(Debug, Clone, Copy, PartialEq, Eq, Structural)]
pub enum ScreenshotKind {
    /// Repeat until two consecutive shots are byte-identical.
    Stable,
    /// One shot.
    Single,
}

impl Default for ScreenshotKind {
    fn default() -> (r: ScreenshotKind)
        ensures
            r == ScreenshotKind::Stable,
    {
        ScreenshotKind::Stable
    }
}

/// Configuration for the capture pipeline. `None` means "use the default".
pub struct CaptureConfig {
    pub screenshot: Option<ScreenshotKind>,
    pub stability_attempts: Option<u32>,
    pub stability_delay_ms: Option<u64>,
    /// Number of parallel browser tabs for capturing.
    pub parallel: Option<usize>,
    /// Remote browser base URL (`http://host:port`); absent: launch locally.
    pub chrome_url: Option<String>,
}

/// The view of an optional string.
pub open spec fn opt_view(s: Option<String>) -> Option<Seq<char>> {
    match s {
        Some(v) => Some(v@),
        None => None,
    }
}

/// `over` where it is set, `base` elsewhere.
pub open spec fn overlay<T>(base: Option<T>, over: Option<T>) -> Option<T> {
    if over is Some {
        over
    } else {
        base
    }
}

impl CaptureConfig {
    /// A configuration with every setting left to its default.
    pub fn empty() -> (r: CaptureConfig)
        ensures
            r.screenshot is None,
            r.stability_attempts is None,
            r.stability_delay_ms is None,
            r.parallel is None,
            r.chrome_url is None,
    {
        CaptureConfig {
            screenshot: None,
            stability_attempts: None,
            stability_delay_ms: None,
            parallel: None,
            chrome_url: None,
        }
    }

    /// Overlay the set fields of `other` onto self.
    pub fn merge(&mut self, other: &CaptureConfig)
        ensures
            final(self).screenshot == overlay(old(self).screenshot, other.screenshot),
            final(self).stability_attempts == overlay(
                old(self).stability_attempts,
                other.stability_attempts,
            ),
            final(self).stability_delay_ms == overlay(
                old(self).stability_delay_ms,
                other.stability_delay_ms,
            ),
            final(self).parallel == overlay(old(self).parallel, other.parallel),
            opt_view(final(self).chrome_url) == overlay(
                opt_view(old(self).chrome_url),
                opt_view(other.chrome_url),
            ),
    {
        if other.screenshot.is_some() {
            self.screenshot = other.screenshot;
        }
        if other.stability_attempts.is_some() {
            self.stability_attempts = other.stability_attempts;
        }
        if other.stability_delay_ms.is_some() {
            self.stability_delay_ms = other.stability_delay_ms;
        }
        if other.parallel.is_some() {
            self.parallel = other.parallel;
        }
        match &other.chrome_url {
            Some(u) => self.chrome_url = Some(u.clone()),
            None => {},
        }
    }

    /// The worker count: the configured value, 4 by default.
    pub fn parallel(&self) -> (r: usize)
        ensures
            r == match self.parallel {
                Some(p) => p,
                None => DEFAULT_PARALLEL,
            },
    {
        match self.parallel {
            Some(p) => p,
            None => DEFAULT_PARALLEL,
        }
    }
}

/// A named pair of CSS pixel sizes.
#[derive(Debug, Clone, Copy, PartialEq, Eq, Structural)]
pub struct Viewport {
    pub width: u32,
    pub height: u32,
}

/// Where stories come from.
pub enum SourceConfig {
    /// A component catalog at `url`, optionally limited to some viewports.
    Storybook { url: String, viewports: Option<Vec<String>> },
}

impl SourceConfig {
    /// The catalog's base URL.
    pub fn url(&self) -> (r: &String)
        ensures
            match self {
                SourceConfig::Storybook { url, .. } => r == url,
            },
    {
        match self {
            SourceConfig::Storybook { url, .. } => url,
        }
    }

    /// The viewport names the source is limited to, if any.
    pub fn viewports(&self) -> (r: Option<&Vec<String>>)
        ensures
            match self {
                SourceConfig::Storybook { viewports, .. } => match viewports {
                    Some(v) => r == Some(v),
                    None => r is None,
                },
            },
    {
        match self {
            SourceConfig::Storybook { viewports, .. } => match viewports {
                Some(v) => Some(v),
                None => None,
            },
        }
    }
}

/// The viewports used when none is configured: `laptop`, 1366 x 768.
pub fn default_viewports() -> (r: Vec<(String, Viewport)>)
    ensures
        r@.len() == 1,
        r@[0].0@ == "laptop"@,
        r@[0].1 == (Viewport { width: 1366, height: 768 }),
{
    vec![(String::from_str("laptop"), Viewport { width: 1366, height: 768 })]
}

/// The named viewports as plain values.
pub open spec fn vp_model(vps: Seq<(String, Viewport)>) -> Seq<(Seq<char>, Viewport)> {
    vps.map_values(|e: (String, Viewport)| (e.0@, e.1))
}

/// The viewports a source uses: all defined ones, or, when the source lists
/// some, the defined ones it lists, in the order of `defined`.
pub fn resolve_viewports(selected: Option<&Vec<String>>, defined: &Vec<(String, Viewport)>) -> (r: Vec<
    (String, Viewport),
>)
    ensures
        match selected {
            None => vp_model(r@) == vp_model(defined@),
            Some(sel) => vp_model(r@) == vp_model(defined@).filter(
                |e: (Seq<char>, Viewport)| crate::driver::views(sel@).contains(e.0),
            ),
        },
{
    let mut r: Vec<(String, Viewport)> = Vec::new();
    let mut i: usize = 0;
    while i < defined.len()
        invariant
            i <= defined.len(),
            match selected {
                None => vp_model(r@) == vp_model(defined@).take(i as int),
                Some(sel) => vp_model(r@) == vp_model(defined@).take(i as int).filter(
                    |e: (Seq<char>, Viewport)| crate::driver::views(sel@).contains(e.0),
                ),
            },
        decreases defined.len() - i,
    {
        reveal(Seq::filter);
        let ghost t1 = vp_model(defined@).take(i + 1);
        assert(t1.drop_last() =~= vp_model(defined@).take(i as int));
        assert(t1.last() == (defined@[i as int].0@, defined@[i as int].1));
        let keep = match selected {
            None => true,
            Some(sel) => crate::driver::contains_id(sel, &defined[i].0),
        };
        if keep {
            let ghost before = r@;
            r.push((defined[i].0.clone(), defined[i].1));
            assert(vp_model(r@) =~= vp_model(before).push(t1.last()));
        }
        i += 1;
    }
    assert(vp_model(defined@).take(defined.len() as int) =~= vp_model(defined@));
    r
}

/// What is wrong with a configuration.
pub enum ConfigError {
    /// No source is configured.
    NoSources,
    /// No viewport is configured.
    NoViewports,
    /// A viewport has a zero width or height.
    InvalidViewport { name: String, width: u32, height: u32 },
    /// A source names a viewport that is not defined.
    UnknownViewport { source: String, viewport: String },
}

/// Viewport `v` has a zero side.
pub open spec fn degenerate(v: Viewport) -> bool {
    v.width == 0 || v.height == 0
}

/// The viewport names a list defines.
pub open spec fn vp_names(vps: Seq<(String, Viewport)>) -> Seq<Seq<char>> {
    vps.map_values(|e: (String, Viewport)| e.0@)
}

/// Source `s` names a viewport that `vps` does not define.
pub open spec fn refers_to_unknown(s: SourceConfig, vps: Seq<(String, Viewport)>) -> bool {
    match s {
        SourceConfig::Storybook { viewports, .. } => match viewports {
            None => false,
            Some(names) => exists|j: int|
                0 <= j < names@.len() && !vp_names(vps).contains(#[trigger] names@[j]@),
        },
    }
}

/// Some viewport of the list has a zero side.
pub open spec fn has_degenerate(vps: Seq<(String, Viewport)>) -> bool {
    exists|i: int| 0 <= i < vps.len() && degenerate(#[trigger] vps[i].1)
}

/// Some source names an undefined viewport.
pub open spec fn has_unknown_ref(srcs: Seq<(String, SourceConfig)>, vps: Seq<(String, Viewport)>) -> bool {
    exists|i: int| 0 <= i < srcs.len() && refers_to_unknown(#[trigger] srcs[i].1, vps)
}

/// Whether `name` is among the names of `vps`.
fn defines(vps: &Vec<(String, Viewport)>, name: &String) -> (r: bool)
    ensures
        r == vp_names(vps@).contains(name@),
{
    let mut i: usize = 0;
    while i < vps.len()
        invariant
            i <= vps.len(),
            forall|k: int| 0 <= k < i ==> #[trigger] vps@[k].0@ != name@,
        decreases vps.len() - i,
    {
        if vps[i].0 == *name {
            assert(vp_names(vps@)[i as int] == name@);
            return true;
        }
        i += 1;
    }
    assert(!vp_names(vps@).contains(name@)) by {
        if vp_names(vps@).contains(name@) {
            let k = choose|k: int| 0 <= k < vp_names(vps@).len() && vp_names(vps@)[k] == name@;
            assert(vps@[k].0@ == name@);
        }
    }
    false
}

/// Check a configuration: at least one source and one viewport, no
/// viewport with a zero side, and no source naming an undefined viewport,
/// reported in that order.
pub fn validate(sources: &Vec<(String, SourceConfig)>, viewports: &Vec<(String, Viewport)>) -> (r: Result<(), ConfigError>)
    ensures
        (r matches Err(ConfigError::NoSources)) <==> sources@.len() == 0,
        (r matches Err(ConfigError::NoViewports)) <==> sources@.len() > 0 && viewports@.len() == 0,
        (r matches Err(ConfigError::InvalidViewport { .. })) <==> sources@.len() > 0
            && viewports@.len() > 0 && has_degenerate(viewports@),
        (r matches Err(ConfigError::UnknownViewport { .. })) <==> sources@.len() > 0
            && viewports@.len() > 0 && !has_degenerate(viewports@) && has_unknown_ref(sources@, viewports@),
        r is Ok <==> sources@.len() > 0 && viewports@.len() > 0 && !has_degenerate(viewports@)
            && !has_unknown_ref(sources@, viewports@),
        r matches Err(ConfigError::InvalidViewport { name, width, height }) ==> exists|i: int|
            0 <= i < viewports@.len() && viewports@[i].0@ == name@ && viewports@[i].1
                == (Viewport { width, height }) && degenerate(viewports@[i].1),
{
    if sources.len() == 0 {
        return Err(ConfigError::NoSources);
    }
    if viewports.len() == 0 {
        return Err(ConfigError::NoViewports);
    }
    let mut i: usize = 0;
    while i < viewports.len()
        invariant
            i <= viewports.len(),
            sources@.len() > 0,
            viewports@.len() > 0,
            forall|k: int| 0 <= k < i ==> !degenerate(#[trigger] viewports@[k].1),
        decreases viewports.len() - i,
    {
        let v = viewports[i].1;
        if v.width == 0 || v.height == 0 {
            assert(degenerate(viewports@[i as int].1));
            return Err(
                ConfigError::InvalidViewport {
                    name: viewports[i].0.clone(),
                    width: v.width,
                    height: v.height,
                },
            );
        }
        i += 1;
    }
    let mut s: usize = 0;
    while s < sources.len()
        invariant
            s <= sources.len(),
            sources@.len() > 0,
            viewports@.len() > 0,
            !has_degenerate(viewports@),
            forall|k: int| 0 <= k < s ==> !refers_to_unknown(#[trigger] sources@[k].1, viewports@),
        decreases sources.len() - s,
    {
        match sources[s].1.viewports() {
            None => {},
            Some(names) => {
                let mut j: usize = 0;
                while j < names.len()
                    invariant
                        j <= names.len(),
                        s < sources.len(),
                        sources@.len() > 0,
                        viewports@.len() > 0,
                        !has_degenerate(viewports@),
                        sources@[s as int].1 matches SourceConfig::Storybook { viewports: Some(ns), .. }
                            && ns@ == names@,
                        forall|k: int| 0 <= k < j ==> vp_names(viewports@).contains(#[trigger] names@[k]@),
                    decreases names.len() - j,
                {
                    if !defines(viewports, &names[j]) {
                        assert(refers_to_unknown(sources@[s as int].1, viewports@));
                        return Err(
                            ConfigError::UnknownViewport {
                                source: sources[s].0.clone(),
                                viewport: names[j].clone(),
                            },
                        );
                    }
                    j += 1;
                }
            },
        }
        s += 1;
    }
    Ok(())
}

} // verus!
