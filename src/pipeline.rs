//! The capture pipeline as a sequence of page actions: the fixed stages up to
//! measuring the story's bounds, then the clip and what it takes to shoot it.
//! The caller performs each action on a tab.
use vstd::prelude::*;

verus! {

/// Pause after enlarging the viewport, so the page can reflow, in milliseconds.
pub const VIEWPORT_RESIZE_SETTLE_MS: u64 = 500;

/// Parameters for a single capture operation.
pub struct CaptureRequest {
    pub url: String,
    pub width: u32,
    pub height: u32,
}

/// Bounds reported by the page for the story, in whole CSS pixels.
#[derive(Debug, Clone, Copy, PartialEq, Eq, Structural)]
pub struct ClipBounds {
    pub x: i64,
    pub y: i64,
    pub width: i64,
    pub height: i64,
}

/// Clip region in CSS pixels passed to the screenshot command.
#[derive(Debug, Clone, Copy, PartialEq, Eq, Structural)]
pub struct ClipRect {
    pub x: i64,
    pub y: i64,
    pub w: u32,
    pub h: u32,
}

/// One step of the pipeline, performed by the caller on the tab.
pub enum PageAction {
    /// Emulate a `width x height` viewport at scale factor 1, not mobile.
    SetViewport { width: u32, height: u32 },
    /// Drop buffered events, then start navigating to the URL.
    Navigate(String),
    /// Wait for the load event, at most 10 s; a timeout is not an error.
    WaitPageLoad,
    /// Wait until no request has been pending for 100 ms, at most 10 s.
    WaitNetworkIdle,
    /// Inject the animation-suppressing style and finish running animations.
    DisableAnimations,
    /// Wait for fonts and a quiet DOM, at most 10 s; a timeout fails the capture.
    WaitReady,
    /// Wait for a visible story root, at most 10 s; a timeout fails the capture.
    WaitStoryRoot,
    /// Measure the story's bounds.
    MeasureClip,
    /// Sleep for the given number of milliseconds.
    Sleep(u64),
    /// Take the screenshot of the clip with the configured strategy.
    Screenshot(ClipRect),
}

/// The clip for measured bounds in a viewport of width `vw`: the width
/// clamped to the viewport, both sides at least 1 (and at most `u32::MAX`).
pub open spec fn clip_for(b: ClipBounds, vw: u32) -> ClipRect {
    let w = if b.width > vw as i64 { vw as i64 } else { b.width };
    let w = if w < 1 { 1 } else { w };
    let h = if b.height < 1 { 1 } else if b.height > u32::MAX as i64 { u32::MAX as i64 } else { b.height };
    ClipRect { x: b.x, y: b.y, w: w as u32, h: h as u32 }
}

/// Clamp the measured bounds into a clip for a viewport of width `vw`.
pub fn finalize_clip(b: ClipBounds, vw: u32) -> (r: ClipRect)
    ensures
        r == clip_for(b, vw),
        r.w >= 1,
        r.h >= 1,
        r.w <= vw || vw == 0,
{
    let w: i64 = if b.width > vw as i64 { vw as i64 } else { b.width };
    let w: i64 = if w < 1 { 1 } else { w };
    let h: i64 = if b.height < 1 { 1 } else if b.height > u32::MAX as i64 { u32::MAX as i64 } else { b.height };
    ClipRect { x: b.x, y: b.y, w: w as u32, h: h as u32 }
}

/// The stages before the clip is known: set the viewport, navigate, wait for
/// load, network idle, animations off, readiness, the story root, then measure.
pub fn stages_before_clip(req: &CaptureRequest) -> (r: Vec<PageAction>)
    ensures
        r@.len() == 8,
        r@[0] matches PageAction::SetViewport { width, height } && width == req.width && height
            == req.height,
        r@[1] matches PageAction::Navigate(u) && u@ == req.url@,
        r@[2] is WaitPageLoad,
        r@[3] is WaitNetworkIdle,
        r@[4] is DisableAnimations,
        r@[5] is WaitReady,
        r@[6] is WaitStoryRoot,
        r@[7] is MeasureClip,
{
    vec![
        PageAction::SetViewport { width: req.width, height: req.height },
        PageAction::Navigate(req.url.clone()),
        PageAction::WaitPageLoad,
        PageAction::WaitNetworkIdle,
        PageAction::DisableAnimations,
        PageAction::WaitReady,
        PageAction::WaitStoryRoot,
        PageAction::MeasureClip,
    ]
}

/// The actions once the clip is known. Content taller than the viewport
/// first enlarges the viewport to the clip's height and waits for reflow,
/// and the requested viewport comes back after the screenshot.
pub open spec fn after_clip_actions(width: u32, height: u32, clip: ClipRect) -> Seq<PageAction> {
    if clip.h > height {
        seq![
            PageAction::SetViewport { width, height: clip.h },
            PageAction::Sleep(VIEWPORT_RESIZE_SETTLE_MS),
            PageAction::Screenshot(clip),
            PageAction::SetViewport { width, height },
        ]
    } else {
        seq![PageAction::Screenshot(clip)]
    }
}

/// The stages after measuring: the clip, and the actions that shoot it.
pub fn stages_after_clip(req: &CaptureRequest, bounds: ClipBounds) -> (r: (ClipRect, Vec<PageAction>))
    ensures
        r.0 == clip_for(bounds, req.width),
        r.1@ == after_clip_actions(req.width, req.height, r.0),
{
    let clip = finalize_clip(bounds, req.width);
    if clip.h > req.height {
        let r = vec![
            PageAction::SetViewport { width: req.width, height: clip.h },
            PageAction::Sleep(VIEWPORT_RESIZE_SETTLE_MS),
            PageAction::Screenshot(clip),
            PageAction::SetViewport { width: req.width, height: req.height },
        ];
        assert(r@ == after_clip_actions(req.width, req.height, clip));
        (clip, r)
    } else {
        let r = vec![PageAction::Screenshot(clip)];
        assert(r@ == after_clip_actions(req.width, req.height, clip));
        (clip, r)
    }
}

/// The number of viewport changes among `actions`.
pub open spec fn viewport_sets(actions: Seq<PageAction>) -> nat
    decreases actions.len(),
{
    if actions.len() == 0 {
        0
    } else {
        viewport_sets(actions.drop_last()) + if actions.last() is SetViewport {
            1nat
        } else {
            0
        }
    }
}

/// A 1 x 1 clip is kept as it is in any viewport at least one pixel wide.
pub proof fn lemma_unit_clip_is_legal(x: i64, y: i64, vw: u32)
    requires
        vw >= 1,
    ensures
        clip_for(ClipBounds { x, y, width: 1, height: 1 }, vw) == (ClipRect { x, y, w: 1, h: 1 }),
{
}

/// Content taller than the viewport causes exactly one resize before the
/// screenshot and one restore after it, and nothing else changes the
/// viewport; content that fits causes none.
pub proof fn lemma_tall_clip_resizes_once(width: u32, height: u32, clip: ClipRect)
    ensures
        viewport_sets(after_clip_actions(width, height, clip)) == if clip.h > height {
            2nat
        } else {
            0nat
        },
{
    let a = after_clip_actions(width, height, clip);
    if clip.h > height {
        let a3 = a.drop_last();
        let a2 = a3.drop_last();
        let a1 = a2.drop_last();
        let a0 = a1.drop_last();
        assert(a0.len() == 0);
        assert(a1.last() == a[0]);
        assert(a2.last() == a[1]);
        assert(a3.last() == a[2]);
        assert(viewport_sets(a0) == 0);
        assert(viewport_sets(a1) == 1);
        assert(viewport_sets(a2) == 1);
        assert(viewport_sets(a3) == 1);
    } else {
        assert(a.drop_last().len() == 0);
        assert(viewport_sets(a.drop_last()) == 0);
    }
}

} // verus!
