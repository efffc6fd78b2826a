//! Screenshot strategies, and the style that freezes animations before capture.
use vstd::prelude::*;

use crate::compare::same_bytes;
use crate::config::{CaptureConfig, ScreenshotKind};
use crate::text::{chars_of, push_char};

verus! {

/// Shots a stable screenshot takes at most, by default.
pub const DEFAULT_STABILITY_ATTEMPTS: u32 = 3;

/// Pause between the shots of a stable screenshot, by default, in milliseconds.
pub const DEFAULT_STABILITY_DELAY_MS: u64 = 100;

/// How the final screenshot is taken.
#[derive(Debug, Clone, Copy, PartialEq, Eq, Structural)]
pub enum Screenshot {
    /// Take up to `max_attempts` screenshots, returning when two consecutive
    /// ones are byte-identical.
    Stable { max_attempts: u32, delay_ms: u64 },
    /// Single screenshot, no stability check.
    Single,
}

impl Screenshot {
    /// The strategy a configuration asks for, with the defaults filled in.
    pub fn from_config(config: &CaptureConfig) -> (r: Screenshot)
        ensures
            match config.screenshot {
                Some(ScreenshotKind::Single) => r == Screenshot::Single,
                _ => r == (Screenshot::Stable {
                    max_attempts: match config.stability_attempts {
                        Some(n) => n,
                        None => DEFAULT_STABILITY_ATTEMPTS,
                    },
                    delay_ms: match config.stability_delay_ms {
                        Some(d) => d,
                        None => DEFAULT_STABILITY_DELAY_MS,
                    },
                }),
            },
    {
        let kind = match config.screenshot {
            Some(k) => k,
            None => ScreenshotKind::Stable,
        };
        let attempts = match config.stability_attempts {
            Some(n) => n,
            None => DEFAULT_STABILITY_ATTEMPTS,
        };
        let delay_ms = match config.stability_delay_ms {
            Some(d) => d,
            None => DEFAULT_STABILITY_DELAY_MS,
        };
        match kind {
            ScreenshotKind::Stable => Screenshot::Stable { max_attempts: attempts, delay_ms },
            ScreenshotKind::Single => Screenshot::Single,
        }
    }

    /// The most shots the strategy takes: one for a single shot, and at
    /// least one for a stable screenshot.
    pub open spec fn shot_limit(self) -> u32 {
        match self {
            Screenshot::Single => 1,
            Screenshot::Stable { max_attempts, .. } => if max_attempts >= 1 {
                max_attempts
            } else {
                1
            },
        }
    }

    /// Start a screenshot with this strategy.
    pub fn start(&self) -> (r: ShotSequence)
        ensures
            r.wf(),
            r.shots_taken() == 0,
            r.limit() == self.shot_limit(),
            r.previous() is None,
    {
        match *self {
            Screenshot::Single => ShotSequence { limit: 1, delay_ms: 0, taken: 0, prev: None },
            Screenshot::Stable { max_attempts, delay_ms } => ShotSequence {
                limit: if max_attempts >= 1 {
                    max_attempts
                } else {
                    1
                },
                delay_ms,
                taken: 0,
                prev: None,
            },
        }
    }
}

/// What to do after a shot.
pub enum ShotDecision {
    /// The screenshot is done: these are its bytes.
    Done(Vec<u8>),
    /// Wait this many milliseconds and shoot again.
    Again(u64),
}

/// The progress of one screenshot under a strategy.
pub struct ShotSequence {
    limit: u32,
    delay_ms: u64,
    taken: u32,
    prev: Option<Vec<u8>>,
}

impl ShotSequence {
    /// Fewer shots were taken than the limit, which is at least one.
    pub closed spec fn wf(&self) -> bool {
        self.limit >= 1 && self.taken < self.limit && (self.prev is Some <==> self.taken > 0)
    }

    /// Shots taken so far.
    pub closed spec fn shots_taken(&self) -> nat {
        self.taken as nat
    }

    /// The most shots this screenshot takes.
    pub closed spec fn limit(&self) -> u32 {
        self.limit
    }

    /// The bytes of the latest shot, if any.
    pub closed spec fn previous(&self) -> Option<Seq<u8>> {
        match self.prev {
            Some(p) => Some(p@),
            None => None,
        }
    }

    /// The pause between shots.
    pub closed spec fn delay(&self) -> u64 {
        self.delay_ms
    }

    /// Record a shot. The screenshot is done when the shot equals the
    /// previous one, or when the limit is reached (the last shot is kept);
    /// otherwise shoot again after the delay.
    pub fn on_shot(&mut self, png: Vec<u8>) -> (r: ShotDecision)
        requires
            old(self).wf(),
        ensures
            final(self).limit() == old(self).limit(),
            final(self).delay() == old(self).delay(),
            final(self).shots_taken() == old(self).shots_taken() + 1,
            match r {
                ShotDecision::Done(b) => b@ == png@ && (old(self).previous() == Some(png@)
                    || final(self).shots_taken() == old(self).limit()),
                ShotDecision::Again(d) => final(self).wf() && d == old(self).delay()
                    && old(self).previous() != Some(png@) && final(self).previous() == Some(
                    png@,
                ),
            },
    {
        self.taken = self.taken + 1;
        let same = match &self.prev {
            Some(p) => same_bytes(p.as_slice(), png.as_slice()),
            None => false,
        };
        if same || self.taken >= self.limit {
            ShotDecision::Done(png)
        } else {
            self.prev = Some(png);
            ShotDecision::Again(self.delay_ms)
        }
    }
}

/// CSS injected to disable animations, transitions, pointer events, and carets.
pub const DISABLE_ANIMATIONS_CSS: &'static str = "
*,
*::before,
*::after {
  transition: none !important;
  animation: none !important;
}
* {
  pointer-events: none !important;
}
* {
  caret-color: transparent !important;
}
";

/// The script that injects a style element, up to the style's text.
pub const INJECT_CSS_PREFIX: &'static str = "
(function() {
    const style = document.createElement('style');
    style.textContent = `";

/// The script that injects a style element, after the style's text.
pub const INJECT_CSS_SUFFIX: &'static str = "`;
    document.head.appendChild(style);
})()
";

/// `s` escaped for a JS template literal: each backslash doubled, each
/// backtick and each `${` preceded by a backslash.
pub open spec fn template_escaped(s: Seq<char>) -> Seq<char>
    decreases s.len(),
{
    if s.len() == 0 {
        s
    } else if s[0] == '\\' {
        seq!['\\', '\\'] + template_escaped(s.drop_first())
    } else if s[0] == '`' {
        seq!['\\', '`'] + template_escaped(s.drop_first())
    } else if s[0] == '$' && s.len() > 1 && s[1] == '{' {
        seq!['\\', '$', '{'] + template_escaped(s.subrange(2, s.len() as int))
    } else {
        seq![s[0]] + template_escaped(s.drop_first())
    }
}

/// Escape `s` for safe embedding in a JS template literal.
pub fn escape_template_literal(s: &str) -> (r: String)
    ensures
        r@ == template_escaped(s@),
{
    let cs = chars_of(s);
    let mut out = String::new();
    let mut i: usize = 0;
    assert(cs@.subrange(0, cs@.len() as int) == s@);
    assert(out@ + template_escaped(s@) == template_escaped(s@));
    while i < cs.len()
        invariant
            cs@ == s@,
            i <= cs.len(),
            out@ + template_escaped(cs@.subrange(i as int, cs@.len() as int)) == template_escaped(s@),
        decreases cs.len() - i,
    {
        let ghost rest = cs@.subrange(i as int, cs@.len() as int);
        let c = cs[i];
        if c == '\\' {
            push_char(&mut out, '\\');
            push_char(&mut out, '\\');
            assert(rest.drop_first() == cs@.subrange(i + 1, cs@.len() as int));
            i += 1;
        } else if c == '`' {
            push_char(&mut out, '\\');
            push_char(&mut out, '`');
            assert(rest.drop_first() == cs@.subrange(i + 1, cs@.len() as int));
            i += 1;
        } else if c == '$' && i + 1 < cs.len() && cs[i + 1] == '{' {
            push_char(&mut out, '\\');
            push_char(&mut out, '$');
            push_char(&mut out, '{');
            assert(rest.subrange(2, rest.len() as int) == cs@.subrange(i + 2, cs@.len() as int));
            i += 2;
        } else {
            push_char(&mut out, c);
            assert(rest.drop_first() == cs@.subrange(i + 1, cs@.len() as int));
            i += 1;
        }
    }
    assert(cs@.subrange(cs.len() as int, cs@.len() as int).len() == 0);
    out
}

/// The animation-suppressing CSS, escaped for a JS template literal.
pub fn css_for_template_literal() -> (r: String)
    ensures
        r@ == template_escaped(DISABLE_ANIMATIONS_CSS@),
{
    escape_template_literal(DISABLE_ANIMATIONS_CSS)
}

/// The script that injects the animation-suppressing style into the page.
pub fn inject_css_script() -> (r: String)
    ensures
        r@ == INJECT_CSS_PREFIX@ + template_escaped(DISABLE_ANIMATIONS_CSS@) + INJECT_CSS_SUFFIX@,
{
    let mut out = String::from_str(INJECT_CSS_PREFIX);
    let css = css_for_template_literal();
    out.append(css.as_str());
    out.append(INJECT_CSS_SUFFIX);
    out
}

} // verus!
