//! Pure parts of the reports: number and duration text, name truncation,
//! HTML and URL escaping, dates, stage breakdowns and review-page rows.
use vstd::prelude::*;
use vstd::string::StringSliceAdditionalSpecFns;

use crate::text::{chars_of, push_char};
use crate::timing::CaptureTimings;

verus! {

/// The decimal digits of `n`, most significant first.
pub open spec fn digits(n: nat) -> Seq<char>
    decreases n,
{
    if n < 10 {
        seq![digit_char(n)]
    } else {
        digits(n / 10) + seq![digit_char(n % 10)]
    }
}

/// The character of a digit below ten.
pub open spec fn digit_char(d: nat) -> char {
    if d == 0 {
        '0'
    } else if d == 1 {
        '1'
    } else if d == 2 {
        '2'
    } else if d == 3 {
        '3'
    } else if d == 4 {
        '4'
    } else if d == 5 {
        '5'
    } else if d == 6 {
        '6'
    } else if d == 7 {
        '7'
    } else if d == 8 {
        '8'
    } else {
        '9'
    }
}

fn digit(d: u64) -> (r: char)
    requires
        d < 10,
    ensures
        r == digit_char(d as nat),
{
    if d == 0 {
        '0'
    } else if d == 1 {
        '1'
    } else if d == 2 {
        '2'
    } else if d == 3 {
        '3'
    } else if d == 4 {
        '4'
    } else if d == 5 {
        '5'
    } else if d == 6 {
        '6'
    } else if d == 7 {
        '7'
    } else if d == 8 {
        '8'
    } else {
        '9'
    }
}

/// Append the decimal digits of `n` to `out`.
pub fn push_decimal(out: &mut String, n: u64)
    ensures
        final(out)@ == old(out)@ + digits(n as nat),
    decreases n,
{
    if n < 10 {
        push_char(out, digit(n));
    } else {
        push_decimal(out, n / 10);
        push_char(out, digit(n % 10));
    }
}

/// A duration in milliseconds as text: `"<n>ms"` below one second, else
/// seconds with one decimal, rounded half up (`"1.3s"`).
pub open spec fn duration_text(ms: nat) -> Seq<char> {
    if ms < 1000 {
        digits(ms) + "ms"@
    } else {
        let tenths = (ms + 50) / 100;
        digits(tenths / 10) + seq!['.'] + digits(tenths % 10) + seq!['s']
    }
}

/// Format a duration given in milliseconds.
pub fn format_duration(ms: u64) -> (r: String)
    ensures
        r@ == duration_text(ms as nat),
{
    let mut out = String::new();
    if ms < 1000 {
        push_decimal(&mut out, ms);
        out.append("ms");
    } else {
        let tenths = ms / 100 + if ms % 100 >= 50 { 1 } else { 0 };
        assert(tenths == (ms + 50) / 100);
        push_decimal(&mut out, tenths / 10);
        push_char(&mut out, '.');
        push_decimal(&mut out, tenths % 10);
        push_char(&mut out, 's');
    }
    out
}

/// `name` cut to at most `max` characters, keeping the tail (the unique
/// part) behind an ellipsis.
pub open spec fn truncated(name: Seq<char>, max: nat) -> Seq<char> {
    if name.len() <= max {
        name
    } else {
        seq!['\u{2026}'] + name.subrange(name.len() - (max - 1), name.len() as int)
    }
}

/// Truncate a snapshot name to `max` characters, keeping the tail.
pub fn truncate_name(name: &str, max: usize) -> (r: String)
    requires
        max >= 1 || name@.len() == 0,
    ensures
        r@ == truncated(name@, max as nat),
        r@.len() <= max || name@.len() <= max,
{
    let cs = chars_of(name);
    if cs.len() <= max {
        return String::from_str(name);
    }
    let skip = cs.len() - (max - 1);
    let mut out = String::new();
    push_char(&mut out, '\u{2026}');
    let mut i: usize = skip;
    while i < cs.len()
        invariant
            skip <= i <= cs.len(),
            cs@ == name@,
            out@ == seq!['\u{2026}'] + cs@.subrange(skip as int, i as int),
        decreases cs.len() - i,
    {
        push_char(&mut out, cs[i]);
        assert(cs@.subrange(skip as int, i + 1) == cs@.subrange(skip as int, i as int).push(cs@[i as int]));
        i += 1;
    }
    out
}

/// The HTML-escaped form of a character.
pub open spec fn html_char(c: char) -> Seq<char> {
    if c == '&' {
        "&amp;"@
    } else if c == '<' {
        "&lt;"@
    } else if c == '>' {
        "&gt;"@
    } else if c == '"' {
        "&quot;"@
    } else {
        seq![c]
    }
}

/// `s` with `&`, `<`, `>` and `"` written as HTML entities.
pub open spec fn html_escaped(s: Seq<char>) -> Seq<char>
    decreases s.len(),
{
    if s.len() == 0 {
        s
    } else {
        html_escaped(s.drop_last()) + html_char(s.last())
    }
}

/// Escape `s` for HTML text and attribute values.
pub fn html_escape(s: &str) -> (r: String)
    ensures
        r@ == html_escaped(s@),
{
    let cs = chars_of(s);
    let mut out = String::new();
    let mut i: usize = 0;
    while i < cs.len()
        invariant
            i <= cs.len(),
            cs@ == s@,
            out@ == html_escaped(cs@.take(i as int)),
        decreases cs.len() - i,
    {
        let c = cs[i];
        assert(cs@.take(i + 1).drop_last() == cs@.take(i as int));
        if c == '&' {
            out.append("&amp;");
        } else if c == '<' {
            out.append("&lt;");
        } else if c == '>' {
            out.append("&gt;");
        } else if c == '"' {
            out.append("&quot;");
        } else {
            push_char(&mut out, c);
        }
        i += 1;
    }
    assert(cs@.take(cs.len() as int) == s@);
    out
}

/// A byte that stands for itself in a URL path: letters, digits, `-_.~/`.
pub open spec fn url_safe(b: u8) -> bool {
    (65 <= b <= 90) || (97 <= b <= 122) || (48 <= b <= 57) || b == 45 || b == 95 || b == 46 || b
        == 126 || b == 47
}

/// The upper-case hexadecimal digit of a value below sixteen.
pub open spec fn hex_char(d: nat) -> char {
    if d < 10 {
        digit_char(d)
    } else if d == 10 {
        'A'
    } else if d == 11 {
        'B'
    } else if d == 12 {
        'C'
    } else if d == 13 {
        'D'
    } else if d == 14 {
        'E'
    } else {
        'F'
    }
}

fn hex_digit(d: u8) -> (r: char)
    requires
        d < 16,
    ensures
        r == hex_char(d as nat),
{
    if d < 10 {
        digit(d as u64)
    } else if d == 10 {
        'A'
    } else if d == 11 {
        'B'
    } else if d == 12 {
        'C'
    } else if d == 13 {
        'D'
    } else if d == 14 {
        'E'
    } else {
        'F'
    }
}

/// The URL-encoded form of one byte.
pub open spec fn url_byte(b: u8) -> Seq<char> {
    if url_safe(b) {
        seq![b as char]
    } else {
        seq!['%', hex_char((b / 16) as nat), hex_char((b % 16) as nat)]
    }
}

/// The URL-encoded form of a byte string.
pub open spec fn url_encoded(bs: Seq<u8>) -> Seq<char>
    decreases bs.len(),
{
    if bs.len() == 0 {
        Seq::empty()
    } else {
        url_encoded(bs.drop_last()) + url_byte(bs.last())
    }
}

/// Percent-encode the UTF-8 bytes of `s`, keeping letters, digits and `-_.~/`.
pub fn url_encode(s: &str) -> (r: String)
    ensures
        r@ == url_encoded(s.spec_bytes()),
{
    let bs = s.as_bytes();
    let mut out = String::new();
    let mut i: usize = 0;
    while i < bs.len()
        invariant
            i <= bs@.len(),
            bs@ == s.spec_bytes(),
            out@ == url_encoded(bs@.take(i as int)),
        decreases bs.len() - i,
    {
        let b = bs[i];
        assert(bs@.take(i + 1).drop_last() == bs@.take(i as int));
        if (65 <= b && b <= 90) || (97 <= b && b <= 122) || (48 <= b && b <= 57) || b == 45 || b
            == 95 || b == 46 || b == 126 || b == 47 {
            push_char(&mut out, b as char);
        } else {
            push_char(&mut out, '%');
            push_char(&mut out, hex_digit(b / 16));
            push_char(&mut out, hex_digit(b % 16));
        }
        i += 1;
    }
    assert(bs@.take(bs@.len() as int) == bs@);
    out
}

/// The civil date `(year, month, day)` of a day count since 1970-01-01.
pub open spec fn civil_from_days(days: nat) -> (nat, nat, nat) {
    let z = days + 719468;
    let era = z / 146097;
    let doe = (z - era * 146097) as nat;
    let yoe = ((doe - doe / 1460 + doe / 36524 - doe / 146096) / 365) as nat;
    let y = yoe + era * 400;
    let doy = (doe - (365 * yoe + yoe / 4 - yoe / 100)) as nat;
    let mp = (5 * doy + 2) / 153;
    let d = (doy - (153 * mp + 2) / 5 + 1) as nat;
    let m = if mp < 10 { mp + 3 } else { (mp - 9) as nat };
    let y = if m <= 2 { y + 1 } else { y };
    (y, m, d)
}

/// Convert days since the Unix epoch to `(year, month, day)`.
#[verifier::nonlinear]
pub fn epoch_days_to_ymd(days: u64) -> (r: (u64, u64, u64))
    requires
        days <= u64::MAX - 719468,
    ensures
        (r.0 as nat, r.1 as nat, r.2 as nat) == civil_from_days(days as nat),
{
    let z = days + 719468;
    let era = z / 146097;
    let doe = z - era * 146097;
    assert(doe < 146097);
    let yoe = (doe - doe / 1460 + doe / 36524 - doe / 146096) / 365;
    assert(yoe <= 400);
    let y = yoe + era * 400;
    let doy = doe - (365 * yoe + yoe / 4 - yoe / 100);
    assert(doy < 366);
    let mp = (5 * doy + 2) / 153;
    let d = doy - (153 * mp + 2) / 5 + 1;
    let m = if mp < 10 { mp + 3 } else { mp - 9 };
    let y = if m <= 2 { y + 1 } else { y };
    (y, m, d)
}

/// The per-stage durations, in the order of the stage names.
pub open spec fn stages_of(t: CaptureTimings) -> Seq<u64> {
    seq![
        t.viewport,
        t.navigate,
        t.page_load,
        t.network,
        t.animation,
        t.ready,
        t.selector,
        t.clip,
        t.screenshot,
        t.compare,
    ]
}

/// The per-stage durations of a capture: the nine pipeline stages, then compare.
pub fn stage_durations(t: &CaptureTimings) -> (r: Vec<u64>)
    ensures
        r@ == stages_of(*t),
{
    let r = vec![
        t.viewport,
        t.navigate,
        t.page_load,
        t.network,
        t.animation,
        t.ready,
        t.selector,
        t.clip,
        t.screenshot,
        t.compare,
    ];
    assert(r@ == stages_of(*t));
    r
}

/// The name of stage `i` of `stage_durations`.
pub fn stage_name(i: usize) -> (r: &'static str)
    requires
        i < 10,
{
    if i == 0 {
        "viewport"
    } else if i == 1 {
        "navigate"
    } else if i == 2 {
        "page_load"
    } else if i == 3 {
        "network"
    } else if i == 4 {
        "animation"
    } else if i == 5 {
        "ready"
    } else if i == 6 {
        "selector"
    } else if i == 7 {
        "clip"
    } else if i == 8 {
        "screenshot"
    } else {
        "compare"
    }
}

/// The dominant (longest) stage: the last of the longest ones, with its duration.
pub fn dominant_stage(t: &CaptureTimings) -> (r: (usize, u64))
    ensures
        r.0 < 10,
        r.1 == stages_of(*t)[r.0 as int],
        forall|k: int| 0 <= k < 10 ==> stages_of(*t)[k] <= r.1,
        forall|k: int| r.0 < k < 10 ==> stages_of(*t)[k] < r.1,
{
    let d = stage_durations(t);
    let mut best: usize = 0;
    let mut i: usize = 1;
    while i < 10
        invariant
            d@ == stages_of(*t),
            best < i <= 10,
            forall|k: int| 0 <= k < i ==> d@[k] <= d@[best as int],
            forall|k: int| best < k < i ==> d@[k] < d@[best as int],
        decreases 10 - i,
    {
        if d[i] >= d[best] {
            best = i;
        }
        i += 1;
    }
    (best, d[best])
}

/// An image cell of the review page: the image at `<subdir>/<file>` or a
/// note that there is none.
pub fn image_cell(subdir: &str, filename: &str, exists: bool) -> (r: String)
    ensures
        !exists ==> r@ == "<div class=\"missing\">no "@ + subdir@ + "</div>"@,
        exists ==> r@ == "<img src=\""@ + subdir@ + "/"@ + url_encoded(filename.spec_bytes())
            + "\" alt=\""@ + subdir@ + " "@ + html_escaped(filename@)
            + "\" loading=\"lazy\" />"@,
{
    let mut out = String::new();
    if !exists {
        out.append("<div class=\"missing\">no ");
        out.append(subdir);
        out.append("</div>");
        return out;
    }
    let safe = url_encode(filename);
    let escaped = html_escape(filename);
    out.append("<img src=\"");
    out.append(subdir);
    out.append("/");
    out.append(safe.as_str());
    out.append("\" alt=\"");
    out.append(subdir);
    out.append(" ");
    out.append(escaped.as_str());
    out.append("\" loading=\"lazy\" />");
    out
}

/// What the store holds for one name, across the three trees.
#[derive(Debug, Clone, Copy, PartialEq, Eq, Structural)]
pub struct RowPresence {
    pub has_reference: bool,
    pub has_current: bool,
    pub has_difference: bool,
}

/// The review page's section for a row.
#[derive(Debug, Clone, Copy, PartialEq, Eq, Structural)]
pub enum ReviewSection {
    /// A diff image exists.
    Changed,
    /// A current blob with neither reference nor diff image.
    New,
    /// Nothing to review.
    Hidden,
}

/// Which section of the review page a row belongs to.
pub fn review_section(p: RowPresence) -> (r: ReviewSection)
    ensures
        p.has_difference ==> r == ReviewSection::Changed,
        !p.has_difference && p.has_current && !p.has_reference ==> r == ReviewSection::New,
        !p.has_difference && !(p.has_current && !p.has_reference) ==> r == ReviewSection::Hidden,
{
    if p.has_difference {
        ReviewSection::Changed
    } else if p.has_current && !p.has_reference {
        ReviewSection::New
    } else {
        ReviewSection::Hidden
    }
}

} // verus!
