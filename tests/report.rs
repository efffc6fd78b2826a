use snapvrt::report::{
    dominant_stage, epoch_days_to_ymd, format_duration, html_escape, image_cell, review_section, stage_durations,
    truncate_name, url_encode, ReviewSection, RowPresence,
};
use snapvrt::timing::CaptureTimings;

#[test]
fn durations_as_text() {
    assert_eq!(format_duration(0), "0ms");
    assert_eq!(format_duration(999), "999ms");
    assert_eq!(format_duration(1000), "1.0s");
    assert_eq!(format_duration(1260), "1.3s");
    assert_eq!(format_duration(12_340), "12.3s");
}

#[test]
fn names_keep_their_tail() {
    assert_eq!(truncate_name("short", 8), "short");
    assert_eq!(truncate_name("storybook/laptop/a/b", 8), "\u{2026}top/a/b");
    assert_eq!(truncate_name("abcdefghij", 4).chars().count(), 4);
    assert_eq!(truncate_name("abcdefghij", 4), "\u{2026}hij");
}

#[test]
fn html_and_url_escaping() {
    assert_eq!(html_escape("a<b>&\"c\""), "a&lt;b&gt;&amp;&quot;c&quot;");
    assert_eq!(url_encode("sb/laptop/A B/x.png"), "sb/laptop/A%20B/x.png");
    assert_eq!(url_encode("é"), "%C3%A9");
    assert_eq!(image_cell("current", "a b.png", false), "<div class=\"missing\">no current</div>");
    assert_eq!(
        image_cell("current", "a b.png", true),
        "<img src=\"current/a%20b.png\" alt=\"current a b.png\" loading=\"lazy\" />"
    );
}

#[test]
fn civil_dates() {
    assert_eq!(epoch_days_to_ymd(0), (1970, 1, 1));
    assert_eq!(epoch_days_to_ymd(19_723), (2024, 1, 1));
    assert_eq!(epoch_days_to_ymd(11_016), (2000, 2, 29));
}

#[test]
fn stage_breakdown() {
    let t = CaptureTimings {
        viewport: 1,
        navigate: 5,
        page_load: 9,
        network: 9,
        animation: 2,
        ready: 3,
        selector: 1,
        clip: 1,
        screenshot: 4,
        total: 35,
        compare: 0,
    };
    assert_eq!(stage_durations(&t), vec![1, 5, 9, 9, 2, 3, 1, 1, 4, 0]);
    assert_eq!(dominant_stage(&t), (3, 9));
}

#[test]
fn review_sections() {
    let row = |r, c, d| RowPresence { has_reference: r, has_current: c, has_difference: d };
    assert_eq!(review_section(row(true, true, true)), ReviewSection::Changed);
    assert_eq!(review_section(row(false, true, false)), ReviewSection::New);
    assert_eq!(review_section(row(true, false, false)), ReviewSection::Hidden);
}
