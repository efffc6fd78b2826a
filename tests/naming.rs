use snapvrt::job::{strip_png_suffix, CaptureJob};
use snapvrt::story::{normalize_for_filter, Story};

fn story(id: &str, title: &str, name: &str, tags: &[&str]) -> Story {
    Story {
        id: id.to_string(),
        name: name.to_string(),
        title: title.to_string(),
        tags: tags.iter().map(|t| t.to_string()).collect(),
    }
}

fn job(title: &str, name: &str) -> CaptureJob {
    CaptureJob {
        source: "storybook".to_string(),
        story: story("button--primary", title, name, &[]),
        viewport: "laptop".to_string(),
        url: "http://localhost:6006/iframe.html?id=button--primary".to_string(),
        width: 1366,
        height: 768,
    }
}

#[test]
fn snapshot_id_layout() {
    let j = job("Components/Big Button", "Primary Large");
    assert_eq!(j.snapshot_id(), "storybook/laptop/Components/Big_Button/Primary_Large");
}

#[test]
fn snapshot_id_is_deterministic() {
    let a = job("Forms/Text Field", "With label");
    let b = job("Forms/Text Field", "With label");
    assert_eq!(a.snapshot_id(), b.snapshot_id());
    assert!(!a.snapshot_id().contains(' '));
}

#[test]
fn normalize_lowercases_and_merges_underscores() {
    assert_eq!(normalize_for_filter("Big_Button Primary"), "big button primary");
    assert_eq!(normalize_for_filter(""), "");
}

#[test]
fn skip_tag_detected() {
    assert!(story("a", "A", "a", &["autodocs", "snapvrt-skip"]).is_skipped());
    assert!(!story("a", "A", "a", &["autodocs"]).is_skipped());
    assert!(!story("a", "A", "a", &[]).is_skipped());
}

#[test]
fn story_filter_matches_any_field() {
    let s = story("button--primary", "Components/Button", "Primary", &[]);
    assert!(s.matches_filter("BUTTON"));
    assert!(s.matches_filter("primary"));
    assert!(!s.matches_filter("checkbox"));
}

#[test]
fn job_filter_matches_viewport_and_id() {
    let j = job("Components/Big Button", "Primary");
    assert!(j.matches_filter("laptop"));
    assert!(j.matches_filter("big_button/primary"));
    assert!(j.matches_filter("storybook/laptop"));
    assert!(!j.matches_filter("mobile"));
}

#[test]
fn underscore_and_space_filters_agree() {
    let j = job("Components/Big Button", "Primary Large");
    for p in ["big_button", "primary_large", "x_y", "laptop/components"] {
        assert_eq!(j.matches_filter(p), j.matches_filter(&p.replace('_', " ")));
    }
}

#[test]
fn png_suffix_is_ignored() {
    let j = job("Components/Big Button", "Primary");
    let id = j.snapshot_id();
    assert!(j.matches_filter(&format!("{id}.png")));
    for p in ["primary", "mobile", "big_button"] {
        assert_eq!(j.matches_filter(&format!("{p}.png")), j.matches_filter(p));
    }
    assert_eq!(strip_png_suffix("a/b.png"), "a/b");
    assert_eq!(strip_png_suffix("a/b.pn"), "a/b.pn");
    assert_eq!(strip_png_suffix(".png"), "");
}
