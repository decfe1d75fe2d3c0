use rotating_text::RotatingTextWidget;
use rotating_text::State;
use rotating_text::ThemeError;
use rotating_text::visible_window;

fn theme() -> serde_json::Value {
    serde_json::from_str(
        r##"{
        "icons": {"music": "M", "warning": "W"},
        "idle_bg": "#111111", "idle_fg": "#AAAAAA",
        "info_bg": "#222222", "info_fg": "#BBBBBB",
        "good_bg": "#333333", "good_fg": "#CCCCCC",
        "warning_bg": "#444444", "warning_fg": "#DDDDDD",
        "critical_bg": "#550000", "critical_fg": "#EEEEEE"
    }"##,
    )
    .unwrap()
}

fn chars(s: &str) -> Vec<char> {
    s.chars().collect()
}

#[test]
fn static_text_shows_whole() {
    let mut w = RotatingTextWidget::new(1000, 200, 10, theme());
    w.set_text_at(String::from("HI"), 0);
    assert_eq!(w.get_rendered().full_text, " HI ");
    assert_eq!(w.get_rendered().min_width, 240);
    // no rotation needed: no wake-up requested, ever
    assert_eq!(w.next_at(0), (false, None));
    assert_eq!(w.next_at(5000), (false, None));
    assert!(!w.rotating);
}

#[test]
fn empty_text_is_static() {
    let mut w = RotatingTextWidget::new(1000, 200, 10, theme());
    assert_eq!(w.get_rendered().full_text, "  ");
    assert_eq!(w.get_rendered().min_width, 0);
    assert_eq!(w.next_at(0), (false, None));
}

#[test]
fn initial_window_is_prefix() {
    let mut w = RotatingTextWidget::new(1000, 200, 5, theme());
    w.set_text_at(String::from("HELLO WORLD"), 0);
    assert_eq!(w.get_rendered().full_text, " HELLO ");
    assert_eq!(w.offset(), 0);
    // wake time is one pause interval ahead; before it, idle-waiting
    assert_eq!(w.next_at(0), (false, Some(1000)));
    assert_eq!(w.next_at(999), (false, Some(1)));
    assert_eq!(w.offset(), 0);
    assert!(!w.rotating);
}

#[test]
fn full_rotation_cycle() {
    let mut w = RotatingTextWidget::new(1000, 200, 5, theme());
    w.set_text_at(String::from("HELLO WORLD"), 0);
    let len = 11usize;
    // arm tick: the scroll starts but the offset does not move yet
    let mut now = 1000u64;
    assert_eq!(w.next_at(now), (true, Some(200)));
    assert!(w.rotating);
    assert_eq!(w.offset(), 0);
    assert_eq!(w.get_rendered().full_text, " HELLO ");
    // len step ticks: one character each
    for k in 1..=len {
        let (changed, hint) = w.next_at(now);
        assert!(changed);
        assert_eq!(hint, Some(200));
        assert_eq!(w.offset(), k);
        assert!(w.rotating);
        now += 200;
    }
    assert_eq!(w.get_rendered().full_text, " |HELL ");
    // reset tick: exactly len + 1 qualifying calls after the arm tick
    let (changed, hint) = w.next_at(now);
    assert!(changed);
    assert_eq!(hint, Some(1000));
    assert_eq!(w.offset(), 0);
    assert!(!w.rotating);
    assert_eq!(w.get_rendered().full_text, " HELLO ");
}

#[test]
fn windows_along_the_cycle() {
    let text = chars("HELLO WORLD");
    assert_eq!(visible_window(&text, 5, 0), "HELLO");
    assert_eq!(visible_window(&text, 5, 1), "ELLO ");
    assert_eq!(visible_window(&text, 5, 6), "WORLD");
    assert_eq!(visible_window(&text, 5, 7), "ORLD|");
    assert_eq!(visible_window(&text, 5, 8), "RLD|H");
    assert_eq!(visible_window(&text, 5, 11), "|HELL");
    // a text that fits is shown whole, unrotated
    assert_eq!(visible_window(&chars("HI"), 5, 0), "HI");
    assert_eq!(visible_window(&chars("WIDTH"), 5, 0), "WIDTH");
}

#[test]
fn set_text_identical_is_noop() {
    let mut w = RotatingTextWidget::new(1000, 200, 5, theme());
    w.set_text_at(String::from("HELLO WORLD"), 0);
    let before = w.to_display_string();
    // the second call must not move the wake time set at now == 0
    w.set_text_at(String::from("HELLO WORLD"), 500);
    assert_eq!(w.to_display_string(), before);
    assert_eq!(w.next_at(999), (false, Some(1)));
    let (changed, hint) = w.next_at(1000);
    assert!(changed);
    assert_eq!(hint, Some(200));
}

#[test]
fn set_text_change_resets_rotation() {
    let mut w = RotatingTextWidget::new(1000, 200, 5, theme());
    w.set_text_at(String::from("HELLO WORLD"), 0);
    w.next_at(1000); // arm
    w.next_at(1000); // step: offset 1
    w.next_at(1200); // step: offset 2
    assert_eq!(w.offset(), 2);
    assert!(w.rotating);
    w.set_text_at(String::from("GOODBYE WORLD"), 1400);
    assert_eq!(w.offset(), 0);
    assert!(!w.rotating);
    assert_eq!(w.get_rendered().full_text, " GOODB ");
    // the new wake time is one pause interval after the replacement
    assert_eq!(w.next_at(1400), (false, Some(1000)));
    // shrinking to fit collapses to static
    w.set_text_at(String::from("BYE"), 1500);
    assert_eq!(w.next_at(2500), (false, None));
    assert_eq!(w.get_rendered().full_text, " BYE ");
}

#[test]
fn with_text_reapplies_identical_content() {
    let mut w = RotatingTextWidget::new(1000, 200, 5, theme()).with_text_at("HELLO WORLD", 0);
    w.next_at(1000); // arm
    w.next_at(1000); // step: offset 1
    assert_eq!(w.offset(), 1);
    assert!(w.rotating);
    // unlike set_text, the builder resets and re-arms even for identical text
    let mut w = w.with_text_at("HELLO WORLD", 5000);
    assert_eq!(w.offset(), 0);
    assert!(!w.rotating);
    assert_eq!(w.get_rendered().full_text, " HELLO ");
    assert_eq!(w.next_at(5000), (false, Some(1000)));
}

#[test]
fn unknown_icon_aborts_mutation() {
    let mut w = RotatingTextWidget::new(1000, 200, 10, theme());
    w.set_text_at(String::from("HI"), 0);
    let before = w.to_display_string();
    assert_eq!(w.set_icon("nonexistent"), Err(ThemeError::UnknownIcon));
    // never a silently blank icon: nothing changed at all
    assert_eq!(w.to_display_string(), before);
    assert_eq!(w.get_rendered().full_text, " HI ");
}

#[test]
fn unknown_icon_aborts_construction() {
    let w = RotatingTextWidget::new(1000, 200, 10, theme());
    assert!(w.with_icon("nonexistent").is_err());
}

#[test]
fn icon_glyph_prefixes_text() {
    let mut w = RotatingTextWidget::new(1000, 200, 10, theme());
    w.set_text_at(String::from("HI"), 0);
    assert_eq!(w.set_icon("music"), Ok(()));
    assert_eq!(w.get_rendered().full_text, "MHI ");
    assert_eq!(w.set_icon("warning"), Ok(()));
    assert_eq!(w.get_rendered().full_text, "WHI ");
}

#[test]
fn set_state_changes_colors_only() {
    let mut w = RotatingTextWidget::new(1000, 200, 10, theme());
    w.set_text_at(String::from("HI"), 0);
    assert_eq!(w.get_rendered().background.as_deref(), Some("#111111"));
    assert_eq!(w.get_rendered().color.as_deref(), Some("#AAAAAA"));
    let full_before = w.get_rendered().full_text.clone();
    w.set_state(State::Critical);
    assert_eq!(w.get_rendered().full_text, full_before);
    assert_eq!(w.get_rendered().background.as_deref(), Some("#550000"));
    assert_eq!(w.get_rendered().color.as_deref(), Some("#EEEEEE"));
    w.set_state(State::Warning);
    assert_eq!(w.get_rendered().full_text, full_before);
    assert_eq!(w.get_rendered().background.as_deref(), Some("#444444"));
    assert_eq!(w.get_rendered().color.as_deref(), Some("#DDDDDD"));
}

#[test]
fn serialized_record_is_exact() {
    let mut w = RotatingTextWidget::new(1000, 200, 10, theme());
    w.set_text_at(String::from("HI"), 0);
    assert_eq!(
        w.to_display_string(),
        "{\"align\":\"left\",\"background\":\"#111111\",\"color\":\"#AAAAAA\",\
         \"full_text\":\" HI \",\"min_width\":240,\"separator\":false,\
         \"separator_block_width\":0}"
    );
}

#[test]
fn serialized_record_parses_back() {
    let mut w = RotatingTextWidget::new(1000, 200, 10, theme());
    w.set_text_at(String::from("HI"), 0);
    w.set_state(State::Info);
    let parsed: serde_json::Value = serde_json::from_str(&w.to_display_string()).unwrap();
    assert_eq!(parsed["full_text"].as_str(), Some(" HI "));
    assert_eq!(parsed["align"].as_str(), Some("left"));
    assert_eq!(parsed["background"].as_str(), Some("#222222"));
    assert_eq!(parsed["color"].as_str(), Some("#BBBBBB"));
    assert_eq!(parsed["min_width"].as_u64(), Some(240));
    assert_eq!(parsed["separator"].as_bool(), Some(false));
    assert_eq!(parsed["separator_block_width"].as_u64(), Some(0));
}

#[test]
fn json_escaping_round_trips() {
    let mut w = RotatingTextWidget::new(1000, 200, 20, theme());
    let tricky = "a\"b\\c\nd\te\u{1}f";
    w.set_text_at(String::from(tricky), 0);
    let out = w.to_display_string();
    assert!(out.contains("a\\\"b\\\\c\\nd\\te\\u0001f"));
    let parsed: serde_json::Value = serde_json::from_str(&out).unwrap();
    let expected = format!(" {} ", tricky);
    assert_eq!(parsed["full_text"].as_str(), Some(expected.as_str()));
}

#[test]
fn missing_color_serializes_as_null() {
    let bare: serde_json::Value = serde_json::from_str(r##"{"icons":{}}"##).unwrap();
    let mut w = RotatingTextWidget::new(1000, 200, 10, bare);
    w.set_text_at(String::from("HI"), 0);
    assert_eq!(w.get_rendered().background, None);
    assert_eq!(w.get_rendered().color, None);
    assert!(w.to_display_string().contains("\"background\":null"));
    assert!(w.to_display_string().contains("\"color\":null"));
}

#[test]
fn zero_width_rotates_continuously() {
    let mut w = RotatingTextWidget::new(1000, 200, 0, theme());
    w.set_text_at(String::from("AB"), 0);
    // every nonempty text is wider than a zero-width display
    assert_eq!(w.next_at(0), (false, Some(1000)));
    assert_eq!(w.next_at(1000), (true, Some(200))); // arm
    assert_eq!(w.get_rendered().full_text, "  ");
    assert_eq!(w.next_at(1000), (true, Some(200))); // offset 1
    assert_eq!(w.next_at(1200), (true, Some(200))); // offset 2
    assert_eq!(w.offset(), 2);
    let (changed, hint) = w.next_at(1400); // reset
    assert!(changed);
    assert_eq!(hint, Some(1000));
    assert_eq!(w.offset(), 0);
    assert!(!w.rotating);
}

#[test]
fn slicing_is_by_character_not_byte() {
    let mut w = RotatingTextWidget::new(1000, 200, 5, theme());
    // five characters, more than five bytes: fits exactly
    w.set_text_at(String::from("héllö"), 0);
    assert_eq!(w.get_rendered().full_text, " héllö ");
    assert_eq!(w.next_at(0), (false, None));
    // six characters: rotation starts, window of five characters
    w.set_text_at(String::from("héllö!"), 0);
    assert_eq!(w.get_rendered().full_text, " héllö ");
    assert_eq!(w.next_at(1000), (true, Some(200))); // arm
    assert_eq!(w.next_at(1000), (true, Some(200))); // offset 1
    assert_eq!(w.get_rendered().full_text, " éllö! ");
}

#[test]
fn builders_compose() {
    let w = RotatingTextWidget::new(1000, 200, 10, theme())
        .with_icon("music")
        .unwrap()
        .with_state(State::Good)
        .with_text_at("HELLO", 0);
    assert_eq!(w.get_rendered().full_text, "MHELLO ");
    assert_eq!(w.get_rendered().background.as_deref(), Some("#333333"));
    assert_eq!(w.get_rendered().color.as_deref(), Some("#CCCCCC"));
}

#[test]
fn clocked_calls_follow_the_same_machine() {
    // the clockful entry points read a real clock; a fresh widget's pause
    // interval is far in the future, so the first tick only idle-waits
    let mut w = RotatingTextWidget::new(1_000_000, 200, 5, theme());
    w.set_text(String::from("HELLO WORLD"));
    assert_eq!(w.get_rendered().full_text, " HELLO ");
    let (changed, hint) = w.next();
    assert!(!changed);
    assert!(hint.is_some());
    assert_eq!(w.offset(), 0);
}
