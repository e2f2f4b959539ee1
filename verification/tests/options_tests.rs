use fpui::config::{ComboInput, Param};
use fpui::options::{
    brand_options, lang_options, platform_options, selected_index, timezone_options, ComboOption,
};

#[test]
fn none_option_is_empty_and_labelled() {
    let o = ComboOption::none();
    assert_eq!(o.value, "");
    assert_eq!(o.label, "无");
    assert_eq!(o.label_text(), "无");
    let d = ComboOption::default();
    assert_eq!(d.value, "");
    assert_eq!(d.label, "无");
}

#[test]
fn new_option_keeps_value_and_label() {
    let o = ComboOption::new("windows", "Windows");
    assert_eq!(o.value, "windows");
    assert_eq!(o.label, "Windows");
}

#[test]
fn option_tables_hold_the_choices() {
    let values = |v: Vec<ComboOption>| v.iter().map(|o| o.value).collect::<Vec<_>>();
    assert_eq!(values(platform_options()), vec!["", "windows", "macos", "linux"]);
    assert_eq!(
        values(lang_options()),
        vec!["", "zh-CN", "zh-TW", "en-US", "en-GB", "ja-JP", "ko-KR"]
    );
    assert_eq!(
        values(timezone_options()),
        vec![
            "",
            "Asia/Shanghai",
            "Asia/Tokyo",
            "Asia/Seoul",
            "America/New_York",
            "America/Los_Angeles",
            "Europe/London",
            "Europe/Berlin",
            "UTC"
        ]
    );
    assert_eq!(values(brand_options()), vec!["", "Chrome", "Edge", "Opera", "Vivaldi"]);
    for o in platform_options().iter().skip(1) {
        assert_eq!(o.value, o.label);
    }
}

#[test]
fn stored_value_selects_its_option() {
    assert_eq!(selected_index(&lang_options(), "zh-TW"), 2);
    assert_eq!(selected_index(&lang_options(), "  ko-KR \t"), 6);
    assert_eq!(selected_index(&timezone_options(), "UTC"), 8);
}

#[test]
fn unknown_or_empty_value_selects_first_entry() {
    assert_eq!(selected_index(&lang_options(), "fr-FR"), 0);
    assert_eq!(selected_index(&lang_options(), ""), 0);
    assert_eq!(selected_index(&brand_options(), "chrome"), 0);
}

#[test]
fn selection_round_trip_gives_back_the_trimmed_value() {
    for stored in [" macos ", "linux", "bsd", ""] {
        let options = platform_options();
        let index = selected_index(&options, stored);
        let input = ComboInput { options: platform_options(), selection: Some(index) };
        let mut p = Param { enabled: true, value: String::from("x") };
        input.read(&mut p);
        let expected = if ["windows", "macos", "linux"].contains(&stored.trim()) {
            stored.trim()
        } else {
            ""
        };
        assert_eq!(p.value, expected);
        assert!(p.enabled);
    }
}

#[test]
fn combo_without_selection_reads_empty() {
    let input = ComboInput { options: brand_options(), selection: None };
    let mut p = Param { enabled: false, value: String::from("Edge") };
    input.read(&mut p);
    assert_eq!(p.value, "");
    assert!(!p.enabled);
    let input = ComboInput { options: brand_options(), selection: Some(99) };
    let mut p = Param { enabled: true, value: String::from("Edge") };
    input.read(&mut p);
    assert_eq!(p.value, "");
    assert!(p.enabled);
}
