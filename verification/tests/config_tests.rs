use fpui::config::{ComboInput, Config, ControlSnapshot, Param, ParamInput};
use fpui::options::{
    brand_options, lang_options, platform_options, selected_index, timezone_options, ComboOption,
};

fn param(enabled: bool, value: &str) -> Param {
    Param { enabled, value: value.to_string() }
}

#[test]
fn default_config_is_blank() {
    let c = Config::default();
    assert_eq!(c.user_data_dir, param(false, ""));
    assert_eq!(c.fingerprint, param(false, ""));
    assert_eq!(c.disable_spoofing, param(false, ""));
    assert!(!c.enable_cdp && !c.close_after_launch && !c.auto_seed);
    assert_eq!(Param::default(), param(false, ""));
}

#[test]
fn stored_settings_are_kept_and_missing_ones_default() {
    let mut stored = Config::default();
    stored.lang = param(false, "ja-JP");
    stored.auto_seed = true;
    let c = Config::or_default(Some(stored.clone()));
    assert_eq!(c, stored);
    assert_eq!(Config::or_default(None), Config::default());
}

#[test]
fn equality_compares_every_field() {
    let a = Config::default();
    let mut b = Config::default();
    assert_eq!(a, b);
    b.close_after_launch = true;
    assert_ne!(a, b);
    let mut c = Config::default();
    c.proxy_server.enabled = true;
    assert_ne!(a, c);
    assert_ne!(param(true, "a"), param(true, "b"));
}

#[test]
fn text_row_with_check_box_sets_both() {
    let mut p = param(false, "old");
    ParamInput { checked: Some(true), text: "http://127.0.0.1:8080".to_string() }.read(&mut p);
    assert_eq!(p, param(true, "http://127.0.0.1:8080"));
}

#[test]
fn text_row_without_check_box_keeps_enabled() {
    let mut p = param(true, "old");
    ParamInput { checked: None, text: "d:\\chrome".to_string() }.read(&mut p);
    assert_eq!(p, param(true, "d:\\chrome"));
}

#[test]
fn text_row_round_trip_gives_back_the_option() {
    let original = param(true, " 8 ");
    let mut p = original.clone();
    ParamInput { checked: Some(original.enabled), text: original.value.clone() }.read(&mut p);
    assert_eq!(p, original);
}

#[test]
fn sync_reads_every_control() {
    let snap = ControlSnapshot {
        user_data_dir: ParamInput { checked: None, text: "d:\\chrome".to_string() },
        fingerprint: "12345".to_string(),
        fingerprint_platform: ComboInput { options: platform_options(), selection: Some(3) },
        lang: ComboInput { options: lang_options(), selection: Some(1) },
        timezone: ComboInput { options: timezone_options(), selection: None },
        proxy_server: ParamInput { checked: Some(true), text: "socks5://h:1".to_string() },
        fingerprint_platform_version: ParamInput { checked: Some(false), text: "10".to_string() },
        fingerprint_brand: ComboInput { options: brand_options(), selection: Some(2) },
        fingerprint_brand_version: ParamInput { checked: Some(true), text: "120".to_string() },
        fingerprint_hardware_concurrency: ParamInput { checked: Some(true), text: "8".to_string() },
        accept_lang: ParamInput { checked: Some(false), text: "".to_string() },
        disable_spoofing: ParamInput { checked: Some(true), text: "gpu".to_string() },
        disable_non_proxied_udp: ParamInput { checked: Some(true), text: "".to_string() },
        auto_seed: true,
        enable_cdp: true,
        close_after_launch: false,
    };
    let mut c = Config::default();
    c.fingerprint.enabled = true;
    c.lang.enabled = true;
    c.sync_from_controls(&snap);
    assert_eq!(c.user_data_dir, param(false, "d:\\chrome"));
    assert_eq!(c.fingerprint, param(true, "12345"));
    assert_eq!(c.fingerprint_platform, param(false, "linux"));
    assert_eq!(c.lang, param(true, "zh-CN"));
    assert_eq!(c.timezone, param(false, ""));
    assert_eq!(c.proxy_server, param(true, "socks5://h:1"));
    assert_eq!(c.fingerprint_platform_version, param(false, "10"));
    assert_eq!(c.fingerprint_brand, param(false, "Edge"));
    assert_eq!(c.fingerprint_brand_version, param(true, "120"));
    assert_eq!(c.fingerprint_hardware_concurrency, param(true, "8"));
    assert_eq!(c.accept_lang, param(false, ""));
    assert_eq!(c.disable_spoofing, param(true, "gpu"));
    assert_eq!(c.disable_non_proxied_udp, param(true, ""));
    assert!(c.auto_seed && c.enable_cdp && !c.close_after_launch);
}

#[test]
fn window_built_from_settings_reads_them_back() {
    let mut l = Config::default();
    l.user_data_dir = param(true, "d:\\chrome");
    l.fingerprint = param(false, "123");
    l.fingerprint_platform = param(true, " linux ");
    l.lang = param(false, "xx-YY");
    l.timezone = param(false, "UTC");
    l.fingerprint_brand = param(false, "");
    l.proxy_server = param(true, "http://h:1");
    l.accept_lang = param(false, "en-US");
    l.enable_cdp = true;
    let combo = |opts: Vec<ComboOption>, p: &Param| {
        let i = selected_index(&opts, &p.value);
        ComboInput { options: opts, selection: Some(i) }
    };
    let row = |p: &Param| ParamInput { checked: Some(p.enabled), text: p.value.clone() };
    let snap = ControlSnapshot {
        user_data_dir: ParamInput { checked: None, text: l.user_data_dir.value.clone() },
        fingerprint: l.fingerprint.value.clone(),
        fingerprint_platform: combo(platform_options(), &l.fingerprint_platform),
        lang: combo(lang_options(), &l.lang),
        timezone: combo(timezone_options(), &l.timezone),
        proxy_server: row(&l.proxy_server),
        fingerprint_platform_version: row(&l.fingerprint_platform_version),
        fingerprint_brand: combo(brand_options(), &l.fingerprint_brand),
        fingerprint_brand_version: row(&l.fingerprint_brand_version),
        fingerprint_hardware_concurrency: row(&l.fingerprint_hardware_concurrency),
        accept_lang: row(&l.accept_lang),
        disable_spoofing: row(&l.disable_spoofing),
        disable_non_proxied_udp: row(&l.disable_non_proxied_udp),
        auto_seed: l.auto_seed,
        enable_cdp: l.enable_cdp,
        close_after_launch: l.close_after_launch,
    };
    let mut new = l.clone();
    new.sync_from_controls(&snap);
    let mut expected = l.clone();
    expected.fingerprint_platform.value = "linux".to_string();
    expected.lang.value = String::new();
    assert_eq!(new, expected);
}
