use fpui::config::{ComboInput, Config, ControlSnapshot, Param, ParamInput};
use fpui::launch::{
    after_launch, build_args, build_profile_path, launched_message, prepare_launch,
    push_value_arg, random_seed, validate_required_params, AfterLaunch, LaunchError,
};
use fpui::options::{brand_options, lang_options, platform_options, timezone_options};

fn param(enabled: bool, value: &str) -> Param {
    Param { enabled, value: value.to_string() }
}

fn base() -> Config {
    let mut c = Config::default();
    c.user_data_dir = param(false, " d:\\chrome ");
    c.fingerprint = param(false, "1234");
    c
}

#[test]
fn push_value_arg_writes_trimmed_flag() {
    let mut args = vec!["--x=1".to_string()];
    push_value_arg(&mut args, "lang", "  zh-CN ");
    assert_eq!(args, vec!["--x=1".to_string(), "--lang=zh-CN".to_string()]);
}

#[test]
fn push_value_arg_skips_blank_values() {
    let mut args: Vec<String> = Vec::new();
    push_value_arg(&mut args, "lang", "   ");
    push_value_arg(&mut args, "timezone", "");
    assert!(args.is_empty());
}

#[test]
fn profile_path_joins_directory_and_fingerprint() {
    assert_eq!(build_profile_path(&base()), "d:\\chrome\\1234");
    let mut c = base();
    c.fingerprint.value = "  ".to_string();
    assert_eq!(build_profile_path(&c), "d:\\chrome");
}

#[test]
fn minimal_settings_give_directory_and_fingerprint() {
    assert_eq!(
        build_args(&base()),
        vec!["--user-data-dir=d:\\chrome\\1234".to_string(), "--fingerprint=1234".to_string()]
    );
}

#[test]
fn full_settings_give_every_flag_in_order() {
    let mut c = base();
    c.fingerprint_platform = param(false, "windows");
    c.fingerprint_platform_version = param(true, "10.0");
    c.fingerprint_brand = param(false, "Edge");
    c.fingerprint_brand_version = param(true, " 120 ");
    c.fingerprint_hardware_concurrency = param(true, "8");
    c.disable_non_proxied_udp = param(true, "ignored");
    c.enable_cdp = true;
    c.lang = param(false, "en-US");
    c.accept_lang = param(true, "en-US,zh-CN");
    c.timezone = param(false, "UTC");
    c.proxy_server = param(true, "http://127.0.0.1:8080");
    c.disable_spoofing = param(true, "font,gpu");
    let expected: Vec<String> = [
        "--user-data-dir=d:\\chrome\\1234",
        "--fingerprint=1234",
        "--fingerprint-platform=windows",
        "--fingerprint-platform-version=10.0",
        "--fingerprint-brand=Edge",
        "--fingerprint-brand-version=120",
        "--fingerprint-hardware-concurrency=8",
        "--disable-non-proxied-udp",
        "--remote-debugging-port=9222",
        "--lang=en-US",
        "--accept-lang=en-US,zh-CN",
        "--timezone=UTC",
        "--proxy-server=http://127.0.0.1:8080",
        "--disable-spoofing=font,gpu",
    ]
    .iter()
    .map(|s| s.to_string())
    .collect();
    assert_eq!(build_args(&c), expected);
}

#[test]
fn switched_off_options_are_left_out() {
    let mut c = base();
    c.proxy_server = param(false, "http://127.0.0.1:8080");
    c.accept_lang = param(false, "en-US");
    c.disable_non_proxied_udp = param(false, "");
    c.fingerprint_platform = param(false, "linux");
    let args = build_args(&c);
    assert_eq!(args.len(), 3);
    assert_eq!(args[2], "--fingerprint-platform=linux");
}

#[test]
fn every_argument_is_a_flag() {
    let mut c = base();
    c.disable_non_proxied_udp.enabled = true;
    c.enable_cdp = true;
    c.lang.value = "ko-KR".to_string();
    for a in build_args(&c) {
        assert!(a.starts_with("--"));
    }
}

#[test]
fn missing_directory_is_refused_first() {
    let mut c = Config::default();
    c.user_data_dir.value = "  ".to_string();
    assert_eq!(validate_required_params(&c), Err(LaunchError::MissingUserDataDir));
    assert_eq!(LaunchError::MissingUserDataDir.message(), "启动失败: user-data-dir 不能为空");
}

#[test]
fn missing_fingerprint_is_refused() {
    let mut c = base();
    c.fingerprint.value = "\t".to_string();
    assert_eq!(validate_required_params(&c), Err(LaunchError::MissingFingerprint));
    assert_eq!(LaunchError::MissingFingerprint.message(), "启动失败: fingerprint 不能为空");
}

#[test]
fn complete_settings_pass() {
    assert_eq!(validate_required_params(&base()), Ok(()));
}

fn snapshot(fingerprint: &str, auto_seed: bool) -> ControlSnapshot {
    let blank = || ParamInput { checked: Some(false), text: String::new() };
    ControlSnapshot {
        user_data_dir: ParamInput { checked: None, text: "d:\\chrome".to_string() },
        fingerprint: fingerprint.to_string(),
        fingerprint_platform: ComboInput { options: platform_options(), selection: Some(0) },
        lang: ComboInput { options: lang_options(), selection: Some(0) },
        timezone: ComboInput { options: timezone_options(), selection: Some(0) },
        proxy_server: blank(),
        fingerprint_platform_version: blank(),
        fingerprint_brand: ComboInput { options: brand_options(), selection: Some(0) },
        fingerprint_brand_version: blank(),
        fingerprint_hardware_concurrency: blank(),
        accept_lang: blank(),
        disable_spoofing: blank(),
        disable_non_proxied_udp: blank(),
        auto_seed,
        enable_cdp: false,
        close_after_launch: true,
    }
}

#[test]
fn automatic_seed_replaces_the_fingerprint() {
    let mut c = Config::default();
    let r = prepare_launch(&mut c, &snapshot("", true), "987".to_string());
    assert_eq!(c.fingerprint.value, "987");
    assert_eq!(
        r,
        Ok(vec!["--user-data-dir=d:\\chrome\\987".to_string(), "--fingerprint=987".to_string()])
    );
}

#[test]
fn typed_fingerprint_is_used_without_automatic_seed() {
    let mut c = Config::default();
    let r = prepare_launch(&mut c, &snapshot(" 42 ", false), "987".to_string());
    assert_eq!(c.fingerprint.value, " 42 ");
    assert_eq!(
        r,
        Ok(vec!["--user-data-dir=d:\\chrome\\42".to_string(), "--fingerprint=42".to_string()])
    );
}

#[test]
fn empty_fingerprint_without_automatic_seed_is_refused() {
    let mut c = Config::default();
    let r = prepare_launch(&mut c, &snapshot("", false), "987".to_string());
    assert_eq!(r, Err(LaunchError::MissingFingerprint));
    assert!(c.close_after_launch);
}

#[test]
fn automatic_seed_never_leaves_fingerprint_empty() {
    for (nanos, pid) in [(0u128, 0u32), (u128::MAX, u32::MAX), (123456789, 42)] {
        let mut c = Config::default();
        let seed = random_seed(nanos, pid);
        let r = prepare_launch(&mut c, &snapshot("", true), seed);
        assert!(r.is_ok());
    }
}

#[test]
fn after_launch_closes_or_reports() {
    let mut c = base();
    c.close_after_launch = true;
    assert_eq!(after_launch(&c), AfterLaunch::SaveAndClose);
    c.close_after_launch = false;
    assert_eq!(after_launch(&c), AfterLaunch::SaveAndReport);
    assert_eq!(launched_message(), "浏览器已启动，配置已保存");
}

#[test]
fn random_seed_xors_clock_halves_and_pid() {
    assert_eq!(random_seed(0x0000_0002_0000_0004, 1), "7");
    assert_eq!(random_seed(0, 0), "0");
    let nanos: u128 = 1_700_000_000_123_456_789;
    let pid: u32 = 4242;
    let expected = ((nanos >> 32) as u32) ^ (nanos as u32) ^ pid;
    assert_eq!(random_seed(nanos, pid), expected.to_string());
}
