//! The browser's command line, built from the settings, and the checks made
//! before the browser is started.

use vstd::prelude::*;
use crate::config::{Config, ControlSnapshot, Param};
use crate::text::{decimal, decimal_string, lemma_decimal_trimmed, trim, trim_str};

verus! {

/// The texts of a list of strings.
pub open spec fn texts(v: Seq<String>) -> Seq<Seq<char>> {
    v.map_values(|s: String| s@)
}

/// `--name=value` with `value` trimmed, or nothing when the trimmed value is empty.
pub open spec fn value_arg(name: Seq<char>, value: Seq<char>) -> Seq<Seq<char>> {
    let v = trim(value);
    if v.len() == 0 {
        seq![]
    } else {
        seq!["--"@ + name + "="@ + v]
    }
}

/// `--name=value` for an option that is switched on, nothing for one that is off.
pub open spec fn optional_arg(name: Seq<char>, p: Param) -> Seq<Seq<char>> {
    if p.enabled {
        value_arg(name, p.value@)
    } else {
        seq![]
    }
}

/// The profile directory: the user data directory, followed by a backslash
/// and the fingerprint when there is one.
pub open spec fn profile_path(c: Config) -> Seq<char> {
    let fp = trim(c.fingerprint.value@);
    if fp.len() == 0 {
        trim(c.user_data_dir.value@)
    } else {
        trim(c.user_data_dir.value@) + "\\"@ + fp
    }
}

/// The browser's arguments for settings `c`, in the order they are passed.
pub open spec fn launch_args(c: Config) -> Seq<Seq<char>> {
    value_arg("user-data-dir"@, profile_path(c)) + value_arg("fingerprint"@, c.fingerprint.value@)
        + value_arg("fingerprint-platform"@, c.fingerprint_platform.value@) + optional_arg(
        "fingerprint-platform-version"@,
        c.fingerprint_platform_version,
    ) + value_arg("fingerprint-brand"@, c.fingerprint_brand.value@) + optional_arg(
        "fingerprint-brand-version"@,
        c.fingerprint_brand_version,
    ) + optional_arg("fingerprint-hardware-concurrency"@, c.fingerprint_hardware_concurrency) + (
    if c.disable_non_proxied_udp.enabled {
        seq!["--disable-non-proxied-udp"@]
    } else {
        seq![]
    }) + (if c.enable_cdp {
        value_arg("remote-debugging-port"@, "9222"@)
    } else {
        seq![]
    }) + value_arg("lang"@, c.lang.value@) + optional_arg("accept-lang"@, c.accept_lang)
        + value_arg("timezone"@, c.timezone.value@) + optional_arg(
        "proxy-server"@,
        c.proxy_server,
    ) + optional_arg("disable-spoofing"@, c.disable_spoofing)
}

/// Appends `--name=value` to `args`, with `value` trimmed, unless the trimmed
/// value is empty.
pub fn push_value_arg(args: &mut Vec<String>, name: &str, value: &str)
    ensures
        texts(final(args)@) == texts(old(args)@) + value_arg(name@, value@),
{
    let v = trim_str(value);
    if !v.is_empty() {
        let mut arg = String::from_str("--");
        arg.append(name);
        arg.append("=");
        arg.append(v);
        let ghost before = args@;
        args.push(arg);
        assert(texts(args@) =~= texts(before) + value_arg(name@, value@));
    } else {
        assert(texts(args@) =~= texts(args@) + value_arg(name@, value@));
    }
}

fn push_optional_arg(args: &mut Vec<String>, name: &str, p: &Param)
    ensures
        texts(final(args)@) == texts(old(args)@) + optional_arg(name@, *p),
{
    if p.enabled {
        push_value_arg(args, name, p.value.as_str());
    } else {
        assert(texts(args@) =~= texts(args@) + optional_arg(name@, *p));
    }
}

/// The profile directory for settings `c` (see `profile_path`).
pub fn build_profile_path(c: &Config) -> (r: String)
    ensures
        r@ == profile_path(*c),
{
    let mut path = String::from_str(trim_str(c.user_data_dir.value.as_str()));
    let fp = trim_str(c.fingerprint.value.as_str());
    if !fp.is_empty() {
        path.append("\\");
        path.append(fp);
    }
    path
}

/// The browser's arguments for the settings `c`.
pub fn build_args(c: &Config) -> (r: Vec<String>)
    ensures
        texts(r@) == launch_args(*c),
{
    let mut args: Vec<String> = Vec::new();
    assert(texts(args@) =~= Seq::<Seq<char>>::empty());
    let path = build_profile_path(c);
    push_value_arg(&mut args, "user-data-dir", path.as_str());
    assert(texts(args@) =~= value_arg("user-data-dir"@, profile_path(*c)));
    push_value_arg(&mut args, "fingerprint", c.fingerprint.value.as_str());
    push_value_arg(&mut args, "fingerprint-platform", c.fingerprint_platform.value.as_str());
    push_optional_arg(&mut args, "fingerprint-platform-version", &c.fingerprint_platform_version);
    push_value_arg(&mut args, "fingerprint-brand", c.fingerprint_brand.value.as_str());
    push_optional_arg(&mut args, "fingerprint-brand-version", &c.fingerprint_brand_version);
    push_optional_arg(
        &mut args,
        "fingerprint-hardware-concurrency",
        &c.fingerprint_hardware_concurrency,
    );
    let ghost before = texts(args@);
    if c.disable_non_proxied_udp.enabled {
        args.push(String::from_str("--disable-non-proxied-udp"));
    }
    assert(texts(args@) =~= before + (if c.disable_non_proxied_udp.enabled {
        seq!["--disable-non-proxied-udp"@]
    } else {
        seq![]
    }));
    let ghost before = texts(args@);
    if c.enable_cdp {
        push_value_arg(&mut args, "remote-debugging-port", "9222");
    }
    assert(texts(args@) =~= before + (if c.enable_cdp {
        value_arg("remote-debugging-port"@, "9222"@)
    } else {
        seq![]
    }));
    push_value_arg(&mut args, "lang", c.lang.value.as_str());
    push_optional_arg(&mut args, "accept-lang", &c.accept_lang);
    push_value_arg(&mut args, "timezone", c.timezone.value.as_str());
    push_optional_arg(&mut args, "proxy-server", &c.proxy_server);
    push_optional_arg(&mut args, "disable-spoofing", &c.disable_spoofing);
    args
}


/// Why the browser was not started.
#[derive(Clone, Copy, Debug, PartialEq, Eq, Structural)]
pub enum LaunchError {
    /// The user data directory is empty.
    MissingUserDataDir,
    /// The fingerprint is empty.
    MissingFingerprint,
}

impl LaunchError {
    /// The status line shown for this error.
    pub fn message(&self) -> (r: &'static str)
        ensures
            r@ == match self {
                LaunchError::MissingUserDataDir => "启动失败: user-data-dir 不能为空"@,
                LaunchError::MissingFingerprint => "启动失败: fingerprint 不能为空"@,
            },
    {
        match self {
            LaunchError::MissingUserDataDir => "启动失败: user-data-dir 不能为空",
            LaunchError::MissingFingerprint => "启动失败: fingerprint 不能为空",
        }
    }
}

/// The first required option of `c` that is empty once trimmed, if any.
pub open spec fn missing_required(c: Config) -> Option<LaunchError> {
    if trim(c.user_data_dir.value@).len() == 0 {
        Some(LaunchError::MissingUserDataDir)
    } else if trim(c.fingerprint.value@).len() == 0 {
        Some(LaunchError::MissingFingerprint)
    } else {
        None
    }
}

/// Checks that the user data directory and the fingerprint are filled in.
pub fn validate_required_params(c: &Config) -> (r: Result<(), LaunchError>)
    ensures
        match missing_required(*c) {
            Some(e) => r == Err::<(), LaunchError>(e),
            None => r is Ok,
        },
{
    if trim_str(c.user_data_dir.value.as_str()).is_empty() {
        return Err(LaunchError::MissingUserDataDir);
    }
    if trim_str(c.fingerprint.value.as_str()).is_empty() {
        return Err(LaunchError::MissingFingerprint);
    }
    Ok(())
}

/// Settings `c` with the fingerprint replaced by `seed` when a fresh seed is
/// drawn for every launch.
pub open spec fn seeded(c: Config, seed: String) -> Config {
    if c.auto_seed {
        Config { fingerprint: Param { enabled: c.fingerprint.enabled, value: seed }, ..c }
    } else {
        c
    }
}

/// Prepares a launch: reads the window's controls into the settings, puts
/// `fresh_seed` in as the fingerprint when seeds are drawn automatically,
/// checks the required options and builds the browser's arguments.
pub fn prepare_launch(config: &mut Config, snap: &ControlSnapshot, fresh_seed: String) -> (r:
    Result<Vec<String>, LaunchError>)
    ensures
        exists|synced: Config|
            {
                &&& #[trigger] Config::synced(*old(config), synced, *snap)
                &&& *final(config) == seeded(synced, fresh_seed)
            },
        match missing_required(*final(config)) {
            Some(e) => r == Err::<Vec<String>, LaunchError>(e),
            None => r is Ok && texts(r->Ok_0@) == launch_args(*final(config)),
        },
{
    config.sync_from_controls(snap);
    let ghost synced = *config;
    if config.auto_seed {
        config.fingerprint.value = fresh_seed;
    }
    assert(*config == seeded(synced, fresh_seed));
    match validate_required_params(config) {
        Err(e) => Err(e),
        Ok(()) => Ok(build_args(config)),
    }
}

/// What the window does once the browser has been started.
#[derive(Clone, Copy, Debug, PartialEq, Eq, Structural)]
pub enum AfterLaunch {
    /// Save the settings and close the window.
    SaveAndClose,
    /// Save the settings and report that the browser was started.
    SaveAndReport,
}

/// What follows a successful start: the settings are saved, then the window
/// closes when `close_after_launch` is set and reports success otherwise.
pub fn after_launch(c: &Config) -> (r: AfterLaunch)
    ensures
        r == (if c.close_after_launch {
            AfterLaunch::SaveAndClose
        } else {
            AfterLaunch::SaveAndReport
        }),
{
    if c.close_after_launch {
        AfterLaunch::SaveAndClose
    } else {
        AfterLaunch::SaveAndReport
    }
}

/// The status line shown after the browser has been started and the window stays open.
pub fn launched_message() -> (r: &'static str)
    ensures
        r@ == "浏览器已启动，配置已保存"@,
{
    "浏览器已启动，配置已保存"
}

/// The seed drawn from a clock reading (nanoseconds since the Unix epoch)
/// and a process id: the clock's high and low 32-bit halves and the id, xor-ed.
pub open spec fn seed_value(nanos: u128, pid: u32) -> u32 {
    ((nanos >> 32u128) as u32) ^ (nanos as u32) ^ pid
}

/// A fresh fingerprint seed, in decimal, from a clock reading and a process id.
pub fn random_seed(nanos: u128, pid: u32) -> (r: String)
    ensures
        r@ == decimal(seed_value(nanos, pid) as nat),
{
    let seed = ((nanos >> 32u128) as u32) ^ (nanos as u32) ^ pid;
    decimal_string(seed)
}


/// Every argument in `args` is a flag: it begins with `--`.
pub open spec fn all_flags(args: Seq<Seq<char>>) -> bool {
    forall|i: int|
        0 <= i < args.len() ==> (#[trigger] args[i]).len() >= 2 && args[i][0] == '-'
            && args[i][1] == '-'
}

proof fn lemma_flags_concat(a: Seq<Seq<char>>, b: Seq<Seq<char>>)
    requires
        all_flags(a),
        all_flags(b),
    ensures
        all_flags(a + b),
{
    assert forall|i: int| 0 <= i < (a + b).len() implies (#[trigger] (a + b)[i]).len() >= 2
        && (a + b)[i][0] == '-' && (a + b)[i][1] == '-' by {
        if i < a.len() {
            assert((a + b)[i] == a[i]);
        } else {
            assert((a + b)[i] == b[i - a.len()]);
        }
    }
}

proof fn lemma_value_arg_flag(name: Seq<char>, value: Seq<char>)
    ensures
        all_flags(value_arg(name, value)),
{
    reveal_strlit("--");
    let v = trim(value);
    if v.len() > 0 {
        let a = "--"@ + name + "="@ + v;
        assert(a[0] == '-' && a[1] == '-');
    }
}

proof fn lemma_optional_arg_flag(name: Seq<char>, p: Param)
    ensures
        all_flags(optional_arg(name, p)),
{
    lemma_value_arg_flag(name, p.value@);
}

/// Every argument passed to the browser is a flag beginning with `--`.
pub proof fn lemma_launch_args_are_flags(c: Config)
    ensures
        all_flags(launch_args(c)),
{
    reveal_strlit("--disable-non-proxied-udp");
    lemma_value_arg_flag("user-data-dir"@, profile_path(c));
    lemma_value_arg_flag("fingerprint"@, c.fingerprint.value@);
    lemma_value_arg_flag("fingerprint-platform"@, c.fingerprint_platform.value@);
    lemma_optional_arg_flag("fingerprint-platform-version"@, c.fingerprint_platform_version);
    lemma_value_arg_flag("fingerprint-brand"@, c.fingerprint_brand.value@);
    lemma_optional_arg_flag("fingerprint-brand-version"@, c.fingerprint_brand_version);
    lemma_optional_arg_flag(
        "fingerprint-hardware-concurrency"@,
        c.fingerprint_hardware_concurrency,
    );
    lemma_value_arg_flag("remote-debugging-port"@, "9222"@);
    lemma_value_arg_flag("lang"@, c.lang.value@);
    lemma_optional_arg_flag("accept-lang"@, c.accept_lang);
    lemma_value_arg_flag("timezone"@, c.timezone.value@);
    lemma_optional_arg_flag("proxy-server"@, c.proxy_server);
    lemma_optional_arg_flag("disable-spoofing"@, c.disable_spoofing);
    let udp: Seq<Seq<char>> = if c.disable_non_proxied_udp.enabled {
        seq!["--disable-non-proxied-udp"@]
    } else {
        seq![]
    };
    let cdp: Seq<Seq<char>> = if c.enable_cdp {
        value_arg("remote-debugging-port"@, "9222"@)
    } else {
        seq![]
    };
    assert(all_flags(udp));
    assert(all_flags(cdp));
    let a1 = value_arg("user-data-dir"@, profile_path(c));
    let a2 = a1 + value_arg("fingerprint"@, c.fingerprint.value@);
    lemma_flags_concat(a1, value_arg("fingerprint"@, c.fingerprint.value@));
    let a3 = a2 + value_arg("fingerprint-platform"@, c.fingerprint_platform.value@);
    lemma_flags_concat(a2, value_arg("fingerprint-platform"@, c.fingerprint_platform.value@));
    let a4 = a3 + optional_arg("fingerprint-platform-version"@, c.fingerprint_platform_version);
    lemma_flags_concat(
        a3,
        optional_arg("fingerprint-platform-version"@, c.fingerprint_platform_version),
    );
    let a5 = a4 + value_arg("fingerprint-brand"@, c.fingerprint_brand.value@);
    lemma_flags_concat(a4, value_arg("fingerprint-brand"@, c.fingerprint_brand.value@));
    let a6 = a5 + optional_arg("fingerprint-brand-version"@, c.fingerprint_brand_version);
    lemma_flags_concat(a5, optional_arg("fingerprint-brand-version"@, c.fingerprint_brand_version));
    let a7 = a6 + optional_arg(
        "fingerprint-hardware-concurrency"@,
        c.fingerprint_hardware_concurrency,
    );
    lemma_flags_concat(
        a6,
        optional_arg("fingerprint-hardware-concurrency"@, c.fingerprint_hardware_concurrency),
    );
    let a8 = a7 + udp;
    lemma_flags_concat(a7, udp);
    let a9 = a8 + cdp;
    lemma_flags_concat(a8, cdp);
    let a10 = a9 + value_arg("lang"@, c.lang.value@);
    lemma_flags_concat(a9, value_arg("lang"@, c.lang.value@));
    let a11 = a10 + optional_arg("accept-lang"@, c.accept_lang);
    lemma_flags_concat(a10, optional_arg("accept-lang"@, c.accept_lang));
    let a12 = a11 + value_arg("timezone"@, c.timezone.value@);
    lemma_flags_concat(a11, value_arg("timezone"@, c.timezone.value@));
    let a13 = a12 + optional_arg("proxy-server"@, c.proxy_server);
    lemma_flags_concat(a12, optional_arg("proxy-server"@, c.proxy_server));
    lemma_flags_concat(a13, optional_arg("disable-spoofing"@, c.disable_spoofing));
    assert(launch_args(c) == a13 + optional_arg("disable-spoofing"@, c.disable_spoofing));
}

/// With seeds drawn automatically, a launch never fails for want of a
/// fingerprint: a seed written in decimal is never empty once trimmed.
pub proof fn lemma_auto_seed_fills_fingerprint(c: Config, seed: String, n: u32)
    requires
        c.auto_seed,
        seed@ == decimal(n as nat),
    ensures
        missing_required(seeded(c, seed)) != Some(LaunchError::MissingFingerprint),
        trim(seeded(c, seed).fingerprint.value@) == seed@,
{
    lemma_decimal_trimmed(n as nat);
}

/// A launch is refused exactly when the user data directory or the
/// fingerprint is empty once trimmed; the directory is checked first.
pub proof fn lemma_refusal_reasons(c: Config)
    ensures
        missing_required(c) is None <==> trim(c.user_data_dir.value@).len() > 0 && trim(
            c.fingerprint.value@,
        ).len() > 0,
        missing_required(c) == Some(LaunchError::MissingFingerprint) ==> trim(
            c.user_data_dir.value@,
        ).len() > 0,
{
}


/// A switched-off `fingerprint_platform_version` is not passed to the browser: whatever text it
/// holds, the arguments are those of the same settings with any other text.
pub proof fn lemma_off_fingerprint_platform_version_ignored(c: Config, text: String)
    requires
        !c.fingerprint_platform_version.enabled,
    ensures
        launch_args(Config { fingerprint_platform_version: Param { enabled: false, value: text }, ..c })
            == launch_args(c),
{
}

/// A switched-off `fingerprint_brand_version` is not passed to the browser: whatever text it
/// holds, the arguments are those of the same settings with any other text.
pub proof fn lemma_off_fingerprint_brand_version_ignored(c: Config, text: String)
    requires
        !c.fingerprint_brand_version.enabled,
    ensures
        launch_args(Config { fingerprint_brand_version: Param { enabled: false, value: text }, ..c })
            == launch_args(c),
{
}

/// A switched-off `fingerprint_hardware_concurrency` is not passed to the browser: whatever text it
/// holds, the arguments are those of the same settings with any other text.
pub proof fn lemma_off_fingerprint_hardware_concurrency_ignored(c: Config, text: String)
    requires
        !c.fingerprint_hardware_concurrency.enabled,
    ensures
        launch_args(Config { fingerprint_hardware_concurrency: Param { enabled: false, value: text }, ..c })
            == launch_args(c),
{
}

/// A switched-off `accept_lang` is not passed to the browser: whatever text it
/// holds, the arguments are those of the same settings with any other text.
pub proof fn lemma_off_accept_lang_ignored(c: Config, text: String)
    requires
        !c.accept_lang.enabled,
    ensures
        launch_args(Config { accept_lang: Param { enabled: false, value: text }, ..c })
            == launch_args(c),
{
}

/// A switched-off `proxy_server` is not passed to the browser: whatever text it
/// holds, the arguments are those of the same settings with any other text.
pub proof fn lemma_off_proxy_server_ignored(c: Config, text: String)
    requires
        !c.proxy_server.enabled,
    ensures
        launch_args(Config { proxy_server: Param { enabled: false, value: text }, ..c })
            == launch_args(c),
{
}

/// A switched-off `disable_spoofing` is not passed to the browser: whatever text it
/// holds, the arguments are those of the same settings with any other text.
pub proof fn lemma_off_disable_spoofing_ignored(c: Config, text: String)
    requires
        !c.disable_spoofing.enabled,
    ensures
        launch_args(Config { disable_spoofing: Param { enabled: false, value: text }, ..c })
            == launch_args(c),
{
}

/// Only whether the UDP option is switched on matters, never its text.
pub proof fn lemma_udp_text_ignored(c: Config, text: String)
    ensures
        launch_args(
            Config {
                disable_non_proxied_udp: Param {
                    enabled: c.disable_non_proxied_udp.enabled,
                    value: text,
                },
                ..c
            },
        ) == launch_args(c),
{
}

/// Switching an optional option off never adds arguments and, when it held
/// text, removes exactly its one argument.
pub proof fn lemma_switching_off_shortens(c: Config)
    requires
        c.proxy_server.enabled,
        trim(c.proxy_server.value@).len() > 0,
    ensures
        launch_args(
            Config { proxy_server: Param { enabled: false, value: c.proxy_server.value }, ..c },
        ).len() + 1 == launch_args(c).len(),
{
}

/// After the controls are read, the three flags are those of their check
/// boxes, whatever the settings held before.
pub proof fn lemma_flags_follow_boxes(old: Config, snap: ControlSnapshot, new: Config)
    requires
        Config::synced(old, new, snap),
    ensures
        new.auto_seed == snap.auto_seed,
        new.enable_cdp == snap.enable_cdp,
        new.close_after_launch == snap.close_after_launch,
        new.fingerprint.value == snap.fingerprint,
{
}

/// A launch uses the typed fingerprint when the automatic-seed box is
/// unchecked, and the fresh seed when it is checked, whatever was stored.
pub proof fn lemma_seed_follows_box(old: Config, snap: ControlSnapshot, synced: Config, seed: String)
    requires
        Config::synced(old, synced, snap),
    ensures
        !snap.auto_seed ==> seeded(synced, seed).fingerprint.value == snap.fingerprint,
        snap.auto_seed ==> seeded(synced, seed).fingerprint.value == seed,
        seeded(synced, seed).auto_seed == snap.auto_seed,
{
}


/// How many arguments an option gives: one when it is passed and its trimmed
/// text is not empty, none otherwise.
pub open spec fn arg_count(passed: bool, value: Seq<char>) -> int {
    if passed && trim(value).len() > 0 {
        1
    } else {
        0
    }
}

/// The browser gets one argument per option that is passed with text: the
/// required and drop-down options always, the optional ones when switched
/// on, the UDP flag when on, the debugging port when enabled.
pub proof fn lemma_launch_args_count(c: Config)
    ensures
        launch_args(c).len() == arg_count(true, profile_path(c)) + arg_count(
            true,
            c.fingerprint.value@,
        ) + arg_count(true, c.fingerprint_platform.value@) + arg_count(
            c.fingerprint_platform_version.enabled,
            c.fingerprint_platform_version.value@,
        ) + arg_count(true, c.fingerprint_brand.value@) + arg_count(
            c.fingerprint_brand_version.enabled,
            c.fingerprint_brand_version.value@,
        ) + arg_count(
            c.fingerprint_hardware_concurrency.enabled,
            c.fingerprint_hardware_concurrency.value@,
        ) + (if c.disable_non_proxied_udp.enabled {
            1int
        } else {
            0int
        }) + (if c.enable_cdp {
            1int
        } else {
            0int
        }) + arg_count(true, c.lang.value@) + arg_count(c.accept_lang.enabled, c.accept_lang.value@)
            + arg_count(true, c.timezone.value@) + arg_count(
            c.proxy_server.enabled,
            c.proxy_server.value@,
        ) + arg_count(c.disable_spoofing.enabled, c.disable_spoofing.value@),
{
    reveal_strlit("9222");
    assert(trim("9222"@) == "9222"@) by {
        crate::text::lemma_trim_unchanged("9222"@);
    }
    let n1 = value_arg("user-data-dir"@, profile_path(c)).len();
    let n2 = value_arg("fingerprint"@, c.fingerprint.value@).len();
    let n3 = value_arg("fingerprint-platform"@, c.fingerprint_platform.value@).len();
    let n4 = optional_arg("fingerprint-platform-version"@, c.fingerprint_platform_version).len();
    let n5 = value_arg("fingerprint-brand"@, c.fingerprint_brand.value@).len();
    let n6 = optional_arg("fingerprint-brand-version"@, c.fingerprint_brand_version).len();
    let n7 = optional_arg(
        "fingerprint-hardware-concurrency"@,
        c.fingerprint_hardware_concurrency,
    ).len();
    let n10 = value_arg("lang"@, c.lang.value@).len();
    let n11 = optional_arg("accept-lang"@, c.accept_lang).len();
    let n12 = value_arg("timezone"@, c.timezone.value@).len();
    let n13 = optional_arg("proxy-server"@, c.proxy_server).len();
    let n14 = optional_arg("disable-spoofing"@, c.disable_spoofing).len();
    assert(n1 == arg_count(true, profile_path(c)));
    assert(n2 == arg_count(true, c.fingerprint.value@));
    assert(n3 == arg_count(true, c.fingerprint_platform.value@));
    assert(n4 == arg_count(c.fingerprint_platform_version.enabled, c.fingerprint_platform_version.value@));
    assert(n5 == arg_count(true, c.fingerprint_brand.value@));
    assert(n6 == arg_count(c.fingerprint_brand_version.enabled, c.fingerprint_brand_version.value@));
    assert(n7 == arg_count(
        c.fingerprint_hardware_concurrency.enabled,
        c.fingerprint_hardware_concurrency.value@,
    ));
    assert(n10 == arg_count(true, c.lang.value@));
    assert(n11 == arg_count(c.accept_lang.enabled, c.accept_lang.value@));
    assert(n12 == arg_count(true, c.timezone.value@));
    assert(n13 == arg_count(c.proxy_server.enabled, c.proxy_server.value@));
    assert(n14 == arg_count(c.disable_spoofing.enabled, c.disable_spoofing.value@));
}

/// The flag `--name=value` for an option's trimmed text.
pub open spec fn flag(name: Seq<char>, value: Seq<char>) -> Seq<char> {
    "--"@ + name + "="@ + trim(value)
}

proof fn lemma_contains_left(a: Seq<Seq<char>>, b: Seq<Seq<char>>, x: Seq<char>)
    requires
        a.contains(x),
    ensures
        (a + b).contains(x),
{
    let i = choose|i: int| 0 <= i < a.len() && a[i] == x;
    assert((a + b)[i] == x);
}

proof fn lemma_contains_right(a: Seq<Seq<char>>, b: Seq<Seq<char>>, x: Seq<char>)
    requires
        b.contains(x),
    ensures
        (a + b).contains(x),
{
    let i = choose|i: int| 0 <= i < b.len() && b[i] == x;
    assert((a + b)[a.len() + i] == x);
}

/// Every option that is passed with text appears as `--name=<trimmed text>`:
/// the user data directory with the fingerprint appended, the fingerprint,
/// language and time zone always, the proxy and accepted languages when on.
pub proof fn lemma_launch_args_contain(c: Config)
    ensures
        trim(profile_path(c)).len() > 0 ==> launch_args(c).contains(
            flag("user-data-dir"@, profile_path(c)),
        ),
        trim(c.fingerprint.value@).len() > 0 ==> launch_args(c).contains(
            flag("fingerprint"@, c.fingerprint.value@),
        ),
        trim(c.lang.value@).len() > 0 ==> launch_args(c).contains(flag("lang"@, c.lang.value@)),
        trim(c.timezone.value@).len() > 0 ==> launch_args(c).contains(
            flag("timezone"@, c.timezone.value@),
        ),
        c.proxy_server.enabled && trim(c.proxy_server.value@).len() > 0 ==> launch_args(
            c,
        ).contains(flag("proxy-server"@, c.proxy_server.value@)),
        c.accept_lang.enabled && trim(c.accept_lang.value@).len() > 0 ==> launch_args(
            c,
        ).contains(flag("accept-lang"@, c.accept_lang.value@)),
        c.disable_non_proxied_udp.enabled ==> launch_args(c).contains(
            "--disable-non-proxied-udp"@,
        ),
{
    let a1 = value_arg("user-data-dir"@, profile_path(c));
    let a2 = value_arg("fingerprint"@, c.fingerprint.value@);
    let a3 = value_arg("fingerprint-platform"@, c.fingerprint_platform.value@);
    let a4 = optional_arg("fingerprint-platform-version"@, c.fingerprint_platform_version);
    let a5 = value_arg("fingerprint-brand"@, c.fingerprint_brand.value@);
    let a6 = optional_arg("fingerprint-brand-version"@, c.fingerprint_brand_version);
    let a7 = optional_arg("fingerprint-hardware-concurrency"@, c.fingerprint_hardware_concurrency);
    let a8: Seq<Seq<char>> = if c.disable_non_proxied_udp.enabled {
        seq!["--disable-non-proxied-udp"@]
    } else {
        seq![]
    };
    let a9: Seq<Seq<char>> = if c.enable_cdp {
        value_arg("remote-debugging-port"@, "9222"@)
    } else {
        seq![]
    };
    let a10 = value_arg("lang"@, c.lang.value@);
    let a11 = optional_arg("accept-lang"@, c.accept_lang);
    let a12 = value_arg("timezone"@, c.timezone.value@);
    let a13 = optional_arg("proxy-server"@, c.proxy_server);
    let a14 = optional_arg("disable-spoofing"@, c.disable_spoofing);
    let p1 = a1;
    let p2 = p1 + a2;
    let p3 = p2 + a3;
    let p4 = p3 + a4;
    let p5 = p4 + a5;
    let p6 = p5 + a6;
    let p7 = p6 + a7;
    let p8 = p7 + a8;
    let p9 = p8 + a9;
    let p10 = p9 + a10;
    let p11 = p10 + a11;
    let p12 = p11 + a12;
    let p13 = p12 + a13;
    let all = p13 + a14;
    assert(launch_args(c) == all);
    // Carries membership of one piece to the whole list.
    if trim(profile_path(c)).len() > 0 {
        crate::text::lemma_trim_idempotent(profile_path(c));
        let x = flag("user-data-dir"@, profile_path(c));
        assert(a1[0] == x);
        lemma_contains_left(p1, a2, x);
        lemma_contains_left(p2, a3, x);
        lemma_contains_left(p3, a4, x);
        lemma_contains_left(p4, a5, x);
        lemma_contains_left(p5, a6, x);
        lemma_contains_left(p6, a7, x);
        lemma_contains_left(p7, a8, x);
        lemma_contains_left(p8, a9, x);
        lemma_contains_left(p9, a10, x);
        lemma_contains_left(p10, a11, x);
        lemma_contains_left(p11, a12, x);
        lemma_contains_left(p12, a13, x);
        lemma_contains_left(p13, a14, x);
    }
    if trim(c.fingerprint.value@).len() > 0 {
        let x = flag("fingerprint"@, c.fingerprint.value@);
        assert(a2[0] == x);
        lemma_contains_right(p1, a2, x);
        lemma_contains_left(p2, a3, x);
        lemma_contains_left(p3, a4, x);
        lemma_contains_left(p4, a5, x);
        lemma_contains_left(p5, a6, x);
        lemma_contains_left(p6, a7, x);
        lemma_contains_left(p7, a8, x);
        lemma_contains_left(p8, a9, x);
        lemma_contains_left(p9, a10, x);
        lemma_contains_left(p10, a11, x);
        lemma_contains_left(p11, a12, x);
        lemma_contains_left(p12, a13, x);
        lemma_contains_left(p13, a14, x);
    }
    if c.disable_non_proxied_udp.enabled {
        let x = "--disable-non-proxied-udp"@;
        assert(a8[0] == x);
        lemma_contains_right(p7, a8, x);
        lemma_contains_left(p8, a9, x);
        lemma_contains_left(p9, a10, x);
        lemma_contains_left(p10, a11, x);
        lemma_contains_left(p11, a12, x);
        lemma_contains_left(p12, a13, x);
        lemma_contains_left(p13, a14, x);
    }
    if trim(c.lang.value@).len() > 0 {
        let x = flag("lang"@, c.lang.value@);
        assert(a10[0] == x);
        lemma_contains_right(p9, a10, x);
        lemma_contains_left(p10, a11, x);
        lemma_contains_left(p11, a12, x);
        lemma_contains_left(p12, a13, x);
        lemma_contains_left(p13, a14, x);
    }
    if c.accept_lang.enabled && trim(c.accept_lang.value@).len() > 0 {
        let x = flag("accept-lang"@, c.accept_lang.value@);
        assert(a11[0] == x);
        lemma_contains_right(p10, a11, x);
        lemma_contains_left(p11, a12, x);
        lemma_contains_left(p12, a13, x);
        lemma_contains_left(p13, a14, x);
    }
    if trim(c.timezone.value@).len() > 0 {
        let x = flag("timezone"@, c.timezone.value@);
        assert(a12[0] == x);
        lemma_contains_right(p11, a12, x);
        lemma_contains_left(p12, a13, x);
        lemma_contains_left(p13, a14, x);
    }
    if c.proxy_server.enabled && trim(c.proxy_server.value@).len() > 0 {
        let x = flag("proxy-server"@, c.proxy_server.value@);
        assert(a13[0] == x);
        lemma_contains_right(p12, a13, x);
        lemma_contains_left(p13, a14, x);
    }
}


/// Two processes started at the same moment draw different seeds.
pub proof fn lemma_seed_differs_by_process(nanos: u128, pid1: u32, pid2: u32)
    requires
        pid1 != pid2,
    ensures
        seed_value(nanos, pid1) != seed_value(nanos, pid2),
{
    let hi = (nanos >> 32u128) as u32;
    let lo = nanos as u32;
    assert(pid1 != pid2 ==> hi ^ lo ^ pid1 != hi ^ lo ^ pid2) by (bit_vector);
}


/// Each profile gets its own directory under the user data directory: the
/// path starts with the trimmed directory and, when there is a fingerprint,
/// ends with a backslash and the trimmed fingerprint.
pub proof fn lemma_profile_path_shape(c: Config)
    ensures
        ({
            let d = trim(c.user_data_dir.value@);
            let f = trim(c.fingerprint.value@);
            let p = profile_path(c);
            &&& p.len() >= d.len()
            &&& p.subrange(0, d.len() as int) == d
            &&& f.len() == 0 ==> p == d
            &&& f.len() > 0 ==> p.len() == d.len() + 1 + f.len() && p[d.len() as int] == '\\'
                && p.subrange(d.len() as int + 1, p.len() as int) == f
        }),
{
    reveal_strlit("\\");
    let d = trim(c.user_data_dir.value@);
    let f = trim(c.fingerprint.value@);
    let p = profile_path(c);
    if f.len() > 0 {
        assert(p.subrange(0, d.len() as int) =~= d);
        assert(p.subrange(d.len() as int + 1, p.len() as int) =~= f);
    } else {
        assert(p.subrange(0, d.len() as int) =~= d);
    }
}

} // verus!
