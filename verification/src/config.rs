//! The launcher's settings: one `Param` per command-line option, and how the
//! window's controls are read back into them.

use vstd::prelude::*;
use crate::options::{ComboOption, is_selection_for, selection_text};
use crate::text::trim;

verus! {

/// One option: whether it is switched on, and its text.
#[derive(Debug)]
pub struct Param {
    pub enabled: bool,
    pub value: String,
}

impl Param {
    /// Both options are on or both off, with the same text.
    pub open spec fn same_as(self, other: Param) -> bool {
        self.enabled == other.enabled && self.value@ == other.value@
    }

    /// A switched-off option with no text.
    pub open spec fn is_blank(self) -> bool {
        !self.enabled && self.value@ == Seq::<char>::empty()
    }
}

impl Clone for Param {
    fn clone(&self) -> (r: Self)
        ensures
            r == *self,
    {
        Param { enabled: self.enabled, value: self.value.clone() }
    }
}

impl PartialEq for Param {
    fn eq(&self, other: &Self) -> (r: bool) {
        self.enabled == other.enabled && self.value == other.value
    }
}

impl vstd::std_specs::cmp::PartialEqSpecImpl for Param {
    open spec fn obeys_eq_spec() -> bool {
        true
    }

    open spec fn eq_spec(&self, other: &Self) -> bool {
        self.same_as(*other)
    }
}

impl Default for Param {
    fn default() -> (r: Self)
        ensures
            r.is_blank(),
    {
        Param { enabled: false, value: String::new() }
    }
}

/// All settings of the launcher.
#[derive(Debug)]
pub struct Config {
    pub user_data_dir: Param,
    pub fingerprint: Param,
    pub fingerprint_platform: Param,
    pub fingerprint_platform_version: Param,
    pub fingerprint_brand: Param,
    pub fingerprint_brand_version: Param,
    pub fingerprint_hardware_concurrency: Param,
    pub disable_non_proxied_udp: Param,
    pub lang: Param,
    pub accept_lang: Param,
    pub timezone: Param,
    pub proxy_server: Param,
    pub disable_spoofing: Param,
    pub enable_cdp: bool,
    pub close_after_launch: bool,
    pub auto_seed: bool,
}

impl Config {
    /// Every option switched off and empty, every flag off.
    pub open spec fn is_blank(self) -> bool {
        &&& self.user_data_dir.is_blank()
        &&& self.fingerprint.is_blank()
        &&& self.fingerprint_platform.is_blank()
        &&& self.fingerprint_platform_version.is_blank()
        &&& self.fingerprint_brand.is_blank()
        &&& self.fingerprint_brand_version.is_blank()
        &&& self.fingerprint_hardware_concurrency.is_blank()
        &&& self.disable_non_proxied_udp.is_blank()
        &&& self.lang.is_blank()
        &&& self.accept_lang.is_blank()
        &&& self.timezone.is_blank()
        &&& self.proxy_server.is_blank()
        &&& self.disable_spoofing.is_blank()
        &&& !self.enable_cdp
        &&& !self.close_after_launch
        &&& !self.auto_seed
    }

    /// The settings to start with: those that were stored, when a stored
    /// copy could be read, and the blank settings otherwise.
    pub fn or_default(stored: Option<Config>) -> (r: Config)
        ensures
            match stored {
                Some(c) => r == c,
                None => r.is_blank(),
            },
    {
        match stored {
            Some(c) => c,
            None => Config::default(),
        }
    }
}

impl Clone for Config {
    fn clone(&self) -> (r: Self)
        ensures
            r == *self,
    {
        Config {
            user_data_dir: self.user_data_dir.clone(),
            fingerprint: self.fingerprint.clone(),
            fingerprint_platform: self.fingerprint_platform.clone(),
            fingerprint_platform_version: self.fingerprint_platform_version.clone(),
            fingerprint_brand: self.fingerprint_brand.clone(),
            fingerprint_brand_version: self.fingerprint_brand_version.clone(),
            fingerprint_hardware_concurrency: self.fingerprint_hardware_concurrency.clone(),
            disable_non_proxied_udp: self.disable_non_proxied_udp.clone(),
            lang: self.lang.clone(),
            accept_lang: self.accept_lang.clone(),
            timezone: self.timezone.clone(),
            proxy_server: self.proxy_server.clone(),
            disable_spoofing: self.disable_spoofing.clone(),
            enable_cdp: self.enable_cdp,
            close_after_launch: self.close_after_launch,
            auto_seed: self.auto_seed,
        }
    }
}

impl PartialEq for Config {
    fn eq(&self, other: &Self) -> (r: bool) {
        self.user_data_dir == other.user_data_dir && self.fingerprint == other.fingerprint && self.fingerprint_platform == other.fingerprint_platform && self.fingerprint_platform_version == other.fingerprint_platform_version && self.fingerprint_brand == other.fingerprint_brand && self.fingerprint_brand_version == other.fingerprint_brand_version && self.fingerprint_hardware_concurrency == other.fingerprint_hardware_concurrency && self.disable_non_proxied_udp == other.disable_non_proxied_udp && self.lang == other.lang && self.accept_lang == other.accept_lang && self.timezone == other.timezone && self.proxy_server == other.proxy_server && self.disable_spoofing == other.disable_spoofing && self.enable_cdp == other.enable_cdp && self.close_after_launch == other.close_after_launch && self.auto_seed == other.auto_seed
    }
}

impl vstd::std_specs::cmp::PartialEqSpecImpl for Config {
    open spec fn obeys_eq_spec() -> bool {
        true
    }

    open spec fn eq_spec(&self, other: &Self) -> bool {
        &&& self.user_data_dir.same_as(other.user_data_dir)
        &&& self.fingerprint.same_as(other.fingerprint)
        &&& self.fingerprint_platform.same_as(other.fingerprint_platform)
        &&& self.fingerprint_platform_version.same_as(other.fingerprint_platform_version)
        &&& self.fingerprint_brand.same_as(other.fingerprint_brand)
        &&& self.fingerprint_brand_version.same_as(other.fingerprint_brand_version)
        &&& self.fingerprint_hardware_concurrency.same_as(other.fingerprint_hardware_concurrency)
        &&& self.disable_non_proxied_udp.same_as(other.disable_non_proxied_udp)
        &&& self.lang.same_as(other.lang)
        &&& self.accept_lang.same_as(other.accept_lang)
        &&& self.timezone.same_as(other.timezone)
        &&& self.proxy_server.same_as(other.proxy_server)
        &&& self.disable_spoofing.same_as(other.disable_spoofing)
        &&& self.enable_cdp == other.enable_cdp
        &&& self.close_after_launch == other.close_after_launch
        &&& self.auto_seed == other.auto_seed
    }
}

impl Default for Config {
    fn default() -> (r: Self)
        ensures
            r.is_blank(),
    {
        Config {
            user_data_dir: Param::default(),
            fingerprint: Param::default(),
            fingerprint_platform: Param::default(),
            fingerprint_platform_version: Param::default(),
            fingerprint_brand: Param::default(),
            fingerprint_brand_version: Param::default(),
            fingerprint_hardware_concurrency: Param::default(),
            disable_non_proxied_udp: Param::default(),
            lang: Param::default(),
            accept_lang: Param::default(),
            timezone: Param::default(),
            proxy_server: Param::default(),
            disable_spoofing: Param::default(),
            enable_cdp: false,
            close_after_launch: false,
            auto_seed: false,
        }
    }
}

/// What a text row of the window holds: the state of its check box, when
/// the row has one, and the text typed into it.
pub struct ParamInput {
    pub checked: Option<bool>,
    pub text: String,
}

impl ParamInput {
    /// The option after this row has been read into `p`.
    pub open spec fn applied(self, p: Param) -> Param {
        Param {
            enabled: match self.checked {
                Some(b) => b,
                None => p.enabled,
            },
            value: self.text,
        }
    }

    /// Reads the row into `param`: the check box, when there is one, decides
    /// whether the option is on, and the text becomes its value.
    pub fn read(&self, param: &mut Param)
        ensures
            *final(param) == self.applied(*old(param)),
    {
        if let Some(checked) = self.checked {
            param.enabled = checked;
        }
        param.value = self.text.clone();
    }
}

/// What a drop-down row of the window holds: its entries and the selected one.
pub struct ComboInput {
    pub options: Vec<ComboOption>,
    pub selection: Option<usize>,
}

impl ComboInput {
    /// `q` is `p` after this row has been read into it.
    pub open spec fn read_into(self, p: Param, q: Param) -> bool {
        &&& q.enabled == p.enabled
        &&& q.value@ == selection_text(self.options@, self.selection)
    }

    /// Reads the row into `param`: the selected entry's value, or nothing
    /// when no entry is selected; whether the option is on is left as it was.
    pub fn read(&self, param: &mut Param)
        ensures
            self.read_into(*old(param), *final(param)),
    {
        let value = match self.selection {
            Some(i) => if i < self.options.len() {
                String::from_str(self.options[i].value)
            } else {
                String::new()
            },
            None => String::new(),
        };
        param.value = value;
    }
}

/// The state of every control of the window.
pub struct ControlSnapshot {
    pub user_data_dir: ParamInput,
    pub fingerprint: String,
    pub fingerprint_platform: ComboInput,
    pub lang: ComboInput,
    pub timezone: ComboInput,
    pub proxy_server: ParamInput,
    pub fingerprint_platform_version: ParamInput,
    pub fingerprint_brand: ComboInput,
    pub fingerprint_brand_version: ParamInput,
    pub fingerprint_hardware_concurrency: ParamInput,
    pub accept_lang: ParamInput,
    pub disable_spoofing: ParamInput,
    pub disable_non_proxied_udp: ParamInput,
    pub auto_seed: bool,
    pub enable_cdp: bool,
    pub close_after_launch: bool,
}

impl Config {
    /// `new` is `old` after every control of `snap` has been read into it.
    pub open spec fn synced(old: Config, new: Config, snap: ControlSnapshot) -> bool {
        &&& new.user_data_dir == snap.user_data_dir.applied(old.user_data_dir)
        &&& new.fingerprint.enabled == old.fingerprint.enabled
        &&& new.fingerprint.value == snap.fingerprint
        &&& snap.fingerprint_platform.read_into(old.fingerprint_platform, new.fingerprint_platform)
        &&& snap.lang.read_into(old.lang, new.lang)
        &&& snap.timezone.read_into(old.timezone, new.timezone)
        &&& new.proxy_server == snap.proxy_server.applied(old.proxy_server)
        &&& new.fingerprint_platform_version == snap.fingerprint_platform_version.applied(
            old.fingerprint_platform_version,
        )
        &&& snap.fingerprint_brand.read_into(old.fingerprint_brand, new.fingerprint_brand)
        &&& new.fingerprint_brand_version == snap.fingerprint_brand_version.applied(
            old.fingerprint_brand_version,
        )
        &&& new.fingerprint_hardware_concurrency == snap.fingerprint_hardware_concurrency.applied(
            old.fingerprint_hardware_concurrency,
        )
        &&& new.accept_lang == snap.accept_lang.applied(old.accept_lang)
        &&& new.disable_spoofing == snap.disable_spoofing.applied(old.disable_spoofing)
        &&& new.disable_non_proxied_udp == snap.disable_non_proxied_udp.applied(
            old.disable_non_proxied_udp,
        )
        &&& new.auto_seed == snap.auto_seed
        &&& new.enable_cdp == snap.enable_cdp
        &&& new.close_after_launch == snap.close_after_launch
    }

    /// Reads every control of the window into the settings.
    pub fn sync_from_controls(&mut self, snap: &ControlSnapshot)
        ensures
            Config::synced(*old(self), *final(self), *snap),
    {
        snap.user_data_dir.read(&mut self.user_data_dir);
        self.fingerprint.value = snap.fingerprint.clone();
        snap.fingerprint_platform.read(&mut self.fingerprint_platform);
        snap.lang.read(&mut self.lang);
        snap.timezone.read(&mut self.timezone);
        snap.proxy_server.read(&mut self.proxy_server);
        snap.fingerprint_platform_version.read(&mut self.fingerprint_platform_version);
        snap.fingerprint_brand.read(&mut self.fingerprint_brand);
        snap.fingerprint_brand_version.read(&mut self.fingerprint_brand_version);
        snap.fingerprint_hardware_concurrency.read(&mut self.fingerprint_hardware_concurrency);
        snap.accept_lang.read(&mut self.accept_lang);
        snap.disable_spoofing.read(&mut self.disable_spoofing);
        snap.disable_non_proxied_udp.read(&mut self.disable_non_proxied_udp);
        self.auto_seed = snap.auto_seed;
        self.enable_cdp = snap.enable_cdp;
        self.close_after_launch = snap.close_after_launch;
    }
}


/// A text row built from an option and read back gives the option back:
/// the check box shows whether it is on and the field holds its text.
pub proof fn lemma_param_row_round_trip(p: Param)
    ensures
        (ParamInput { checked: Some(p.enabled), text: p.value }).applied(p) == p,
        (ParamInput { checked: None, text: p.value }).applied(p) == p,
{
}


/// A text row with a check box, built from option `p`.
pub open spec fn optional_row_of(p: Param, row: ParamInput) -> bool {
    row.checked == Some(p.enabled) && row.text == p.value
}

/// A drop-down built from option `p`: a list whose first entry is the empty
/// choice, with the entry that `p`'s value selects.
pub open spec fn combo_row_of(p: Param, row: ComboInput) -> bool {
    &&& row.options@.len() > 0
    &&& row.options@[0].value@ == Seq::<char>::empty()
    &&& exists|r: usize| row.selection == Some(r) && is_selection_for(row.options@, p.value@, r as int)
}

/// The value a drop-down built from stored value `v` gives back: `v`
/// trimmed when some entry has that value, nothing otherwise.
pub open spec fn combo_read_back(opts: Seq<ComboOption>, v: Seq<char>) -> Seq<char> {
    if exists|i: int| 0 <= i < opts.len() && #[trigger] opts[i].value@ == trim(v) {
        trim(v)
    } else {
        Seq::empty()
    }
}

/// The window's controls as they stand right after the window was built from
/// settings `l`, before any input.
pub open spec fn snapshot_of(l: Config, snap: ControlSnapshot) -> bool {
    &&& snap.user_data_dir == (ParamInput { checked: None, text: l.user_data_dir.value })
    &&& snap.fingerprint == l.fingerprint.value
    &&& combo_row_of(l.fingerprint_platform, snap.fingerprint_platform)
    &&& combo_row_of(l.lang, snap.lang)
    &&& combo_row_of(l.timezone, snap.timezone)
    &&& optional_row_of(l.proxy_server, snap.proxy_server)
    &&& optional_row_of(l.fingerprint_platform_version, snap.fingerprint_platform_version)
    &&& combo_row_of(l.fingerprint_brand, snap.fingerprint_brand)
    &&& optional_row_of(l.fingerprint_brand_version, snap.fingerprint_brand_version)
    &&& optional_row_of(l.fingerprint_hardware_concurrency, snap.fingerprint_hardware_concurrency)
    &&& optional_row_of(l.accept_lang, snap.accept_lang)
    &&& optional_row_of(l.disable_spoofing, snap.disable_spoofing)
    &&& optional_row_of(l.disable_non_proxied_udp, snap.disable_non_proxied_udp)
    &&& snap.auto_seed == l.auto_seed
    &&& snap.enable_cdp == l.enable_cdp
    &&& snap.close_after_launch == l.close_after_launch
}

proof fn lemma_combo_read_back(p: Param, row: ComboInput, q: Param)
    requires
        combo_row_of(p, row),
        row.read_into(p, q),
    ensures
        q.enabled == p.enabled,
        q.value@ == combo_read_back(row.options@, p.value@),
{
    let r = choose|r: usize| row.selection == Some(r) && is_selection_for(row.options@, p.value@, r as int);
    crate::options::lemma_selection_round_trip(row.options@, p.value@, r);
}

/// Building the window from settings `l` and reading its controls back gives
/// `l` again, except that each drop-down's value becomes the trimmed stored
/// value when the list offers it, and nothing otherwise.
pub proof fn lemma_window_read_back(l: Config, snap: ControlSnapshot, new: Config)
    requires
        snapshot_of(l, snap),
        Config::synced(l, new, snap),
    ensures
        new.user_data_dir == l.user_data_dir,
        new.fingerprint == l.fingerprint,
        new.proxy_server == l.proxy_server,
        new.fingerprint_platform_version == l.fingerprint_platform_version,
        new.fingerprint_brand_version == l.fingerprint_brand_version,
        new.fingerprint_hardware_concurrency == l.fingerprint_hardware_concurrency,
        new.accept_lang == l.accept_lang,
        new.disable_spoofing == l.disable_spoofing,
        new.disable_non_proxied_udp == l.disable_non_proxied_udp,
        new.auto_seed == l.auto_seed,
        new.enable_cdp == l.enable_cdp,
        new.close_after_launch == l.close_after_launch,
        new.fingerprint_platform.enabled == l.fingerprint_platform.enabled,
        new.fingerprint_platform.value@ == combo_read_back(
            snap.fingerprint_platform.options@,
            l.fingerprint_platform.value@,
        ),
        new.lang.enabled == l.lang.enabled,
        new.lang.value@ == combo_read_back(snap.lang.options@, l.lang.value@),
        new.timezone.enabled == l.timezone.enabled,
        new.timezone.value@ == combo_read_back(snap.timezone.options@, l.timezone.value@),
        new.fingerprint_brand.enabled == l.fingerprint_brand.enabled,
        new.fingerprint_brand.value@ == combo_read_back(
            snap.fingerprint_brand.options@,
            l.fingerprint_brand.value@,
        ),
{
    lemma_combo_read_back(l.fingerprint_platform, snap.fingerprint_platform, new.fingerprint_platform);
    lemma_combo_read_back(l.lang, snap.lang, new.lang);
    lemma_combo_read_back(l.timezone, snap.timezone, new.timezone);
    lemma_combo_read_back(l.fingerprint_brand, snap.fingerprint_brand, new.fingerprint_brand);
}


/// A row with a check box decides whether the option is on, and its text
/// becomes the option's text, whatever the option held before.
pub proof fn lemma_checked_row_decides(p: Param, b: bool, text: String)
    ensures
        (ParamInput { checked: Some(b), text }).applied(p).enabled == b,
        (ParamInput { checked: Some(b), text }).applied(p).value == text,
        (ParamInput { checked: None, text }).applied(p).enabled == p.enabled,
{
}

/// Reading a row does not depend on what the option held before, when the
/// row has a check box.
pub proof fn lemma_checked_row_forgets(p: Param, q: Param, row: ParamInput)
    requires
        row.checked is Some,
    ensures
        row.applied(p) == row.applied(q),
{
}


/// A drop-down gives the value of its selected entry and keeps whether the
/// option is on; with nothing (or nothing that exists) selected it gives no text.
pub proof fn lemma_combo_read(row: ComboInput, p: Param, q: Param)
    requires
        row.read_into(p, q),
    ensures
        q.enabled == p.enabled,
        forall|i: usize|
            row.selection == Some(i) && i < row.options@.len() ==> q.value@ == row.options@[i as int].value@,
        row.selection is None ==> q.value@.len() == 0,
        (forall|i: usize| row.selection == Some(i) ==> i >= row.options@.len()) ==> q.value@.len() == 0,
{
}

} // verus!
