//! The choices offered by the drop-down rows, and how a stored value selects one.

use vstd::prelude::*;
use crate::text::{trim, trim_str, same_text};

verus! {

/// One entry of a drop-down list: the value written to the command line and
/// the label shown to the user.
#[derive(Clone, Copy)]
pub struct ComboOption {
    pub value: &'static str,
    pub label: &'static str,
}

impl ComboOption {
    /// An option with the given value and label.
    pub fn new(value: &'static str, label: &'static str) -> (r: Self)
        ensures
            r.value == value,
            r.label == label,
    {
        ComboOption { value, label }
    }

    /// The empty choice: no value, labelled "无".
    pub fn none() -> (r: Self)
        ensures
            r.value@ == Seq::<char>::empty(),
            r.label@ == "无"@,
    {
        proof {
            reveal_strlit("");
        }
        Self::new("", "无")
    }

    /// The text shown for this option in the list.
    pub fn label_text(&self) -> (r: &'static str)
        ensures
            r == self.label,
    {
        self.label
    }
}

impl Default for ComboOption {
    fn default() -> (r: Self)
        ensures
            r.value@ == Seq::<char>::empty(),
            r.label@ == "无"@,
    {
        Self::none()
    }
}

/// The values of a list of options, in order.
pub open spec fn option_values(opts: Seq<ComboOption>) -> Seq<Seq<char>> {
    opts.map_values(|o: ComboOption| o.value@)
}

/// The labels of a list of options, in order.
pub open spec fn option_labels(opts: Seq<ComboOption>) -> Seq<Seq<char>> {
    opts.map_values(|o: ComboOption| o.label@)
}

/// A list whose first entry is the empty choice and whose other entries are
/// labelled by their own value.
pub open spec fn lists_choices(opts: Seq<ComboOption>, choices: Seq<Seq<char>>) -> bool {
    &&& opts.len() == choices.len() + 1
    &&& opts[0].value@ == Seq::<char>::empty()
    &&& opts[0].label@ == "无"@
    &&& forall|i: int|
        0 <= i < choices.len() ==> #[trigger] opts[i + 1].value@ == choices[i] && opts[i
            + 1].label@ == choices[i]
}

/// The platform choices.
pub open spec fn platform_choices() -> Seq<Seq<char>> {
    seq!["windows"@, "macos"@, "linux"@]
}

/// The language choices.
pub open spec fn lang_choices() -> Seq<Seq<char>> {
    seq!["zh-CN"@, "zh-TW"@, "en-US"@, "en-GB"@, "ja-JP"@, "ko-KR"@]
}

/// The time zone choices.
pub open spec fn timezone_choices() -> Seq<Seq<char>> {
    seq![
        "Asia/Shanghai"@,
        "Asia/Tokyo"@,
        "Asia/Seoul"@,
        "America/New_York"@,
        "America/Los_Angeles"@,
        "Europe/London"@,
        "Europe/Berlin"@,
        "UTC"@,
    ]
}

/// The browser brand choices.
pub open spec fn brand_choices() -> Seq<Seq<char>> {
    seq!["Chrome"@, "Edge"@, "Opera"@, "Vivaldi"@]
}

/// The fingerprint platforms offered.
pub fn platform_options() -> (r: Vec<ComboOption>)
    ensures
        lists_choices(r@, platform_choices()),
{
    vec![
        ComboOption::none(),
        ComboOption::new("windows", "windows"),
        ComboOption::new("macos", "macos"),
        ComboOption::new("linux", "linux"),
    ]
}

/// The languages offered.
pub fn lang_options() -> (r: Vec<ComboOption>)
    ensures
        lists_choices(r@, lang_choices()),
{
    vec![
        ComboOption::none(),
        ComboOption::new("zh-CN", "zh-CN"),
        ComboOption::new("zh-TW", "zh-TW"),
        ComboOption::new("en-US", "en-US"),
        ComboOption::new("en-GB", "en-GB"),
        ComboOption::new("ja-JP", "ja-JP"),
        ComboOption::new("ko-KR", "ko-KR"),
    ]
}

/// The time zones offered.
pub fn timezone_options() -> (r: Vec<ComboOption>)
    ensures
        lists_choices(r@, timezone_choices()),
{
    vec![
        ComboOption::none(),
        ComboOption::new("Asia/Shanghai", "Asia/Shanghai"),
        ComboOption::new("Asia/Tokyo", "Asia/Tokyo"),
        ComboOption::new("Asia/Seoul", "Asia/Seoul"),
        ComboOption::new("America/New_York", "America/New_York"),
        ComboOption::new("America/Los_Angeles", "America/Los_Angeles"),
        ComboOption::new("Europe/London", "Europe/London"),
        ComboOption::new("Europe/Berlin", "Europe/Berlin"),
        ComboOption::new("UTC", "UTC"),
    ]
}

/// The browser brands offered.
pub fn brand_options() -> (r: Vec<ComboOption>)
    ensures
        lists_choices(r@, brand_choices()),
{
    vec![
        ComboOption::none(),
        ComboOption::new("Chrome", "Chrome"),
        ComboOption::new("Edge", "Edge"),
        ComboOption::new("Opera", "Opera"),
        ComboOption::new("Vivaldi", "Vivaldi"),
    ]
}


/// `r` is the entry a stored `value` selects: the first option whose value is
/// `value` trimmed, or the first entry when no option has that value.
pub open spec fn is_selection_for(opts: Seq<ComboOption>, value: Seq<char>, r: int) -> bool {
    let t = trim(value);
    if exists|i: int| 0 <= i < opts.len() && #[trigger] opts[i].value@ == t {
        &&& 0 <= r < opts.len()
        &&& opts[r].value@ == t
        &&& forall|k: int| 0 <= k < r ==> #[trigger] opts[k].value@ != t
    } else {
        r == 0
    }
}

/// The text a drop-down yields for its selection: the selected option's
/// value, or nothing when no entry (or no existing entry) is selected.
pub open spec fn selection_text(opts: Seq<ComboOption>, selection: Option<usize>) -> Seq<char> {
    match selection {
        Some(i) => if i < opts.len() {
            opts[i as int].value@
        } else {
            Seq::empty()
        },
        None => Seq::empty(),
    }
}

/// The entry of `options` that a stored `value` selects when the list is built.
pub fn selected_index(options: &Vec<ComboOption>, value: &str) -> (r: usize)
    ensures
        is_selection_for(options@, value@, r as int),
{
    let t = trim_str(value);
    let n = options.len();
    let mut i: usize = 0;
    while i < n
        invariant
            n == options@.len(),
            i <= n,
            t@ == trim(value@),
            forall|k: int| 0 <= k < i ==> #[trigger] options@[k].value@ != t@,
        decreases n - i,
    {
        if same_text(options[i].value, t) {
            return i;
        }
        i = i + 1;
    }
    0
}

/// A stored value always selects back the option it names: building a list
/// from `value` and reading the list yields `value` trimmed when some option
/// has that value, and the first option's value otherwise.
pub proof fn lemma_selection_round_trip(opts: Seq<ComboOption>, value: Seq<char>, r: usize)
    requires
        opts.len() > 0,
        is_selection_for(opts, value, r as int),
    ensures
        (exists|i: int| 0 <= i < opts.len() && #[trigger] opts[i].value@ == trim(value))
            ==> selection_text(opts, Some(r)) == trim(value),
        !(exists|i: int| 0 <= i < opts.len() && #[trigger] opts[i].value@ == trim(value))
            ==> selection_text(opts, Some(r)) == opts[0].value@,
{
}

} // verus!
