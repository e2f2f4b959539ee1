//! The window's geometry, colours, and the rules by which it answers events.

use vstd::prelude::*;

verus! {

/// Width of the window.
pub const WINDOW_WIDTH: i32 = 615;
/// Height of the window with the less common options hidden.
pub const COLLAPSED_HEIGHT: i32 = 310;
/// Height of the window with the less common options shown.
pub const EXPANDED_HEIGHT: i32 = 545;
/// Width of a row's label.
pub const LABEL_WIDTH: i32 = 205;
/// Width of a row's input.
pub const INPUT_WIDTH: i32 = 320;
/// Left edge of a row's check box.
pub const CHECK_X: i32 = 18;
/// Left edge of a row's label.
pub const LABEL_X: i32 = 50;
/// Left edge of a row's input.
pub const INPUT_X: i32 = 265;
/// Height of a row.
pub const ROW_HEIGHT: i32 = 24;
/// Vertical distance between rows.
pub const ROW_STEP: i32 = 28;
/// Width of the button that draws a random fingerprint.
pub const RANDOM_BUTTON_WIDTH: i32 = 58;
/// Width of the launch button.
pub const LAUNCH_BUTTON_WIDTH: i32 = 92;
/// Left edge of the automatic-seed option.
pub const BOTTOM_AUTO_SEED_X: i32 = 192;
/// Left edge of the debugging-port option.
pub const BOTTOM_ENABLE_CDP_X: i32 = 291;
/// Left edge of the close-after-launch option.
pub const BOTTOM_CLOSE_AFTER_LAUNCH_X: i32 = 397;
/// Left edge of the launch button.
pub const BOTTOM_LAUNCH_BUTTON_X: i32 = 510;
/// Distance from a check box to its label.
pub const CHECK_LABEL_OFFSET: i32 = 23;

/// The window message that asks for the background to be erased.
pub const WM_ERASEBKGND: u32 = 0x0014;
/// The window message sent when system settings change.
pub const WM_SETTINGCHANGE: u32 = 0x001A;
/// The window message asking for an edit control's colours.
pub const WM_CTLCOLOREDIT: u32 = 0x0133;
/// The window message asking for a list box's colours.
pub const WM_CTLCOLORLISTBOX: u32 = 0x0134;
/// The window message asking for a button's colours.
pub const WM_CTLCOLORBTN: u32 = 0x0135;
/// The window message asking for a static control's colours.
pub const WM_CTLCOLORSTATIC: u32 = 0x0138;
/// The window message sent when the visual theme changes.
pub const WM_THEMECHANGED: u32 = 0x031A;

/// The colours the window is drawn in.
#[derive(Clone, Copy, Debug)]
pub struct Theme {
    pub dark: bool,
    pub background: [u8; 3],
    pub edit_background: [u8; 3],
    pub text: [u8; 3],
    pub border: [u8; 3],
}

impl Theme {
    /// The colours of the dark theme.
    pub open spec fn is_dark_theme(self) -> bool {
        &&& self.dark
        &&& self.background@ == seq![32u8, 32u8, 32u8]
        &&& self.edit_background@ == seq![45u8, 45u8, 45u8]
        &&& self.text@ == seq![230u8, 230u8, 230u8]
        &&& self.border@ == seq![58u8, 58u8, 58u8]
    }

    /// The colours of the light theme.
    pub open spec fn is_light_theme(self) -> bool {
        &&& !self.dark
        &&& self.background@ == seq![240u8, 240u8, 240u8]
        &&& self.edit_background@ == seq![255u8, 255u8, 255u8]
        &&& self.text@ == seq![0u8, 0u8, 0u8]
        &&& self.border@ == seq![160u8, 160u8, 160u8]
    }

    /// The theme to draw in, given whether the system asks applications for
    /// a dark appearance.
    pub fn current(prefers_dark: bool) -> (r: Self)
        ensures
            prefers_dark ==> r.is_dark_theme(),
            !prefers_dark ==> r.is_light_theme(),
    {
        let r = if prefers_dark {
            Theme {
                dark: true,
                background: [32, 32, 32],
                edit_background: [45, 45, 45],
                text: [230, 230, 230],
                border: [58, 58, 58],
            }
        } else {
            Theme {
                dark: false,
                background: [240, 240, 240],
                edit_background: [255, 255, 255],
                text: [0, 0, 0],
                border: [160, 160, 160],
            }
        };
        assert(r.background@ =~= if prefers_dark { seq![32u8, 32u8, 32u8] } else { seq![240u8, 240u8, 240u8] });
        assert(r.edit_background@ =~= if prefers_dark { seq![45u8, 45u8, 45u8] } else { seq![255u8, 255u8, 255u8] });
        assert(r.text@ =~= if prefers_dark { seq![230u8, 230u8, 230u8] } else { seq![0u8, 0u8, 0u8] });
        assert(r.border@ =~= if prefers_dark { seq![58u8, 58u8, 58u8] } else { seq![160u8, 160u8, 160u8] });
        r
    }
}

/// The Windows colour value of an RGB triple: red in the low byte, then green, then blue.
pub open spec fn rgb_value(color: [u8; 3]) -> int {
    color[0] + 256 * color[1] + 65536 * color[2]
}

/// The Windows colour value (`COLORREF`) of an RGB triple.
pub fn color_ref(color: [u8; 3]) -> (r: u32)
    ensures
        r == rgb_value(color),
{
    let red = color[0];
    let green = color[1];
    let blue = color[2];
    let r = (red as u32) | ((green as u32) << 8u32) | ((blue as u32) << 16u32);
    assert((red as u32) | ((green as u32) << 8u32) | ((blue as u32) << 16u32) == red as u32 + 256
        * (green as u32) + 65536 * (blue as u32)) by (bit_vector);
    r
}


/// Where the controls below the option rows sit, and how the window looks,
/// with the less common options shown or hidden.
#[derive(Clone, Copy, Debug)]
pub struct AdvancedLayout {
    pub shown: bool,
    /// Top edge of the bottom row of check boxes and of the launch button.
    pub bottom_y: i32,
    /// Top edge of the status line.
    pub status_y: i32,
    /// Height of the window.
    pub window_height: i32,
    /// Text of the button that shows or hides the less common options.
    pub toggle_text: &'static str,
}

impl AdvancedLayout {
    /// The layout for the less common options shown (`visible`) or hidden.
    pub open spec fn describes(self, visible: bool) -> bool {
        &&& self.shown == visible
        &&& self.bottom_y == (if visible { 492i32 } else { 252i32 })
        &&& self.status_y == (if visible { 522i32 } else { 282i32 })
        &&& self.window_height == (if visible { EXPANDED_HEIGHT } else { COLLAPSED_HEIGHT })
        &&& self.toggle_text@ == (if visible { "隐藏非常用参数"@ } else { "显示非常用参数"@ })
    }
}

/// The layout of the window with the less common options shown or hidden.
pub fn advanced_layout(visible: bool) -> (r: AdvancedLayout)
    ensures
        r.describes(visible),
{
    AdvancedLayout {
        shown: visible,
        bottom_y: if visible { 492 } else { 252 },
        status_y: if visible { 522 } else { 282 },
        window_height: if visible { EXPANDED_HEIGHT } else { COLLAPSED_HEIGHT },
        toggle_text: if visible { "隐藏非常用参数" } else { "显示非常用参数" },
    }
}

/// Whether the less common options are on screen.
#[derive(Clone, Copy, Debug)]
pub struct ViewState {
    pub show_advanced: bool,
}

impl ViewState {
    /// The window as first shown: the less common options hidden.
    pub fn new() -> (r: Self)
        ensures
            !r.show_advanced,
    {
        ViewState { show_advanced: false }
    }

    /// Shows the less common options when hidden and hides them when shown,
    /// and returns the layout to apply.
    pub fn toggle_advanced(&mut self) -> (r: AdvancedLayout)
        ensures
            final(self).show_advanced == !old(self).show_advanced,
            r.describes(final(self).show_advanced),
    {
        self.show_advanced = !self.show_advanced;
        advanced_layout(self.show_advanced)
    }
}

/// Showing and hiding the less common options twice leaves the window as it
/// was: the same state, laid out as that state is laid out.
pub proof fn lemma_toggle_twice(
    s0: ViewState,
    s1: ViewState,
    l1: AdvancedLayout,
    s2: ViewState,
    l2: AdvancedLayout,
)
    requires
        s1.show_advanced == !s0.show_advanced,
        l1.describes(s1.show_advanced),
        s2.show_advanced == !s1.show_advanced,
        l2.describes(s2.show_advanced),
    ensures
        s2 == s0,
        l2.describes(s0.show_advanced),
        l1.bottom_y != l2.bottom_y,
{
}

/// A rectangle in window coordinates.
#[derive(Clone, Copy, Debug, PartialEq, Eq, Structural)]
pub struct Rect {
    pub left: i32,
    pub top: i32,
    pub right: i32,
    pub bottom: i32,
}

/// The horizontal gap left in a frame's top edge for its title.
pub const TITLE_GAP_LEFT: i32 = 20;
/// Where the frame's top edge resumes after the title.
pub const TITLE_GAP_RIGHT: i32 = 140;

/// The frames drawn around the sections: the common section always, the
/// section of less common options when it is shown.
pub fn section_frames(show_advanced: bool) -> (r: Vec<Rect>)
    ensures
        r@.len() == (if show_advanced { 2int } else { 1int }),
        r@[0] == (Rect { left: 12, top: 14, right: 602, bottom: 214 }),
        show_advanced ==> r@[1] == (Rect { left: 12, top: 252, right: 602, bottom: 480 }),
{
    let mut r: Vec<Rect> = Vec::new();
    r.push(Rect { left: 12, top: 14, right: 602, bottom: 214 });
    if show_advanced {
        r.push(Rect { left: 12, top: 252, right: 602, bottom: 480 });
    }
    r
}

/// The one-pixel strips that draw the border of `rect`, leaving the top edge
/// open between `gap_left` and `gap_right` for the section's title: the top
/// edge left and right of the gap, then the left, right and bottom edges.
pub fn frame_edges(rect: Rect, gap_left: i32, gap_right: i32) -> (r: Vec<Rect>)
    requires
        rect.left < i32::MAX,
        rect.top < i32::MAX,
        rect.right > i32::MIN,
        rect.bottom > i32::MIN,
    ensures
        r@ == seq![
            Rect { left: rect.left, top: rect.top, right: gap_left, bottom: (rect.top + 1) as i32 },
            Rect { left: gap_right, top: rect.top, right: rect.right, bottom: (rect.top + 1) as i32 },
            Rect { left: rect.left, top: rect.top, right: (rect.left + 1) as i32, bottom: rect.bottom },
            Rect { left: (rect.right - 1) as i32, top: rect.top, right: rect.right, bottom: rect.bottom },
            Rect { left: rect.left, top: (rect.bottom - 1) as i32, right: rect.right, bottom: rect.bottom },
        ],
{
    let r = vec![
        Rect { left: rect.left, top: rect.top, right: gap_left, bottom: rect.top + 1 },
        Rect { left: gap_right, top: rect.top, right: rect.right, bottom: rect.top + 1 },
        Rect { left: rect.left, top: rect.top, right: rect.left + 1, bottom: rect.bottom },
        Rect { left: rect.right - 1, top: rect.top, right: rect.right, bottom: rect.bottom },
        Rect { left: rect.left, top: rect.bottom - 1, right: rect.right, bottom: rect.bottom },
    ];
    r
}

/// How the window answers a raw window message.
#[derive(Clone, Copy, Debug, PartialEq, Eq, Structural)]
pub enum RawAction {
    /// Fill the background and draw the section frames; the message is handled.
    EraseBackground,
    /// Colour a static control or button with the window's brush.
    ColorStatic,
    /// Colour an edit control or list with the edit brush.
    ColorEdit,
    /// Re-read the system theme and redraw; the message is passed on.
    RefreshTheme,
    /// Pass the message on.
    Pass,
}

/// How the window answers message `msg`; the painting messages are answered
/// only once the theme's brushes exist.
pub open spec fn raw_action_for(msg: u32, has_brushes: bool) -> RawAction {
    if has_brushes && msg == WM_ERASEBKGND {
        RawAction::EraseBackground
    } else if has_brushes && (msg == WM_CTLCOLORSTATIC || msg == WM_CTLCOLORBTN) {
        RawAction::ColorStatic
    } else if has_brushes && (msg == WM_CTLCOLOREDIT || msg == WM_CTLCOLORLISTBOX) {
        RawAction::ColorEdit
    } else if msg == WM_SETTINGCHANGE || msg == WM_THEMECHANGED {
        RawAction::RefreshTheme
    } else {
        RawAction::Pass
    }
}

/// How the window answers a raw window message (see `raw_action_for`).
pub fn raw_message_action(msg: u32, has_brushes: bool) -> (r: RawAction)
    ensures
        r == raw_action_for(msg, has_brushes),
{
    if has_brushes {
        if msg == WM_ERASEBKGND {
            return RawAction::EraseBackground;
        }
        if msg == WM_CTLCOLORSTATIC || msg == WM_CTLCOLORBTN {
            return RawAction::ColorStatic;
        }
        if msg == WM_CTLCOLOREDIT || msg == WM_CTLCOLORLISTBOX {
            return RawAction::ColorEdit;
        }
    }
    if msg == WM_SETTINGCHANGE || msg == WM_THEMECHANGED {
        RawAction::RefreshTheme
    } else {
        RawAction::Pass
    }
}

/// The control an event comes from.
#[derive(Clone, Copy, Debug, PartialEq, Eq, Structural)]
pub enum Control {
    Window,
    AdvancedButton,
    RandomButton,
    AutoSeedBox,
    LaunchButton,
    Other,
}

/// An event the window receives.
#[derive(Clone, Copy, Debug, PartialEq, Eq, Structural)]
pub enum UiEvent {
    /// A request to close, from the given control.
    Close(Control),
    /// A click on the given control.
    Click(Control),
    /// The Enter key.
    KeyEnter,
    /// Anything else.
    Other,
}

/// What the window does in answer to an event.
#[derive(Clone, Copy, Debug, PartialEq, Eq, Structural)]
pub enum UiAction {
    /// Stop the event loop: the application ends.
    Quit,
    /// Show or hide the less common options.
    ToggleAdvanced,
    /// Put a fresh random seed into the fingerprint field.
    RandomizeFingerprint,
    /// Enable or disable the fingerprint field and its button.
    SetFingerprintEnabled(bool),
    /// Start the browser.
    Launch,
    /// Nothing.
    Ignore,
}

/// The window's answer to `evt`, where `auto_seed_checked` is the state of
/// the automatic-seed box after the event.
pub open spec fn action_for(evt: UiEvent, auto_seed_checked: bool) -> UiAction {
    match evt {
        UiEvent::Close(Control::Window) => UiAction::Quit,
        UiEvent::Click(Control::AdvancedButton) => UiAction::ToggleAdvanced,
        UiEvent::Click(Control::RandomButton) => UiAction::RandomizeFingerprint,
        UiEvent::Click(Control::AutoSeedBox) => UiAction::SetFingerprintEnabled(!auto_seed_checked),
        UiEvent::Click(Control::LaunchButton) => UiAction::Launch,
        UiEvent::KeyEnter => UiAction::Launch,
        _ => UiAction::Ignore,
    }
}

/// The window's answer to an event (see `action_for`).
pub fn event_action(evt: UiEvent, auto_seed_checked: bool) -> (r: UiAction)
    ensures
        r == action_for(evt, auto_seed_checked),
{
    match evt {
        UiEvent::Close(Control::Window) => UiAction::Quit,
        UiEvent::Click(Control::AdvancedButton) => UiAction::ToggleAdvanced,
        UiEvent::Click(Control::RandomButton) => UiAction::RandomizeFingerprint,
        UiEvent::Click(Control::AutoSeedBox) => UiAction::SetFingerprintEnabled(!auto_seed_checked),
        UiEvent::Click(Control::LaunchButton) => UiAction::Launch,
        UiEvent::KeyEnter => UiAction::Launch,
        _ => UiAction::Ignore,
    }
}


/// Every strip of a frame lies inside the frame's rectangle, when the title
/// gap lies within its top edge.
pub proof fn lemma_frame_edges_inside(rect: Rect, gap_left: i32, gap_right: i32, edges: Seq<Rect>)
    requires
        rect.left < rect.right,
        rect.top < rect.bottom,
        rect.left <= gap_left <= gap_right <= rect.right,
        edges == seq![
            Rect { left: rect.left, top: rect.top, right: gap_left, bottom: (rect.top + 1) as i32 },
            Rect { left: gap_right, top: rect.top, right: rect.right, bottom: (rect.top + 1) as i32 },
            Rect { left: rect.left, top: rect.top, right: (rect.left + 1) as i32, bottom: rect.bottom },
            Rect { left: (rect.right - 1) as i32, top: rect.top, right: rect.right, bottom: rect.bottom },
            Rect { left: rect.left, top: (rect.bottom - 1) as i32, right: rect.right, bottom: rect.bottom },
        ],
    ensures
        forall|i: int|
            0 <= i < edges.len() ==> rect.left <= (#[trigger] edges[i]).left && edges[i].right
                <= rect.right && rect.top <= edges[i].top && edges[i].bottom <= rect.bottom,
{
}

/// Where a check box and its label go, for an option placed at `(x, y)` with
/// room `width` by `height`.
#[derive(Clone, Copy, Debug, PartialEq, Eq, Structural)]
pub struct CheckOptionLayout {
    pub box_x: i32,
    pub box_y: i32,
    pub box_width: i32,
    pub box_height: i32,
    pub label_x: i32,
    pub label_y: i32,
    pub label_width: i32,
    pub label_height: i32,
}

/// The check box takes the first 20 pixels; its label starts
/// `CHECK_LABEL_OFFSET` to the right and takes the rest of the width.
pub fn check_option_layout(x: i32, y: i32, width: i32, height: i32) -> (r: CheckOptionLayout)
    requires
        x <= i32::MAX - CHECK_LABEL_OFFSET,
        width >= i32::MIN + CHECK_LABEL_OFFSET,
    ensures
        r == (CheckOptionLayout {
            box_x: x,
            box_y: y,
            box_width: 20,
            box_height: height,
            label_x: (x + CHECK_LABEL_OFFSET) as i32,
            label_y: y,
            label_width: (width - CHECK_LABEL_OFFSET) as i32,
            label_height: height,
        }),
{
    CheckOptionLayout {
        box_x: x,
        box_y: y,
        box_width: 20,
        box_height: height,
        label_x: x + CHECK_LABEL_OFFSET,
        label_y: y,
        label_width: width - CHECK_LABEL_OFFSET,
        label_height: height,
    }
}

/// Where the fingerprint field and its random button go on a row at `y`,
/// and whether they take input.
#[derive(Clone, Copy, Debug, PartialEq, Eq, Structural)]
pub struct FingerprintRowLayout {
    pub input_x: i32,
    pub input_width: i32,
    pub button_x: i32,
    pub button_width: i32,
    pub y: i32,
    pub enabled: bool,
}

/// The fingerprint field shares the input column with its button, 8 pixels
/// apart; both are disabled while seeds are drawn automatically.
pub fn fingerprint_row_layout(y: i32, auto_seed: bool) -> (r: FingerprintRowLayout)
    ensures
        r.input_x == INPUT_X,
        r.input_width == INPUT_WIDTH - RANDOM_BUTTON_WIDTH - 8,
        r.button_x == INPUT_X + r.input_width + 8,
        r.button_width == RANDOM_BUTTON_WIDTH,
        r.button_x + r.button_width == INPUT_X + INPUT_WIDTH,
        r.y == y,
        r.enabled == !auto_seed,
{
    let input_width = INPUT_WIDTH - RANDOM_BUTTON_WIDTH - 8;
    FingerprintRowLayout {
        input_x: INPUT_X,
        input_width,
        button_x: INPUT_X + input_width + 8,
        button_width: RANDOM_BUTTON_WIDTH,
        y,
        enabled: !auto_seed,
    }
}


/// Whether the system asks for a dark appearance, from the reading of the
/// `AppsUseLightTheme` setting: only a successful reading of 0 means dark.
pub fn prefers_dark(read_ok: bool, apps_use_light_theme: u32) -> (r: bool)
    ensures
        r == (read_ok && apps_use_light_theme == 0),
{
    read_ok && apps_use_light_theme == 0
}

/// The font families tried for the window's text, in order of preference.
pub open spec fn font_families() -> Seq<Seq<char>> {
    seq!["Microsoft YaHei UI"@, "Microsoft YaHei"@, "Segoe UI"@]
}

/// The font family to try after `tried` families failed to build, or `None`
/// when every family has been tried and the system font stays.
pub fn next_font_family(tried: usize) -> (r: Option<&'static str>)
    ensures
        tried < font_families().len() ==> r is Some && r->0@ == font_families()[tried as int],
        tried >= font_families().len() ==> r is None,
{
    if tried == 0 {
        Some("Microsoft YaHei UI")
    } else if tried == 1 {
        Some("Microsoft YaHei")
    } else if tried == 2 {
        Some("Segoe UI")
    } else {
        None
    }
}


/// The automatic-seed box's state matters only for a click on that box:
/// every other event is answered the same whether it is checked or not.
pub proof fn lemma_only_auto_seed_click_reads_box(evt: UiEvent)
    requires
        evt != UiEvent::Click(Control::AutoSeedBox),
    ensures
        action_for(evt, true) == action_for(evt, false),
{
}

/// The random button always draws a seed, Enter does what the launch button
/// does, and the auto-seed box enables the fingerprint field exactly when it
/// is unchecked.
pub proof fn lemma_button_answers(b: bool)
    ensures
        action_for(UiEvent::Click(Control::RandomButton), b) == UiAction::RandomizeFingerprint,
        action_for(UiEvent::KeyEnter, b) == action_for(UiEvent::Click(Control::LaunchButton), b),
        action_for(UiEvent::KeyEnter, b) == UiAction::Launch,
        action_for(UiEvent::Click(Control::AdvancedButton), b) == UiAction::ToggleAdvanced,
        action_for(UiEvent::Close(Control::Window), b) == UiAction::Quit,
        action_for(UiEvent::Click(Control::AutoSeedBox), b) == UiAction::SetFingerprintEnabled(!b),
{
}

/// A change of system settings or theme is always answered by re-reading
/// the theme, whether or not brushes exist yet.
pub proof fn lemma_theme_change_refreshes(has_brushes: bool)
    ensures
        raw_action_for(WM_SETTINGCHANGE, has_brushes) == RawAction::RefreshTheme,
        raw_action_for(WM_THEMECHANGED, has_brushes) == RawAction::RefreshTheme,
{
}

/// Brushes matter only for the painting messages: every other message is
/// answered the same with or without them, and without brushes no painting
/// message is answered.
pub proof fn lemma_brushes_only_for_painting(msg: u32)
    ensures
        msg != WM_ERASEBKGND && msg != WM_CTLCOLORSTATIC && msg != WM_CTLCOLORBTN && msg
            != WM_CTLCOLOREDIT && msg != WM_CTLCOLORLISTBOX ==> raw_action_for(msg, true)
            == raw_action_for(msg, false),
        raw_action_for(msg, false) != RawAction::EraseBackground,
        raw_action_for(msg, false) != RawAction::ColorStatic,
        raw_action_for(msg, false) != RawAction::ColorEdit,
{
}


/// A colour value holds its three components apart: red in the low byte,
/// green in the next, blue in the third, nothing above.
pub proof fn lemma_rgb_components(color: [u8; 3])
    ensures
        rgb_value(color) % 256 == color[0],
        (rgb_value(color) / 256) % 256 == color[1],
        rgb_value(color) / 65536 == color[2],
        0 <= rgb_value(color) < 0x1000000,
{
}

/// Showing the less common options moves the bottom row and the status line
/// down and makes the window taller; the status line always sits 30 pixels
/// below the bottom row.
pub proof fn lemma_layout_grows_when_shown(hidden: AdvancedLayout, shown: AdvancedLayout)
    requires
        hidden.describes(false),
        shown.describes(true),
    ensures
        hidden.bottom_y < shown.bottom_y,
        hidden.status_y < shown.status_y,
        hidden.window_height < shown.window_height,
        hidden.status_y == hidden.bottom_y + 30,
        shown.status_y == shown.bottom_y + 30,
{
}

/// The dark theme writes light text on dark ground and the light theme dark
/// text on light ground.
pub proof fn lemma_theme_contrast(t: Theme)
    requires
        t.is_dark_theme() || t.is_light_theme(),
    ensures
        t.dark ==> forall|k: int| 0 <= k < 3 ==> t.background@[k] < t.text@[k],
        !t.dark ==> forall|k: int| 0 <= k < 3 ==> t.background@[k] > t.text@[k],
{
}

} // verus!
