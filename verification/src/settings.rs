use vstd::prelude::*;
use crate::app_state::AppState;
use crate::text::{decimal, push_decimal, string_append};

verus! {

/// Window resolutions offered in the settings screen.
pub const RESOLUTION_PRESETS: [(u32, u32); 4] = [
    (1280, 720),
    (1600, 900),
    (1920, 1080),
    (2560, 1440),
];

/// Frame rate cap.
#[derive(Debug, Clone, Copy, PartialEq, Eq, Hash, Structural)]
pub enum FpsLimitMode {
    Unlimited,
    Fps30,
    Fps60,
    Fps120,
    Fps144,
}

/// Multisample anti-aliasing level.
#[derive(Debug, Clone, Copy, PartialEq, Eq, Hash, Structural)]
pub enum AntiAliasingMode {
    Off,
    Msaa2x,
    Msaa4x,
}

pub open spec fn fps_next(m: FpsLimitMode) -> FpsLimitMode {
    match m {
        FpsLimitMode::Unlimited => FpsLimitMode::Fps30,
        FpsLimitMode::Fps30 => FpsLimitMode::Fps60,
        FpsLimitMode::Fps60 => FpsLimitMode::Fps120,
        FpsLimitMode::Fps120 => FpsLimitMode::Fps144,
        FpsLimitMode::Fps144 => FpsLimitMode::Unlimited,
    }
}

pub open spec fn fps_prev(m: FpsLimitMode) -> FpsLimitMode {
    match m {
        FpsLimitMode::Unlimited => FpsLimitMode::Fps144,
        FpsLimitMode::Fps30 => FpsLimitMode::Unlimited,
        FpsLimitMode::Fps60 => FpsLimitMode::Fps30,
        FpsLimitMode::Fps120 => FpsLimitMode::Fps60,
        FpsLimitMode::Fps144 => FpsLimitMode::Fps120,
    }
}

pub open spec fn fps_label(m: FpsLimitMode) -> Seq<char> {
    match m {
        FpsLimitMode::Unlimited => "無制限 (OFF)"@,
        FpsLimitMode::Fps30 => "30 FPS"@,
        FpsLimitMode::Fps60 => "60 FPS"@,
        FpsLimitMode::Fps120 => "120 FPS"@,
        FpsLimitMode::Fps144 => "144 FPS"@,
    }
}

/// Frames per second of each cap; `None` when there is no cap.
pub open spec fn fps_value(m: FpsLimitMode) -> Option<int> {
    match m {
        FpsLimitMode::Unlimited => None,
        FpsLimitMode::Fps30 => Some(30),
        FpsLimitMode::Fps60 => Some(60),
        FpsLimitMode::Fps120 => Some(120),
        FpsLimitMode::Fps144 => Some(144),
    }
}

pub open spec fn aa_next(m: AntiAliasingMode) -> AntiAliasingMode {
    match m {
        AntiAliasingMode::Off => AntiAliasingMode::Msaa2x,
        AntiAliasingMode::Msaa2x => AntiAliasingMode::Msaa4x,
        AntiAliasingMode::Msaa4x => AntiAliasingMode::Off,
    }
}

pub open spec fn aa_prev(m: AntiAliasingMode) -> AntiAliasingMode {
    match m {
        AntiAliasingMode::Off => AntiAliasingMode::Msaa4x,
        AntiAliasingMode::Msaa2x => AntiAliasingMode::Off,
        AntiAliasingMode::Msaa4x => AntiAliasingMode::Msaa2x,
    }
}

pub open spec fn aa_label(m: AntiAliasingMode) -> Seq<char> {
    match m {
        AntiAliasingMode::Off => "オフ (OFF)"@,
        AntiAliasingMode::Msaa2x => "MSAA 2x"@,
        AntiAliasingMode::Msaa4x => "MSAA 4x"@,
    }
}

impl FpsLimitMode {
    pub fn next(&self) -> (m: FpsLimitMode)
        ensures
            m == fps_next(*self),
    {
        match self {
            FpsLimitMode::Unlimited => FpsLimitMode::Fps30,
            FpsLimitMode::Fps30 => FpsLimitMode::Fps60,
            FpsLimitMode::Fps60 => FpsLimitMode::Fps120,
            FpsLimitMode::Fps120 => FpsLimitMode::Fps144,
            FpsLimitMode::Fps144 => FpsLimitMode::Unlimited,
        }
    }

    pub fn prev(&self) -> (m: FpsLimitMode)
        ensures
            m == fps_prev(*self),
    {
        match self {
            FpsLimitMode::Unlimited => FpsLimitMode::Fps144,
            FpsLimitMode::Fps30 => FpsLimitMode::Unlimited,
            FpsLimitMode::Fps60 => FpsLimitMode::Fps30,
            FpsLimitMode::Fps120 => FpsLimitMode::Fps60,
            FpsLimitMode::Fps144 => FpsLimitMode::Fps120,
        }
    }

    pub fn display_label(&self) -> (s: &'static str)
        ensures
            s@ == fps_label(*self),
    {
        match self {
            FpsLimitMode::Unlimited => "無制限 (OFF)",
            FpsLimitMode::Fps30 => "30 FPS",
            FpsLimitMode::Fps60 => "60 FPS",
            FpsLimitMode::Fps120 => "120 FPS",
            FpsLimitMode::Fps144 => "144 FPS",
        }
    }

    /// Length of one frame in nanoseconds (one second divided by the frame
    /// rate, rounded down); `None` when there is no cap.
    pub fn target_frame_time(&self) -> (t: Option<u64>)
        ensures
            match fps_value(*self) {
                None => t is None,
                Some(fps) => t == Some((1_000_000_000int / fps) as u64),
            },
    {
        match self {
            FpsLimitMode::Unlimited => None,
            FpsLimitMode::Fps30 => Some(1_000_000_000 / 30),
            FpsLimitMode::Fps60 => Some(1_000_000_000 / 60),
            FpsLimitMode::Fps120 => Some(1_000_000_000 / 120),
            FpsLimitMode::Fps144 => Some(1_000_000_000 / 144),
        }
    }
}

impl AntiAliasingMode {
    pub fn next(&self) -> (m: AntiAliasingMode)
        ensures
            m == aa_next(*self),
    {
        match self {
            AntiAliasingMode::Off => AntiAliasingMode::Msaa2x,
            AntiAliasingMode::Msaa2x => AntiAliasingMode::Msaa4x,
            AntiAliasingMode::Msaa4x => AntiAliasingMode::Off,
        }
    }

    pub fn prev(&self) -> (m: AntiAliasingMode)
        ensures
            m == aa_prev(*self),
    {
        match self {
            AntiAliasingMode::Off => AntiAliasingMode::Msaa4x,
            AntiAliasingMode::Msaa2x => AntiAliasingMode::Off,
            AntiAliasingMode::Msaa4x => AntiAliasingMode::Msaa2x,
        }
    }

    pub fn display_label(&self) -> (s: &'static str)
        ensures
            s@ == aa_label(*self),
    {
        match self {
            AntiAliasingMode::Off => "オフ (OFF)",
            AntiAliasingMode::Msaa2x => "MSAA 2x",
            AntiAliasingMode::Msaa4x => "MSAA 4x",
        }
    }
}

/// The kind of graphics adapter the game runs on.
#[derive(Debug, Clone, Copy, PartialEq, Eq, Hash, Structural)]
pub enum GpuKind {
    Discrete,
    Integrated,
    Cpu,
    Other,
}

/// What is known of the machine when default graphics settings are chosen.
#[derive(Debug, Clone, Copy, PartialEq, Eq, Structural)]
pub struct GraphicsEnvironment {
    /// The system reports less than 16 GB of memory.
    pub memory_below_16gb: bool,
    /// The system reports at most one CPU core.
    pub single_core: bool,
    /// The game is a debug build.
    pub debug_build: bool,
    /// The graphics adapter, when known.
    pub gpu: Option<GpuKind>,
}

/// Frame cap, anti-aliasing and shadows chosen for a machine: the low preset
/// (30 FPS, no MSAA, no shadows) for little memory, a single core, a debug
/// build or a software renderer; otherwise 60 FPS with shadows, MSAA 4x on a
/// discrete or unknown adapter and 2x on any other.
pub open spec fn graphics_preset(env: GraphicsEnvironment) -> (FpsLimitMode, AntiAliasingMode, bool) {
    if env.memory_below_16gb || env.single_core || env.debug_build {
        (FpsLimitMode::Fps30, AntiAliasingMode::Off, false)
    } else {
        match env.gpu {
            Some(GpuKind::Discrete) => (FpsLimitMode::Fps60, AntiAliasingMode::Msaa4x, true),
            Some(GpuKind::Integrated) => (FpsLimitMode::Fps60, AntiAliasingMode::Msaa2x, true),
            Some(GpuKind::Cpu) => (FpsLimitMode::Fps30, AntiAliasingMode::Off, false),
            Some(GpuKind::Other) => (FpsLimitMode::Fps60, AntiAliasingMode::Msaa2x, true),
            None => (FpsLimitMode::Fps60, AntiAliasingMode::Msaa4x, true),
        }
    }
}

/// Game-wide settings.
#[derive(Debug, Clone, Copy, PartialEq, Eq, Structural)]
pub struct GameSettings {
    /// 0 to 100, in steps of 10.
    pub master_volume: u32,
    pub bgm_volume: u32,
    pub sfx_volume: u32,
    pub fullscreen: bool,
    /// Index into `RESOLUTION_PRESETS`.
    pub resolution_index: usize,
    pub fps_limit: FpsLimitMode,
    pub vsync: bool,
    pub shadows_enabled: bool,
    pub anti_aliasing: AntiAliasingMode,
    /// The screen that "back" returns to.
    pub return_state: AppState,
}

impl GameSettings {
    /// Volumes are percentages and the resolution index is a preset.
    pub open spec fn wf(self) -> bool {
        &&& self.master_volume <= 100
        &&& self.bgm_volume <= 100
        &&& self.sfx_volume <= 100
        &&& self.resolution_index < 4
    }

    /// Default settings for a machine: volumes 80/70/80, windowed at
    /// 1280x720, vsync on, return to the title screen, and the graphics preset
    /// that fits the machine.
    pub fn default_for_environment(env: &GraphicsEnvironment) -> (s: GameSettings)
        ensures
            s.wf(),
            s.master_volume == 80,
            s.bgm_volume == 70,
            s.sfx_volume == 80,
            !s.fullscreen,
            s.resolution_index == 0,
            s.vsync,
            s.return_state == AppState::Title,
            (s.fps_limit, s.anti_aliasing, s.shadows_enabled) == graphics_preset(*env),
    {
        let (fps_limit, anti_aliasing, shadows_enabled) = if env.memory_below_16gb {
            (FpsLimitMode::Fps30, AntiAliasingMode::Off, false)
        } else if env.single_core {
            (FpsLimitMode::Fps30, AntiAliasingMode::Off, false)
        } else if env.debug_build {
            (FpsLimitMode::Fps30, AntiAliasingMode::Off, false)
        } else {
            match env.gpu {
                Some(GpuKind::Discrete) => (FpsLimitMode::Fps60, AntiAliasingMode::Msaa4x, true),
                Some(GpuKind::Integrated) => (FpsLimitMode::Fps60, AntiAliasingMode::Msaa2x, true),
                Some(GpuKind::Cpu) => (FpsLimitMode::Fps30, AntiAliasingMode::Off, false),
                Some(GpuKind::Other) => (FpsLimitMode::Fps60, AntiAliasingMode::Msaa2x, true),
                None => (FpsLimitMode::Fps60, AntiAliasingMode::Msaa4x, true),
            }
        };
        GameSettings {
            master_volume: 80,
            bgm_volume: 70,
            sfx_volume: 80,
            fullscreen: false,
            resolution_index: 0,
            fps_limit,
            vsync: true,
            shadows_enabled,
            anti_aliasing,
            return_state: AppState::Title,
        }
    }
}

/// A volume ten points lower, not below 0.
pub open spec fn volume_down(v: u32) -> u32 {
    if v >= 10 {
        (v - 10) as u32
    } else {
        0
    }
}

/// A volume ten points higher, not above 100.
pub open spec fn volume_up(v: u32) -> u32 {
    if v + 10 > 100 {
        100
    } else {
        (v + 10) as u32
    }
}

/// The previous resolution preset, wrapping from the first to the last.
pub open spec fn resolution_prev(i: usize) -> usize {
    if i == 0 {
        3
    } else {
        (i - 1) as usize
    }
}

/// The next resolution preset, wrapping from the last to the first.
pub open spec fn resolution_next(i: usize) -> usize {
    ((i + 1) % 4) as usize
}

/// `s` with everything but the return screen taken from `defaults`.
pub open spec fn with_defaults(s: GameSettings, defaults: GameSettings) -> GameSettings {
    GameSettings { return_state: s.return_state, ..defaults }
}

pub(crate) fn volume_down_exec(v: u32) -> (r: u32)
    ensures
        r == volume_down(v),
{
    v.saturating_sub(10)
}

pub(crate) fn volume_up_exec(v: u32) -> (r: u32)
    requires
        v <= 100,
    ensures
        r == volume_up(v),
{
    let r = v + 10;
    if r < 100 {
        r
    } else {
        100
    }
}

pub(crate) fn resolution_prev_exec(i: usize) -> (r: usize)
    requires
        i < 4,
    ensures
        r == resolution_prev(i),
{
    if i == 0 {
        RESOLUTION_PRESETS.len() - 1
    } else {
        i - 1
    }
}

pub(crate) fn resolution_next_exec(i: usize) -> (r: usize)
    requires
        i < 4,
    ensures
        r == resolution_next(i),
{
    (i + 1) % RESOLUTION_PRESETS.len()
}

/// Copies every setting but the return screen from `defaults`.
pub(crate) fn apply_defaults(settings: &mut GameSettings, defaults: &GameSettings)
    ensures
        *final(settings) == with_defaults(*old(settings), *defaults),
{
    settings.master_volume = defaults.master_volume;
    settings.bgm_volume = defaults.bgm_volume;
    settings.sfx_volume = defaults.sfx_volume;
    settings.fullscreen = defaults.fullscreen;
    settings.resolution_index = defaults.resolution_index;
    settings.fps_limit = defaults.fps_limit;
    settings.vsync = defaults.vsync;
    settings.shadows_enabled = defaults.shadows_enabled;
    settings.anti_aliasing = defaults.anti_aliasing;
}

/// The setting whose value a settings-screen label shows.
#[derive(Debug, Clone, Copy, PartialEq, Eq, Structural)]
pub enum SettingValueLabel {
    MasterVolume,
    BgmVolume,
    SfxVolume,
    Resolution,
    Fullscreen,
    FpsLimit,
    Vsync,
    Shadows,
    AntiAliasing,
}

/// Width and height of a resolution preset.
pub open spec fn resolution_preset(i: int) -> (u32, u32) {
    if i == 0 {
        (1280, 720)
    } else if i == 1 {
        (1600, 900)
    } else if i == 2 {
        (1920, 1080)
    } else {
        (2560, 1440)
    }
}

/// "有効 (ON)" or "無効 (OFF)".
pub open spec fn on_off_text(on: bool) -> Seq<char> {
    if on {
        "有効 (ON)"@
    } else {
        "無効 (OFF)"@
    }
}

/// The text a settings-screen label shows: volumes as percentages, the
/// resolution as width "x" height, the window mode, and the labels of the
/// frame cap, vsync, shadows and anti-aliasing.
pub open spec fn setting_value_text(label: SettingValueLabel, s: GameSettings) -> Seq<char> {
    match label {
        SettingValueLabel::MasterVolume => decimal(s.master_volume as nat) + "%"@,
        SettingValueLabel::BgmVolume => decimal(s.bgm_volume as nat) + "%"@,
        SettingValueLabel::SfxVolume => decimal(s.sfx_volume as nat) + "%"@,
        SettingValueLabel::Resolution => {
            let (w, h) = resolution_preset(s.resolution_index as int);
            decimal(w as nat) + "x"@ + decimal(h as nat)
        },
        SettingValueLabel::Fullscreen => if s.fullscreen {
            "フルスクリーン"@
        } else {
            "ウィンドウ"@
        },
        SettingValueLabel::FpsLimit => fps_label(s.fps_limit),
        SettingValueLabel::Vsync => on_off_text(s.vsync),
        SettingValueLabel::Shadows => on_off_text(s.shadows_enabled),
        SettingValueLabel::AntiAliasing => aa_label(s.anti_aliasing),
    }
}

fn on_off_str(on: bool) -> (t: &'static str)
    ensures
        t@ == on_off_text(on),
{
    if on {
        "有効 (ON)"
    } else {
        "無効 (OFF)"
    }
}

/// The text a settings-screen label shows, as `setting_value_text` states.
pub fn setting_value_string(label: SettingValueLabel, s: &GameSettings) -> (t: String)
    requires
        label == SettingValueLabel::Resolution ==> s.resolution_index < 4,
    ensures
        t@ == setting_value_text(label, *s),
{
    match label {
        SettingValueLabel::MasterVolume | SettingValueLabel::BgmVolume
        | SettingValueLabel::SfxVolume => {
            let v = match label {
                SettingValueLabel::MasterVolume => s.master_volume,
                SettingValueLabel::BgmVolume => s.bgm_volume,
                _ => s.sfx_volume,
            };
            let mut t = String::new();
            push_decimal(&mut t, v as u64);
            string_append(&mut t, "%");
            assert(t@ =~= setting_value_text(label, *s));
            t
        },
        SettingValueLabel::Resolution => {
            let (w, h) = RESOLUTION_PRESETS[s.resolution_index];
            let mut t = String::new();
            push_decimal(&mut t, w as u64);
            string_append(&mut t, "x");
            push_decimal(&mut t, h as u64);
            assert((w, h) == resolution_preset(s.resolution_index as int));
            assert(t@ =~= setting_value_text(label, *s));
            t
        },
        SettingValueLabel::Fullscreen => {
            if s.fullscreen {
                String::from_str("フルスクリーン")
            } else {
                String::from_str("ウィンドウ")
            }
        },
        SettingValueLabel::FpsLimit => String::from_str(s.fps_limit.display_label()),
        SettingValueLabel::Vsync => String::from_str(on_off_str(s.vsync)),
        SettingValueLabel::Shadows => String::from_str(on_off_str(s.shadows_enabled)),
        SettingValueLabel::AntiAliasing => String::from_str(s.anti_aliasing.display_label()),
    }
}

/// Applies the machine's graphics preset at start-up: the frame cap,
/// shadows and anti-aliasing come from `graphics_preset`; every other setting
/// stays.
pub fn apply_graphics_preset(settings: &mut GameSettings, env: &GraphicsEnvironment)
    ensures
        ({
            let (fps, aa, shadows) = graphics_preset(*env);
            *final(settings) == GameSettings {
                fps_limit: fps,
                anti_aliasing: aa,
                shadows_enabled: shadows,
                ..*old(settings)
            }
        }),
{
    let preset = GameSettings::default_for_environment(env);
    settings.fps_limit = preset.fps_limit;
    settings.shadows_enabled = preset.shadows_enabled;
    settings.anti_aliasing = preset.anti_aliasing;
}

} // verus!
