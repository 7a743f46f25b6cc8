//! Start-up configuration: the builder of optional fields, the
//! fully-defaulted record handed to the native init entry point, and the
//! option enums with their native integer codes.

use vstd::prelude::*;

use crate::lifecycle::InitGate;

verus! {

/// Which display the runtime should drive at start-up.
#[derive(Clone, Copy, PartialEq, Eq, Structural, Debug)]
pub enum DisplayMode {
    MixedReality,
    Flatscreen,
    NoDisplay,
}

impl DisplayMode {
    /// The value of this variant in the native settings record.
    pub open spec fn spec_code(self) -> u32 {
        match self {
            DisplayMode::MixedReality => 0,
            DisplayMode::Flatscreen => 1,
            DisplayMode::NoDisplay => 2,
        }
    }

    pub fn code(self) -> (r: u32)
        ensures
            r == self.spec_code(),
    {
        match self {
            DisplayMode::MixedReality => 0,
            DisplayMode::Flatscreen => 1,
            DisplayMode::NoDisplay => 2,
        }
    }
}

/// How the rendered image is blended with the surroundings.
#[derive(Clone, Copy, PartialEq, Eq, Structural, Debug)]
pub enum DisplayBlend {
    NoBlend,
    Opaque,
    Additive,
    Blend,
    AnyTransparent,
}

impl DisplayBlend {
    /// The value of this variant in the native settings record; the variants
    /// above `Additive` are native bit flags, so the codes are not contiguous.
    pub open spec fn spec_code(self) -> u32 {
        match self {
            DisplayBlend::NoBlend => 0,
            DisplayBlend::Opaque => 1,
            DisplayBlend::Additive => 2,
            DisplayBlend::Blend => 4,
            DisplayBlend::AnyTransparent => 6,
        }
    }

    pub fn code(self) -> (r: u32)
        ensures
            r == self.spec_code(),
    {
        match self {
            DisplayBlend::NoBlend => 0,
            DisplayBlend::Opaque => 1,
            DisplayBlend::Additive => 2,
            DisplayBlend::Blend => 4,
            DisplayBlend::AnyTransparent => 6,
        }
    }
}

/// Depth-buffer precision the runtime should use.
#[derive(Clone, Copy, PartialEq, Eq, Structural, Debug)]
pub enum DepthMode {
    Balanced,
    D16,
    D32,
    Stencil,
}

impl DepthMode {
    /// The value of this variant in the native settings record.
    pub open spec fn spec_code(self) -> u32 {
        match self {
            DepthMode::Balanced => 0,
            DepthMode::D16 => 1,
            DepthMode::D32 => 2,
            DepthMode::Stencil => 3,
        }
    }

    pub fn code(self) -> (r: u32)
        ensures
            r == self.spec_code(),
    {
        match self {
            DepthMode::Balanced => 0,
            DepthMode::D16 => 1,
            DepthMode::D32 => 2,
            DepthMode::Stencil => 3,
        }
    }
}

/// The least severe log level the runtime should report.
#[derive(Clone, Copy, PartialEq, Eq, Structural, Debug)]
pub enum LogFilter {
    NoLog,
    Diagnostic,
    Inform,
    Warning,
    Error,
}

impl LogFilter {
    /// The value of this variant in the native settings record.
    pub open spec fn spec_code(self) -> u32 {
        match self {
            LogFilter::NoLog => 0,
            LogFilter::Diagnostic => 1,
            LogFilter::Inform => 2,
            LogFilter::Warning => 3,
            LogFilter::Error => 4,
        }
    }

    pub fn code(self) -> (r: u32)
        ensures
            r == self.spec_code(),
    {
        match self {
            LogFilter::NoLog => 0,
            LogFilter::Diagnostic => 1,
            LogFilter::Inform => 2,
            LogFilter::Warning => 3,
            LogFilter::Error => 4,
        }
    }
}

/// The fully-defaulted start-up record: every field carries the value the
/// native init entry point will receive.
#[derive(PartialEq, Eq, Debug)]
pub struct SKSettingsBuilt {
    pub app_name: String,
    pub assets_folder: String,
    pub display_preference: DisplayMode,
    pub blend_preference: DisplayBlend,
    pub no_flatscreen_fallback: bool,
    pub depth_mode: DepthMode,
    pub log_filter: LogFilter,
    pub overlay_app: bool,
    pub overlay_priority: u32,
    pub flatscreen_pos_x: u32,
    pub flatscreen_pos_y: u32,
    pub flatscreen_width: u32,
    pub flatscreen_height: u32,
    pub disable_flatscreen_mr_sim: bool,
    pub disable_unfocused_sleep: bool,
}

/// The configuration builder: every option may be left unset, and a
/// documented default is applied when the record is built.
pub struct Settings {
    pub app_name: Option<String>,
    pub assets_folder: Option<String>,
    pub display_preference: Option<DisplayMode>,
    pub blend_preference: Option<DisplayBlend>,
    pub no_flatscreen_fallback: Option<bool>,
    pub depth_mode: Option<DepthMode>,
    pub log_filter: Option<LogFilter>,
    pub overlay_app: Option<bool>,
    pub overlay_priority: Option<u32>,
    pub flatscreen_pos_x: Option<u32>,
    pub flatscreen_pos_y: Option<u32>,
    pub flatscreen_width: Option<u32>,
    pub flatscreen_height: Option<u32>,
    pub disable_flatscreen_mr_sim: Option<bool>,
    pub disable_unfocused_sleep: Option<bool>,
}

impl Default for Settings {
    /// A builder with every option unset.
    fn default() -> (r: Settings)
        ensures
            r.app_name is None,
            r.assets_folder is None,
            r.display_preference is None,
            r.blend_preference is None,
            r.no_flatscreen_fallback is None,
            r.depth_mode is None,
            r.log_filter is None,
            r.overlay_app is None,
            r.overlay_priority is None,
            r.flatscreen_pos_x is None,
            r.flatscreen_pos_y is None,
            r.flatscreen_width is None,
            r.flatscreen_height is None,
            r.disable_flatscreen_mr_sim is None,
            r.disable_unfocused_sleep is None,
    {
        Settings {
            app_name: None,
            assets_folder: None,
            display_preference: None,
            blend_preference: None,
            no_flatscreen_fallback: None,
            depth_mode: None,
            log_filter: None,
            overlay_app: None,
            overlay_priority: None,
            flatscreen_pos_x: None,
            flatscreen_pos_y: None,
            flatscreen_width: None,
            flatscreen_height: None,
            disable_flatscreen_mr_sim: None,
            disable_unfocused_sleep: None,
        }
    }
}

impl Settings {
    /// The defaults, field by field: `b` is the record this builder produces.
    pub open spec fn builds_to(self, b: SKSettingsBuilt) -> bool {
        &&& b.app_name@ == (match self.app_name {
            Some(n) => n@,
            None => "sk_app"@,
        })
        &&& b.assets_folder@ == (match self.assets_folder {
            Some(f) => f@,
            None => ""@,
        })
        &&& b.display_preference == (match self.display_preference {
            Some(v) => v,
            None => DisplayMode::MixedReality,
        })
        &&& b.blend_preference == (match self.blend_preference {
            Some(v) => v,
            None => DisplayBlend::NoBlend,
        })
        &&& b.no_flatscreen_fallback == (match self.no_flatscreen_fallback {
            Some(v) => v,
            None => false,
        })
        &&& b.depth_mode == (match self.depth_mode {
            Some(v) => v,
            None => DepthMode::Balanced,
        })
        &&& b.log_filter == (match self.log_filter {
            Some(v) => v,
            None => LogFilter::Warning,
        })
        &&& b.overlay_app == (match self.overlay_app {
            Some(v) => v,
            None => false,
        })
        &&& b.overlay_priority == (match self.overlay_priority {
            Some(v) => v,
            None => 0u32,
        })
        &&& b.flatscreen_pos_x == (match self.flatscreen_pos_x {
            Some(v) => v,
            None => 0u32,
        })
        &&& b.flatscreen_pos_y == (match self.flatscreen_pos_y {
            Some(v) => v,
            None => 0u32,
        })
        &&& b.flatscreen_width == (match self.flatscreen_width {
            Some(v) => v,
            None => 0u32,
        })
        &&& b.flatscreen_height == (match self.flatscreen_height {
            Some(v) => v,
            None => 0u32,
        })
        &&& b.disable_flatscreen_mr_sim == (match self.disable_flatscreen_mr_sim {
            Some(v) => v,
            None => false,
        })
        &&& b.disable_unfocused_sleep == (match self.disable_unfocused_sleep {
            Some(v) => v,
            None => false,
        })
    }

    /// Set the application name (default `"sk_app"`).
    pub fn app_name(self, value: String) -> (r: Settings)
        ensures
            r == (Settings { app_name: Some(value), ..self }),
    {
        Settings { app_name: Some(value), ..self }
    }

    /// Set the asset-folder path (default empty).
    pub fn assets_folder(self, value: String) -> (r: Settings)
        ensures
            r == (Settings { assets_folder: Some(value), ..self }),
    {
        Settings { assets_folder: Some(value), ..self }
    }

    /// Set the display preference (default `DisplayMode::MixedReality`).
    pub fn display_preference(self, value: DisplayMode) -> (r: Settings)
        ensures
            r == (Settings { display_preference: Some(value), ..self }),
    {
        Settings { display_preference: Some(value), ..self }
    }

    /// Set the blend preference (default `DisplayBlend::NoBlend`).
    pub fn blend_preference(self, value: DisplayBlend) -> (r: Settings)
        ensures
            r == (Settings { blend_preference: Some(value), ..self }),
    {
        Settings { blend_preference: Some(value), ..self }
    }

    /// Set whether falling back to a flat screen is refused (default `false`).
    pub fn no_flatscreen_fallback(self, value: bool) -> (r: Settings)
        ensures
            r == (Settings { no_flatscreen_fallback: Some(value), ..self }),
    {
        Settings { no_flatscreen_fallback: Some(value), ..self }
    }

    /// Set the depth-buffer mode (default `DepthMode::Balanced`).
    pub fn depth_mode(self, value: DepthMode) -> (r: Settings)
        ensures
            r == (Settings { depth_mode: Some(value), ..self }),
    {
        Settings { depth_mode: Some(value), ..self }
    }

    /// Set the log filter (default `LogFilter::Warning`).
    pub fn log_filter(self, value: LogFilter) -> (r: Settings)
        ensures
            r == (Settings { log_filter: Some(value), ..self }),
    {
        Settings { log_filter: Some(value), ..self }
    }

    /// Set whether the application runs as an overlay (default `false`).
    pub fn overlay_app(self, value: bool) -> (r: Settings)
        ensures
            r == (Settings { overlay_app: Some(value), ..self }),
    {
        Settings { overlay_app: Some(value), ..self }
    }

    /// Set the overlay priority (default `0`).
    pub fn overlay_priority(self, value: u32) -> (r: Settings)
        ensures
            r == (Settings { overlay_priority: Some(value), ..self }),
    {
        Settings { overlay_priority: Some(value), ..self }
    }

    /// Set the flatscreen window's horizontal position (default `0`).
    pub fn flatscreen_pos_x(self, value: u32) -> (r: Settings)
        ensures
            r == (Settings { flatscreen_pos_x: Some(value), ..self }),
    {
        Settings { flatscreen_pos_x: Some(value), ..self }
    }

    /// Set the flatscreen window's vertical position (default `0`).
    pub fn flatscreen_pos_y(self, value: u32) -> (r: Settings)
        ensures
            r == (Settings { flatscreen_pos_y: Some(value), ..self }),
    {
        Settings { flatscreen_pos_y: Some(value), ..self }
    }

    /// Set the flatscreen window's width (default `0`).
    pub fn flatscreen_width(self, value: u32) -> (r: Settings)
        ensures
            r == (Settings { flatscreen_width: Some(value), ..self }),
    {
        Settings { flatscreen_width: Some(value), ..self }
    }

    /// Set the flatscreen window's height (default `0`).
    pub fn flatscreen_height(self, value: u32) -> (r: Settings)
        ensures
            r == (Settings { flatscreen_height: Some(value), ..self }),
    {
        Settings { flatscreen_height: Some(value), ..self }
    }

    /// Set whether the flatscreen mixed-reality simulator is disabled
    /// (default `false`).
    pub fn disable_flatscreen_mr_sim(self, value: bool) -> (r: Settings)
        ensures
            r == (Settings { disable_flatscreen_mr_sim: Some(value), ..self }),
    {
        Settings { disable_flatscreen_mr_sim: Some(value), ..self }
    }

    /// Set whether the unfocused-sleep behaviour is disabled (default `false`).
    pub fn disable_unfocused_sleep(self, value: bool) -> (r: Settings)
        ensures
            r == (Settings { disable_unfocused_sleep: Some(value), ..self }),
    {
        Settings { disable_unfocused_sleep: Some(value), ..self }
    }

    /// First half of the initialization gate: refused outright while a runtime
    /// is live on this thread (no native call may be made then); otherwise
    /// yields the fully-defaulted record for the native init entry point.
    /// `InitGate::confirm_init` turns the native result into a runtime handle.
    pub fn init(self, gate: &InitGate) -> (r: Option<SKSettingsBuilt>)
        ensures
            r is Some <==> gate.can_init(),
            r matches Some(b) ==> self.builds_to(b),
    {
        if gate.is_busy() {
            return None;
        }
        Some(
            SKSettingsBuilt {
                app_name: match self.app_name {
                    Some(s) => s,
                    None => String::from_str("sk_app"),
                },
                assets_folder: match self.assets_folder {
                    Some(s) => s,
                    None => String::from_str(""),
                },
                display_preference: match self.display_preference {
                    Some(v) => v,
                    None => DisplayMode::MixedReality,
                },
                blend_preference: match self.blend_preference {
                    Some(v) => v,
                    None => DisplayBlend::NoBlend,
                },
                no_flatscreen_fallback: match self.no_flatscreen_fallback {
                    Some(v) => v,
                    None => false,
                },
                depth_mode: match self.depth_mode {
                    Some(v) => v,
                    None => DepthMode::Balanced,
                },
                log_filter: match self.log_filter {
                    Some(v) => v,
                    None => LogFilter::Warning,
                },
                overlay_app: match self.overlay_app {
                    Some(v) => v,
                    None => false,
                },
                overlay_priority: match self.overlay_priority {
                    Some(v) => v,
                    None => 0,
                },
                flatscreen_pos_x: match self.flatscreen_pos_x {
                    Some(v) => v,
                    None => 0,
                },
                flatscreen_pos_y: match self.flatscreen_pos_y {
                    Some(v) => v,
                    None => 0,
                },
                flatscreen_width: match self.flatscreen_width {
                    Some(v) => v,
                    None => 0,
                },
                flatscreen_height: match self.flatscreen_height {
                    Some(v) => v,
                    None => 0,
                },
                disable_flatscreen_mr_sim: match self.disable_flatscreen_mr_sim {
                    Some(v) => v,
                    None => false,
                },
                disable_unfocused_sleep: match self.disable_unfocused_sleep {
                    Some(v) => v,
                    None => false,
                },
            },
        )
    }
}

} // verus!
