//! Theme — the single source of the color palette and text styles.
//!
//! Every widget takes its colors and styles from here. Colors are 24-bit
//! RGB; a style is a foreground, a background and a bold flag.

use vstd::prelude::*;
use crate::app::toast::ToastKind;
use crate::domain::status::RunState;

verus! {

/// A 24-bit color.
#[derive(Debug, Clone, Copy, PartialEq, Eq, Structural)]
pub struct Rgb {
    pub r: u8,
    pub g: u8,
    pub b: u8,
}

/// A text style: optional foreground and background colors, and boldness.
#[derive(Debug, Clone, Copy, PartialEq, Eq, Structural)]
pub struct StyleSpec {
    pub fg: Option<Rgb>,
    pub bg: Option<Rgb>,
    pub bold: bool,
}

impl StyleSpec {
    /// The terminal's default style.
    pub fn plain() -> (s: StyleSpec)
        ensures
            s == (StyleSpec { fg: None, bg: None, bold: false }),
    {
        StyleSpec { fg: None, bg: None, bold: false }
    }

    /// This style with foreground `c`.
    pub fn with_fg(self, c: Rgb) -> (s: StyleSpec)
        ensures
            s == (StyleSpec { fg: Some(c), ..self }),
    {
        StyleSpec { fg: Some(c), ..self }
    }
}

/// The palette.
#[derive(Debug, Clone, Copy, PartialEq, Eq, Structural)]
pub struct Theme {
    // Base surfaces
    pub bg: Rgb,
    pub surface: Rgb,
    pub overlay: Rgb,
    // Text
    pub text: Rgb,
    pub text_dim: Rgb,
    pub text_muted: Rgb,
    // Accents
    pub primary: Rgb,
    pub border: Rgb,
    pub border_focus: Rgb,
    // Semantic
    pub success: Rgb,
    pub failure: Rgb,
    pub warning: Rgb,
    pub running: Rgb,
    pub neutral: Rgb,
}

/// A color from its components.
pub fn rgb(r: u8, g: u8, b: u8) -> (c: Rgb)
    ensures
        c == (Rgb { r, g, b }),
{
    Rgb { r, g, b }
}

/// The frames of the activity spinner (braille animation).
pub open spec fn spinner_glyph(i: nat) -> Seq<char> {
    if i == 0 {
        "⠋"@
    } else if i == 1 {
        "⠙"@
    } else if i == 2 {
        "⠹"@
    } else if i == 3 {
        "⠸"@
    } else if i == 4 {
        "⠼"@
    } else if i == 5 {
        "⠴"@
    } else if i == 6 {
        "⠦"@
    } else if i == 7 {
        "⠧"@
    } else if i == 8 {
        "⠇"@
    } else {
        "⠏"@
    }
}

/// Number of spinner frames.
pub const SPINNER_FRAMES: usize = 10;

impl Default for Theme {
    fn default() -> (t: Theme)
        ensures
            t == Theme::spec_midnight(),
    {
        Theme::midnight()
    }
}

impl Theme {
    pub open spec fn spec_midnight() -> Theme {
        Theme {
            bg: Rgb { r: 0x0d, g: 0x11, b: 0x17 },
            surface: Rgb { r: 0x16, g: 0x1b, b: 0x22 },
            overlay: Rgb { r: 0x1c, g: 0x21, b: 0x2b },
            text: Rgb { r: 0xc9, g: 0xd1, b: 0xd9 },
            text_dim: Rgb { r: 0x8b, g: 0x94, b: 0x9e },
            text_muted: Rgb { r: 0x56, g: 0x5f, b: 0x6b },
            primary: Rgb { r: 0x58, g: 0xa6, b: 0xff },
            border: Rgb { r: 0x30, g: 0x36, b: 0x3d },
            border_focus: Rgb { r: 0x58, g: 0xa6, b: 0xff },
            success: Rgb { r: 0x3f, g: 0xb9, b: 0x50 },
            failure: Rgb { r: 0xf8, g: 0x51, b: 0x49 },
            warning: Rgb { r: 0xd2, g: 0x99, b: 0x22 },
            running: Rgb { r: 0x58, g: 0xa6, b: 0xff },
            neutral: Rgb { r: 0x8b, g: 0x94, b: 0x9e },
        }
    }

    /// The default dark palette.
    pub fn midnight() -> (t: Theme)
        ensures
            t == Theme::spec_midnight(),
    {
        Theme {
            bg: rgb(0x0d, 0x11, 0x17),
            surface: rgb(0x16, 0x1b, 0x22),
            overlay: rgb(0x1c, 0x21, 0x2b),
            text: rgb(0xc9, 0xd1, 0xd9),
            text_dim: rgb(0x8b, 0x94, 0x9e),
            text_muted: rgb(0x56, 0x5f, 0x6b),
            primary: rgb(0x58, 0xa6, 0xff),
            border: rgb(0x30, 0x36, 0x3d),
            border_focus: rgb(0x58, 0xa6, 0xff),
            success: rgb(0x3f, 0xb9, 0x50),
            failure: rgb(0xf8, 0x51, 0x49),
            warning: rgb(0xd2, 0x99, 0x22),
            running: rgb(0x58, 0xa6, 0xff),
            neutral: rgb(0x8b, 0x94, 0x9e),
        }
    }

    pub open spec fn spec_state_color(self, state: RunState) -> Rgb {
        match state {
            RunState::Success => self.success,
            RunState::Failed | RunState::TimedOut => self.failure,
            RunState::Cancelled => self.text_muted,
            RunState::ActionRequired => self.warning,
            RunState::InProgress => self.running,
            RunState::Queued => self.warning,
            RunState::Skipped | RunState::Neutral => self.neutral,
            RunState::Unknown => self.text_dim,
        }
    }

    /// The semantic color for a run state — the only mapping from domain
    /// status to color.
    pub fn state_color(&self, state: RunState) -> (c: Rgb)
        ensures
            c == self.spec_state_color(state),
    {
        match state {
            RunState::Success => self.success,
            RunState::Failed | RunState::TimedOut => self.failure,
            RunState::Cancelled => self.text_muted,
            RunState::ActionRequired => self.warning,
            RunState::InProgress => self.running,
            RunState::Queued => self.warning,
            RunState::Skipped | RunState::Neutral => self.neutral,
            RunState::Unknown => self.text_dim,
        }
    }

    pub open spec fn spec_state_style(self, state: RunState) -> StyleSpec {
        StyleSpec { fg: Some(self.spec_state_color(state)), bg: None, bold: false }
    }

    /// Text in a run state's color.
    pub fn state_style(&self, state: RunState) -> (s: StyleSpec)
        ensures
            s == self.spec_state_style(state),
    {
        StyleSpec { fg: Some(self.state_color(state)), bg: None, bold: false }
    }

    pub open spec fn spec_toast_color(self, kind: ToastKind) -> Rgb {
        match kind {
            ToastKind::Info => self.primary,
            ToastKind::Success => self.success,
            ToastKind::Warning => self.warning,
            ToastKind::Error => self.failure,
        }
    }

    /// Color for a toast of the given kind.
    pub fn toast_color(&self, kind: ToastKind) -> (c: Rgb)
        ensures
            c == self.spec_toast_color(kind),
    {
        match kind {
            ToastKind::Info => self.primary,
            ToastKind::Success => self.success,
            ToastKind::Warning => self.warning,
            ToastKind::Error => self.failure,
        }
    }

    pub open spec fn spec_toast_glyph(kind: ToastKind) -> Seq<char> {
        match kind {
            ToastKind::Info => "ℹ"@,
            ToastKind::Success => "✓"@,
            ToastKind::Warning => "⚠"@,
            ToastKind::Error => "✗"@,
        }
    }

    /// Glyph for a toast of the given kind.
    pub fn toast_glyph(&self, kind: ToastKind) -> (g: &'static str)
        ensures
            g@ == Theme::spec_toast_glyph(kind),
    {
        match kind {
            ToastKind::Info => "ℹ",
            ToastKind::Success => "✓",
            ToastKind::Warning => "⚠",
            ToastKind::Error => "✗",
        }
    }

    // --- Style helpers -------------------------------------------------

    pub open spec fn spec_base(self) -> StyleSpec {
        StyleSpec { fg: Some(self.text), bg: Some(self.bg), bold: false }
    }

    pub fn base(&self) -> (s: StyleSpec)
        ensures
            s == self.spec_base(),
    {
        StyleSpec { fg: Some(self.text), bg: Some(self.bg), bold: false }
    }

    pub open spec fn spec_title(self) -> StyleSpec {
        StyleSpec { fg: Some(self.primary), bg: None, bold: true }
    }

    pub fn title(&self) -> (s: StyleSpec)
        ensures
            s == self.spec_title(),
    {
        StyleSpec { fg: Some(self.primary), bg: None, bold: true }
    }

    pub open spec fn spec_dim(self) -> StyleSpec {
        StyleSpec { fg: Some(self.text_dim), bg: None, bold: false }
    }

    pub fn dim(&self) -> (s: StyleSpec)
        ensures
            s == self.spec_dim(),
    {
        StyleSpec { fg: Some(self.text_dim), bg: None, bold: false }
    }

    pub open spec fn spec_muted(self) -> StyleSpec {
        StyleSpec { fg: Some(self.text_muted), bg: None, bold: false }
    }

    pub fn muted(&self) -> (s: StyleSpec)
        ensures
            s == self.spec_muted(),
    {
        StyleSpec { fg: Some(self.text_muted), bg: None, bold: false }
    }

    pub fn border_style(&self, focused: bool) -> (s: StyleSpec)
        ensures
            s == (StyleSpec {
                fg: Some(if focused { self.border_focus } else { self.border }),
                bg: None,
                bold: false,
            }),
    {
        StyleSpec {
            fg: Some(
                if focused {
                    self.border_focus
                } else {
                    self.border
                },
            ),
            bg: None,
            bold: false,
        }
    }

    pub fn selected_row(&self) -> (s: StyleSpec)
        ensures
            s == (StyleSpec { fg: None, bg: Some(self.overlay), bold: true }),
    {
        StyleSpec { fg: None, bg: Some(self.overlay), bold: true }
    }

    pub open spec fn spec_key_hint(self) -> StyleSpec {
        StyleSpec { fg: Some(self.primary), bg: None, bold: true }
    }

    pub fn key_hint(&self) -> (s: StyleSpec)
        ensures
            s == self.spec_key_hint(),
    {
        StyleSpec { fg: Some(self.primary), bg: None, bold: true }
    }

    pub open spec fn spec_chip(self) -> StyleSpec {
        StyleSpec { fg: Some(self.bg), bg: Some(self.primary), bold: true }
    }

    /// Style for a filter chip in the header.
    pub fn chip(&self) -> (s: StyleSpec)
        ensures
            s == self.spec_chip(),
    {
        StyleSpec { fg: Some(self.bg), bg: Some(self.primary), bold: true }
    }

    pub open spec fn spec_search_text(self) -> StyleSpec {
        StyleSpec { fg: Some(self.text), bg: None, bold: true }
    }

    /// Style for the active search input text.
    pub fn search_text(&self) -> (s: StyleSpec)
        ensures
            s == self.spec_search_text(),
    {
        StyleSpec { fg: Some(self.text), bg: None, bold: true }
    }

    pub open spec fn spec_danger_title(self) -> StyleSpec {
        StyleSpec { fg: Some(self.failure), bg: None, bold: true }
    }

    /// Title style for a destructive modal.
    pub fn danger_title(&self) -> (s: StyleSpec)
        ensures
            s == self.spec_danger_title(),
    {
        StyleSpec { fg: Some(self.failure), bg: None, bold: true }
    }

    /// Border style for a destructive modal.
    pub fn danger_border(&self) -> (s: StyleSpec)
        ensures
            s == (StyleSpec { fg: Some(self.failure), bg: None, bold: false }),
    {
        StyleSpec { fg: Some(self.failure), bg: None, bold: false }
    }

    pub open spec fn spec_confirm_yes(self) -> StyleSpec {
        StyleSpec { fg: Some(self.failure), bg: None, bold: true }
    }

    /// Highlight style for the affirmative (destructive) confirm key.
    pub fn confirm_yes(&self) -> (s: StyleSpec)
        ensures
            s == self.spec_confirm_yes(),
    {
        StyleSpec { fg: Some(self.failure), bg: None, bold: true }
    }

    /// The spinner frame shown at animation step `frame`.
    pub fn spinner_frame(&self, frame: usize) -> (g: &'static str)
        ensures
            g@ == spinner_glyph((frame % SPINNER_FRAMES) as nat),
    {
        let i = frame % SPINNER_FRAMES;
        if i == 0 {
            "⠋"
        } else if i == 1 {
            "⠙"
        } else if i == 2 {
            "⠹"
        } else if i == 3 {
            "⠸"
        } else if i == 4 {
            "⠼"
        } else if i == 5 {
            "⠴"
        } else if i == 6 {
            "⠦"
        } else if i == 7 {
            "⠧"
        } else if i == 8 {
            "⠇"
        } else {
            "⠏"
        }
    }
}

} // verus!
