//! The glyphs shown for footer hints on each input device, and the style
//! classes of buttons, badges, progress bars and status panels.

use vstd::prelude::*;

use crate::apps::AppStatusTone;
use crate::gamepad::{GamepadFamily, InputSource};
use crate::input::UiHint;

verus! {

pub open spec fn keyboard_label_text(action: UiHint) -> Seq<char> {
    match action {
        UiHint::Accept => "Enter"@,
        UiHint::Cancel => "Esc"@,
        UiHint::Menu => "Menu"@,
        UiHint::Navigate => "Arrows"@,
        UiHint::PageUp => "PgUp"@,
        UiHint::PageDown => "PgDn"@,
    }
}

pub open spec fn xbox_label_text(action: UiHint) -> Seq<char> {
    match action {
        UiHint::Accept => "A"@,
        UiHint::Cancel => "B"@,
        UiHint::Menu => "Menu"@,
        UiHint::Navigate => "D-pad"@,
        UiHint::PageUp => "LB"@,
        UiHint::PageDown => "RB"@,
    }
}

pub open spec fn playstation_label_text(action: UiHint) -> Seq<char> {
    match action {
        UiHint::Accept => "Cross"@,
        UiHint::Cancel => "Circle"@,
        UiHint::Menu => "Options"@,
        UiHint::Navigate => "D-pad"@,
        UiHint::PageUp => "L1"@,
        UiHint::PageDown => "R1"@,
    }
}

pub open spec fn switch_label_text(action: UiHint) -> Seq<char> {
    match action {
        UiHint::Accept => "A"@,
        UiHint::Cancel => "B"@,
        UiHint::Menu => "Plus"@,
        UiHint::Navigate => "D-pad"@,
        UiHint::PageUp => "L"@,
        UiHint::PageDown => "R"@,
    }
}

/// The glyph for a hint: keyboard keys, or the buttons of the pad in use;
/// unknown pads are labelled like Xbox pads.
pub open spec fn button_label_text(source: InputSource, action: UiHint) -> Seq<char> {
    match source {
        InputSource::MouseKeyboard => keyboard_label_text(action),
        InputSource::Gamepad(GamepadFamily::Xbox) => xbox_label_text(action),
        InputSource::Gamepad(GamepadFamily::Generic) => xbox_label_text(action),
        InputSource::Gamepad(GamepadFamily::PlayStation) => playstation_label_text(action),
        InputSource::Gamepad(GamepadFamily::Switch) => switch_label_text(action),
    }
}

pub fn keyboard_label(action: UiHint) -> (r: &'static str)
    ensures
        r@ == keyboard_label_text(action),
{
    match action {
        UiHint::Accept => "Enter",
        UiHint::Cancel => "Esc",
        UiHint::Menu => "Menu",
        UiHint::Navigate => "Arrows",
        UiHint::PageUp => "PgUp",
        UiHint::PageDown => "PgDn",
    }
}

pub fn xbox_label(action: UiHint) -> (r: &'static str)
    ensures
        r@ == xbox_label_text(action),
{
    match action {
        UiHint::Accept => "A",
        UiHint::Cancel => "B",
        UiHint::Menu => "Menu",
        UiHint::Navigate => "D-pad",
        UiHint::PageUp => "LB",
        UiHint::PageDown => "RB",
    }
}

pub fn playstation_label(action: UiHint) -> (r: &'static str)
    ensures
        r@ == playstation_label_text(action),
{
    match action {
        UiHint::Accept => "Cross",
        UiHint::Cancel => "Circle",
        UiHint::Menu => "Options",
        UiHint::Navigate => "D-pad",
        UiHint::PageUp => "L1",
        UiHint::PageDown => "R1",
    }
}

pub fn switch_label(action: UiHint) -> (r: &'static str)
    ensures
        r@ == switch_label_text(action),
{
    match action {
        UiHint::Accept => "A",
        UiHint::Cancel => "B",
        UiHint::Menu => "Plus",
        UiHint::Navigate => "D-pad",
        UiHint::PageUp => "L",
        UiHint::PageDown => "R",
    }
}

pub fn button_label(source: InputSource, action: UiHint) -> (r: &'static str)
    ensures
        r@ == button_label_text(source, action),
{
    match source {
        InputSource::MouseKeyboard => keyboard_label(action),
        InputSource::Gamepad(GamepadFamily::Xbox) => xbox_label(action),
        InputSource::Gamepad(GamepadFamily::Generic) => xbox_label(action),
        InputSource::Gamepad(GamepadFamily::PlayStation) => playstation_label(action),
        InputSource::Gamepad(GamepadFamily::Switch) => switch_label(action),
    }
}

/// A progress value as shown: at most 100.
pub fn clamp_progress(value: u8) -> (r: u8)
    ensures
        r == (if value < 100 {
            value
        } else {
            100u8
        }),
{
    if value < 100 {
        value
    } else {
        100
    }
}

#[derive(Clone, Copy, Debug, PartialEq, Eq, Structural)]
pub enum ProgressTone {
    Primary,
    Warning,
}

pub fn progress_panel_class(tone: ProgressTone) -> (r: &'static str)
    ensures
        tone == ProgressTone::Primary ==> r@
            == "rounded-xl border border-primary/30 bg-primary/10 px-4 py-3 text-foreground"@,
        tone == ProgressTone::Warning ==> r@
            == "rounded-xl border border-yellow-300/30 bg-yellow-300/10 px-4 py-3"@,
{
    match tone {
        ProgressTone::Primary => "rounded-xl border border-primary/30 bg-primary/10 px-4 py-3 text-foreground",
        ProgressTone::Warning => "rounded-xl border border-yellow-300/30 bg-yellow-300/10 px-4 py-3",
    }
}

pub fn progress_label_class(tone: ProgressTone) -> (r: &'static str)
    ensures
        tone == ProgressTone::Primary ==> r@ == "truncate"@,
        tone == ProgressTone::Warning ==> r@ == "truncate text-yellow-100"@,
{
    match tone {
        ProgressTone::Primary => "truncate",
        ProgressTone::Warning => "truncate text-yellow-100",
    }
}

pub fn progress_value_class(tone: ProgressTone) -> (r: &'static str)
    ensures
        tone == ProgressTone::Primary ==> r@ == "shrink-0 tabular-nums"@,
        tone == ProgressTone::Warning ==> r@ == "shrink-0 tabular-nums text-yellow-200"@,
{
    match tone {
        ProgressTone::Primary => "shrink-0 tabular-nums",
        ProgressTone::Warning => "shrink-0 tabular-nums text-yellow-200",
    }
}

pub fn progress_fill_class(tone: ProgressTone) -> (r: &'static str)
    ensures
        tone == ProgressTone::Primary ==> r@ == "bg-primary"@,
        tone == ProgressTone::Warning ==> r@ == "bg-yellow-300"@,
{
    match tone {
        ProgressTone::Primary => "bg-primary",
        ProgressTone::Warning => "bg-yellow-300",
    }
}

#[derive(Clone, Copy, Debug, PartialEq, Eq, Structural)]
pub enum ButtonVariant {
    Default,
    Secondary,
    Outline,
    Destructive,
    Subtle,
}

pub fn button_variant_class(variant: ButtonVariant) -> (r: &'static str)
    ensures
        variant == ButtonVariant::Default ==> r@
            == "bg-primary text-primary-foreground hover:bg-primary/90"@,
        variant == ButtonVariant::Secondary ==> r@
            == "bg-secondary text-secondary-foreground hover:bg-secondary/80"@,
        variant == ButtonVariant::Outline ==> r@
            == "border border-input bg-background hover:bg-accent hover:text-accent-foreground"@,
        variant == ButtonVariant::Destructive ==> r@
            == "bg-destructive text-destructive-foreground hover:bg-destructive/90"@,
        variant == ButtonVariant::Subtle ==> r@
            == "hover:border-foreground/30 hover:bg-accent hover:text-accent-foreground focus-visible:border-foreground focus-visible:bg-accent focus-visible:text-accent-foreground"@,
{
    match variant {
        ButtonVariant::Default => "bg-primary text-primary-foreground hover:bg-primary/90",
        ButtonVariant::Secondary => "bg-secondary text-secondary-foreground hover:bg-secondary/80",
        ButtonVariant::Outline => "border border-input bg-background hover:bg-accent hover:text-accent-foreground",
        ButtonVariant::Destructive => "bg-destructive text-destructive-foreground hover:bg-destructive/90",
        ButtonVariant::Subtle => "hover:border-foreground/30 hover:bg-accent hover:text-accent-foreground focus-visible:border-foreground focus-visible:bg-accent focus-visible:text-accent-foreground",
    }
}

#[derive(Clone, Copy, Debug, PartialEq, Eq, Structural)]
pub enum ButtonSize {
    Default,
    Sm,
    Lg,
    Xl,
    IconSm,
    Icon,
    IconLg,
}

pub fn button_size_class(size: ButtonSize) -> (r: &'static str)
    ensures
        size == ButtonSize::Default ==> r@ == "h-14 px-6 py-3 text-base"@,
        size == ButtonSize::Sm ==> r@ == "h-12 rounded-lg px-4 py-2 text-base"@,
        size == ButtonSize::Lg ==> r@ == "h-16 rounded-xl px-8 py-4 text-lg"@,
        size == ButtonSize::Xl ==> r@ == "h-18 rounded-xl px-8 py-4 text-lg font-semibold"@,
        size == ButtonSize::IconSm ==> r@ == "h-12 w-12 rounded-full text-base"@,
        size == ButtonSize::Icon ==> r@ == "h-14 w-14 text-base"@,
        size == ButtonSize::IconLg ==> r@ == "h-16 w-16 text-lg"@,
{
    match size {
        ButtonSize::Default => "h-14 px-6 py-3 text-base",
        ButtonSize::Sm => "h-12 rounded-lg px-4 py-2 text-base",
        ButtonSize::Lg => "h-16 rounded-xl px-8 py-4 text-lg",
        ButtonSize::Xl => "h-18 rounded-xl px-8 py-4 text-lg font-semibold",
        ButtonSize::IconSm => "h-12 w-12 rounded-full text-base",
        ButtonSize::Icon => "h-14 w-14 text-base",
        ButtonSize::IconLg => "h-16 w-16 text-lg",
    }
}

#[derive(Clone, Copy, Debug, PartialEq, Eq, Structural)]
pub enum BadgeVariant {
    Neutral,
    Success,
    Warning,
    Overlay,
}

pub fn badge_tone(variant: BadgeVariant) -> (r: &'static str)
    ensures
        variant == BadgeVariant::Neutral ==> r@
            == "border-border bg-background/50 text-muted-foreground"@,
        variant == BadgeVariant::Success ==> r@
            == "border-emerald-300/30 bg-emerald-300/10 text-emerald-100"@,
        variant == BadgeVariant::Warning ==> r@
            == "border-yellow-400/30 bg-yellow-400/10 text-yellow-300"@,
        variant == BadgeVariant::Overlay ==> r@
            == "border-transparent bg-black/55 text-muted-foreground backdrop-blur-sm"@,
{
    match variant {
        BadgeVariant::Neutral => "border-border bg-background/50 text-muted-foreground",
        BadgeVariant::Success => "border-emerald-300/30 bg-emerald-300/10 text-emerald-100",
        BadgeVariant::Warning => "border-yellow-400/30 bg-yellow-400/10 text-yellow-300",
        BadgeVariant::Overlay => "border-transparent bg-black/55 text-muted-foreground backdrop-blur-sm",
    }
}

pub fn status_badge_class(tone: AppStatusTone) -> (r: &'static str)
    ensures
        tone == AppStatusTone::Ready ==> r@
            == "border-emerald-400/30 bg-emerald-400/10 text-emerald-300"@,
        tone == AppStatusTone::Warning ==> r@
            == "border-yellow-300/30 bg-yellow-300/10 text-yellow-200"@,
{
    match tone {
        AppStatusTone::Ready => "border-emerald-400/30 bg-emerald-400/10 text-emerald-300",
        AppStatusTone::Warning => "border-yellow-300/30 bg-yellow-300/10 text-yellow-200",
    }
}

#[derive(Clone, Copy, Debug, PartialEq, Eq, Structural)]
pub enum StatusAlertVariant {
    Error,
    Info,
}

pub fn status_alert_tone(variant: StatusAlertVariant) -> (r: &'static str)
    ensures
        variant == StatusAlertVariant::Error ==> r@
            == "border-destructive/40 bg-destructive/10 text-destructive-foreground"@,
        variant == StatusAlertVariant::Info ==> r@ == "border-border bg-card text-card-foreground"@,
{
    match variant {
        StatusAlertVariant::Error => "border-destructive/40 bg-destructive/10 text-destructive-foreground",
        StatusAlertVariant::Info => "border-border bg-card text-card-foreground",
    }
}

/// Errors are announced as alerts, everything else as status.
pub fn status_alert_role(variant: StatusAlertVariant) -> (r: &'static str)
    ensures
        variant == StatusAlertVariant::Error ==> r@ == "alert"@,
        variant == StatusAlertVariant::Info ==> r@ == "status"@,
{
    match variant {
        StatusAlertVariant::Error => "alert",
        StatusAlertVariant::Info => "status",
    }
}

/// How far an app action has come.
#[derive(Clone, Copy, Debug, PartialEq, Eq, Structural)]
pub enum ActionStatusKind {
    Loading,
    Progress,
    Success,
    Error,
}

pub fn action_status_class(kind: ActionStatusKind) -> (r: &'static str)
    ensures
        kind == ActionStatusKind::Error ==> r@ == "border-red-400/30 bg-red-400/10 text-red-200"@,
        kind == ActionStatusKind::Success ==> r@
            == "border-emerald-400/30 bg-emerald-400/10 text-emerald-200"@,
        (kind == ActionStatusKind::Loading || kind == ActionStatusKind::Progress) ==> r@
            == "border-yellow-300/30 bg-yellow-300/10 text-yellow-100"@,
{
    match kind {
        ActionStatusKind::Error => "border-red-400/30 bg-red-400/10 text-red-200",
        ActionStatusKind::Success => "border-emerald-400/30 bg-emerald-400/10 text-emerald-200",
        ActionStatusKind::Loading | ActionStatusKind::Progress => "border-yellow-300/30 bg-yellow-300/10 text-yellow-100",
    }
}

/// A spinner shows while an action is loading or making progress.
pub fn action_status_busy(kind: ActionStatusKind) -> (r: bool)
    ensures
        r == (kind == ActionStatusKind::Loading || kind == ActionStatusKind::Progress),
{
    match kind {
        ActionStatusKind::Loading | ActionStatusKind::Progress => true,
        _ => false,
    }
}

} // verus!
