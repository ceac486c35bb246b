//! Window configuration shared with the presentation layer, and the
//! work-area fallback read from the renderer's configuration file.

use crate::bounds::WindowRect;
use crate::paths::opt_string_view;
use vstd::prelude::*;

verus! {

/// Labels identifying the overlay's windows; the field names mirror
/// the keys of the shared configuration file.
#[derive(Debug)]
#[allow(non_snake_case)]
pub struct WindowLabels {
    pub Main: String,
    pub Chat: String,
    pub ChatButton: String,
    pub TradeMessages: String,
    pub QuickList: String,
    pub ItemSearch: String,
    pub Settings: String,
    pub Currency: String,
    pub Toast: String,
}

/// Titles of the overlay's windows, plus the common title prefix that
/// marks a window as the overlay's own.
#[derive(Debug)]
#[allow(non_snake_case)]
pub struct WindowTitles {
    pub Main: String,
    pub Chat: String,
    pub ChatButton: String,
    pub TradeMessages: String,
    pub QuickList: String,
    pub ItemSearch: String,
    pub Settings: String,
    pub Currency: String,
    pub Toast: String,
    pub PREFIX: String,
}

/// The window labels and titles together.
#[derive(Debug)]
pub struct WindowConfig {
    pub labels: WindowLabels,
    pub titles: WindowTitles,
}

/// What the screen block of the renderer configuration text holds as
/// window size and centered flag: `(width, height, centered)` when
/// the text is JSON whose `screen` member carries the two integer
/// size fields and the boolean flag, nothing otherwise. A function of
/// the text alone.
pub uninterp spec fn screen_config_of(text: Seq<char>) -> Option<(i64, i64, bool)>;

/// What the screen block of the renderer configuration text holds as
/// window position: `(x, y)` when the text is JSON whose `screen`
/// member carries the two integer position fields, nothing otherwise.
/// A function of the text alone.
pub uninterp spec fn screen_position_of(text: Seq<char>) -> Option<(i64, i64)>;

/// What the settings text holds as the configured installation
/// directory: the string under `pd2InstallDir` when the text is JSON
/// with such a member, nothing otherwise. A function of the text
/// alone.
pub uninterp spec fn install_dir_of(text: Seq<char>) -> Option<Seq<char>>;

/// Relies on `serde_json::from_str::<serde_json::Value>`,
/// `Value::get`, `Value::as_i64` and `Value::as_bool`: extracts the
/// screen block's window size and centered flag, which depend on the
/// text alone.
#[verifier::external_body]
fn read_screen_config(text: &str) -> (r: Option<(i64, i64, bool)>)
    ensures
        r == screen_config_of(text@),
{
    let v: serde_json::Value = serde_json::from_str(text).ok()?;
    let s = v.get("screen")?;
    let width = s.get("window_size_width")?.as_i64()?;
    let height = s.get("window_size_height")?.as_i64()?;
    let centered = s.get("window_centered")?.as_bool()?;
    Some((width, height, centered))
}

/// Relies on `serde_json::from_str::<serde_json::Value>`,
/// `Value::get` and `Value::as_i64`: extracts the screen block's
/// window position, which depends on the text alone.
#[verifier::external_body]
fn read_screen_position(text: &str) -> (r: Option<(i64, i64)>)
    ensures
        r == screen_position_of(text@),
{
    let v: serde_json::Value = serde_json::from_str(text).ok()?;
    let s = v.get("screen")?;
    let x = s.get("window_position_x")?.as_i64()?;
    let y = s.get("window_position_y")?.as_i64()?;
    Some((x, y))
}

/// Relies on `serde_json::from_str::<serde_json::Value>`,
/// `Value::get` and `Value::as_str`: extracts the configured install
/// directory, which depends on the text alone.
#[verifier::external_body]
fn read_install_dir(text: &str) -> (r: Option<String>)
    ensures
        opt_string_view(r) == install_dir_of(text@),
{
    let v: serde_json::Value = serde_json::from_str(text).ok()?;
    Some(v.get("pd2InstallDir")?.as_str()?.to_owned())
}

/// The rectangle built from extracted screen values: defined exactly
/// when every value fits the screen-coordinate range.
pub open spec fn rect_value_spec(width: i64, height: i64, x: i64, y: i64) -> Option<WindowRect> {
    if i32::MIN <= width <= i32::MAX && i32::MIN <= height <= i32::MAX && i32::MIN <= x <= i32::MAX
        && i32::MIN <= y <= i32::MAX {
        Some(WindowRect { x: x as i32, y: y as i32, width: width as i32, height: height as i32 })
    } else {
        None
    }
}

/// The work area the renderer configuration describes: the configured
/// size with the configured position — the origin when the window is
/// centered — and nothing when a required field is missing or a value
/// does not fit the screen-coordinate range.
pub open spec fn screen_rect_spec(
    size: Option<(i64, i64, bool)>,
    pos: Option<(i64, i64)>,
) -> Option<WindowRect> {
    match size {
        Some(s) => if s.2 {
            rect_value_spec(s.0, s.1, 0, 0)
        } else {
            match pos {
                Some(p) => rect_value_spec(s.0, s.1, p.0, p.1),
                None => None,
            }
        },
        None => None,
    }
}

/// Builds the work-area rectangle from the values read from the
/// renderer configuration: the configured size, and the configured
/// position only when the window is not centered. A value outside
/// the screen-coordinate range yields nothing.
pub fn rect_from_screen_values(
    width: i64,
    height: i64,
    centered: bool,
    pos_x: i64,
    pos_y: i64,
) -> (r: Option<WindowRect>)
    ensures
        ({
            let x: i64 = if centered {
                0
            } else {
                pos_x
            };
            let y: i64 = if centered {
                0
            } else {
                pos_y
            };
            r == rect_value_spec(width, height, x, y)
        }),
{
    let x: i64 = if centered {
        0
    } else {
        pos_x
    };
    let y: i64 = if centered {
        0
    } else {
        pos_y
    };
    let lo: i64 = -2147483648;
    let hi: i64 = 2147483647;
    if width < lo || width > hi || height < lo || height > hi || x < lo || x > hi || y < lo || y
        > hi {
        return None;
    }
    Some(WindowRect { x: x as i32, y: y as i32, width: width as i32, height: height as i32 })
}

/// Reads the work-area fallback from the renderer configuration
/// text: the configured window size and, unless the window is
/// centered, its configured position, assembled into a rectangle
/// exactly as `screen_rect_spec` states over the named extractions.
pub fn work_area_from_config(text: &str) -> (r: Option<WindowRect>)
    ensures
        r == screen_rect_spec(screen_config_of(text@), screen_position_of(text@)),
{
    match read_screen_config(text) {
        None => None,
        Some(size) => {
            if size.2 {
                rect_from_screen_values(size.0, size.1, true, 0, 0)
            } else {
                match read_screen_position(text) {
                    Some(pos) => rect_from_screen_values(size.0, size.1, false, pos.0, pos.1),
                    None => None,
                }
            }
        },
    }
}

/// Reads the configured installation directory from the settings
/// text, when one is set.
pub fn settings_install_dir(text: &str) -> (r: Option<String>)
    ensures
        opt_string_view(r) == install_dir_of(text@),
{
    read_install_dir(text)
}

} // verus!
