//! Engine for a transparent desktop overlay that follows a foreign
//! application window: focus tracking, bounds diffing, click-through
//! arbitration of overlay hot-zones, and incremental tailing of an
//! append-only chat log with grammar-based line classification.

use vstd::prelude::*;
use vstd::string::*;

pub mod arbiter;
pub mod bounds;
pub mod focus;
pub mod config;
pub mod parse;
pub mod paths;
pub mod system;
pub mod tailer;
pub mod text;

verus! {

/// Friendly greeting returned to the presentation layer.
pub fn greet(name: &str) -> (r: String)
    ensures
        r@ == "Hello, "@ + name@ + "! You've been greeted from Rust!"@,
{
    let mut s = String::from_str("Hello, ");
    s.append(name);
    s.append("! You've been greeted from Rust!");
    s
}

} // verus!
