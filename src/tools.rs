//! External tools that building a contract requires.

use crate::text::{contains_text, occurs_at};
use vstd::prelude::*;

verus! {

/// The compilation target that contracts are built for.
pub const WASM_TARGET: &'static str = "wasm32-unknown-unknown";

/// Shown when cargo is missing.
pub const CARGO_HINT: &'static str =
    "Cargo is not installed. Please install Rust and Cargo from https://rustup.rs/.";

/// Shown when rustup is missing.
pub const RUSTUP_HINT: &'static str =
    "Rustup is not installed. Please install Rustup from https://rustup.rs/.";

/// Shown when wasm2wat is missing.
pub const WASM2WAT_HINT: &'static str =
    "wasm2wat is not installed. Please install it:\n- For MacOS: `brew install wabt`\n- For Linux: check your package manager\n- For Windows: download from https://github.com/WebAssembly/wabt/releases";

/// An external tool the build needs.
#[derive(Clone, Copy, Debug, PartialEq, Eq, Structural)]
pub enum Tool {
    Cargo,
    Rustup,
    WasmTarget,
    Wasm2Wat,
}

impl Tool {
    /// The tools to check, in order: cargo, rustup and the WebAssembly
    /// target, then `wasm2wat` when a `.wat` file is wanted.
    pub fn all(include_wasm2wat: bool) -> (r: Vec<Tool>)
        ensures
            include_wasm2wat ==> r@ == seq![Tool::Cargo, Tool::Rustup, Tool::WasmTarget, Tool::Wasm2Wat],
            !include_wasm2wat ==> r@ == seq![Tool::Cargo, Tool::Rustup, Tool::WasmTarget],
    {
        let mut deps = vec![Tool::Cargo, Tool::Rustup, Tool::WasmTarget];
        if include_wasm2wat {
            deps.push(Tool::Wasm2Wat);
        }
        deps
    }

    /// The program that provides the tool.
    pub fn command(&self) -> (r: &'static str)
        ensures
            *self == Tool::Cargo ==> r@ == "cargo"@,
            *self == Tool::Rustup || *self == Tool::WasmTarget ==> r@ == "rustup"@,
            *self == Tool::Wasm2Wat ==> r@ == "wasm2wat"@,
    {
        match self {
            Tool::Cargo => "cargo",
            Tool::Rustup => "rustup",
            Tool::WasmTarget => "rustup",
            Tool::Wasm2Wat => "wasm2wat",
        }
    }

    /// The tool's name for messages.
    pub fn label(&self) -> (r: &'static str)
        ensures
            *self == Tool::Cargo ==> r@ == "Cargo"@,
            *self == Tool::Rustup ==> r@ == "Rustup"@,
            *self == Tool::WasmTarget ==> r@ == "wasm32-unknown-unknown target"@,
            *self == Tool::Wasm2Wat ==> r@ == "wasm2wat"@,
    {
        match self {
            Tool::Cargo => "Cargo",
            Tool::Rustup => "Rustup",
            Tool::WasmTarget => "wasm32-unknown-unknown target",
            Tool::Wasm2Wat => "wasm2wat",
        }
    }

    /// Only the WebAssembly target can be installed by the tool itself
    /// (through rustup); the others must be installed by hand.
    pub fn can_install(&self) -> (r: bool)
        ensures
            r == (*self == Tool::WasmTarget),
    {
        match self {
            Tool::WasmTarget => true,
            _ => false,
        }
    }

    /// What to tell the user when a tool that cannot be installed
    /// automatically is missing; `None` for the WebAssembly target.
    pub fn manual_install_hint(&self) -> (r: Option<&'static str>)
        ensures
            r is None <==> *self == Tool::WasmTarget,
            *self == Tool::Cargo ==> r->0@ == CARGO_HINT@,
            *self == Tool::Rustup ==> r->0@ == RUSTUP_HINT@,
            *self == Tool::Wasm2Wat ==> r->0@ == WASM2WAT_HINT@,
    {
        match self {
            Tool::Cargo => Some(CARGO_HINT),
            Tool::Rustup => Some(RUSTUP_HINT),
            Tool::WasmTarget => None,
            Tool::Wasm2Wat => Some(WASM2WAT_HINT),
        }
    }
}

/// Whether the output of `rustup target list --installed` lists the
/// WebAssembly target.
pub fn lists_wasm_target(installed_targets: &str) -> (r: bool)
    ensures
        r == exists|i: int| occurs_at(installed_targets@, WASM_TARGET@, i),
{
    contains_text(installed_targets, WASM_TARGET)
}

} // verus!
