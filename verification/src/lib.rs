//! The decisions of a loader that brings lovely mods to Balatro on the Switch:
//! which offset table fits the running build, how other plugins are told that the
//! game's Lua state is ready, how the Lua stack is rearranged around a protected call,
//! how the `nxfs` file functions shape their arguments and results, and which route
//! each Lua chunk takes through the loader.
use vstd::prelude::*;

pub mod loader;
pub mod lua_stack;
pub mod nxfs;
pub mod offsets;
pub mod plugin_api;
pub mod registry;

verus! {

/// Where mods are loaded from; the counterpart of `%APPDATA%\\Balatro\\Mods` on PC.
pub const MOD_DIR: &'static str = "sd:/Balatro/Mods";

} // verus!
