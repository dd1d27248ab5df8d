//! The editor's tools and the commands its bake buttons issue.

use vstd::prelude::*;
use vstd::string::StringExecFns;

verus! {

/// Shared state of the tool system.
pub struct ToolData {}

impl Default for ToolData {
    fn default() -> ToolData {
        ToolData {}
    }
}

/// The editor's tools: object selection, and room placement.
#[derive(Clone, PartialEq, Eq, Structural, Hash, Debug)]
pub enum Tools {
    Select,
    Room,
}

impl Default for Tools {
    /// Selection is the tool the editor starts with.
    fn default() -> (r: Tools)
        ensures
            r is Select,
    {
        Tools::Select
    }
}

impl Tools {
    /// The tool's display name.
    pub fn name(&self) -> (r: String)
        ensures
            self is Select ==> r@ == "Select"@,
            self is Room ==> r@ == "Room"@,
    {
        match self {
            Tools::Select => String::from_str("Select"),
            Tools::Room => String::from_str("Room"),
        }
    }
}

/// What the bake buttons asked for this frame.
pub struct BakeCommands {
    pub calculate_room_geometry: bool,
}

impl Default for BakeCommands {
    /// Nothing asked for.
    fn default() -> (r: BakeCommands)
        ensures
            !r.calculate_room_geometry,
    {
        BakeCommands { calculate_room_geometry: false }
    }
}

} // verus!
