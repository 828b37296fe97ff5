//! The origin of a script.

use vstd::prelude::*;

verus! {

/// The origin, within a file, of a script. Values are held as the addresses
/// of their handles; the source map URL and the host-defined options may be
/// absent.
#[derive(Copy, Clone, Debug, PartialEq, Eq, Structural)]
pub struct ScriptOrigin {
    pub resource_name: usize,
    pub resource_line_offset: i32,
    pub resource_column_offset: i32,
    pub resource_is_shared_cross_origin: bool,
    pub script_id: i32,
    pub source_map_url: Option<usize>,
    pub resource_is_opaque: bool,
    pub is_wasm: bool,
    pub is_module: bool,
    pub host_defined_options: Option<usize>,
}

impl ScriptOrigin {
    /// The origin made of the given parts.
    pub fn new(
        resource_name: usize,
        resource_line_offset: i32,
        resource_column_offset: i32,
        resource_is_shared_cross_origin: bool,
        script_id: i32,
        source_map_url: Option<usize>,
        resource_is_opaque: bool,
        is_wasm: bool,
        is_module: bool,
        host_defined_options: Option<usize>,
    ) -> (r: Self)
        ensures
            r == (ScriptOrigin {
                resource_name,
                resource_line_offset,
                resource_column_offset,
                resource_is_shared_cross_origin,
                script_id,
                source_map_url,
                resource_is_opaque,
                is_wasm,
                is_module,
                host_defined_options,
            }),
    {
        ScriptOrigin {
            resource_name,
            resource_line_offset,
            resource_column_offset,
            resource_is_shared_cross_origin,
            script_id,
            source_map_url,
            resource_is_opaque,
            is_wasm,
            is_module,
            host_defined_options,
        }
    }

    /// The id of the script.
    pub fn script_id(&self) -> (r: i32)
        ensures
            r == self.script_id,
    {
        self.script_id
    }

    /// The name of the resource the script comes from.
    pub fn resource_name(&self) -> (r: usize)
        ensures
            r == self.resource_name,
    {
        self.resource_name
    }

    /// The URL of the script's source map, if it has one.
    pub fn source_map_url(&self) -> (r: Option<usize>)
        ensures
            r == self.source_map_url,
    {
        self.source_map_url
    }
}

} // verus!
