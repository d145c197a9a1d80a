//! The writer through which formatted text reaches the console.

use vstd::prelude::*;
use crate::console::{chunks_of, output_string, utf16_of, ConsoleRequest};
use crate::registry::TableRegistry;
use crate::status::Fatal;

verus! {

/// Writes text to firmware's console.
#[derive(Clone, Copy, Debug)]
pub struct ScreenWriter;

impl ScreenWriter {
    /// The console output for `string`, as `output_string` gives it.
    pub fn write_str(&mut self, registry: &TableRegistry, string: &str) -> (result: Result<
        ConsoleRequest,
        Fatal,
    >)
        ensures
            match result {
                Ok(request) => {
                    &&& registry.current_spec() == Ok::<usize, Fatal>(request.table)
                    &&& chunks_of(request.chunks@, utf16_of(string@))
                },
                Err(e) => registry.current_spec() == Err::<usize, Fatal>(e),
            },
    {
        output_string(registry, string)
    }
}

} // verus!
