//! The modules that the language brings with it. A program reaches one by its
//! name once it has imported it.
use vstd::prelude::*;
use crate::standard_library::console::ConsoleModule;

pub mod console;

verus! {

/// The built-in modules.
#[derive(Clone, Copy, Debug, PartialEq, Eq)]
pub struct StandardLibrary {
    pub console_module: ConsoleModule,
}

impl Default for StandardLibrary {
    fn default() -> (library: StandardLibrary)
        ensures
            library == (StandardLibrary { console_module: ConsoleModule {  } }),
    {
        StandardLibrary { console_module: ConsoleModule {  } }
    }
}

} // verus!
