//! The module table: the name under which the host imports this module and
//! the one function it exports. It is filled once, when the module loads,
//! and never changed afterwards.
use vstd::prelude::*;

verus! {

/// The name under which the host imports the module.
pub open spec fn module_name_spec() -> Seq<char> {
    "_rust"@
}

/// The name of the exported greeting function.
pub open spec fn function_name_spec() -> Seq<char> {
    "hello"@
}

/// A callable that the module exports.
#[derive(Debug, Clone, Copy, PartialEq, Eq, Structural)]
pub enum Export {
    /// The greeting function, taking one positional text argument.
    Hello,
}

/// The names registered when the module loads.
pub struct ModuleTable {
    name: String,
    function: String,
}

impl ModuleTable {
    /// The table holds the fixed module name and the one exported function.
    pub closed spec fn wf(&self) -> bool {
        &&& self.name@ == module_name_spec()
        &&& self.function@ == function_name_spec()
    }

    /// Registers the module's names; this happens once, at load time.
    pub fn load() -> (t: ModuleTable)
        ensures
            t.wf(),
    {
        ModuleTable { name: "_rust".to_owned(), function: "hello".to_owned() }
    }

    /// The name under which the host imports the module.
    pub fn module_name(&self) -> (r: &str)
        requires
            self.wf(),
        ensures
            r@ == module_name_spec(),
    {
        self.name.as_str()
    }

    /// The name of the exported function.
    pub fn function_name(&self) -> (r: &str)
        requires
            self.wf(),
        ensures
            r@ == function_name_spec(),
    {
        self.function.as_str()
    }

    /// The export registered under `function` in the module named `module`.
    pub fn resolve(&self, module: &str, function: &str) -> (r: Option<Export>)
        requires
            self.wf(),
        ensures
            r is Some <==> module@ == module_name_spec() && function@ == function_name_spec(),
            r matches Some(e) ==> e == Export::Hello,
    {
        if module.to_owned() == self.name && function.to_owned() == self.function {
            Some(Export::Hello)
        } else {
            None
        }
    }
}

} // verus!
