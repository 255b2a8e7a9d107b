//! The state shared by the handlers of an application.
use ntex::http::Method;
use vstd::prelude::*;

verus! {

/// `ntex::http::Method`: an HTTP method.
#[verifier::external_type_specification]
#[verifier::external_body]
pub struct ExMethod(Method);

/// The settings that every handler can read.
#[derive(Clone)]
pub struct FoxtiveNtexState {
    /// list of allowed origins
    pub allowed_origins: Vec<String>,
    /// list of allowed methods
    pub allowed_methods: Vec<Method>,
}

/// What a state is made from.
pub struct FoxtiveNtexSetup {
    pub allowed_origins: Vec<String>,
    pub allowed_methods: Vec<Method>,
}

impl FoxtiveNtexState {
    /// The name under which the state shows itself when printed.
    pub fn describe(&self) -> (r: String)
        ensures
            r@ == "application state"@,
    {
        String::from_str("application state")
    }
}

/// The state for `setup`: its origins and methods as they are.
pub fn create_app_state(setup: FoxtiveNtexSetup) -> (r: FoxtiveNtexState)
    ensures
        r.allowed_origins == setup.allowed_origins,
        r.allowed_methods == setup.allowed_methods,
{
    FoxtiveNtexState {
        allowed_origins: setup.allowed_origins,
        allowed_methods: setup.allowed_methods,
    }
}

} // verus!
