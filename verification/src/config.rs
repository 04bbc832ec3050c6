//! Configuration-layer errors.

use vstd::prelude::*;

verus! {

/// A named configuration value failed to load or made no sense.
#[derive(Debug)]
pub struct ConfigurationError {
    pub field: String,
    pub value: Option<String>,
    pub message: String,
}

impl ConfigurationError {
    pub fn new(field: String, value: Option<String>, msg: String) -> (r: ConfigurationError)
        ensures
            r.field@ == field@,
            (value matches Some(v) ==> (r.value matches Some(rv) && rv@ == v@)),
            value is None ==> r.value is None,
            r.message@ == msg@,
    {
        ConfigurationError { field, value, message: msg }
    }

    pub fn field(&self) -> (r: &String)
        ensures
            r@ == self.field@,
    {
        &self.field
    }

    pub fn message(&self) -> (r: &String)
        ensures
            r@ == self.message@,
    {
        &self.message
    }
}

} // verus!
