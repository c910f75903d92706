//! Validation of user-supplied configuration values.
use vstd::prelude::*;

verus! {

/// Describes a configuration value that failed validation.
#[derive(Clone, Debug)]
pub struct InvalidValue {
    pub object_name: String,
    pub value_name: String,
    pub value_as_string: String,
    pub expected: String,
}

/// A configuration object that can be checked for validity before use.
pub trait IsValid {
    /// What it means for this object to be valid.
    spec fn valid(&self) -> bool;

    /// The name of the field that fails validation, when one does.
    spec fn invalid_field(&self) -> Seq<char>;

    /// Whether the current object is valid or not; the error names the
    /// failing field.
    fn is_valid(&self) -> (r: Result<(), InvalidValue>)
        ensures
            r is Ok <==> self.valid(),
            r matches Err(iv) ==> iv.value_name@ == self.invalid_field(),
    ;
}

} // verus!
