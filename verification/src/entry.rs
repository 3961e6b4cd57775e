//! Validation of the user entry point.  The runtime calls the user's
//! `main` through a fixed exported symbol; the attribute that performs
//! the rename only accepts a plain function of no arguments that never
//! returns.  The shape checks live here; the surrounding syntax handling
//! stays outside the library.

use vstd::prelude::*;

verus! {

/// The shape of a candidate entry function, as read off its syntax.
pub struct EntrySignature {
    /// Tokens were handed to the attribute itself.
    pub has_attribute_arguments: bool,
    /// The function is declared `async`.
    pub is_async: bool,
    /// The function is declared `unsafe`.
    pub is_unsafe: bool,
    /// The function names an ABI.
    pub has_explicit_abi: bool,
    /// The number of generic parameters.
    pub n_generic_params: usize,
    /// The number of value parameters.
    pub n_inputs: usize,
    /// The function is variadic.
    pub is_variadic: bool,
    /// A return type is written at all.
    pub has_return_type: bool,
    /// The written return type is the never type.
    pub returns_never: bool,
}

/// Why a candidate entry function is rejected.
#[derive(Clone, Copy, Debug, PartialEq, Eq, Structural)]
pub enum EntryError {
    /// The attribute takes no arguments.
    AttributeArguments,
    /// The entry function cannot be `async`.
    Async,
    /// The entry function cannot be `unsafe`.
    Unsafe,
    /// The entry function must use the default ABI.
    ExplicitAbi,
    /// The entry function cannot have generic parameters.
    Generics,
    /// The entry function cannot have parameters.
    Arguments,
    /// The entry function cannot be variadic.
    Variadic,
    /// The entry function must declare that it never returns.
    MissingReturnType,
    /// The declared return type must be the never type.
    WrongReturnType,
}

/// The verdict on a candidate entry function, checked in declaration
/// order: the first offending part of the signature names the error.
pub open spec fn spec_validate_entry(sig: EntrySignature) -> Result<(), EntryError> {
    if sig.has_attribute_arguments {
        Err(EntryError::AttributeArguments)
    } else if sig.is_async {
        Err(EntryError::Async)
    } else if sig.is_unsafe {
        Err(EntryError::Unsafe)
    } else if sig.has_explicit_abi {
        Err(EntryError::ExplicitAbi)
    } else if sig.n_generic_params > 0 {
        Err(EntryError::Generics)
    } else if sig.n_inputs > 0 {
        Err(EntryError::Arguments)
    } else if sig.is_variadic {
        Err(EntryError::Variadic)
    } else if !sig.has_return_type {
        Err(EntryError::MissingReturnType)
    } else if !sig.returns_never {
        Err(EntryError::WrongReturnType)
    } else {
        Ok(())
    }
}

/// Accept exactly the signatures the runtime can call: a plain function
/// with no attribute arguments, no qualifiers, no generics, no parameters
/// and the never type as its written return type.  Anything else is
/// rejected with the error for the first offending part.
pub fn validate_entry(sig: &EntrySignature) -> (r: Result<(), EntryError>)
    ensures
        r == spec_validate_entry(*sig),
        r is Ok <==> {
            &&& !sig.has_attribute_arguments
            &&& !sig.is_async
            &&& !sig.is_unsafe
            &&& !sig.has_explicit_abi
            &&& sig.n_generic_params == 0
            &&& sig.n_inputs == 0
            &&& !sig.is_variadic
            &&& sig.has_return_type
            &&& sig.returns_never
        },
{
    if sig.has_attribute_arguments {
        Err(EntryError::AttributeArguments)
    } else if sig.is_async {
        Err(EntryError::Async)
    } else if sig.is_unsafe {
        Err(EntryError::Unsafe)
    } else if sig.has_explicit_abi {
        Err(EntryError::ExplicitAbi)
    } else if sig.n_generic_params > 0 {
        Err(EntryError::Generics)
    } else if sig.n_inputs > 0 {
        Err(EntryError::Arguments)
    } else if sig.is_variadic {
        Err(EntryError::Variadic)
    } else if !sig.has_return_type {
        Err(EntryError::MissingReturnType)
    } else if !sig.returns_never {
        Err(EntryError::WrongReturnType)
    } else {
        Ok(())
    }
}

} // verus!
