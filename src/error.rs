use vstd::prelude::*;

verus! {

/// Why a declaration was refused; each one halts generation for that declaration.
#[derive(Clone, Copy, Debug, PartialEq, Eq, Structural)]
pub enum GenError {
    /// A state set names no state.
    EmptyStateSet,
    /// A state set names some state twice.
    DuplicateState,
    /// A struct tracks no state slot.
    ZeroSlots,
    /// The default state of a struct is not in its state set.
    UnknownDefaultState,
    /// A state tuple has another length than the struct's slot count.
    SlotCountMismatch,
    /// A concrete element of a state tuple is not in the state set.
    UnknownState,
    /// A placeholder of a target tuple is not opened by the required tuple.
    UnboundPlaceholder,
    /// A transitioning method does not return the bare struct type.
    BareReturnRequired,
}

/// The description of each failure.
pub open spec fn error_text(e: GenError) -> Seq<char> {
    match e {
        GenError::EmptyStateSet => "a state-set requires at least one state"@,
        GenError::DuplicateState => "duplicate state name"@,
        GenError::ZeroSlots => "a type-state struct requires at least one state slot"@,
        GenError::UnknownDefaultState => "the default state is not one of the declared states"@,
        GenError::SlotCountMismatch => "slot index out of range"@,
        GenError::UnknownState => "unknown state name"@,
        GenError::UnboundPlaceholder => "placeholder in target tuple is not bound by the required tuple"@,
        GenError::BareReturnRequired => "switch_to requires a bare struct return type"@,
    }
}

impl GenError {
    /// A short description of the failure.
    pub fn message(&self) -> (r: &'static str)
        ensures
            r@ == error_text(*self),
    {
        match self {
            GenError::EmptyStateSet => "a state-set requires at least one state",
            GenError::DuplicateState => "duplicate state name",
            GenError::ZeroSlots => "a type-state struct requires at least one state slot",
            GenError::UnknownDefaultState => "the default state is not one of the declared states",
            GenError::SlotCountMismatch => "slot index out of range",
            GenError::UnknownState => "unknown state name",
            GenError::UnboundPlaceholder => "placeholder in target tuple is not bound by the required tuple",
            GenError::BareReturnRequired => "switch_to requires a bare struct return type",
        }
    }
}

/// The message that aborts a declaration: its name, then the description of the failure.
pub fn describe(e: GenError, declaration: &String) -> (r: String)
    ensures
        r@ == declaration@ + ": "@ + error_text(e),
{
    proof {
        reveal_strlit(": ");
    }
    let mut r = declaration.clone();
    r.append(": ");
    r.append(e.message());
    r
}

} // verus!
