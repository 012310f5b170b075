use vstd::prelude::*;

verus! {

/// Errors of this program's own, reported to the host as a custom code.
#[derive(Debug, Copy, Clone, PartialEq, Eq, Structural)]
pub enum EchoError {
    /// The unrestricted buffer already holds data: its bytes do not sum to zero.
    BufferNonZero,
}

impl EchoError {
    /// The custom error code under which the host reports this error.
    pub fn code(&self) -> (r: u32)
        ensures
            r == 0,
    {
        match self {
            EchoError::BufferNonZero => 0,
        }
    }

    /// A readable description of the error.
    pub fn message(&self) -> (r: String)
        ensures
            r@ == "Buffer consists of non-zero data"@,
    {
        match self {
            EchoError::BufferNonZero => String::from_str("Buffer consists of non-zero data"),
        }
    }
}

/// Why an instruction was refused.
#[derive(Debug, Copy, Clone, PartialEq, Eq, Structural)]
pub enum ProgramFault {
    /// An account that must have signed did not.
    MissingRequiredSignature,
    /// A service account is not the expected one, or a derived address does not match.
    InvalidArgument,
    /// The instruction bytes do not decode.
    InvalidAccountData,
    /// Fewer accounts were passed than the instruction reads.
    NotEnoughAccountKeys,
    /// A buffer is too small to hold its envelope or header.
    AccountDataTooSmall,
    /// A byte array was too long for its length prefix.
    BorshIoError,
    /// An error of this program's own.
    Echo(EchoError),
    /// A failure reported by the host's account-creation or burn call, by its code.
    External(u64),
}

} // verus!
