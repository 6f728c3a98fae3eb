//! The errors of the wall, and how the errors of the layers below turn into them.

use vstd::prelude::*;
use vstd::std_specs::convert::FromSpecImpl;
use cosmwasm_std::StdError;
use cw721_base::ContractError as CW721ContractError;

verus! {

/// The error of the storage and runtime layer. Nothing in the wall looks
/// inside one; it is handed on to the caller as it came.
#[verifier::external_type_specification]
#[verifier::external_body]
pub struct ExStdError(StdError);

/// The error enum of the token standard's base contract, with its variants
/// visible, so that the conversion below is checked arm by arm.
#[verifier::external_type_specification]
pub struct ExBaseContractError(CW721ContractError);

/// Why a call on the wall failed.
#[derive(Debug, PartialEq)]
pub enum ContractError {
    /// A failure of the storage or runtime layer, handed on unchanged.
    Std(StdError),
    /// The caller is neither the owner of the cell nor the administrator.
    Unauthorized {},
    /// The cell already has an owner.
    Claimed {},
    /// A delegation that has already run out (raised by the token standard only).
    Expired {},
    /// The position lies outside the wall.
    InvalidTokenRange {},
    /// The cell has never been claimed.
    DoesNotExist {},
    /// The payment does not match the mint fee.
    InsufficientFunds {},
}

/// The variant of an error, without what a storage error carries.
#[derive(Clone, Copy, Debug, PartialEq, Eq, Structural)]
pub enum ErrorKind {
    Std,
    Unauthorized,
    Claimed,
    Expired,
    InvalidTokenRange,
    DoesNotExist,
    InsufficientFunds,
}

impl ContractError {
    /// The variant of this error.
    pub open spec fn spec_kind(&self) -> ErrorKind {
        match self {
            ContractError::Std(_) => ErrorKind::Std,
            ContractError::Unauthorized {} => ErrorKind::Unauthorized,
            ContractError::Claimed {} => ErrorKind::Claimed,
            ContractError::Expired {} => ErrorKind::Expired,
            ContractError::InvalidTokenRange {} => ErrorKind::InvalidTokenRange,
            ContractError::DoesNotExist {} => ErrorKind::DoesNotExist,
            ContractError::InsufficientFunds {} => ErrorKind::InsufficientFunds,
        }
    }

    /// The variant of this error.
    #[verifier::when_used_as_spec(spec_kind)]
    pub fn kind(&self) -> (k: ErrorKind)
        ensures
            k == self.spec_kind(),
    {
        match self {
            ContractError::Std(_) => ErrorKind::Std,
            ContractError::Unauthorized {} => ErrorKind::Unauthorized,
            ContractError::Claimed {} => ErrorKind::Claimed,
            ContractError::Expired {} => ErrorKind::Expired,
            ContractError::InvalidTokenRange {} => ErrorKind::InvalidTokenRange,
            ContractError::DoesNotExist {} => ErrorKind::DoesNotExist,
            ContractError::InsufficientFunds {} => ErrorKind::InsufficientFunds,
        }
    }

    /// The text shown for this error. A storage error shows its own text.
    pub fn message(&self) -> (text: String)
        ensures
            self.kind() != ErrorKind::Std ==> text@ == kind_text(self.kind()),
    {
        match self {
            ContractError::Std(e) => storage_error_text(e),
            ContractError::Unauthorized {} => "Unauthorized".to_owned(),
            ContractError::Claimed {} => "Claimed".to_owned(),
            ContractError::Expired {} => "Expired".to_owned(),
            ContractError::InvalidTokenRange {} => "Invalid token range".to_owned(),
            ContractError::DoesNotExist {} => "Token ID Does Not Exist".to_owned(),
            ContractError::InsufficientFunds {} => "Insufficient funds".to_owned(),
        }
    }
}

/// Whether `r` is a failure of the variant `kind`.
pub open spec fn fails_with<T>(r: Result<T, ContractError>, kind: ErrorKind) -> bool {
    match r {
        Ok(_) => false,
        Err(e) => e.kind() == kind,
    }
}

/// The text shown for each variant that carries nothing.
pub open spec fn kind_text(kind: ErrorKind) -> Seq<char> {
    match kind {
        ErrorKind::Std => Seq::empty(),
        ErrorKind::Unauthorized => "Unauthorized"@,
        ErrorKind::Claimed => "Claimed"@,
        ErrorKind::Expired => "Expired"@,
        ErrorKind::InvalidTokenRange => "Invalid token range"@,
        ErrorKind::DoesNotExist => "Token ID Does Not Exist"@,
        ErrorKind::InsufficientFunds => "Insufficient funds"@,
    }
}

/// The `Display` text of `cosmwasm_std::StdError`. Nothing is claimed of it.
#[verifier::external_body]
fn storage_error_text(e: &StdError) -> String {
    e.to_string()
}

impl From<StdError> for ContractError {
    fn from(e: StdError) -> (r: ContractError) {
        ContractError::Std(e)
    }
}

impl FromSpecImpl<StdError> for ContractError {
    open spec fn obeys_from_spec() -> bool {
        true
    }

    open spec fn from_spec(e: StdError) -> ContractError {
        ContractError::Std(e)
    }
}

impl From<CW721ContractError> for ContractError {
    fn from(msg: CW721ContractError) -> (r: ContractError) {
        match msg {
            CW721ContractError::Unauthorized {} => ContractError::Unauthorized {},
            CW721ContractError::Claimed {} => ContractError::Claimed {},
            CW721ContractError::Expired {} => ContractError::Expired {},
            CW721ContractError::Std(e) => ContractError::Std(e),
        }
    }
}

impl FromSpecImpl<CW721ContractError> for ContractError {
    open spec fn obeys_from_spec() -> bool {
        true
    }

    /// Each error of the base contract becomes the variant of the same name.
    open spec fn from_spec(msg: CW721ContractError) -> ContractError {
        match msg {
            CW721ContractError::Unauthorized {} => ContractError::Unauthorized {},
            CW721ContractError::Claimed {} => ContractError::Claimed {},
            CW721ContractError::Expired {} => ContractError::Expired {},
            CW721ContractError::Std(e) => ContractError::Std(e),
        }
    }
}

} // verus!
