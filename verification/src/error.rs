//! Why a call is rejected.

use vstd::prelude::*;

verus! {

/// The reasons for which the marketplace rejects a call. A rejected call
/// leaves the ledger as it was.
#[derive(Clone, Copy, Debug, PartialEq, Eq, Structural)]
pub enum Error {
    /// The parameter bytes could not be decoded. The ledger never raises
    /// this itself: it is for the adapter that decodes a call's parameter.
    ParseParamsError,
    /// The name of a listing is empty once trimmed.
    NameLengthError,
    /// The total supply of a listing is zero.
    TotalSupplyError,
    /// The image reference of a listing is empty once trimmed.
    ImageUrlError,
    /// No item has the given identifier.
    ItemNotFoundError,
    /// The caller owns no unit of the item.
    ItemNotOwnedError,
}

} // verus!
