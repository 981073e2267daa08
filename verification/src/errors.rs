use vstd::prelude::*;

verus! {

/// Every failure the core can report.  The taxonomy follows the system's
/// error-handling design: validation errors (caller-correctable input),
/// state conflicts (re-query and retry), arithmetic errors (checked
/// operations that failed), authorization errors (identity mismatch), and
/// external-dependency errors (clock, transfer, registry).
#[derive(Clone, Copy, Debug, PartialEq, Eq, Structural)]
pub enum ErrorCode {
    UnauthorizedBuyer,
    ContractAlreadyCompleted,
    FailedToCreateCollection,
    ClockUnavailable,
    InvalidVendor,
    InvalidEquipment,
    FailedToMintNFT,
    MetaplexError,
    MarketplaceAlreadyExists,
    InvalidMarketplaceAuthority,
    MathOverflow,
    InvalidPrice,
    FirstPaymentBelowDeposit,
    InvalidDuration,
    InvalidInsurancePremium,
    EquipmentNotFound,
    InvalidEquipmentUpdate,
    InvalidEquipmentPrice,
    InvalidEquipmentName,
    InvalidEquipmentUri,
    UnauthorizedEquipmentUpdate,
    InvalidStringLength,
    InvalidUri,
    InvalidName,
    InvalidInstallmentFrequency,
    BuyerSignatureRequired,
    SellerSignatureRequired,
    InvalidPaymentAmount,
    Overpayment,
    InvalidTimestamp,
    InvalidAmount,
    BorrowerMismatch,
    InvalidCreditScorePda,
    InvalidMint,
    InvalidSellerTokenAccount,
    InvalidBuyerTokenAccount,
    OutOfStock,
    NoRemainingQuantity,
    LoanNotFound,
    DepositBelowMinimum,
    InvalidFunderPrice,
    DurationExceedsMax,
    InvalidPayee,
    InsufficientQuantity,
    TokenTransferFailed,
    InvalidContract,
    InvalidPaymentPreference,
    EquipmentNotAvailable,
    InvalidFrequency,
    NoAvailableFunder,
    NoFundedUnitsAvailable,
    TooManyInstallments,
    Unauthorized,
    InvalidDeliveryStatus,
    FundsAlreadyReleased,
    InvalidEscrow,
}

} // verus!
