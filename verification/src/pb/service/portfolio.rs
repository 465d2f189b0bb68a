//! Portfolio service messages and enums.

use vstd::prelude::*;

verus! {

/// Asset class on the wire.
#[derive(Clone, Copy, Debug, PartialEq, Eq, Structural)]
pub enum PortfolioAssetClass {
    Unspecified,
    SavingsAccount,
    FixedDeposit,
    GoldLot,
    StockLot,
    EtfLot,
    CryptoLot,
}

impl PortfolioAssetClass {
    /// Wire number of the variant.
    pub open spec fn spec_code(self) -> i32 {
        match self {
            PortfolioAssetClass::Unspecified => 0,
            PortfolioAssetClass::SavingsAccount => 1,
            PortfolioAssetClass::FixedDeposit => 2,
            PortfolioAssetClass::GoldLot => 3,
            PortfolioAssetClass::StockLot => 4,
            PortfolioAssetClass::EtfLot => 5,
            PortfolioAssetClass::CryptoLot => 6,
        }
    }

    /// The variant with wire number `c`, if any.
    pub open spec fn spec_from_code(c: i32) -> Option<PortfolioAssetClass> {
        if c == 0 {
            Some(PortfolioAssetClass::Unspecified)
        } else if c == 1 {
            Some(PortfolioAssetClass::SavingsAccount)
        } else if c == 2 {
            Some(PortfolioAssetClass::FixedDeposit)
        } else if c == 3 {
            Some(PortfolioAssetClass::GoldLot)
        } else if c == 4 {
            Some(PortfolioAssetClass::StockLot)
        } else if c == 5 {
            Some(PortfolioAssetClass::EtfLot)
        } else if c == 6 {
            Some(PortfolioAssetClass::CryptoLot)
        } else {
            None
        }
    }

    pub fn code(self) -> (r: i32)
        ensures
            r == self.spec_code(),
    {
        match self {
            PortfolioAssetClass::Unspecified => 0,
            PortfolioAssetClass::SavingsAccount => 1,
            PortfolioAssetClass::FixedDeposit => 2,
            PortfolioAssetClass::GoldLot => 3,
            PortfolioAssetClass::StockLot => 4,
            PortfolioAssetClass::EtfLot => 5,
            PortfolioAssetClass::CryptoLot => 6,
        }
    }

    pub fn from_code(c: i32) -> (r: Option<PortfolioAssetClass>)
        ensures
            r == Self::spec_from_code(c),
    {
        if c == 0 {
            Some(PortfolioAssetClass::Unspecified)
        } else if c == 1 {
            Some(PortfolioAssetClass::SavingsAccount)
        } else if c == 2 {
            Some(PortfolioAssetClass::FixedDeposit)
        } else if c == 3 {
            Some(PortfolioAssetClass::GoldLot)
        } else if c == 4 {
            Some(PortfolioAssetClass::StockLot)
        } else if c == 5 {
            Some(PortfolioAssetClass::EtfLot)
        } else if c == 6 {
            Some(PortfolioAssetClass::CryptoLot)
        } else {
            None
        }
    }
}

/// Asset status on the wire.
#[derive(Clone, Copy, Debug, PartialEq, Eq, Structural)]
pub enum PortfolioAssetStatus {
    Unspecified,
    Active,
    Closed,
    Matured,
    Sold,
    Archived,
    RolledOver,
    Withdrawn,
    EarlyClosed,
}

impl PortfolioAssetStatus {
    /// Wire number of the variant.
    pub open spec fn spec_code(self) -> i32 {
        match self {
            PortfolioAssetStatus::Unspecified => 0,
            PortfolioAssetStatus::Active => 1,
            PortfolioAssetStatus::Closed => 2,
            PortfolioAssetStatus::Matured => 3,
            PortfolioAssetStatus::Sold => 4,
            PortfolioAssetStatus::Archived => 5,
            PortfolioAssetStatus::RolledOver => 6,
            PortfolioAssetStatus::Withdrawn => 7,
            PortfolioAssetStatus::EarlyClosed => 8,
        }
    }

    /// The variant with wire number `c`, if any.
    pub open spec fn spec_from_code(c: i32) -> Option<PortfolioAssetStatus> {
        if c == 0 {
            Some(PortfolioAssetStatus::Unspecified)
        } else if c == 1 {
            Some(PortfolioAssetStatus::Active)
        } else if c == 2 {
            Some(PortfolioAssetStatus::Closed)
        } else if c == 3 {
            Some(PortfolioAssetStatus::Matured)
        } else if c == 4 {
            Some(PortfolioAssetStatus::Sold)
        } else if c == 5 {
            Some(PortfolioAssetStatus::Archived)
        } else if c == 6 {
            Some(PortfolioAssetStatus::RolledOver)
        } else if c == 7 {
            Some(PortfolioAssetStatus::Withdrawn)
        } else if c == 8 {
            Some(PortfolioAssetStatus::EarlyClosed)
        } else {
            None
        }
    }

    pub fn code(self) -> (r: i32)
        ensures
            r == self.spec_code(),
    {
        match self {
            PortfolioAssetStatus::Unspecified => 0,
            PortfolioAssetStatus::Active => 1,
            PortfolioAssetStatus::Closed => 2,
            PortfolioAssetStatus::Matured => 3,
            PortfolioAssetStatus::Sold => 4,
            PortfolioAssetStatus::Archived => 5,
            PortfolioAssetStatus::RolledOver => 6,
            PortfolioAssetStatus::Withdrawn => 7,
            PortfolioAssetStatus::EarlyClosed => 8,
        }
    }

    pub fn from_code(c: i32) -> (r: Option<PortfolioAssetStatus>)
        ensures
            r == Self::spec_from_code(c),
    {
        if c == 0 {
            Some(PortfolioAssetStatus::Unspecified)
        } else if c == 1 {
            Some(PortfolioAssetStatus::Active)
        } else if c == 2 {
            Some(PortfolioAssetStatus::Closed)
        } else if c == 3 {
            Some(PortfolioAssetStatus::Matured)
        } else if c == 4 {
            Some(PortfolioAssetStatus::Sold)
        } else if c == 5 {
            Some(PortfolioAssetStatus::Archived)
        } else if c == 6 {
            Some(PortfolioAssetStatus::RolledOver)
        } else if c == 7 {
            Some(PortfolioAssetStatus::Withdrawn)
        } else if c == 8 {
            Some(PortfolioAssetStatus::EarlyClosed)
        } else {
            None
        }
    }
}

/// Unit in which a gold quantity was entered.
#[derive(Clone, Copy, Debug, PartialEq, Eq, Structural)]
pub enum GoldUnit {
    Unspecified,
    Chi,
    Luong,
    Gram,
}

impl GoldUnit {
    /// Wire number of the variant.
    pub open spec fn spec_code(self) -> i32 {
        match self {
            GoldUnit::Unspecified => 0,
            GoldUnit::Chi => 1,
            GoldUnit::Luong => 2,
            GoldUnit::Gram => 3,
        }
    }

    /// The variant with wire number `c`, if any.
    pub open spec fn spec_from_code(c: i32) -> Option<GoldUnit> {
        if c == 0 {
            Some(GoldUnit::Unspecified)
        } else if c == 1 {
            Some(GoldUnit::Chi)
        } else if c == 2 {
            Some(GoldUnit::Luong)
        } else if c == 3 {
            Some(GoldUnit::Gram)
        } else {
            None
        }
    }

    pub fn code(self) -> (r: i32)
        ensures
            r == self.spec_code(),
    {
        match self {
            GoldUnit::Unspecified => 0,
            GoldUnit::Chi => 1,
            GoldUnit::Luong => 2,
            GoldUnit::Gram => 3,
        }
    }

    pub fn from_code(c: i32) -> (r: Option<GoldUnit>)
        ensures
            r == Self::spec_from_code(c),
    {
        if c == 0 {
            Some(GoldUnit::Unspecified)
        } else if c == 1 {
            Some(GoldUnit::Chi)
        } else if c == 2 {
            Some(GoldUnit::Luong)
        } else if c == 3 {
            Some(GoldUnit::Gram)
        } else {
            None
        }
    }
}

/// Gold purity grade.
#[derive(Clone, Copy, Debug, PartialEq, Eq, Structural)]
pub enum GoldPurity {
    Unspecified,
    Sjc9999,
    Pnj999,
    Pnj995,
    Doji9999,
    Other,
}

impl GoldPurity {
    /// Wire number of the variant.
    pub open spec fn spec_code(self) -> i32 {
        match self {
            GoldPurity::Unspecified => 0,
            GoldPurity::Sjc9999 => 1,
            GoldPurity::Pnj999 => 2,
            GoldPurity::Pnj995 => 3,
            GoldPurity::Doji9999 => 4,
            GoldPurity::Other => 5,
        }
    }

    /// The variant with wire number `c`, if any.
    pub open spec fn spec_from_code(c: i32) -> Option<GoldPurity> {
        if c == 0 {
            Some(GoldPurity::Unspecified)
        } else if c == 1 {
            Some(GoldPurity::Sjc9999)
        } else if c == 2 {
            Some(GoldPurity::Pnj999)
        } else if c == 3 {
            Some(GoldPurity::Pnj995)
        } else if c == 4 {
            Some(GoldPurity::Doji9999)
        } else if c == 5 {
            Some(GoldPurity::Other)
        } else {
            None
        }
    }

    pub fn code(self) -> (r: i32)
        ensures
            r == self.spec_code(),
    {
        match self {
            GoldPurity::Unspecified => 0,
            GoldPurity::Sjc9999 => 1,
            GoldPurity::Pnj999 => 2,
            GoldPurity::Pnj995 => 3,
            GoldPurity::Doji9999 => 4,
            GoldPurity::Other => 5,
        }
    }

    pub fn from_code(c: i32) -> (r: Option<GoldPurity>)
        ensures
            r == Self::spec_from_code(c),
    {
        if c == 0 {
            Some(GoldPurity::Unspecified)
        } else if c == 1 {
            Some(GoldPurity::Sjc9999)
        } else if c == 2 {
            Some(GoldPurity::Pnj999)
        } else if c == 3 {
            Some(GoldPurity::Pnj995)
        } else if c == 4 {
            Some(GoldPurity::Doji9999)
        } else if c == 5 {
            Some(GoldPurity::Other)
        } else {
            None
        }
    }
}

/// Physical form of gold.
#[derive(Clone, Copy, Debug, PartialEq, Eq, Structural)]
pub enum GoldForm {
    Unspecified,
    Bar,
    Ring,
    Coin,
    Jewelry,
    Other,
}

impl GoldForm {
    /// Wire number of the variant.
    pub open spec fn spec_code(self) -> i32 {
        match self {
            GoldForm::Unspecified => 0,
            GoldForm::Bar => 1,
            GoldForm::Ring => 2,
            GoldForm::Coin => 3,
            GoldForm::Jewelry => 4,
            GoldForm::Other => 5,
        }
    }

    /// The variant with wire number `c`, if any.
    pub open spec fn spec_from_code(c: i32) -> Option<GoldForm> {
        if c == 0 {
            Some(GoldForm::Unspecified)
        } else if c == 1 {
            Some(GoldForm::Bar)
        } else if c == 2 {
            Some(GoldForm::Ring)
        } else if c == 3 {
            Some(GoldForm::Coin)
        } else if c == 4 {
            Some(GoldForm::Jewelry)
        } else if c == 5 {
            Some(GoldForm::Other)
        } else {
            None
        }
    }

    pub fn code(self) -> (r: i32)
        ensures
            r == self.spec_code(),
    {
        match self {
            GoldForm::Unspecified => 0,
            GoldForm::Bar => 1,
            GoldForm::Ring => 2,
            GoldForm::Coin => 3,
            GoldForm::Jewelry => 4,
            GoldForm::Other => 5,
        }
    }

    pub fn from_code(c: i32) -> (r: Option<GoldForm>)
        ensures
            r == Self::spec_from_code(c),
    {
        if c == 0 {
            Some(GoldForm::Unspecified)
        } else if c == 1 {
            Some(GoldForm::Bar)
        } else if c == 2 {
            Some(GoldForm::Ring)
        } else if c == 3 {
            Some(GoldForm::Coin)
        } else if c == 4 {
            Some(GoldForm::Jewelry)
        } else if c == 5 {
            Some(GoldForm::Other)
        } else {
            None
        }
    }
}

/// Interest method on the wire.
#[derive(Clone, Copy, Debug, PartialEq, Eq, Structural)]
pub enum InterestMethod {
    Unspecified,
    Simple,
    Compound,
}

impl InterestMethod {
    /// Wire number of the variant.
    pub open spec fn spec_code(self) -> i32 {
        match self {
            InterestMethod::Unspecified => 0,
            InterestMethod::Simple => 1,
            InterestMethod::Compound => 2,
        }
    }

    /// The variant with wire number `c`, if any.
    pub open spec fn spec_from_code(c: i32) -> Option<InterestMethod> {
        if c == 0 {
            Some(InterestMethod::Unspecified)
        } else if c == 1 {
            Some(InterestMethod::Simple)
        } else if c == 2 {
            Some(InterestMethod::Compound)
        } else {
            None
        }
    }

    pub fn code(self) -> (r: i32)
        ensures
            r == self.spec_code(),
    {
        match self {
            InterestMethod::Unspecified => 0,
            InterestMethod::Simple => 1,
            InterestMethod::Compound => 2,
        }
    }

    pub fn from_code(c: i32) -> (r: Option<InterestMethod>)
        ensures
            r == Self::spec_from_code(c),
    {
        if c == 0 {
            Some(InterestMethod::Unspecified)
        } else if c == 1 {
            Some(InterestMethod::Simple)
        } else if c == 2 {
            Some(InterestMethod::Compound)
        } else {
            None
        }
    }
}

/// Interest payout schedule on the wire.
#[derive(Clone, Copy, Debug, PartialEq, Eq, Structural)]
pub enum PayoutType {
    Unspecified,
    AtMaturity,
    Monthly,
    Quarterly,
    OnDemand,
}

impl PayoutType {
    /// Wire number of the variant.
    pub open spec fn spec_code(self) -> i32 {
        match self {
            PayoutType::Unspecified => 0,
            PayoutType::AtMaturity => 1,
            PayoutType::Monthly => 2,
            PayoutType::Quarterly => 3,
            PayoutType::OnDemand => 4,
        }
    }

    /// The variant with wire number `c`, if any.
    pub open spec fn spec_from_code(c: i32) -> Option<PayoutType> {
        if c == 0 {
            Some(PayoutType::Unspecified)
        } else if c == 1 {
            Some(PayoutType::AtMaturity)
        } else if c == 2 {
            Some(PayoutType::Monthly)
        } else if c == 3 {
            Some(PayoutType::Quarterly)
        } else if c == 4 {
            Some(PayoutType::OnDemand)
        } else {
            None
        }
    }

    pub fn code(self) -> (r: i32)
        ensures
            r == self.spec_code(),
    {
        match self {
            PayoutType::Unspecified => 0,
            PayoutType::AtMaturity => 1,
            PayoutType::Monthly => 2,
            PayoutType::Quarterly => 3,
            PayoutType::OnDemand => 4,
        }
    }

    pub fn from_code(c: i32) -> (r: Option<PayoutType>)
        ensures
            r == Self::spec_from_code(c),
    {
        if c == 0 {
            Some(PayoutType::Unspecified)
        } else if c == 1 {
            Some(PayoutType::AtMaturity)
        } else if c == 2 {
            Some(PayoutType::Monthly)
        } else if c == 3 {
            Some(PayoutType::Quarterly)
        } else if c == 4 {
            Some(PayoutType::OnDemand)
        } else {
            None
        }
    }
}

/// Fixed deposit renewal policy.
#[derive(Clone, Copy, Debug, PartialEq, Eq, Structural)]
pub enum AutoRenewalPolicy {
    Unspecified,
    NoRenewal,
    PrincipalOnly,
    PrincipalAndInterest,
}

impl AutoRenewalPolicy {
    /// Wire number of the variant.
    pub open spec fn spec_code(self) -> i32 {
        match self {
            AutoRenewalPolicy::Unspecified => 0,
            AutoRenewalPolicy::NoRenewal => 1,
            AutoRenewalPolicy::PrincipalOnly => 2,
            AutoRenewalPolicy::PrincipalAndInterest => 3,
        }
    }

    /// The variant with wire number `c`, if any.
    pub open spec fn spec_from_code(c: i32) -> Option<AutoRenewalPolicy> {
        if c == 0 {
            Some(AutoRenewalPolicy::Unspecified)
        } else if c == 1 {
            Some(AutoRenewalPolicy::NoRenewal)
        } else if c == 2 {
            Some(AutoRenewalPolicy::PrincipalOnly)
        } else if c == 3 {
            Some(AutoRenewalPolicy::PrincipalAndInterest)
        } else {
            None
        }
    }

    pub fn code(self) -> (r: i32)
        ensures
            r == self.spec_code(),
    {
        match self {
            AutoRenewalPolicy::Unspecified => 0,
            AutoRenewalPolicy::NoRenewal => 1,
            AutoRenewalPolicy::PrincipalOnly => 2,
            AutoRenewalPolicy::PrincipalAndInterest => 3,
        }
    }

    pub fn from_code(c: i32) -> (r: Option<AutoRenewalPolicy>)
        ensures
            r == Self::spec_from_code(c),
    {
        if c == 0 {
            Some(AutoRenewalPolicy::Unspecified)
        } else if c == 1 {
            Some(AutoRenewalPolicy::NoRenewal)
        } else if c == 2 {
            Some(AutoRenewalPolicy::PrincipalOnly)
        } else if c == 3 {
            Some(AutoRenewalPolicy::PrincipalAndInterest)
        } else {
            None
        }
    }
}

/// Stock exchange.
#[derive(Clone, Copy, Debug, PartialEq, Eq, Structural)]
pub enum StockExchange {
    Unspecified,
    Hose,
    Hnx,
    Upcom,
}

impl StockExchange {
    /// Wire number of the variant.
    pub open spec fn spec_code(self) -> i32 {
        match self {
            StockExchange::Unspecified => 0,
            StockExchange::Hose => 1,
            StockExchange::Hnx => 2,
            StockExchange::Upcom => 3,
        }
    }

    /// The variant with wire number `c`, if any.
    pub open spec fn spec_from_code(c: i32) -> Option<StockExchange> {
        if c == 0 {
            Some(StockExchange::Unspecified)
        } else if c == 1 {
            Some(StockExchange::Hose)
        } else if c == 2 {
            Some(StockExchange::Hnx)
        } else if c == 3 {
            Some(StockExchange::Upcom)
        } else {
            None
        }
    }

    pub fn code(self) -> (r: i32)
        ensures
            r == self.spec_code(),
    {
        match self {
            StockExchange::Unspecified => 0,
            StockExchange::Hose => 1,
            StockExchange::Hnx => 2,
            StockExchange::Upcom => 3,
        }
    }

    pub fn from_code(c: i32) -> (r: Option<StockExchange>)
        ensures
            r == Self::spec_from_code(c),
    {
        if c == 0 {
            Some(StockExchange::Unspecified)
        } else if c == 1 {
            Some(StockExchange::Hose)
        } else if c == 2 {
            Some(StockExchange::Hnx)
        } else if c == 3 {
            Some(StockExchange::Upcom)
        } else {
            None
        }
    }
}

/// Quote side on the wire.
#[derive(Clone, Copy, Debug, PartialEq, Eq, Structural)]
pub enum PriceSide {
    Unspecified,
    Bid,
    Ask,
    Mid,
}

impl PriceSide {
    /// Wire number of the variant.
    pub open spec fn spec_code(self) -> i32 {
        match self {
            PriceSide::Unspecified => 0,
            PriceSide::Bid => 1,
            PriceSide::Ask => 2,
            PriceSide::Mid => 3,
        }
    }

    /// The variant with wire number `c`, if any.
    pub open spec fn spec_from_code(c: i32) -> Option<PriceSide> {
        if c == 0 {
            Some(PriceSide::Unspecified)
        } else if c == 1 {
            Some(PriceSide::Bid)
        } else if c == 2 {
            Some(PriceSide::Ask)
        } else if c == 3 {
            Some(PriceSide::Mid)
        } else {
            None
        }
    }

    pub fn code(self) -> (r: i32)
        ensures
            r == self.spec_code(),
    {
        match self {
            PriceSide::Unspecified => 0,
            PriceSide::Bid => 1,
            PriceSide::Ask => 2,
            PriceSide::Mid => 3,
        }
    }

    pub fn from_code(c: i32) -> (r: Option<PriceSide>)
        ensures
            r == Self::spec_from_code(c),
    {
        if c == 0 {
            Some(PriceSide::Unspecified)
        } else if c == 1 {
            Some(PriceSide::Bid)
        } else if c == 2 {
            Some(PriceSide::Ask)
        } else if c == 3 {
            Some(PriceSide::Mid)
        } else {
            None
        }
    }
}

/// Kind of an asset activity entry.
#[derive(Clone, Copy, Debug, PartialEq, Eq, Structural)]
pub enum ActivityType {
    Unspecified,
    Created,
    UpdatedMetadata,
    BalanceAdjusted,
    RateRecorded,
    PriceObserved,
    DisposalRecorded,
    StatusChanged,
    MaturityReached,
    RolledOver,
    TransferInitiated,
    TransferCompleted,
    Archived,
    Deleted,
}

impl ActivityType {
    /// Wire number of the variant.
    pub open spec fn spec_code(self) -> i32 {
        match self {
            ActivityType::Unspecified => 0,
            ActivityType::Created => 1,
            ActivityType::UpdatedMetadata => 2,
            ActivityType::BalanceAdjusted => 3,
            ActivityType::RateRecorded => 4,
            ActivityType::PriceObserved => 5,
            ActivityType::DisposalRecorded => 6,
            ActivityType::StatusChanged => 7,
            ActivityType::MaturityReached => 8,
            ActivityType::RolledOver => 9,
            ActivityType::TransferInitiated => 10,
            ActivityType::TransferCompleted => 11,
            ActivityType::Archived => 12,
            ActivityType::Deleted => 13,
        }
    }

    /// The variant with wire number `c`, if any.
    pub open spec fn spec_from_code(c: i32) -> Option<ActivityType> {
        if c == 0 {
            Some(ActivityType::Unspecified)
        } else if c == 1 {
            Some(ActivityType::Created)
        } else if c == 2 {
            Some(ActivityType::UpdatedMetadata)
        } else if c == 3 {
            Some(ActivityType::BalanceAdjusted)
        } else if c == 4 {
            Some(ActivityType::RateRecorded)
        } else if c == 5 {
            Some(ActivityType::PriceObserved)
        } else if c == 6 {
            Some(ActivityType::DisposalRecorded)
        } else if c == 7 {
            Some(ActivityType::StatusChanged)
        } else if c == 8 {
            Some(ActivityType::MaturityReached)
        } else if c == 9 {
            Some(ActivityType::RolledOver)
        } else if c == 10 {
            Some(ActivityType::TransferInitiated)
        } else if c == 11 {
            Some(ActivityType::TransferCompleted)
        } else if c == 12 {
            Some(ActivityType::Archived)
        } else if c == 13 {
            Some(ActivityType::Deleted)
        } else {
            None
        }
    }

    pub fn code(self) -> (r: i32)
        ensures
            r == self.spec_code(),
    {
        match self {
            ActivityType::Unspecified => 0,
            ActivityType::Created => 1,
            ActivityType::UpdatedMetadata => 2,
            ActivityType::BalanceAdjusted => 3,
            ActivityType::RateRecorded => 4,
            ActivityType::PriceObserved => 5,
            ActivityType::DisposalRecorded => 6,
            ActivityType::StatusChanged => 7,
            ActivityType::MaturityReached => 8,
            ActivityType::RolledOver => 9,
            ActivityType::TransferInitiated => 10,
            ActivityType::TransferCompleted => 11,
            ActivityType::Archived => 12,
            ActivityType::Deleted => 13,
        }
    }

    pub fn from_code(c: i32) -> (r: Option<ActivityType>)
        ensures
            r == Self::spec_from_code(c),
    {
        if c == 0 {
            Some(ActivityType::Unspecified)
        } else if c == 1 {
            Some(ActivityType::Created)
        } else if c == 2 {
            Some(ActivityType::UpdatedMetadata)
        } else if c == 3 {
            Some(ActivityType::BalanceAdjusted)
        } else if c == 4 {
            Some(ActivityType::RateRecorded)
        } else if c == 5 {
            Some(ActivityType::PriceObserved)
        } else if c == 6 {
            Some(ActivityType::DisposalRecorded)
        } else if c == 7 {
            Some(ActivityType::StatusChanged)
        } else if c == 8 {
            Some(ActivityType::MaturityReached)
        } else if c == 9 {
            Some(ActivityType::RolledOver)
        } else if c == 10 {
            Some(ActivityType::TransferInitiated)
        } else if c == 11 {
            Some(ActivityType::TransferCompleted)
        } else if c == 12 {
            Some(ActivityType::Archived)
        } else if c == 13 {
            Some(ActivityType::Deleted)
        } else {
            None
        }
    }
}

/// Index tracked by an ETF.
#[derive(Clone, Copy, Debug, PartialEq, Eq, Structural)]
pub enum EtfUnderlyingIndex {
    Unspecified,
    Vn30,
    Vn100,
    Hnx30,
    Other,
}

impl EtfUnderlyingIndex {
    /// Wire number of the variant.
    pub open spec fn spec_code(self) -> i32 {
        match self {
            EtfUnderlyingIndex::Unspecified => 0,
            EtfUnderlyingIndex::Vn30 => 1,
            EtfUnderlyingIndex::Vn100 => 2,
            EtfUnderlyingIndex::Hnx30 => 3,
            EtfUnderlyingIndex::Other => 4,
        }
    }

    /// The variant with wire number `c`, if any.
    pub open spec fn spec_from_code(c: i32) -> Option<EtfUnderlyingIndex> {
        if c == 0 {
            Some(EtfUnderlyingIndex::Unspecified)
        } else if c == 1 {
            Some(EtfUnderlyingIndex::Vn30)
        } else if c == 2 {
            Some(EtfUnderlyingIndex::Vn100)
        } else if c == 3 {
            Some(EtfUnderlyingIndex::Hnx30)
        } else if c == 4 {
            Some(EtfUnderlyingIndex::Other)
        } else {
            None
        }
    }

    pub fn code(self) -> (r: i32)
        ensures
            r == self.spec_code(),
    {
        match self {
            EtfUnderlyingIndex::Unspecified => 0,
            EtfUnderlyingIndex::Vn30 => 1,
            EtfUnderlyingIndex::Vn100 => 2,
            EtfUnderlyingIndex::Hnx30 => 3,
            EtfUnderlyingIndex::Other => 4,
        }
    }

    pub fn from_code(c: i32) -> (r: Option<EtfUnderlyingIndex>)
        ensures
            r == Self::spec_from_code(c),
    {
        if c == 0 {
            Some(EtfUnderlyingIndex::Unspecified)
        } else if c == 1 {
            Some(EtfUnderlyingIndex::Vn30)
        } else if c == 2 {
            Some(EtfUnderlyingIndex::Vn100)
        } else if c == 3 {
            Some(EtfUnderlyingIndex::Hnx30)
        } else if c == 4 {
            Some(EtfUnderlyingIndex::Other)
        } else {
            None
        }
    }
}

/// Blockchain network of a crypto lot.
#[derive(Clone, Copy, Debug, PartialEq, Eq, Structural)]
pub enum CryptoNetwork {
    Unspecified,
    Bitcoin,
    Ethereum,
    Solana,
    BnbChain,
    Polkadot,
    Other,
}

impl CryptoNetwork {
    /// Wire number of the variant.
    pub open spec fn spec_code(self) -> i32 {
        match self {
            CryptoNetwork::Unspecified => 0,
            CryptoNetwork::Bitcoin => 1,
            CryptoNetwork::Ethereum => 2,
            CryptoNetwork::Solana => 3,
            CryptoNetwork::BnbChain => 4,
            CryptoNetwork::Polkadot => 5,
            CryptoNetwork::Other => 6,
        }
    }

    /// The variant with wire number `c`, if any.
    pub open spec fn spec_from_code(c: i32) -> Option<CryptoNetwork> {
        if c == 0 {
            Some(CryptoNetwork::Unspecified)
        } else if c == 1 {
            Some(CryptoNetwork::Bitcoin)
        } else if c == 2 {
            Some(CryptoNetwork::Ethereum)
        } else if c == 3 {
            Some(CryptoNetwork::Solana)
        } else if c == 4 {
            Some(CryptoNetwork::BnbChain)
        } else if c == 5 {
            Some(CryptoNetwork::Polkadot)
        } else if c == 6 {
            Some(CryptoNetwork::Other)
        } else {
            None
        }
    }

    pub fn code(self) -> (r: i32)
        ensures
            r == self.spec_code(),
    {
        match self {
            CryptoNetwork::Unspecified => 0,
            CryptoNetwork::Bitcoin => 1,
            CryptoNetwork::Ethereum => 2,
            CryptoNetwork::Solana => 3,
            CryptoNetwork::BnbChain => 4,
            CryptoNetwork::Polkadot => 5,
            CryptoNetwork::Other => 6,
        }
    }

    pub fn from_code(c: i32) -> (r: Option<CryptoNetwork>)
        ensures
            r == Self::spec_from_code(c),
    {
        if c == 0 {
            Some(CryptoNetwork::Unspecified)
        } else if c == 1 {
            Some(CryptoNetwork::Bitcoin)
        } else if c == 2 {
            Some(CryptoNetwork::Ethereum)
        } else if c == 3 {
            Some(CryptoNetwork::Solana)
        } else if c == 4 {
            Some(CryptoNetwork::BnbChain)
        } else if c == 5 {
            Some(CryptoNetwork::Polkadot)
        } else if c == 6 {
            Some(CryptoNetwork::Other)
        } else {
            None
        }
    }
}

/// Direction of a transfer between budgets.
#[derive(Clone, Copy, Debug, PartialEq, Eq, Structural)]
pub enum TransferDirection {
    Unspecified,
    StandardToInvest,
    InvestToStandard,
    InternalRebalance,
}

impl TransferDirection {
    /// Wire number of the variant.
    pub open spec fn spec_code(self) -> i32 {
        match self {
            TransferDirection::Unspecified => 0,
            TransferDirection::StandardToInvest => 1,
            TransferDirection::InvestToStandard => 2,
            TransferDirection::InternalRebalance => 3,
        }
    }

    /// The variant with wire number `c`, if any.
    pub open spec fn spec_from_code(c: i32) -> Option<TransferDirection> {
        if c == 0 {
            Some(TransferDirection::Unspecified)
        } else if c == 1 {
            Some(TransferDirection::StandardToInvest)
        } else if c == 2 {
            Some(TransferDirection::InvestToStandard)
        } else if c == 3 {
            Some(TransferDirection::InternalRebalance)
        } else {
            None
        }
    }

    pub fn code(self) -> (r: i32)
        ensures
            r == self.spec_code(),
    {
        match self {
            TransferDirection::Unspecified => 0,
            TransferDirection::StandardToInvest => 1,
            TransferDirection::InvestToStandard => 2,
            TransferDirection::InternalRebalance => 3,
        }
    }

    pub fn from_code(c: i32) -> (r: Option<TransferDirection>)
        ensures
            r == Self::spec_from_code(c),
    {
        if c == 0 {
            Some(TransferDirection::Unspecified)
        } else if c == 1 {
            Some(TransferDirection::StandardToInvest)
        } else if c == 2 {
            Some(TransferDirection::InvestToStandard)
        } else if c == 3 {
            Some(TransferDirection::InternalRebalance)
        } else {
            None
        }
    }
}

/// Status of a transfer between budgets.
#[derive(Clone, Copy, Debug, PartialEq, Eq, Structural)]
pub enum TransferStatus {
    Unspecified,
    Requested,
    CashLegPending,
    AssetLegPending,
    Completed,
    Failed,
    CompensationPending,
    Compensated,
}

impl TransferStatus {
    /// Wire number of the variant.
    pub open spec fn spec_code(self) -> i32 {
        match self {
            TransferStatus::Unspecified => 0,
            TransferStatus::Requested => 1,
            TransferStatus::CashLegPending => 2,
            TransferStatus::AssetLegPending => 3,
            TransferStatus::Completed => 4,
            TransferStatus::Failed => 5,
            TransferStatus::CompensationPending => 6,
            TransferStatus::Compensated => 7,
        }
    }

    /// The variant with wire number `c`, if any.
    pub open spec fn spec_from_code(c: i32) -> Option<TransferStatus> {
        if c == 0 {
            Some(TransferStatus::Unspecified)
        } else if c == 1 {
            Some(TransferStatus::Requested)
        } else if c == 2 {
            Some(TransferStatus::CashLegPending)
        } else if c == 3 {
            Some(TransferStatus::AssetLegPending)
        } else if c == 4 {
            Some(TransferStatus::Completed)
        } else if c == 5 {
            Some(TransferStatus::Failed)
        } else if c == 6 {
            Some(TransferStatus::CompensationPending)
        } else if c == 7 {
            Some(TransferStatus::Compensated)
        } else {
            None
        }
    }

    pub fn code(self) -> (r: i32)
        ensures
            r == self.spec_code(),
    {
        match self {
            TransferStatus::Unspecified => 0,
            TransferStatus::Requested => 1,
            TransferStatus::CashLegPending => 2,
            TransferStatus::AssetLegPending => 3,
            TransferStatus::Completed => 4,
            TransferStatus::Failed => 5,
            TransferStatus::CompensationPending => 6,
            TransferStatus::Compensated => 7,
        }
    }

    pub fn from_code(c: i32) -> (r: Option<TransferStatus>)
        ensures
            r == Self::spec_from_code(c),
    {
        if c == 0 {
            Some(TransferStatus::Unspecified)
        } else if c == 1 {
            Some(TransferStatus::Requested)
        } else if c == 2 {
            Some(TransferStatus::CashLegPending)
        } else if c == 3 {
            Some(TransferStatus::AssetLegPending)
        } else if c == 4 {
            Some(TransferStatus::Completed)
        } else if c == 5 {
            Some(TransferStatus::Failed)
        } else if c == 6 {
            Some(TransferStatus::CompensationPending)
        } else if c == 7 {
            Some(TransferStatus::Compensated)
        } else {
            None
        }
    }
}
/// Class-specific details attached to an asset.
#[derive(Clone, Debug)]
pub enum PortfolioAssetDetails {
    SavingsAccount(PortfolioSavingsAccount),
    FixedDeposit(PortfolioFixedDeposit),
    GoldLot(PortfolioGoldLot),
    StockLot(PortfolioStockLot),
    EtfLot(PortfolioEtfLot),
    CryptoLot(PortfolioCryptoLot),
}

/// An asset of a portfolio.
#[derive(Clone, Debug)]
pub struct PortfolioAsset {
    pub base: Option<crate::pb::common::base::Base>,
    pub budget_id: String,
    pub asset_class: i32,
    pub display_name: String,
    pub currency: String,
    pub status: i32,
    pub opened_on: i64,
    pub closed_on: i64,
    pub legacy_asset_id: String,
    pub notes: String,
    pub details: Option<PortfolioAssetDetails>,
}

/// A savings account. `annual_rate` is the stored decimal text; the wire
/// carries it as a float.
#[derive(Clone, Debug)]
pub struct PortfolioSavingsAccount {
    pub asset_id: String,
    pub provider: String,
    pub account_reference_masked: String,
    pub current_balance: i64,
    pub balance_as_of: i64,
    pub annual_rate: String,
    pub interest_method: i32,
    pub payout_type: i32,
    pub opened_on: i64,
    pub notes: String,
}

/// A fixed deposit. `annual_rate` is the stored decimal text; the wire
/// carries it as a float.
#[derive(Clone, Debug)]
pub struct PortfolioFixedDeposit {
    pub asset_id: String,
    pub provider: String,
    pub product_name: String,
    pub principal: i64,
    pub annual_rate: String,
    pub interest_method: i32,
    pub payout_type: i32,
    pub deposit_date: i64,
    pub maturity_date: i64,
    pub auto_renewal_policy: i32,
    pub rollover_from_asset_id: String,
    pub certificate_reference_masked: String,
    pub notes: String,
}

/// A lot of physical gold.
#[derive(Clone, Debug)]
pub struct PortfolioGoldLot {
    pub asset_id: String,
    pub provider: String,
    pub gold_type: String,
    pub purity: i32,
    pub form: i32,
    pub quantity_original: String,
    pub unit_original: i32,
    pub quantity_grams: String,
    pub purchase_price_per_unit_original: i64,
    pub purchase_cost: i64,
    pub fees: i64,
    pub purchase_date: i64,
    pub notes: String,
}

/// A lot of listed shares.
#[derive(Clone, Debug)]
pub struct PortfolioStockLot {
    pub asset_id: String,
    pub ticker: String,
    pub exchange: i32,
    pub quantity_bought: String,
    pub quantity_open: String,
    pub buy_price_per_share: i64,
    pub purchase_cost: i64,
    pub fees: i64,
    pub purchase_date: i64,
    pub settlement_date: i64,
    pub notes: String,
}

/// A lot of ETF units.
#[derive(Clone, Debug)]
pub struct PortfolioEtfLot {
    pub asset_id: String,
    pub ticker: String,
    pub exchange: i32,
    pub underlying_index: i32,
    pub fund_provider: String,
    pub quantity_bought: String,
    pub quantity_open: String,
    pub buy_price_per_unit: i64,
    pub purchase_cost: i64,
    pub fees: i64,
    pub purchase_date: i64,
    pub settlement_date: i64,
    pub notes: String,
}

/// A lot of a crypto currency.
#[derive(Clone, Debug)]
pub struct PortfolioCryptoLot {
    pub asset_id: String,
    pub symbol: String,
    pub network: i32,
    pub custody_wallet: String,
    pub quantity_bought: String,
    pub quantity_open: String,
    pub buy_price_per_unit: i64,
    pub purchase_cost: i64,
    pub fees: i64,
    pub purchase_date: i64,
    pub notes: String,
}

/// A recorded market price of an asset.
#[derive(Clone, Debug)]
pub struct PriceObservation {
    pub id: String,
    pub asset_id: String,
    pub provider: String,
    pub price_side: i32,
    pub unit_price: i64,
    pub currency: String,
    pub observed_at: i64,
    pub source_reference: String,
    pub notes: String,
}

/// An entry of an asset's activity log.
#[derive(Clone, Debug)]
pub struct PortfolioActivity {
    pub id: String,
    pub asset_id: String,
    pub budget_id: String,
    pub activity_type: i32,
    pub actor_user_id: String,
    pub correlation_id: String,
    pub idempotency_key: String,
    pub occurred_at: i64,
    pub payload_json: String,
}

/// A transfer between two budgets.
#[derive(Clone, Debug)]
pub struct PortfolioTransfer {
    pub id: String,
    pub group_id: String,
    pub source_budget_id: String,
    pub counterparty_budget_id: String,
    pub direction: i32,
    pub amount_minor: i64,
    pub currency: String,
    pub status: i32,
    pub linked_entry_source_id: String,
    pub linked_entry_counterparty_id: String,
    pub idempotency_key: String,
    pub actor_user_id: String,
    pub created_at: i64,
    pub completed_at: i64,
    pub notes: String,
}

} // verus!
