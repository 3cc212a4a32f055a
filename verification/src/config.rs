//! Configuration traits. A runtime names one type per item; the pallet
//! configuration is wired from them.

use vstd::prelude::*;

verus! {

/// The types that configure the system pallets of a runtime: accounts,
/// versioning, scheduling, proxies, timestamps and their limits.
pub trait SystemConfig {
    type AccountId;

    type Lookup;

    type SS58Prefix;

    type Version;

    type ExistentialDeposit;

    type ScheduleOrigin;

    type PreimageOrigin;

    type ProxyType;

    type ConsensusHook;

    type SlotDuration;

    type OnTimestampSet;

    type MaxConsumers;

    type MaxSignatories;

    type MaxPendingProxies;

    type MaxProxies;

    type MaxFreezes;

    type MaxLocks;

    type MaxReserves;
}

/// The types that configure collator selection and authorship.
pub trait ConsensusConfig {
    type DisabledValidators;

    type MaxAuthorities;

    type MaxCandidates;

    type MaxInvulnerables;

    type MinEligibleCollators;

    type CollatorSelectionUpdateOrigin;
}

/// The types that configure the asset pallets of a runtime: deposits,
/// asset identifiers, origins, the asset registrar, fee conversion and the
/// accounts that fees are credited to.
pub trait AssetsConfig {
    type ApprovalDeposit;

    type AssetAccountDeposit;

    type AssetDeposit;

    type AssetId;

    type AssetType;

    type BenchmarkHelper;

    type CreateOrigin;

    type ForceOrigin;

    type ForeignAssetModifierOrigin;

    type AssetRegistrar;

    type AssetRegistrarMetadata;

    type WeightToFee;

    type Timestamp;

    type AccountId;

    type FungiblesToAccount;

    type RootOperatorAccountId;

    type AssetsToBlockAuthor;
}

/// The types that configure the treasury, conviction voting, the
/// whitelist and referenda.
pub trait GovernanceConfig {
    type TreasuryBurn;

    type TreasurySpendFunds;

    type TreasuryBurnDestination;

    type TreasuryMaxApprovals;

    type TreasuryInteriorLocation;

    type TreasuryPalletId;

    type TreasurySpendPeriod;

    type TreasuryPayoutSpendPeriod;

    type TreasuryRejectOrigin;

    type TreasurySpendOrigin;

    type ConvictionVoteLockingPeriod;

    type ConvictionMaxVotes;

    type DispatchWhitelistedOrigin;

    type WhitelistOrigin;

    type ReferendaAlarmInterval;

    type ReferendaCancelOrigin;

    type ReferendaKillOrigin;

    type ReferendaMaxQueued;

    type ReferendaSlash;

    type ReferendaSubmissionDeposit;

    type ReferendaSubmitOrigin;

    type ReferendaUndecidingTimeout;
}

/// The types that configure cross-chain messaging: locations, origins,
/// message queues, transactors and fees.
pub trait XcmConfig {
    type LocationToAccountId;

    type LocalOriginToLocation;

    type AssetTransactors;

    type XcmOriginToTransactDispatchOrigin;

    type FeeManager;

    type Trader;

    type Reserves;

    type MessageQueueHeapSize;

    type MessageQueueMaxStale;

    type MessageQueueServiceWeight;

    type XcmpQueueControllerOrigin;

    type XcmpQueueMaxInboundSuspended;

    type XcmAdminOrigin;

    type MaxActiveOutboundChannels;

    type MaxPageSize;

    type MaxAssetsForTransfer;

    type ParachainMinFee;

    type XtokensReserveProviders;

    type AccountIdToLocation;

    type BaseXcmWeight;

    type CurrencyId;

    type CurrencyIdToLocation;

    type DerivativeAddressRegistrationOrigin;

    type HrmpManipulatorOrigin;

    type HrmpOpenOrigin;

    type MaxHrmpRelayFee;

    type TransactorReserveProvider;

    type SelfLocation;

    type SovereignAccountDispatcherOrigin;

    type Transactors;

    type UniversalLocation;

    type XcmWeigher;

    type XcmSender;

    type AddSupportedAssetOrigin;

    type AssetFeesFilter;

    type EditSupportedAssetOrigin;

    type SelfReserve;

    type RelayLocation;

    type PauseSupportedAssetOrigin;

    type RemoveSupportedAssetOrigin;

    type ResumeSupportedAssetOrigin;

    type WeightToFee;

    type XcmFeesAccount;
}

/// The types that configure the EVM pallets of a runtime: address
/// mapping, origins, precompiles and the bridge to cross-chain transfers.
pub trait EvmConfig {
    type AddressMapping;

    type FindAuthor;

    type CallOrigin;

    type WithdrawOrigin;

    type PrecompilesType;

    type PrecompilesValue;

    type Erc20XcmBridgeTransferGasLimit;

    type LocationToH160;
}

/// The types that configure author inherents for a container chain.
pub trait TanssiConfig {
    type AuthorInherent;

    type AuthoritiesNothing;
}

} // verus!
