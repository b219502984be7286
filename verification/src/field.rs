//! Field identifiers and values. `Field` names each of the 128 data
//! elements; its definition is derived from the specification table, so no
//! field's shape is stated twice.

use vstd::prelude::*;
use crate::ascii::chars_of_bytes;
use crate::error::ISO8583Error;
use crate::iso_spec::{iso1987_field, spec_iso1987_field, DataType, LengthType};

verus! {

/// One of the 128 standard field numbers, by name. Fields one and sixty-five
/// are the secondary and tertiary bitmap indicators and never carry data.
#[derive(Debug, Clone, Copy, PartialEq, Eq, Hash, Structural)]
pub enum Field {
    /// Field 1: Secondary Bitmap
    SecondaryBitmap,
    /// Field 2: Primary Account Number
    PrimaryAccountNumber,
    /// Field 3: Processing Code
    ProcessingCode,
    /// Field 4: Transaction Amount
    TransactionAmount,
    /// Field 5: Settlement Amount
    SettlementAmount,
    /// Field 6: Cardholder Billing Amount
    CardholderBillingAmount,
    /// Field 7: Transmission Date & Time
    TransmissionDateTime,
    /// Field 8: Cardholder Billing Fee Amount
    CardholderBillingFeeAmount,
    /// Field 9: Settlement Conversion Rate
    SettlementConversionRate,
    /// Field 10: Cardholder Billing Conversion Rate
    CardholderBillingConversionRate,
    /// Field 11: System Trace Audit Number
    SystemTraceAuditNumber,
    /// Field 12: Local Transaction Time
    LocalTransactionTime,
    /// Field 13: Local Transaction Date
    LocalTransactionDate,
    /// Field 14: Expiration Date
    ExpirationDate,
    /// Field 15: Settlement Date
    SettlementDate,
    /// Field 16: Currency Conversion Date
    CurrencyConversionDate,
    /// Field 17: Capture Date
    CaptureDate,
    /// Field 18: Merchant Type
    MerchantType,
    /// Field 19: Acquiring Institution Country Code
    AcquiringInstitutionCountryCode,
    /// Field 20: PAN Extended Country Code
    PANExtendedCountryCode,
    /// Field 21: Forwarding Institution Country Code
    ForwardingInstitutionCountryCode,
    /// Field 22: Point of Service Entry Mode
    PointOfServiceEntryMode,
    /// Field 23: Application PAN Sequence Number
    ApplicationPANSequenceNumber,
    /// Field 24: Network International Identifier
    NetworkInternationalIdentifier,
    /// Field 25: Point of Service Condition Code
    PointOfServiceConditionCode,
    /// Field 26: Point of Service Capture Code
    PointOfServiceCaptureCode,
    /// Field 27: Authorizing Identification Response Length
    AuthorizingIdentificationResponseLength,
    /// Field 28: Transaction Fee Amount
    TransactionFeeAmount,
    /// Field 29: Settlement Fee Amount
    SettlementFeeAmount,
    /// Field 30: Transaction Processing Fee Amount
    TransactionProcessingFeeAmount,
    /// Field 31: Settlement Processing Fee Amount
    SettlementProcessingFeeAmount,
    /// Field 32: Acquiring Institution Identification Code
    AcquiringInstitutionIdentificationCode,
    /// Field 33: Forwarding Institution Identification Code
    ForwardingInstitutionIdentificationCode,
    /// Field 34: Extended Primary Account Number
    ExtendedPrimaryAccountNumber,
    /// Field 35: Track 2 Data
    Track2Data,
    /// Field 36: Track 3 Data
    Track3Data,
    /// Field 37: Retrieval Reference Number
    RetrievalReferenceNumber,
    /// Field 38: Authorization Identification Response
    AuthorizationIdentificationResponse,
    /// Field 39: Response Code
    ResponseCode,
    /// Field 40: Service Restriction Code
    ServiceRestrictionCode,
    /// Field 41: Card Acceptor Terminal Identification
    CardAcceptorTerminalIdentification,
    /// Field 42: Card Acceptor Identification Code
    CardAcceptorIdentificationCode,
    /// Field 43: Card Acceptor Name/Location
    CardAcceptorNameLocation,
    /// Field 44: Additional Response Data
    AdditionalResponseData,
    /// Field 45: Track 1 Data
    Track1Data,
    /// Field 46: Additional Data (ISO)
    AdditionalDataISO,
    /// Field 47: Additional Data (National)
    AdditionalDataNational,
    /// Field 48: Additional Data (Private)
    AdditionalDataPrivate,
    /// Field 49: Currency Code, Transaction
    CurrencyCodeTransaction,
    /// Field 50: Currency Code, Settlement
    CurrencyCodeSettlement,
    /// Field 51: Currency Code, Cardholder Billing
    CurrencyCodeCardholderBilling,
    /// Field 52: Personal Identification Number Data
    PersonalIdentificationNumberData,
    /// Field 53: Security Related Control Information
    SecurityRelatedControlInformation,
    /// Field 54: Additional Amounts
    AdditionalAmounts,
    /// Field 55: Reserved ISO
    ReservedISO1,
    /// Field 56: Reserved ISO
    ReservedISO2,
    /// Field 57: Reserved ISO
    ReservedNational1,
    /// Field 58: Reserved ISO
    ReservedNational2,
    /// Field 59: Reserved ISO
    ReservedNational3,
    /// Field 60: Reserved ISO
    ReservedPrivate1,
    /// Field 61: Reserved ISO
    ReservedPrivate2,
    /// Field 62: Reserved ISO
    ReservedPrivate3,
    /// Field 63: Reserved ISO
    ReservedPrivate4,
    /// Field 64: Message Authentication Code
    MessageAuthenticationCode,
    /// Field 65: Tertiary Bitmap
    TertiaryBitmap,
    /// Field 66: Settlement Code
    SettlementCode,
    /// Field 67: Extended Payment Code
    ExtendedPaymentCode,
    /// Field 68: Receiving Institution Country Code
    ReceivingInstitutionCountryCode,
    /// Field 69: Settlement Institution Country Code
    SettlementInstitutionCountryCode,
    /// Field 70: Network Management Information Code
    NetworkManagementInformationCode,
    /// Field 71: Message Number
    MessageNumber,
    /// Field 72: Message Number Last
    MessageNumberLast,
    /// Field 73: Date Action
    DateAction,
    /// Field 74: Credits Number
    CreditsNumber,
    /// Field 75: Credits Reversal Number
    CreditsReversalNumber,
    /// Field 76: Debits Number
    DebitsNumber,
    /// Field 77: Debits Reversal Number
    DebitsReversalNumber,
    /// Field 78: Transfer Number
    TransferNumber,
    /// Field 79: Transfer Reversal Number
    TransferReversalNumber,
    /// Field 80: Inquiries Number
    InquiriesNumber,
    /// Field 81: Authorizations Number
    AuthorizationsNumber,
    /// Field 82: Credits Processing Fee Amount
    CreditsProcessingFeeAmount,
    /// Field 83: Credits Transaction Fee Amount
    CreditsTransactionFeeAmount,
    /// Field 84: Debits Processing Fee Amount
    DebitsProcessingFeeAmount,
    /// Field 85: Debits Transaction Fee Amount
    DebitsTransactionFeeAmount,
    /// Field 86: Credits Amount
    CreditsAmount,
    /// Field 87: Credits Reversal Amount
    CreditsReversalAmount,
    /// Field 88: Debits Amount
    DebitsAmount,
    /// Field 89: Debits Reversal Amount
    DebitsReversalAmount,
    /// Field 90: Original Data Elements
    OriginalDataElements,
    /// Field 91: File Update Code
    FileUpdateCode,
    /// Field 92: File Security Code
    FileSecurityCode,
    /// Field 93: Response Indicator
    ResponseIndicator,
    /// Field 94: Service Indicator
    ServiceIndicator,
    /// Field 95: Replacement Amounts
    ReplacementAmounts,
    /// Field 96: Message Security Code
    MessageSecurityCode,
    /// Field 97: Net Settlement Amount
    NetSettlementAmount,
    /// Field 98: Payee
    Payee,
    /// Field 99: Settlement Institution Identification Code
    SettlementInstitutionIdentificationCode,
    /// Field 100: Receiving Institution Identification Code
    ReceivingInstitutionIdentificationCode,
    /// Field 101: File Name
    FileName,
    /// Field 102: Account Identification 1
    AccountIdentification1,
    /// Field 103: Account Identification 2
    AccountIdentification2,
    /// Field 104: Transaction Description
    TransactionDescription,
    /// Field 105: Reserved ISO 3
    ReservedISO3,
    /// Field 106: Reserved ISO 4
    ReservedISO4,
    /// Field 107: Reserved ISO 5
    ReservedISO5,
    /// Field 108: Reserved ISO 6
    ReservedISO6,
    /// Field 109: Reserved ISO 7
    ReservedISO7,
    /// Field 110: Reserved ISO 8
    ReservedISO8,
    /// Field 111: Reserved ISO 9
    ReservedISO9,
    /// Field 112: Reserved National 4
    ReservedNational4,
    /// Field 113: Reserved National 5
    ReservedNational5,
    /// Field 114: Reserved National 6
    ReservedNational6,
    /// Field 115: Reserved National 7
    ReservedNational7,
    /// Field 116: Reserved National 8
    ReservedNational8,
    /// Field 117: Reserved National 9
    ReservedNational9,
    /// Field 118: Reserved National 10
    ReservedNational10,
    /// Field 119: Reserved National 11
    ReservedNational11,
    /// Field 120: Reserved Private 5
    ReservedPrivate5,
    /// Field 121: Reserved Private 6
    ReservedPrivate6,
    /// Field 122: Reserved Private 7
    ReservedPrivate7,
    /// Field 123: Reserved Private 8
    ReservedPrivate8,
    /// Field 124: Info Text
    InfoText,
    /// Field 125: Network Management Information
    NetworkManagementInformation,
    /// Field 126: Issuer Trace Id
    IssuerTraceId,
    /// Field 127: Reserved Private 9
    ReservedPrivate9,
    /// Field 128: Message Authentication Code 2
    MessageAuthenticationCode2,
}

/// The field number of each named field.
pub open spec fn spec_field_number(f: Field) -> u8 {
    match f {
        Field::SecondaryBitmap => 1,
        Field::PrimaryAccountNumber => 2,
        Field::ProcessingCode => 3,
        Field::TransactionAmount => 4,
        Field::SettlementAmount => 5,
        Field::CardholderBillingAmount => 6,
        Field::TransmissionDateTime => 7,
        Field::CardholderBillingFeeAmount => 8,
        Field::SettlementConversionRate => 9,
        Field::CardholderBillingConversionRate => 10,
        Field::SystemTraceAuditNumber => 11,
        Field::LocalTransactionTime => 12,
        Field::LocalTransactionDate => 13,
        Field::ExpirationDate => 14,
        Field::SettlementDate => 15,
        Field::CurrencyConversionDate => 16,
        Field::CaptureDate => 17,
        Field::MerchantType => 18,
        Field::AcquiringInstitutionCountryCode => 19,
        Field::PANExtendedCountryCode => 20,
        Field::ForwardingInstitutionCountryCode => 21,
        Field::PointOfServiceEntryMode => 22,
        Field::ApplicationPANSequenceNumber => 23,
        Field::NetworkInternationalIdentifier => 24,
        Field::PointOfServiceConditionCode => 25,
        Field::PointOfServiceCaptureCode => 26,
        Field::AuthorizingIdentificationResponseLength => 27,
        Field::TransactionFeeAmount => 28,
        Field::SettlementFeeAmount => 29,
        Field::TransactionProcessingFeeAmount => 30,
        Field::SettlementProcessingFeeAmount => 31,
        Field::AcquiringInstitutionIdentificationCode => 32,
        Field::ForwardingInstitutionIdentificationCode => 33,
        Field::ExtendedPrimaryAccountNumber => 34,
        Field::Track2Data => 35,
        Field::Track3Data => 36,
        Field::RetrievalReferenceNumber => 37,
        Field::AuthorizationIdentificationResponse => 38,
        Field::ResponseCode => 39,
        Field::ServiceRestrictionCode => 40,
        Field::CardAcceptorTerminalIdentification => 41,
        Field::CardAcceptorIdentificationCode => 42,
        Field::CardAcceptorNameLocation => 43,
        Field::AdditionalResponseData => 44,
        Field::Track1Data => 45,
        Field::AdditionalDataISO => 46,
        Field::AdditionalDataNational => 47,
        Field::AdditionalDataPrivate => 48,
        Field::CurrencyCodeTransaction => 49,
        Field::CurrencyCodeSettlement => 50,
        Field::CurrencyCodeCardholderBilling => 51,
        Field::PersonalIdentificationNumberData => 52,
        Field::SecurityRelatedControlInformation => 53,
        Field::AdditionalAmounts => 54,
        Field::ReservedISO1 => 55,
        Field::ReservedISO2 => 56,
        Field::ReservedNational1 => 57,
        Field::ReservedNational2 => 58,
        Field::ReservedNational3 => 59,
        Field::ReservedPrivate1 => 60,
        Field::ReservedPrivate2 => 61,
        Field::ReservedPrivate3 => 62,
        Field::ReservedPrivate4 => 63,
        Field::MessageAuthenticationCode => 64,
        Field::TertiaryBitmap => 65,
        Field::SettlementCode => 66,
        Field::ExtendedPaymentCode => 67,
        Field::ReceivingInstitutionCountryCode => 68,
        Field::SettlementInstitutionCountryCode => 69,
        Field::NetworkManagementInformationCode => 70,
        Field::MessageNumber => 71,
        Field::MessageNumberLast => 72,
        Field::DateAction => 73,
        Field::CreditsNumber => 74,
        Field::CreditsReversalNumber => 75,
        Field::DebitsNumber => 76,
        Field::DebitsReversalNumber => 77,
        Field::TransferNumber => 78,
        Field::TransferReversalNumber => 79,
        Field::InquiriesNumber => 80,
        Field::AuthorizationsNumber => 81,
        Field::CreditsProcessingFeeAmount => 82,
        Field::CreditsTransactionFeeAmount => 83,
        Field::DebitsProcessingFeeAmount => 84,
        Field::DebitsTransactionFeeAmount => 85,
        Field::CreditsAmount => 86,
        Field::CreditsReversalAmount => 87,
        Field::DebitsAmount => 88,
        Field::DebitsReversalAmount => 89,
        Field::OriginalDataElements => 90,
        Field::FileUpdateCode => 91,
        Field::FileSecurityCode => 92,
        Field::ResponseIndicator => 93,
        Field::ServiceIndicator => 94,
        Field::ReplacementAmounts => 95,
        Field::MessageSecurityCode => 96,
        Field::NetSettlementAmount => 97,
        Field::Payee => 98,
        Field::SettlementInstitutionIdentificationCode => 99,
        Field::ReceivingInstitutionIdentificationCode => 100,
        Field::FileName => 101,
        Field::AccountIdentification1 => 102,
        Field::AccountIdentification2 => 103,
        Field::TransactionDescription => 104,
        Field::ReservedISO3 => 105,
        Field::ReservedISO4 => 106,
        Field::ReservedISO5 => 107,
        Field::ReservedISO6 => 108,
        Field::ReservedISO7 => 109,
        Field::ReservedISO8 => 110,
        Field::ReservedISO9 => 111,
        Field::ReservedNational4 => 112,
        Field::ReservedNational5 => 113,
        Field::ReservedNational6 => 114,
        Field::ReservedNational7 => 115,
        Field::ReservedNational8 => 116,
        Field::ReservedNational9 => 117,
        Field::ReservedNational10 => 118,
        Field::ReservedNational11 => 119,
        Field::ReservedPrivate5 => 120,
        Field::ReservedPrivate6 => 121,
        Field::ReservedPrivate7 => 122,
        Field::ReservedPrivate8 => 123,
        Field::InfoText => 124,
        Field::NetworkManagementInformation => 125,
        Field::IssuerTraceId => 126,
        Field::ReservedPrivate9 => 127,
        Field::MessageAuthenticationCode2 => 128,
    }
}

/// The named field of each field number between one and 128.
pub open spec fn spec_field_of_number(n: u8) -> Field {
    match n {
        1u8 => Field::SecondaryBitmap,
        2u8 => Field::PrimaryAccountNumber,
        3u8 => Field::ProcessingCode,
        4u8 => Field::TransactionAmount,
        5u8 => Field::SettlementAmount,
        6u8 => Field::CardholderBillingAmount,
        7u8 => Field::TransmissionDateTime,
        8u8 => Field::CardholderBillingFeeAmount,
        9u8 => Field::SettlementConversionRate,
        10u8 => Field::CardholderBillingConversionRate,
        11u8 => Field::SystemTraceAuditNumber,
        12u8 => Field::LocalTransactionTime,
        13u8 => Field::LocalTransactionDate,
        14u8 => Field::ExpirationDate,
        15u8 => Field::SettlementDate,
        16u8 => Field::CurrencyConversionDate,
        17u8 => Field::CaptureDate,
        18u8 => Field::MerchantType,
        19u8 => Field::AcquiringInstitutionCountryCode,
        20u8 => Field::PANExtendedCountryCode,
        21u8 => Field::ForwardingInstitutionCountryCode,
        22u8 => Field::PointOfServiceEntryMode,
        23u8 => Field::ApplicationPANSequenceNumber,
        24u8 => Field::NetworkInternationalIdentifier,
        25u8 => Field::PointOfServiceConditionCode,
        26u8 => Field::PointOfServiceCaptureCode,
        27u8 => Field::AuthorizingIdentificationResponseLength,
        28u8 => Field::TransactionFeeAmount,
        29u8 => Field::SettlementFeeAmount,
        30u8 => Field::TransactionProcessingFeeAmount,
        31u8 => Field::SettlementProcessingFeeAmount,
        32u8 => Field::AcquiringInstitutionIdentificationCode,
        33u8 => Field::ForwardingInstitutionIdentificationCode,
        34u8 => Field::ExtendedPrimaryAccountNumber,
        35u8 => Field::Track2Data,
        36u8 => Field::Track3Data,
        37u8 => Field::RetrievalReferenceNumber,
        38u8 => Field::AuthorizationIdentificationResponse,
        39u8 => Field::ResponseCode,
        40u8 => Field::ServiceRestrictionCode,
        41u8 => Field::CardAcceptorTerminalIdentification,
        42u8 => Field::CardAcceptorIdentificationCode,
        43u8 => Field::CardAcceptorNameLocation,
        44u8 => Field::AdditionalResponseData,
        45u8 => Field::Track1Data,
        46u8 => Field::AdditionalDataISO,
        47u8 => Field::AdditionalDataNational,
        48u8 => Field::AdditionalDataPrivate,
        49u8 => Field::CurrencyCodeTransaction,
        50u8 => Field::CurrencyCodeSettlement,
        51u8 => Field::CurrencyCodeCardholderBilling,
        52u8 => Field::PersonalIdentificationNumberData,
        53u8 => Field::SecurityRelatedControlInformation,
        54u8 => Field::AdditionalAmounts,
        55u8 => Field::ReservedISO1,
        56u8 => Field::ReservedISO2,
        57u8 => Field::ReservedNational1,
        58u8 => Field::ReservedNational2,
        59u8 => Field::ReservedNational3,
        60u8 => Field::ReservedPrivate1,
        61u8 => Field::ReservedPrivate2,
        62u8 => Field::ReservedPrivate3,
        63u8 => Field::ReservedPrivate4,
        64u8 => Field::MessageAuthenticationCode,
        65u8 => Field::TertiaryBitmap,
        66u8 => Field::SettlementCode,
        67u8 => Field::ExtendedPaymentCode,
        68u8 => Field::ReceivingInstitutionCountryCode,
        69u8 => Field::SettlementInstitutionCountryCode,
        70u8 => Field::NetworkManagementInformationCode,
        71u8 => Field::MessageNumber,
        72u8 => Field::MessageNumberLast,
        73u8 => Field::DateAction,
        74u8 => Field::CreditsNumber,
        75u8 => Field::CreditsReversalNumber,
        76u8 => Field::DebitsNumber,
        77u8 => Field::DebitsReversalNumber,
        78u8 => Field::TransferNumber,
        79u8 => Field::TransferReversalNumber,
        80u8 => Field::InquiriesNumber,
        81u8 => Field::AuthorizationsNumber,
        82u8 => Field::CreditsProcessingFeeAmount,
        83u8 => Field::CreditsTransactionFeeAmount,
        84u8 => Field::DebitsProcessingFeeAmount,
        85u8 => Field::DebitsTransactionFeeAmount,
        86u8 => Field::CreditsAmount,
        87u8 => Field::CreditsReversalAmount,
        88u8 => Field::DebitsAmount,
        89u8 => Field::DebitsReversalAmount,
        90u8 => Field::OriginalDataElements,
        91u8 => Field::FileUpdateCode,
        92u8 => Field::FileSecurityCode,
        93u8 => Field::ResponseIndicator,
        94u8 => Field::ServiceIndicator,
        95u8 => Field::ReplacementAmounts,
        96u8 => Field::MessageSecurityCode,
        97u8 => Field::NetSettlementAmount,
        98u8 => Field::Payee,
        99u8 => Field::SettlementInstitutionIdentificationCode,
        100u8 => Field::ReceivingInstitutionIdentificationCode,
        101u8 => Field::FileName,
        102u8 => Field::AccountIdentification1,
        103u8 => Field::AccountIdentification2,
        104u8 => Field::TransactionDescription,
        105u8 => Field::ReservedISO3,
        106u8 => Field::ReservedISO4,
        107u8 => Field::ReservedISO5,
        108u8 => Field::ReservedISO6,
        109u8 => Field::ReservedISO7,
        110u8 => Field::ReservedISO8,
        111u8 => Field::ReservedISO9,
        112u8 => Field::ReservedNational4,
        113u8 => Field::ReservedNational5,
        114u8 => Field::ReservedNational6,
        115u8 => Field::ReservedNational7,
        116u8 => Field::ReservedNational8,
        117u8 => Field::ReservedNational9,
        118u8 => Field::ReservedNational10,
        119u8 => Field::ReservedNational11,
        120u8 => Field::ReservedPrivate5,
        121u8 => Field::ReservedPrivate6,
        122u8 => Field::ReservedPrivate7,
        123u8 => Field::ReservedPrivate8,
        124u8 => Field::InfoText,
        125u8 => Field::NetworkManagementInformation,
        126u8 => Field::IssuerTraceId,
        127u8 => Field::ReservedPrivate9,
        _ => Field::MessageAuthenticationCode2,
    }
}

impl Field {
    /// The field number.
    pub fn number(&self) -> (r: u8)
        returns
            spec_field_number(*self),
    {
        match self {
            Field::SecondaryBitmap => 1,
            Field::PrimaryAccountNumber => 2,
            Field::ProcessingCode => 3,
            Field::TransactionAmount => 4,
            Field::SettlementAmount => 5,
            Field::CardholderBillingAmount => 6,
            Field::TransmissionDateTime => 7,
            Field::CardholderBillingFeeAmount => 8,
            Field::SettlementConversionRate => 9,
            Field::CardholderBillingConversionRate => 10,
            Field::SystemTraceAuditNumber => 11,
            Field::LocalTransactionTime => 12,
            Field::LocalTransactionDate => 13,
            Field::ExpirationDate => 14,
            Field::SettlementDate => 15,
            Field::CurrencyConversionDate => 16,
            Field::CaptureDate => 17,
            Field::MerchantType => 18,
            Field::AcquiringInstitutionCountryCode => 19,
            Field::PANExtendedCountryCode => 20,
            Field::ForwardingInstitutionCountryCode => 21,
            Field::PointOfServiceEntryMode => 22,
            Field::ApplicationPANSequenceNumber => 23,
            Field::NetworkInternationalIdentifier => 24,
            Field::PointOfServiceConditionCode => 25,
            Field::PointOfServiceCaptureCode => 26,
            Field::AuthorizingIdentificationResponseLength => 27,
            Field::TransactionFeeAmount => 28,
            Field::SettlementFeeAmount => 29,
            Field::TransactionProcessingFeeAmount => 30,
            Field::SettlementProcessingFeeAmount => 31,
            Field::AcquiringInstitutionIdentificationCode => 32,
            Field::ForwardingInstitutionIdentificationCode => 33,
            Field::ExtendedPrimaryAccountNumber => 34,
            Field::Track2Data => 35,
            Field::Track3Data => 36,
            Field::RetrievalReferenceNumber => 37,
            Field::AuthorizationIdentificationResponse => 38,
            Field::ResponseCode => 39,
            Field::ServiceRestrictionCode => 40,
            Field::CardAcceptorTerminalIdentification => 41,
            Field::CardAcceptorIdentificationCode => 42,
            Field::CardAcceptorNameLocation => 43,
            Field::AdditionalResponseData => 44,
            Field::Track1Data => 45,
            Field::AdditionalDataISO => 46,
            Field::AdditionalDataNational => 47,
            Field::AdditionalDataPrivate => 48,
            Field::CurrencyCodeTransaction => 49,
            Field::CurrencyCodeSettlement => 50,
            Field::CurrencyCodeCardholderBilling => 51,
            Field::PersonalIdentificationNumberData => 52,
            Field::SecurityRelatedControlInformation => 53,
            Field::AdditionalAmounts => 54,
            Field::ReservedISO1 => 55,
            Field::ReservedISO2 => 56,
            Field::ReservedNational1 => 57,
            Field::ReservedNational2 => 58,
            Field::ReservedNational3 => 59,
            Field::ReservedPrivate1 => 60,
            Field::ReservedPrivate2 => 61,
            Field::ReservedPrivate3 => 62,
            Field::ReservedPrivate4 => 63,
            Field::MessageAuthenticationCode => 64,
            Field::TertiaryBitmap => 65,
            Field::SettlementCode => 66,
            Field::ExtendedPaymentCode => 67,
            Field::ReceivingInstitutionCountryCode => 68,
            Field::SettlementInstitutionCountryCode => 69,
            Field::NetworkManagementInformationCode => 70,
            Field::MessageNumber => 71,
            Field::MessageNumberLast => 72,
            Field::DateAction => 73,
            Field::CreditsNumber => 74,
            Field::CreditsReversalNumber => 75,
            Field::DebitsNumber => 76,
            Field::DebitsReversalNumber => 77,
            Field::TransferNumber => 78,
            Field::TransferReversalNumber => 79,
            Field::InquiriesNumber => 80,
            Field::AuthorizationsNumber => 81,
            Field::CreditsProcessingFeeAmount => 82,
            Field::CreditsTransactionFeeAmount => 83,
            Field::DebitsProcessingFeeAmount => 84,
            Field::DebitsTransactionFeeAmount => 85,
            Field::CreditsAmount => 86,
            Field::CreditsReversalAmount => 87,
            Field::DebitsAmount => 88,
            Field::DebitsReversalAmount => 89,
            Field::OriginalDataElements => 90,
            Field::FileUpdateCode => 91,
            Field::FileSecurityCode => 92,
            Field::ResponseIndicator => 93,
            Field::ServiceIndicator => 94,
            Field::ReplacementAmounts => 95,
            Field::MessageSecurityCode => 96,
            Field::NetSettlementAmount => 97,
            Field::Payee => 98,
            Field::SettlementInstitutionIdentificationCode => 99,
            Field::ReceivingInstitutionIdentificationCode => 100,
            Field::FileName => 101,
            Field::AccountIdentification1 => 102,
            Field::AccountIdentification2 => 103,
            Field::TransactionDescription => 104,
            Field::ReservedISO3 => 105,
            Field::ReservedISO4 => 106,
            Field::ReservedISO5 => 107,
            Field::ReservedISO6 => 108,
            Field::ReservedISO7 => 109,
            Field::ReservedISO8 => 110,
            Field::ReservedISO9 => 111,
            Field::ReservedNational4 => 112,
            Field::ReservedNational5 => 113,
            Field::ReservedNational6 => 114,
            Field::ReservedNational7 => 115,
            Field::ReservedNational8 => 116,
            Field::ReservedNational9 => 117,
            Field::ReservedNational10 => 118,
            Field::ReservedNational11 => 119,
            Field::ReservedPrivate5 => 120,
            Field::ReservedPrivate6 => 121,
            Field::ReservedPrivate7 => 122,
            Field::ReservedPrivate8 => 123,
            Field::InfoText => 124,
            Field::NetworkManagementInformation => 125,
            Field::IssuerTraceId => 126,
            Field::ReservedPrivate9 => 127,
            Field::MessageAuthenticationCode2 => 128,
        }
    }

    /// The named field for a number; fails exactly when the number is zero
    /// or above 128.
    pub fn from_number(num: u8) -> (r: Result<Self, ISO8583Error>)
        ensures
            r is Ok <==> 1 <= num <= 128,
            r is Ok ==> r->Ok_0 == spec_field_of_number(num) && spec_field_number(r->Ok_0) == num,
            r is Err ==> r->Err_0 == ISO8583Error::InvalidFieldNumber(num),
    {
        if num == 0 || num > 128 {
            return Err(ISO8583Error::InvalidFieldNumber(num));
        }
        let f = match num {
            1u8 => Field::SecondaryBitmap,
            2u8 => Field::PrimaryAccountNumber,
            3u8 => Field::ProcessingCode,
            4u8 => Field::TransactionAmount,
            5u8 => Field::SettlementAmount,
            6u8 => Field::CardholderBillingAmount,
            7u8 => Field::TransmissionDateTime,
            8u8 => Field::CardholderBillingFeeAmount,
            9u8 => Field::SettlementConversionRate,
            10u8 => Field::CardholderBillingConversionRate,
            11u8 => Field::SystemTraceAuditNumber,
            12u8 => Field::LocalTransactionTime,
            13u8 => Field::LocalTransactionDate,
            14u8 => Field::ExpirationDate,
            15u8 => Field::SettlementDate,
            16u8 => Field::CurrencyConversionDate,
            17u8 => Field::CaptureDate,
            18u8 => Field::MerchantType,
            19u8 => Field::AcquiringInstitutionCountryCode,
            20u8 => Field::PANExtendedCountryCode,
            21u8 => Field::ForwardingInstitutionCountryCode,
            22u8 => Field::PointOfServiceEntryMode,
            23u8 => Field::ApplicationPANSequenceNumber,
            24u8 => Field::NetworkInternationalIdentifier,
            25u8 => Field::PointOfServiceConditionCode,
            26u8 => Field::PointOfServiceCaptureCode,
            27u8 => Field::AuthorizingIdentificationResponseLength,
            28u8 => Field::TransactionFeeAmount,
            29u8 => Field::SettlementFeeAmount,
            30u8 => Field::TransactionProcessingFeeAmount,
            31u8 => Field::SettlementProcessingFeeAmount,
            32u8 => Field::AcquiringInstitutionIdentificationCode,
            33u8 => Field::ForwardingInstitutionIdentificationCode,
            34u8 => Field::ExtendedPrimaryAccountNumber,
            35u8 => Field::Track2Data,
            36u8 => Field::Track3Data,
            37u8 => Field::RetrievalReferenceNumber,
            38u8 => Field::AuthorizationIdentificationResponse,
            39u8 => Field::ResponseCode,
            40u8 => Field::ServiceRestrictionCode,
            41u8 => Field::CardAcceptorTerminalIdentification,
            42u8 => Field::CardAcceptorIdentificationCode,
            43u8 => Field::CardAcceptorNameLocation,
            44u8 => Field::AdditionalResponseData,
            45u8 => Field::Track1Data,
            46u8 => Field::AdditionalDataISO,
            47u8 => Field::AdditionalDataNational,
            48u8 => Field::AdditionalDataPrivate,
            49u8 => Field::CurrencyCodeTransaction,
            50u8 => Field::CurrencyCodeSettlement,
            51u8 => Field::CurrencyCodeCardholderBilling,
            52u8 => Field::PersonalIdentificationNumberData,
            53u8 => Field::SecurityRelatedControlInformation,
            54u8 => Field::AdditionalAmounts,
            55u8 => Field::ReservedISO1,
            56u8 => Field::ReservedISO2,
            57u8 => Field::ReservedNational1,
            58u8 => Field::ReservedNational2,
            59u8 => Field::ReservedNational3,
            60u8 => Field::ReservedPrivate1,
            61u8 => Field::ReservedPrivate2,
            62u8 => Field::ReservedPrivate3,
            63u8 => Field::ReservedPrivate4,
            64u8 => Field::MessageAuthenticationCode,
            65u8 => Field::TertiaryBitmap,
            66u8 => Field::SettlementCode,
            67u8 => Field::ExtendedPaymentCode,
            68u8 => Field::ReceivingInstitutionCountryCode,
            69u8 => Field::SettlementInstitutionCountryCode,
            70u8 => Field::NetworkManagementInformationCode,
            71u8 => Field::MessageNumber,
            72u8 => Field::MessageNumberLast,
            73u8 => Field::DateAction,
            74u8 => Field::CreditsNumber,
            75u8 => Field::CreditsReversalNumber,
            76u8 => Field::DebitsNumber,
            77u8 => Field::DebitsReversalNumber,
            78u8 => Field::TransferNumber,
            79u8 => Field::TransferReversalNumber,
            80u8 => Field::InquiriesNumber,
            81u8 => Field::AuthorizationsNumber,
            82u8 => Field::CreditsProcessingFeeAmount,
            83u8 => Field::CreditsTransactionFeeAmount,
            84u8 => Field::DebitsProcessingFeeAmount,
            85u8 => Field::DebitsTransactionFeeAmount,
            86u8 => Field::CreditsAmount,
            87u8 => Field::CreditsReversalAmount,
            88u8 => Field::DebitsAmount,
            89u8 => Field::DebitsReversalAmount,
            90u8 => Field::OriginalDataElements,
            91u8 => Field::FileUpdateCode,
            92u8 => Field::FileSecurityCode,
            93u8 => Field::ResponseIndicator,
            94u8 => Field::ServiceIndicator,
            95u8 => Field::ReplacementAmounts,
            96u8 => Field::MessageSecurityCode,
            97u8 => Field::NetSettlementAmount,
            98u8 => Field::Payee,
            99u8 => Field::SettlementInstitutionIdentificationCode,
            100u8 => Field::ReceivingInstitutionIdentificationCode,
            101u8 => Field::FileName,
            102u8 => Field::AccountIdentification1,
            103u8 => Field::AccountIdentification2,
            104u8 => Field::TransactionDescription,
            105u8 => Field::ReservedISO3,
            106u8 => Field::ReservedISO4,
            107u8 => Field::ReservedISO5,
            108u8 => Field::ReservedISO6,
            109u8 => Field::ReservedISO7,
            110u8 => Field::ReservedISO8,
            111u8 => Field::ReservedISO9,
            112u8 => Field::ReservedNational4,
            113u8 => Field::ReservedNational5,
            114u8 => Field::ReservedNational6,
            115u8 => Field::ReservedNational7,
            116u8 => Field::ReservedNational8,
            117u8 => Field::ReservedNational9,
            118u8 => Field::ReservedNational10,
            119u8 => Field::ReservedNational11,
            120u8 => Field::ReservedPrivate5,
            121u8 => Field::ReservedPrivate6,
            122u8 => Field::ReservedPrivate7,
            123u8 => Field::ReservedPrivate8,
            124u8 => Field::InfoText,
            125u8 => Field::NetworkManagementInformation,
            126u8 => Field::IssuerTraceId,
            127u8 => Field::ReservedPrivate9,
            _ => Field::MessageAuthenticationCode2,
        };
        Ok(f)
    }

    /// The display name of the field.
    pub fn name(&self) -> &'static str {
        match self {
            Field::SecondaryBitmap => "Secondary Bitmap",
            Field::PrimaryAccountNumber => "Primary Account Number",
            Field::ProcessingCode => "Processing Code",
            Field::TransactionAmount => "Transaction Amount",
            Field::SettlementAmount => "Settlement Amount",
            Field::CardholderBillingAmount => "Cardholder Billing Amount",
            Field::TransmissionDateTime => "Transmission Date & Time",
            Field::CardholderBillingFeeAmount => "Cardholder Billing Fee Amount",
            Field::SettlementConversionRate => "Settlement Conversion Rate",
            Field::CardholderBillingConversionRate => "Cardholder Billing Conversion Rate",
            Field::SystemTraceAuditNumber => "System Trace Audit Number",
            Field::LocalTransactionTime => "Local Transaction Time",
            Field::LocalTransactionDate => "Local Transaction Date",
            Field::ExpirationDate => "Expiration Date",
            Field::SettlementDate => "Settlement Date",
            Field::CurrencyConversionDate => "Currency Conversion Date",
            Field::CaptureDate => "Capture Date",
            Field::MerchantType => "Merchant Type",
            Field::AcquiringInstitutionCountryCode => "Acquiring Institution Country Code",
            Field::PANExtendedCountryCode => "PAN Extended Country Code",
            Field::ForwardingInstitutionCountryCode => "Forwarding Institution Country Code",
            Field::PointOfServiceEntryMode => "Point of Service Entry Mode",
            Field::ApplicationPANSequenceNumber => "Application PAN Sequence Number",
            Field::NetworkInternationalIdentifier => "Network International Identifier",
            Field::PointOfServiceConditionCode => "Point of Service Condition Code",
            Field::PointOfServiceCaptureCode => "Point of Service Capture Code",
            Field::AuthorizingIdentificationResponseLength => "Authorizing Identification Response Length",
            Field::TransactionFeeAmount => "Transaction Fee Amount",
            Field::SettlementFeeAmount => "Settlement Fee Amount",
            Field::TransactionProcessingFeeAmount => "Transaction Processing Fee Amount",
            Field::SettlementProcessingFeeAmount => "Settlement Processing Fee Amount",
            Field::AcquiringInstitutionIdentificationCode => "Acquiring Institution Identification Code",
            Field::ForwardingInstitutionIdentificationCode => "Forwarding Institution Identification Code",
            Field::ExtendedPrimaryAccountNumber => "Extended Primary Account Number",
            Field::Track2Data => "Track 2 Data",
            Field::Track3Data => "Track 3 Data",
            Field::RetrievalReferenceNumber => "Retrieval Reference Number",
            Field::AuthorizationIdentificationResponse => "Authorization Identification Response",
            Field::ResponseCode => "Response Code",
            Field::ServiceRestrictionCode => "Service Restriction Code",
            Field::CardAcceptorTerminalIdentification => "Card Acceptor Terminal Identification",
            Field::CardAcceptorIdentificationCode => "Card Acceptor Identification Code",
            Field::CardAcceptorNameLocation => "Card Acceptor Name/Location",
            Field::AdditionalResponseData => "Additional Response Data",
            Field::Track1Data => "Track 1 Data",
            Field::AdditionalDataISO => "Additional Data (ISO)",
            Field::AdditionalDataNational => "Additional Data (National)",
            Field::AdditionalDataPrivate => "Additional Data (Private)",
            Field::CurrencyCodeTransaction => "Currency Code, Transaction",
            Field::CurrencyCodeSettlement => "Currency Code, Settlement",
            Field::CurrencyCodeCardholderBilling => "Currency Code, Cardholder Billing",
            Field::PersonalIdentificationNumberData => "Personal Identification Number Data",
            Field::SecurityRelatedControlInformation => "Security Related Control Information",
            Field::AdditionalAmounts => "Additional Amounts",
            Field::ReservedISO1 => "Reserved ISO",
            Field::ReservedISO2 => "Reserved ISO",
            Field::ReservedNational1 => "Reserved ISO",
            Field::ReservedNational2 => "Reserved ISO",
            Field::ReservedNational3 => "Reserved ISO",
            Field::ReservedPrivate1 => "Reserved ISO",
            Field::ReservedPrivate2 => "Reserved ISO",
            Field::ReservedPrivate3 => "Reserved ISO",
            Field::ReservedPrivate4 => "Reserved ISO",
            Field::MessageAuthenticationCode => "Message Authentication Code",
            Field::TertiaryBitmap => "Tertiary Bitmap",
            Field::SettlementCode => "Settlement Code",
            Field::ExtendedPaymentCode => "Extended Payment Code",
            Field::ReceivingInstitutionCountryCode => "Receiving Institution Country Code",
            Field::SettlementInstitutionCountryCode => "Settlement Institution Country Code",
            Field::NetworkManagementInformationCode => "Network Management Information Code",
            Field::MessageNumber => "Message Number",
            Field::MessageNumberLast => "Message Number Last",
            Field::DateAction => "Date Action",
            Field::CreditsNumber => "Credits Number",
            Field::CreditsReversalNumber => "Credits Reversal Number",
            Field::DebitsNumber => "Debits Number",
            Field::DebitsReversalNumber => "Debits Reversal Number",
            Field::TransferNumber => "Transfer Number",
            Field::TransferReversalNumber => "Transfer Reversal Number",
            Field::InquiriesNumber => "Inquiries Number",
            Field::AuthorizationsNumber => "Authorizations Number",
            Field::CreditsProcessingFeeAmount => "Credits Processing Fee Amount",
            Field::CreditsTransactionFeeAmount => "Credits Transaction Fee Amount",
            Field::DebitsProcessingFeeAmount => "Debits Processing Fee Amount",
            Field::DebitsTransactionFeeAmount => "Debits Transaction Fee Amount",
            Field::CreditsAmount => "Credits Amount",
            Field::CreditsReversalAmount => "Credits Reversal Amount",
            Field::DebitsAmount => "Debits Amount",
            Field::DebitsReversalAmount => "Debits Reversal Amount",
            Field::OriginalDataElements => "Original Data Elements",
            Field::FileUpdateCode => "File Update Code",
            Field::FileSecurityCode => "File Security Code",
            Field::ResponseIndicator => "Response Indicator",
            Field::ServiceIndicator => "Service Indicator",
            Field::ReplacementAmounts => "Replacement Amounts",
            Field::MessageSecurityCode => "Message Security Code",
            Field::NetSettlementAmount => "Net Settlement Amount",
            Field::Payee => "Payee",
            Field::SettlementInstitutionIdentificationCode => "Settlement Institution Identification Code",
            Field::ReceivingInstitutionIdentificationCode => "Receiving Institution Identification Code",
            Field::FileName => "File Name",
            Field::AccountIdentification1 => "Account Identification 1",
            Field::AccountIdentification2 => "Account Identification 2",
            Field::TransactionDescription => "Transaction Description",
            Field::ReservedISO3 => "Reserved ISO 3",
            Field::ReservedISO4 => "Reserved ISO 4",
            Field::ReservedISO5 => "Reserved ISO 5",
            Field::ReservedISO6 => "Reserved ISO 6",
            Field::ReservedISO7 => "Reserved ISO 7",
            Field::ReservedISO8 => "Reserved ISO 8",
            Field::ReservedISO9 => "Reserved ISO 9",
            Field::ReservedNational4 => "Reserved National 4",
            Field::ReservedNational5 => "Reserved National 5",
            Field::ReservedNational6 => "Reserved National 6",
            Field::ReservedNational7 => "Reserved National 7",
            Field::ReservedNational8 => "Reserved National 8",
            Field::ReservedNational9 => "Reserved National 9",
            Field::ReservedNational10 => "Reserved National 10",
            Field::ReservedNational11 => "Reserved National 11",
            Field::ReservedPrivate5 => "Reserved Private 5",
            Field::ReservedPrivate6 => "Reserved Private 6",
            Field::ReservedPrivate7 => "Reserved Private 7",
            Field::ReservedPrivate8 => "Reserved Private 8",
            Field::InfoText => "Info Text",
            Field::NetworkManagementInformation => "Network Management Information",
            Field::IssuerTraceId => "Issuer Trace Id",
            Field::ReservedPrivate9 => "Reserved Private 9",
            Field::MessageAuthenticationCode2 => "Message Authentication Code 2",
        }
    }

    /// A short description of the field.
    pub fn description_text(&self) -> &'static str {
        match self {
            Field::SecondaryBitmap => "Secondary bitmap for fields 65-128",
            Field::PrimaryAccountNumber => "Card number (PAN)",
            Field::ProcessingCode => "Transaction type and account types",
            Field::TransactionAmount => "Amount in minor currency units",
            Field::SettlementAmount => "Settlement amount",
            Field::CardholderBillingAmount => "Amount billed to cardholder",
            Field::TransmissionDateTime => "MMDDhhmmss",
            Field::CardholderBillingFeeAmount => "Fee amount billed to cardholder",
            Field::SettlementConversionRate => "Conversion rate for settlement",
            Field::CardholderBillingConversionRate => "Conversion rate for cardholder billing",
            Field::SystemTraceAuditNumber => "Unique trace number for reconciliation",
            Field::LocalTransactionTime => "hhmmss at terminal",
            Field::LocalTransactionDate => "MMDD at terminal",
            Field::ExpirationDate => "YYMM card expiration",
            Field::SettlementDate => "MMDD settlement date",
            Field::CurrencyConversionDate => "MMDD conversion date",
            Field::CaptureDate => "MMDD capture date",
            Field::MerchantType => "Merchant Category Code (MCC)",
            Field::AcquiringInstitutionCountryCode => "ISO country code of acquirer",
            Field::PANExtendedCountryCode => "Country code of PAN",
            Field::ForwardingInstitutionCountryCode => "Country code of forwarder",
            Field::PointOfServiceEntryMode => "How PAN was obtained (chip, swipe, manual)",
            Field::ApplicationPANSequenceNumber => "Card sequence number for chip cards",
            Field::NetworkInternationalIdentifier => "Network function code",
            Field::PointOfServiceConditionCode => "Terminal condition (attended, unattended)",
            Field::PointOfServiceCaptureCode => "Terminal capability",
            Field::AuthorizingIdentificationResponseLength => "Length of field 38",
            Field::TransactionFeeAmount => "Transaction fee",
            Field::SettlementFeeAmount => "Settlement fee",
            Field::TransactionProcessingFeeAmount => "Processing fee",
            Field::SettlementProcessingFeeAmount => "Settlement processing fee",
            Field::AcquiringInstitutionIdentificationCode => "Acquirer ID",
            Field::ForwardingInstitutionIdentificationCode => "Forwarder ID",
            Field::ExtendedPrimaryAccountNumber => "Extended PAN for special cases",
            Field::Track2Data => "Magnetic stripe track 2 data",
            Field::Track3Data => "Magnetic stripe track 3 data",
            Field::RetrievalReferenceNumber => "Unique reference for retrieval",
            Field::AuthorizationIdentificationResponse => "Approval code",
            Field::ResponseCode => "Transaction result (00=approved)",
            Field::ServiceRestrictionCode => "Services available on card",
            Field::CardAcceptorTerminalIdentification => "Terminal ID",
            Field::CardAcceptorIdentificationCode => "Merchant ID",
            Field::CardAcceptorNameLocation => "Merchant name and location",
            Field::AdditionalResponseData => "Additional response information",
            Field::Track1Data => "Magnetic stripe track 1 data",
            Field::AdditionalDataISO => "ISO reserved additional data",
            Field::AdditionalDataNational => "National use additional data",
            Field::AdditionalDataPrivate => "Private use additional data",
            Field::CurrencyCodeTransaction => "ISO 4217 currency code",
            Field::CurrencyCodeSettlement => "Settlement currency code",
            Field::CurrencyCodeCardholderBilling => "Cardholder billing currency",
            Field::PersonalIdentificationNumberData => "Encrypted PIN block",
            Field::SecurityRelatedControlInformation => "Security control information",
            Field::AdditionalAmounts => "Additional amount fields",
            Field::ReservedISO1 => "Reserved for ISO use",
            Field::ReservedISO2 => "Reserved for ISO use",
            Field::ReservedNational1 => "Reserved for ISO use",
            Field::ReservedNational2 => "Reserved for ISO use",
            Field::ReservedNational3 => "Reserved for ISO use",
            Field::ReservedPrivate1 => "Reserved for ISO use",
            Field::ReservedPrivate2 => "Reserved for ISO use",
            Field::ReservedPrivate3 => "Reserved for ISO use",
            Field::ReservedPrivate4 => "Reserved for ISO use",
            Field::MessageAuthenticationCode => "MAC for message integrity",
            Field::TertiaryBitmap => "Tertiary bitmap for fields 129-192",
            Field::SettlementCode => "Settlement code",
            Field::ExtendedPaymentCode => "Extended payment code",
            Field::ReceivingInstitutionCountryCode => "Country code of receiver",
            Field::SettlementInstitutionCountryCode => "Country code of settler",
            Field::NetworkManagementInformationCode => "Network management code",
            Field::MessageNumber => "Message sequence number",
            Field::MessageNumberLast => "Last message number",
            Field::DateAction => "YYMMDD action date",
            Field::CreditsNumber => "Number of credits",
            Field::CreditsReversalNumber => "Number of credit reversals",
            Field::DebitsNumber => "Number of debits",
            Field::DebitsReversalNumber => "Number of debit reversals",
            Field::TransferNumber => "Number of transfers",
            Field::TransferReversalNumber => "Number of transfer reversals",
            Field::InquiriesNumber => "Number of inquiries",
            Field::AuthorizationsNumber => "Number of authorizations",
            Field::CreditsProcessingFeeAmount => "Credits processing fee",
            Field::CreditsTransactionFeeAmount => "Credits transaction fee",
            Field::DebitsProcessingFeeAmount => "Debits processing fee",
            Field::DebitsTransactionFeeAmount => "Debits transaction fee",
            Field::CreditsAmount => "Total credits amount",
            Field::CreditsReversalAmount => "Total credits reversal amount",
            Field::DebitsAmount => "Total debits amount",
            Field::DebitsReversalAmount => "Total debits reversal amount",
            Field::OriginalDataElements => "Original transaction data",
            Field::FileUpdateCode => "File action code",
            Field::FileSecurityCode => "File security code",
            Field::ResponseIndicator => "Response routing indicator",
            Field::ServiceIndicator => "Service indicator",
            Field::ReplacementAmounts => "Replacement amounts",
            Field::MessageSecurityCode => "Message security code",
            Field::NetSettlementAmount => "Net settlement amount",
            Field::Payee => "Payee information",
            Field::SettlementInstitutionIdentificationCode => "Settlement institution ID",
            Field::ReceivingInstitutionIdentificationCode => "Receiving institution ID",
            Field::FileName => "File name",
            Field::AccountIdentification1 => "Account identification 1",
            Field::AccountIdentification2 => "Account identification 2",
            Field::TransactionDescription => "Transaction description",
            Field::ReservedISO3 => "Reserved for ISO use",
            Field::ReservedISO4 => "Reserved for ISO use",
            Field::ReservedISO5 => "Reserved for ISO use",
            Field::ReservedISO6 => "Reserved for ISO use",
            Field::ReservedISO7 => "Reserved for ISO use",
            Field::ReservedISO8 => "Reserved for ISO use",
            Field::ReservedISO9 => "Reserved for ISO use",
            Field::ReservedNational4 => "Reserved for national use",
            Field::ReservedNational5 => "Reserved for national use",
            Field::ReservedNational6 => "Reserved for national use",
            Field::ReservedNational7 => "Reserved for national use",
            Field::ReservedNational8 => "Reserved for national use",
            Field::ReservedNational9 => "Reserved for national use",
            Field::ReservedNational10 => "Reserved for national use",
            Field::ReservedNational11 => "Reserved for national use",
            Field::ReservedPrivate5 => "Reserved for private use",
            Field::ReservedPrivate6 => "Reserved for private use",
            Field::ReservedPrivate7 => "Reserved for private use",
            Field::ReservedPrivate8 => "Reserved for private use",
            Field::InfoText => "Information text",
            Field::NetworkManagementInformation => "Network management info",
            Field::IssuerTraceId => "Issuer trace identifier",
            Field::ReservedPrivate9 => "Reserved for private use",
            Field::MessageAuthenticationCode2 => "Secondary MAC",
        }
    }
}

/// Data type of a field, as carried in the legacy definition shape.
#[derive(Debug, Clone, Copy, PartialEq, Eq, Structural)]
pub enum FieldType {
    /// Decimal digits only
    Numeric,
    /// Alphabetic characters only
    Alpha,
    /// Letters and digits
    AlphaNumeric,
    /// Letters, digits, and special characters
    AlphaNumericSpecial,
    /// Raw binary data
    Binary,
    /// Track 2 magnetic stripe format
    Track2,
    /// Track 3 magnetic stripe format
    Track3,
}

/// Length specification of a field, as carried in the legacy definition
/// shape.
#[derive(Debug, Clone, Copy, PartialEq, Eq, Structural)]
pub enum FieldLength {
    /// Fixed length
    Fixed(usize),
    /// Variable length with a two-digit indicator, and its maximum
    LLVar(usize),
    /// Variable length with a three-digit indicator, and its maximum
    LLLVar(usize),
}

/// A field definition carrying the display name beside the shape drawn from
/// the specification table.
#[derive(Debug, Clone, PartialEq, Eq)]
pub struct FieldDefinition {
    /// Field number
    pub number: u8,
    /// Display name
    pub name: &'static str,
    /// Data type
    pub field_type: FieldType,
    /// Length specification
    pub length: FieldLength,
    /// Short description
    pub description: &'static str,
}

/// The legacy data-type tag for a table data type.
pub open spec fn spec_field_type_of(dt: DataType) -> FieldType {
    match dt {
        DataType::Numeric => FieldType::Numeric,
        DataType::Alpha => FieldType::Alpha,
        DataType::Alphanumeric => FieldType::AlphaNumeric,
        DataType::AlphanumericSpecial => FieldType::AlphaNumericSpecial,
        DataType::Binary => FieldType::Binary,
        DataType::Track2 => FieldType::Track2,
        DataType::Track3 => FieldType::Track3,
    }
}

/// The legacy length tag for a table length encoding and maximum.
pub open spec fn spec_field_length_of(lt: LengthType, max_len: u16) -> FieldLength {
    match lt {
        LengthType::Fixed => FieldLength::Fixed(max_len as usize),
        LengthType::Llvar => FieldLength::LLVar(max_len as usize),
        LengthType::Lllvar => FieldLength::LLLVar(max_len as usize),
    }
}

fn field_type_of(dt: DataType) -> (r: FieldType)
    returns
        spec_field_type_of(dt),
{
    match dt {
        DataType::Numeric => FieldType::Numeric,
        DataType::Alpha => FieldType::Alpha,
        DataType::Alphanumeric => FieldType::AlphaNumeric,
        DataType::AlphanumericSpecial => FieldType::AlphaNumericSpecial,
        DataType::Binary => FieldType::Binary,
        DataType::Track2 => FieldType::Track2,
        DataType::Track3 => FieldType::Track3,
    }
}

fn field_length_of(lt: LengthType, max_len: u16) -> (r: FieldLength)
    returns
        spec_field_length_of(lt, max_len),
{
    match lt {
        LengthType::Fixed => FieldLength::Fixed(max_len as usize),
        LengthType::Llvar => FieldLength::LLVar(max_len as usize),
        LengthType::Lllvar => FieldLength::LLLVar(max_len as usize),
    }
}

impl Field {
    /// The definition of this field, drawn from the specification table.
    pub fn definition(&self) -> (r: FieldDefinition)
        ensures
            r.number == spec_field_number(*self),
            spec_iso1987_field(spec_field_number(*self)) matches Some(d) ==> r.field_type
                == spec_field_type_of(d.data_type) && r.length == spec_field_length_of(
                d.length_type,
                d.max_len,
            ),
    {
        let n = self.number();
        proof {
            assert(1 <= n <= 128);
            assert(spec_iso1987_field(n) is Some);
        }
        let d = iso1987_field(n).unwrap();
        FieldDefinition {
            number: n,
            name: self.name(),
            field_type: field_type_of(d.data_type),
            length: field_length_of(d.length_type, d.max_len),
            description: self.description_text(),
        }
    }

    /// All data-carrying fields, in ascending field-number order: numbers
    /// two through 128, without the tertiary bitmap indicator (sixty-five).
    pub fn all() -> (r: Vec<Field>)
        ensures
            r@.len() == 126,
            forall|i: int|
                0 <= i < r@.len() ==> spec_field_number(#[trigger] r@[i]) == (if i < 63 {
                    i + 2
                } else {
                    i + 3
                }),
    {
        let mut out: Vec<Field> = Vec::new();
        let mut n: u8 = 2;
        while n <= 128
            invariant
                2 <= n <= 129,
                out@.len() == (if n <= 65 {
                    n - 2
                } else {
                    n - 3
                }),
                forall|i: int|
                    0 <= i < out@.len() ==> spec_field_number(#[trigger] out@[i]) == (if i < 63 {
                        i + 2
                    } else {
                        i + 3
                    }),
            decreases 129 - n,
        {
            if n != 65 {
                let f = match Field::from_number(n) {
                    Ok(f) => f,
                    Err(_) => {
                        proof {
                            assert(false);
                        }
                        Field::MessageAuthenticationCode2
                    },
                };
                out.push(f);
            }
            n = n + 1;
        }
        out
    }
}


impl FieldDefinition {
    /// The definition of a field number, or none for zero or a number
    /// above 128.
    pub fn get(number: u8) -> (r: Option<FieldDefinition>)
        ensures
            r is Some <==> 1 <= number <= 128,
            r matches Some(d) ==> d.number == number && (spec_iso1987_field(number) matches Some(
                t,
            ) ==> d.field_type == spec_field_type_of(t.data_type) && d.length
                == spec_field_length_of(t.length_type, t.max_len)),
    {
        match Field::from_number(number) {
            Ok(f) => Some(f.definition()),
            Err(_) => None,
        }
    }
}

/// The abstract content of a field value: a character string or raw bytes.
pub enum ValueView {
    /// Text content
    Text(Seq<char>),
    /// Binary content
    Bin(Seq<u8>),
}

/// A field value: text for the character-based data types, bytes for the
/// binary ones.
#[derive(Debug, Clone, PartialEq, Eq)]
pub enum FieldValue {
    /// Text value
    String(String),
    /// Binary value
    Binary(Vec<u8>),
}

impl View for FieldValue {
    type V = ValueView;

    open spec fn view(&self) -> ValueView {
        match self {
            FieldValue::String(s) => ValueView::Text(s@),
            FieldValue::Binary(b) => ValueView::Bin(b@),
        }
    }
}

/// What `str` text a byte buffer displays as when decoded leniently; the
/// replacement-character behaviour of the standard library.
pub uninterp spec fn lossy_text_of(b: Seq<u8>) -> Seq<char>;

/// Relies on `String::from_utf8_lossy`: the result is a function of the
/// bytes alone, and valid UTF-8 — in particular plain ASCII — is decoded
/// unchanged.
#[verifier::external_body]
fn utf8_lossy(bytes: &Vec<u8>) -> (r: String)
    ensures
        r@ == lossy_text_of(bytes@),
        crate::ascii::all_ascii_bytes(bytes@) ==> r@ == chars_of_bytes(bytes@),
{
    String::from_utf8_lossy(bytes.as_slice()).into_owned()
}

impl FieldValue {
    /// Create a text value.
    pub fn from_string(s: String) -> (r: Self)
        ensures
            r@ == ValueView::Text(s@),
    {
        FieldValue::String(s)
    }

    /// Create a binary value.
    pub fn from_binary(data: Vec<u8>) -> (r: Self)
        ensures
            r@ == ValueView::Bin(data@),
    {
        FieldValue::Binary(data)
    }

    /// The text content, when this is a text value.
    pub fn as_string(&self) -> (r: Option<&str>)
        ensures
            self@ matches ValueView::Text(s) ==> r matches Some(t) && t@ == s,
            self@ is Bin ==> r is None,
    {
        match self {
            FieldValue::String(s) => Some(s.as_str()),
            FieldValue::Binary(_) => None,
        }
    }

    /// The binary content, when this is a binary value.
    pub fn as_binary(&self) -> (r: Option<&[u8]>)
        ensures
            self@ matches ValueView::Bin(b) ==> r matches Some(v) && v@ == b,
            self@ is Text ==> r is None,
    {
        match self {
            FieldValue::String(_) => None,
            FieldValue::Binary(b) => Some(b.as_slice()),
        }
    }

    /// The value as text: a text value's content, or a lenient decoding of
    /// a binary value's bytes.
    pub fn to_string_lossy(&self) -> (r: String)
        ensures
            self@ matches ValueView::Text(s) ==> r@ == s,
            self@ matches ValueView::Bin(b) ==> r@ == lossy_text_of(b),
    {
        match self {
            FieldValue::String(s) => s.clone(),
            FieldValue::Binary(b) => utf8_lossy(b),
        }
    }
}

} // verus!
