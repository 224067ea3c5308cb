//! The display forms of the gateway's codes: each is its variant's name,
//! reads back as the same code, and is what error responses report.
use vstd::prelude::*;

use crate::codes::{Cardtype, Code, MsoftCode, PhardCode};
use crate::connector::error_body_code_text;
use crate::consts::NO_ERROR_CODE;
use crate::transformers::{error_code_text, ErrorResponse};
use crate::types::PaymentMethodType;

verus! {

/// Reading back the display form of a general result code gives the same
/// code.
pub proof fn law_code_display_round_trip(c: Code)
    ensures
        Code::from_display_text(c.display_text()) == Some(c),
{
    reveal_strlit("Auth");
    assert("Auth"@.len() == 4);
    reveal_strlit("Call");
    assert("Call"@.len() == 4);
    reveal_strlit("Deny");
    assert("Deny"@.len() == 4);
    reveal_strlit("Dupl");
    assert("Dupl"@.len() == 4);
    reveal_strlit("Pkup");
    assert("Pkup"@.len() == 4);
    reveal_strlit("Retry");
    assert("Retry"@.len() == 5);
    reveal_strlit("Setup");
    assert("Setup"@.len() == 5);
    reveal_strlit("Success");
    assert("Success"@.len() == 7);
    reveal_strlit("Timeout");
    assert("Timeout"@.len() == 7);
    match c {
        Code::Auth => {},
        Code::Call => {
            assert("Call"@[0] != "Auth"@[0]);
        },
        Code::Deny => {
            assert("Deny"@[0] != "Auth"@[0]);
            assert("Deny"@[0] != "Call"@[0]);
        },
        Code::Dupl => {
            assert("Dupl"@[0] != "Auth"@[0]);
            assert("Dupl"@[0] != "Call"@[0]);
            assert("Dupl"@[1] != "Deny"@[1]);
        },
        Code::Pkup => {
            assert("Pkup"@[0] != "Auth"@[0]);
            assert("Pkup"@[0] != "Call"@[0]);
            assert("Pkup"@[0] != "Deny"@[0]);
            assert("Pkup"@[0] != "Dupl"@[0]);
        },
        Code::Retry => {},
        Code::Setup => {
            assert("Setup"@[0] != "Retry"@[0]);
        },
        Code::Success => {},
        Code::Timeout => {
            assert("Timeout"@[0] != "Success"@[0]);
        },
    }
}

/// Reading back the display form of a card type gives the same card type.
pub proof fn law_cardtype_display_round_trip(c: Cardtype)
    ensures
        Cardtype::from_display_text(c.display_text()) == Some(c),
{
    reveal_strlit("Ach");
    assert("Ach"@.len() == 3);
    reveal_strlit("Amex");
    assert("Amex"@.len() == 4);
    reveal_strlit("Bml");
    assert("Bml"@.len() == 3);
    reveal_strlit("Check");
    assert("Check"@.len() == 5);
    reveal_strlit("Cup");
    assert("Cup"@.len() == 3);
    reveal_strlit("Diners");
    assert("Diners"@.len() == 6);
    reveal_strlit("Disc");
    assert("Disc"@.len() == 4);
    reveal_strlit("Ebt");
    assert("Ebt"@.len() == 3);
    reveal_strlit("Gift");
    assert("Gift"@.len() == 4);
    reveal_strlit("Interac");
    assert("Interac"@.len() == 7);
    reveal_strlit("Jcb");
    assert("Jcb"@.len() == 3);
    reveal_strlit("Mc");
    assert("Mc"@.len() == 2);
    reveal_strlit("Mcdebit");
    assert("Mcdebit"@.len() == 7);
    reveal_strlit("Other");
    assert("Other"@.len() == 5);
    reveal_strlit("Otherdebit");
    assert("Otherdebit"@.len() == 10);
    reveal_strlit("Paypalec");
    assert("Paypalec"@.len() == 8);
    reveal_strlit("Switch");
    assert("Switch"@.len() == 6);
    reveal_strlit("Unknown");
    assert("Unknown"@.len() == 7);
    reveal_strlit("Visa");
    assert("Visa"@.len() == 4);
    reveal_strlit("Visadebit");
    assert("Visadebit"@.len() == 9);
    reveal_strlit("Visads");
    assert("Visads"@.len() == 6);
    match c {
        Cardtype::Ach => {
            assert("Ach"@[0] != "Bml"@[0]);
            assert("Ach"@[0] != "Cup"@[0]);
            assert("Ach"@[0] != "Ebt"@[0]);
            assert("Ach"@[0] != "Jcb"@[0]);
        },
        Cardtype::Amex => {
            assert("Amex"@[0] != "Visa"@[0]);
        },
        Cardtype::Bml => {
            assert("Bml"@[0] != "Jcb"@[0]);
        },
        Cardtype::Check => {
            assert("Check"@[0] != "Other"@[0]);
        },
        Cardtype::Cup => {
            assert("Cup"@[0] != "Bml"@[0]);
            assert("Cup"@[0] != "Ebt"@[0]);
            assert("Cup"@[0] != "Jcb"@[0]);
        },
        Cardtype::Diners => {},
        Cardtype::Disc => {
            assert("Disc"@[0] != "Amex"@[0]);
            assert("Disc"@[0] != "Visa"@[0]);
        },
        Cardtype::Ebt => {
            assert("Ebt"@[0] != "Bml"@[0]);
            assert("Ebt"@[0] != "Jcb"@[0]);
        },
        Cardtype::Gift => {
            assert("Gift"@[0] != "Amex"@[0]);
            assert("Gift"@[0] != "Disc"@[0]);
            assert("Gift"@[0] != "Visa"@[0]);
        },
        Cardtype::Interac => {
            assert("Interac"@[0] != "Mcdebit"@[0]);
        },
        Cardtype::Jcb => {},
        Cardtype::Mc => {},
        Cardtype::Mcdebit => {},
        Cardtype::Other => {},
        Cardtype::Otherdebit => {},
        Cardtype::Paypalec => {},
        Cardtype::Switch => {
            assert("Switch"@[0] != "Diners"@[0]);
        },
        Cardtype::Unknown => {
            assert("Unknown"@[0] != "Interac"@[0]);
            assert("Unknown"@[0] != "Mcdebit"@[0]);
        },
        Cardtype::Visa => {},
        Cardtype::Visadebit => {},
        Cardtype::Visads => {
            assert("Visads"@[0] != "Diners"@[0]);
            assert("Visads"@[0] != "Switch"@[0]);
        },
    }
}

/// Reading back the display form of a processor result code gives the same
/// code.
pub proof fn law_phard_code_display_round_trip(c: PhardCode)
    ensures
        PhardCode::from_display_text(c.display_text()) == Some(c),
{
    reveal_strlit("AccountClosed");
    assert("AccountClosed"@.len() == 13);
    reveal_strlit("Accterror");
    assert("Accterror"@.len() == 9);
    reveal_strlit("AlreadyActive");
    assert("AlreadyActive"@.len() == 13);
    reveal_strlit("AlreadyReversed");
    assert("AlreadyReversed"@.len() == 15);
    reveal_strlit("BadMerchId");
    assert("BadMerchId"@.len() == 10);
    reveal_strlit("BadPin");
    assert("BadPin"@.len() == 6);
    reveal_strlit("BalanceMismatch");
    assert("BalanceMismatch"@.len() == 15);
    reveal_strlit("Call");
    assert("Call"@.len() == 4);
    reveal_strlit("CardExpired");
    assert("CardExpired"@.len() == 11);
    reveal_strlit("CashbackExceeded");
    assert("CashbackExceeded"@.len() == 16);
    reveal_strlit("CashbackNoavail");
    assert("CashbackNoavail"@.len() == 15);
    reveal_strlit("CidError");
    assert("CidError"@.len() == 8);
    reveal_strlit("DateError");
    assert("DateError"@.len() == 9);
    reveal_strlit("Donothonor");
    assert("Donothonor"@.len() == 10);
    reveal_strlit("DuplicateBatch");
    assert("DuplicateBatch"@.len() == 14);
    reveal_strlit("EncryptionError");
    assert("EncryptionError"@.len() == 15);
    reveal_strlit("ExceedActivityLimit");
    assert("ExceedActivityLimit"@.len() == 19);
    reveal_strlit("ExceedWithdrawalLimit");
    assert("ExceedWithdrawalLimit"@.len() == 21);
    reveal_strlit("Genericfail");
    assert("Genericfail"@.len() == 11);
    reveal_strlit("IdError");
    assert("IdError"@.len() == 7);
    reveal_strlit("IneligibleConv");
    assert("IneligibleConv"@.len() == 14);
    reveal_strlit("InsufficientFunds");
    assert("InsufficientFunds"@.len() == 17);
    reveal_strlit("InvalidAccountType");
    assert("InvalidAccountType"@.len() == 18);
    reveal_strlit("InvalidServiceCode");
    assert("InvalidServiceCode"@.len() == 18);
    reveal_strlit("ManagerNeeded");
    assert("ManagerNeeded"@.len() == 13);
    reveal_strlit("Noreply");
    assert("Noreply"@.len() == 7);
    reveal_strlit("NotActive");
    assert("NotActive"@.len() == 9);
    reveal_strlit("NotPermittedCard");
    assert("NotPermittedCard"@.len() == 16);
    reveal_strlit("NotPermittedTran");
    assert("NotPermittedTran"@.len() == 16);
    reveal_strlit("PickupFraud");
    assert("PickupFraud"@.len() == 11);
    reveal_strlit("PickupLost");
    assert("PickupLost"@.len() == 10);
    reveal_strlit("PickupNofraud");
    assert("PickupNofraud"@.len() == 13);
    reveal_strlit("PickupStolen");
    assert("PickupStolen"@.len() == 12);
    reveal_strlit("RecurringCancel");
    assert("RecurringCancel"@.len() == 15);
    reveal_strlit("Reenter");
    assert("Reenter"@.len() == 7);
    reveal_strlit("RejectedBatch");
    assert("RejectedBatch"@.len() == 13);
    reveal_strlit("Represented");
    assert("Represented"@.len() == 11);
    reveal_strlit("Retry");
    assert("Retry"@.len() == 5);
    reveal_strlit("RetryForceInsert");
    assert("RetryForceInsert"@.len() == 16);
    reveal_strlit("SecurityViolation");
    assert("SecurityViolation"@.len() == 17);
    reveal_strlit("Success");
    assert("Success"@.len() == 7);
    reveal_strlit("SystemError");
    assert("SystemError"@.len() == 11);
    reveal_strlit("Unknown");
    assert("Unknown"@.len() == 7);
    reveal_strlit("Violation");
    assert("Violation"@.len() == 9);
    match c {
        PhardCode::AccountClosed => {
            assert("AccountClosed"@[0] != "PickupNofraud"@[0]);
            assert("AccountClosed"@[0] != "RejectedBatch"@[0]);
        },
        PhardCode::Accterror => {},
        PhardCode::AlreadyActive => {
            assert("AlreadyActive"@[1] != "AccountClosed"@[1]);
            assert("AlreadyActive"@[0] != "PickupNofraud"@[0]);
            assert("AlreadyActive"@[0] != "RejectedBatch"@[0]);
        },
        PhardCode::AlreadyReversed => {},
        PhardCode::BadMerchId => {
            assert("BadMerchId"@[0] != "Donothonor"@[0]);
            assert("BadMerchId"@[0] != "PickupLost"@[0]);
        },
        PhardCode::BadPin => {},
        PhardCode::BalanceMismatch => {
            assert("BalanceMismatch"@[0] != "AlreadyReversed"@[0]);
            assert("BalanceMismatch"@[0] != "CashbackNoavail"@[0]);
            assert("BalanceMismatch"@[0] != "EncryptionError"@[0]);
            assert("BalanceMismatch"@[0] != "RecurringCancel"@[0]);
        },
        PhardCode::Call => {},
        PhardCode::CardExpired => {
            assert("CardExpired"@[0] != "Genericfail"@[0]);
            assert("CardExpired"@[0] != "PickupFraud"@[0]);
        },
        PhardCode::CashbackExceeded => {},
        PhardCode::CashbackNoavail => {
            assert("CashbackNoavail"@[0] != "AlreadyReversed"@[0]);
        },
        PhardCode::CidError => {},
        PhardCode::DateError => {
            assert("DateError"@[0] != "Accterror"@[0]);
        },
        PhardCode::Donothonor => {
            assert("Donothonor"@[0] != "PickupLost"@[0]);
        },
        PhardCode::DuplicateBatch => {},
        PhardCode::EncryptionError => {
            assert("EncryptionError"@[0] != "AlreadyReversed"@[0]);
            assert("EncryptionError"@[0] != "CashbackNoavail"@[0]);
        },
        PhardCode::ExceedActivityLimit => {},
        PhardCode::ExceedWithdrawalLimit => {},
        PhardCode::Genericfail => {},
        PhardCode::IdError => {
            assert("IdError"@[0] != "Noreply"@[0]);
            assert("IdError"@[0] != "Reenter"@[0]);
            assert("IdError"@[0] != "Success"@[0]);
            assert("IdError"@[0] != "Unknown"@[0]);
        },
        PhardCode::IneligibleConv => {
            assert("IneligibleConv"@[0] != "DuplicateBatch"@[0]);
        },
        PhardCode::InsufficientFunds => {},
        PhardCode::InvalidAccountType => {
            assert("InvalidAccountType"@[7] != "InvalidServiceCode"@[7]);
        },
        PhardCode::InvalidServiceCode => {},
        PhardCode::ManagerNeeded => {
            assert("ManagerNeeded"@[0] != "AccountClosed"@[0]);
            assert("ManagerNeeded"@[0] != "AlreadyActive"@[0]);
            assert("ManagerNeeded"@[0] != "PickupNofraud"@[0]);
            assert("ManagerNeeded"@[0] != "RejectedBatch"@[0]);
        },
        PhardCode::Noreply => {
            assert("Noreply"@[0] != "Success"@[0]);
            assert("Noreply"@[0] != "Unknown"@[0]);
        },
        PhardCode::NotActive => {
            assert("NotActive"@[0] != "Accterror"@[0]);
            assert("NotActive"@[0] != "DateError"@[0]);
            assert("NotActive"@[0] != "Violation"@[0]);
        },
        PhardCode::NotPermittedCard => {
            assert("NotPermittedCard"@[0] != "CashbackExceeded"@[0]);
        },
        PhardCode::NotPermittedTran => {
            assert("NotPermittedTran"@[0] != "CashbackExceeded"@[0]);
            assert("NotPermittedTran"@[12] != "NotPermittedCard"@[12]);
        },
        PhardCode::PickupFraud => {
            assert("PickupFraud"@[0] != "Genericfail"@[0]);
        },
        PhardCode::PickupLost => {},
        PhardCode::PickupNofraud => {},
        PhardCode::PickupStolen => {},
        PhardCode::RecurringCancel => {
            assert("RecurringCancel"@[0] != "AlreadyReversed"@[0]);
            assert("RecurringCancel"@[0] != "CashbackNoavail"@[0]);
            assert("RecurringCancel"@[0] != "EncryptionError"@[0]);
        },
        PhardCode::Reenter => {
            assert("Reenter"@[0] != "Noreply"@[0]);
            assert("Reenter"@[0] != "Success"@[0]);
            assert("Reenter"@[0] != "Unknown"@[0]);
        },
        PhardCode::RejectedBatch => {
            assert("RejectedBatch"@[0] != "PickupNofraud"@[0]);
        },
        PhardCode::Represented => {
            assert("Represented"@[0] != "CardExpired"@[0]);
            assert("Represented"@[0] != "Genericfail"@[0]);
            assert("Represented"@[0] != "PickupFraud"@[0]);
            assert("Represented"@[0] != "SystemError"@[0]);
        },
        PhardCode::Retry => {},
        PhardCode::RetryForceInsert => {
            assert("RetryForceInsert"@[0] != "CashbackExceeded"@[0]);
            assert("RetryForceInsert"@[0] != "NotPermittedCard"@[0]);
            assert("RetryForceInsert"@[0] != "NotPermittedTran"@[0]);
        },
        PhardCode::SecurityViolation => {
            assert("SecurityViolation"@[0] != "InsufficientFunds"@[0]);
        },
        PhardCode::Success => {},
        PhardCode::SystemError => {
            assert("SystemError"@[0] != "CardExpired"@[0]);
            assert("SystemError"@[0] != "Genericfail"@[0]);
            assert("SystemError"@[0] != "PickupFraud"@[0]);
        },
        PhardCode::Unknown => {
            assert("Unknown"@[0] != "Success"@[0]);
        },
        PhardCode::Violation => {
            assert("Violation"@[0] != "Accterror"@[0]);
            assert("Violation"@[0] != "DateError"@[0]);
        },
    }
}


/// Reading back the display form of an internal-check result code gives the
/// same code.
pub proof fn law_msoft_code_display_round_trip(c: MsoftCode)
    ensures
        MsoftCode::from_display_text(c.display_text()) == Some(c),
{
    reveal_strlit("acct_authfailed");
    assert("acct_authfailed"@.len() == 15);
    reveal_strlit("acct_disabled");
    assert("acct_disabled"@.len() == 13);
    reveal_strlit("acct_invalidtrans");
    assert("acct_invalidtrans"@.len() == 17);
    reveal_strlit("acct_mfa_invalid");
    assert("acct_mfa_invalid"@.len() == 16);
    reveal_strlit("acct_mfa_required");
    assert("acct_mfa_required"@.len() == 17);
    reveal_strlit("acct_passexpired");
    assert("acct_passexpired"@.len() == 16);
    reveal_strlit("acct_sslcert");
    assert("acct_sslcert"@.len() == 12);
    reveal_strlit("acct_toomanyattempts");
    assert("acct_toomanyattempts"@.len() == 20);
    reveal_strlit("acct_transnotallowed");
    assert("acct_transnotallowed"@.len() == 20);
    reveal_strlit("acct_transnotallowed_port");
    assert("acct_transnotallowed_port"@.len() == 25);
    reveal_strlit("achverifydeny");
    assert("achverifydeny"@.len() == 13);
    reveal_strlit("auth_mfa_generate");
    assert("auth_mfa_generate"@.len() == 17);
    reveal_strlit("carddenylist");
    assert("carddenylist"@.len() == 12);
    reveal_strlit("conn_maxattempts");
    assert("conn_maxattempts"@.len() == 16);
    reveal_strlit("conn_maxsends");
    assert("conn_maxsends"@.len() == 13);
    reveal_strlit("conn_toreversal");
    assert("conn_toreversal"@.len() == 15);
    reveal_strlit("data3_dsmissing");
    assert("data3_dsmissing"@.len() == 15);
    reveal_strlit("data_abaroute");
    assert("data_abaroute"@.len() == 13);
    reveal_strlit("data_account");
    assert("data_account"@.len() == 12);
    reveal_strlit("data_amount");
    assert("data_amount"@.len() == 11);
    reveal_strlit("data_badtrans");
    assert("data_badtrans"@.len() == 13);
    reveal_strlit("data_batchlocked");
    assert("data_batchlocked"@.len() == 16);
    reveal_strlit("data_expdate");
    assert("data_expdate"@.len() == 12);
    reveal_strlit("data_invalidmod");
    assert("data_invalidmod"@.len() == 15);
    reveal_strlit("data_micr");
    assert("data_micr"@.len() == 9);
    reveal_strlit("data_nochanges");
    assert("data_nochanges"@.len() == 14);
    reveal_strlit("data_noopenbatches");
    assert("data_noopenbatches"@.len() == 18);
    reveal_strlit("data_recordnotfound");
    assert("data_recordnotfound"@.len() == 19);
    reveal_strlit("data_trackdata");
    assert("data_trackdata"@.len() == 14);
    reveal_strlit("data_v8_emulation");
    assert("data_v8_emulation"@.len() == 17);
    reveal_strlit("db_fail");
    assert("db_fail"@.len() == 7);
    reveal_strlit("fraudautodeny");
    assert("fraudautodeny"@.len() == 13);
    reveal_strlit("int_genericfail");
    assert("int_genericfail"@.len() == 15);
    reveal_strlit("int_success");
    assert("int_success"@.len() == 11);
    reveal_strlit("lic_cardtype");
    assert("lic_cardtype"@.len() == 12);
    reveal_strlit("lic_tranexceed");
    assert("lic_tranexceed"@.len() == 14);
    reveal_strlit("lic_users");
    assert("lic_users"@.len() == 9);
    reveal_strlit("nsfautodeny");
    assert("nsfautodeny"@.len() == 11);
    reveal_strlit("setup_cardtype");
    assert("setup_cardtype"@.len() == 14);
    reveal_strlit("setup_data");
    assert("setup_data"@.len() == 10);
    reveal_strlit("setup_sched");
    assert("setup_sched"@.len() == 11);
    reveal_strlit("setup_trantype");
    assert("setup_trantype"@.len() == 14);
    reveal_strlit("sys_maintenance");
    assert("sys_maintenance"@.len() == 15);
    reveal_strlit("sys_shutdown");
    assert("sys_shutdown"@.len() == 12);
    reveal_strlit("unknown");
    assert("unknown"@.len() == 7);
    match c {
        MsoftCode::AcctAuthfailed => {
            assert("acct_authfailed"@[0] != "int_genericfail"@[0]);
        },
        MsoftCode::AcctDisabled => {},
        MsoftCode::AcctInvalidtrans => {},
        MsoftCode::AcctMfaInvalid => {
            assert("acct_mfa_invalid"@[5] != "acct_passexpired"@[5]);
        },
        MsoftCode::AcctMfaRequired => {
            assert("acct_mfa_required"@[5] != "acct_invalidtrans"@[5]);
        },
        MsoftCode::AcctPassexpired => {},
        MsoftCode::AcctSslcert => {},
        MsoftCode::AcctToomanyattempts => {},
        MsoftCode::AcctTransnotallowed => {
            assert("acct_transnotallowed"@[6] != "acct_toomanyattempts"@[6]);
        },
        MsoftCode::AcctTransnotallowedPort => {},
        MsoftCode::Achverifydeny => {
            assert("achverifydeny"@[2] != "acct_disabled"@[2]);
            assert("achverifydeny"@[0] != "conn_maxsends"@[0]);
            assert("achverifydeny"@[0] != "data_abaroute"@[0]);
            assert("achverifydeny"@[0] != "data_badtrans"@[0]);
            assert("achverifydeny"@[0] != "fraudautodeny"@[0]);
        },
        MsoftCode::AuthMfaGenerate => {
            assert("auth_mfa_generate"@[1] != "acct_invalidtrans"@[1]);
            assert("auth_mfa_generate"@[1] != "acct_mfa_required"@[1]);
        },
        MsoftCode::Carddenylist => {
            assert("carddenylist"@[0] != "acct_sslcert"@[0]);
            assert("carddenylist"@[0] != "data_account"@[0]);
            assert("carddenylist"@[0] != "data_expdate"@[0]);
            assert("carddenylist"@[0] != "lic_cardtype"@[0]);
            assert("carddenylist"@[0] != "sys_shutdown"@[0]);
        },
        MsoftCode::ConnMaxattempts => {
            assert("conn_maxattempts"@[0] != "acct_mfa_invalid"@[0]);
            assert("conn_maxattempts"@[0] != "acct_passexpired"@[0]);
            assert("conn_maxattempts"@[0] != "data_batchlocked"@[0]);
        },
        MsoftCode::ConnMaxsends => {
            assert("conn_maxsends"@[0] != "acct_disabled"@[0]);
            assert("conn_maxsends"@[0] != "data_abaroute"@[0]);
            assert("conn_maxsends"@[0] != "data_badtrans"@[0]);
        },
        MsoftCode::ConnToreversal => {
            assert("conn_toreversal"@[0] != "acct_authfailed"@[0]);
            assert("conn_toreversal"@[0] != "data_invalidmod"@[0]);
            assert("conn_toreversal"@[0] != "int_genericfail"@[0]);
        },
        MsoftCode::Data3Dsmissing => {
            assert("data3_dsmissing"@[0] != "acct_authfailed"@[0]);
            assert("data3_dsmissing"@[0] != "conn_toreversal"@[0]);
            assert("data3_dsmissing"@[4] != "data_invalidmod"@[4]);
            assert("data3_dsmissing"@[0] != "int_genericfail"@[0]);
            assert("data3_dsmissing"@[0] != "sys_maintenance"@[0]);
        },
        MsoftCode::DataAbaroute => {
            assert("data_abaroute"@[0] != "acct_disabled"@[0]);
            assert("data_abaroute"@[5] != "data_badtrans"@[5]);
        },
        MsoftCode::DataAccount => {
            assert("data_account"@[0] != "acct_sslcert"@[0]);
        },
        MsoftCode::DataAmount => {
            assert("data_amount"@[0] != "int_success"@[0]);
            assert("data_amount"@[0] != "setup_sched"@[0]);
        },
        MsoftCode::DataBadtrans => {
            assert("data_badtrans"@[0] != "acct_disabled"@[0]);
        },
        MsoftCode::DataBatchlocked => {
            assert("data_batchlocked"@[0] != "acct_mfa_invalid"@[0]);
            assert("data_batchlocked"@[0] != "acct_passexpired"@[0]);
        },
        MsoftCode::DataExpdate => {
            assert("data_expdate"@[0] != "acct_sslcert"@[0]);
            assert("data_expdate"@[5] != "data_account"@[5]);
        },
        MsoftCode::DataInvalidmod => {
            assert("data_invalidmod"@[0] != "acct_authfailed"@[0]);
            assert("data_invalidmod"@[0] != "int_genericfail"@[0]);
        },
        MsoftCode::DataMicr => {},
        MsoftCode::DataNochanges => {
            assert("data_nochanges"@[5] != "data_trackdata"@[5]);
            assert("data_nochanges"@[0] != "setup_cardtype"@[0]);
            assert("data_nochanges"@[0] != "setup_trantype"@[0]);
        },
        MsoftCode::DataNoopenbatches => {},
        MsoftCode::DataRecordnotfound => {},
        MsoftCode::DataTrackdata => {
            assert("data_trackdata"@[0] != "setup_cardtype"@[0]);
            assert("data_trackdata"@[0] != "setup_trantype"@[0]);
        },
        MsoftCode::DataV8Emulation => {
            assert("data_v8_emulation"@[0] != "acct_invalidtrans"@[0]);
            assert("data_v8_emulation"@[0] != "acct_mfa_required"@[0]);
            assert("data_v8_emulation"@[0] != "auth_mfa_generate"@[0]);
        },
        MsoftCode::DbFail => {
            assert("db_fail"@[0] != "unknown"@[0]);
        },
        MsoftCode::Fraudautodeny => {
            assert("fraudautodeny"@[0] != "acct_disabled"@[0]);
            assert("fraudautodeny"@[0] != "conn_maxsends"@[0]);
            assert("fraudautodeny"@[0] != "data_abaroute"@[0]);
            assert("fraudautodeny"@[0] != "data_badtrans"@[0]);
        },
        MsoftCode::IntGenericfail => {},
        MsoftCode::IntSuccess => {},
        MsoftCode::LicCardtype => {
            assert("lic_cardtype"@[0] != "acct_sslcert"@[0]);
            assert("lic_cardtype"@[0] != "data_account"@[0]);
            assert("lic_cardtype"@[0] != "data_expdate"@[0]);
            assert("lic_cardtype"@[0] != "sys_shutdown"@[0]);
        },
        MsoftCode::LicTranexceed => {
            assert("lic_tranexceed"@[0] != "data_nochanges"@[0]);
            assert("lic_tranexceed"@[0] != "data_trackdata"@[0]);
            assert("lic_tranexceed"@[0] != "setup_cardtype"@[0]);
            assert("lic_tranexceed"@[0] != "setup_trantype"@[0]);
        },
        MsoftCode::LicUsers => {
            assert("lic_users"@[0] != "data_micr"@[0]);
        },
        MsoftCode::Nsfautodeny => {
            assert("nsfautodeny"@[0] != "data_amount"@[0]);
            assert("nsfautodeny"@[0] != "int_success"@[0]);
            assert("nsfautodeny"@[0] != "setup_sched"@[0]);
        },
        MsoftCode::SetupCardtype => {},
        MsoftCode::SetupData => {},
        MsoftCode::SetupSched => {
            assert("setup_sched"@[0] != "int_success"@[0]);
        },
        MsoftCode::SetupTrantype => {
            assert("setup_trantype"@[6] != "setup_cardtype"@[6]);
        },
        MsoftCode::SysMaintenance => {
            assert("sys_maintenance"@[0] != "acct_authfailed"@[0]);
            assert("sys_maintenance"@[0] != "conn_toreversal"@[0]);
            assert("sys_maintenance"@[0] != "data_invalidmod"@[0]);
            assert("sys_maintenance"@[0] != "int_genericfail"@[0]);
        },
        MsoftCode::SysShutdown => {
            assert("sys_shutdown"@[0] != "acct_sslcert"@[0]);
            assert("sys_shutdown"@[0] != "data_account"@[0]);
            assert("sys_shutdown"@[0] != "data_expdate"@[0]);
        },
        MsoftCode::Unknown => {},
    }
}

/// The error code reported for a declined transaction names its processor
/// code: two transactions with processor codes report the same error code
/// only when the processor codes are the same.
pub proof fn law_error_code_names_processor_code(
    c1: Code,
    p1: PhardCode,
    c2: Code,
    p2: PhardCode,
)
    ensures
        error_code_text(c1, Some(p1)) == error_code_text(c2, Some(p2)) ==> p1 == p2,
{
    law_phard_code_display_round_trip(p1);
    law_phard_code_display_round_trip(p2);
}

/// Each general result code displays as its own variant's name, as the
/// derived display writes it: `RETRY` as `Retry`, `SUCCESS` as `Success`.
pub proof fn law_code_names()
    ensures
        Code::Auth.display_text() == "Auth"@,
        Code::Success.display_text() == "Success"@,
        Code::Call.display_text() == "Call"@,
        Code::Deny.display_text() == "Deny"@,
        Code::Dupl.display_text() == "Dupl"@,
        Code::Pkup.display_text() == "Pkup"@,
        Code::Retry.display_text() == "Retry"@,
        Code::Setup.display_text() == "Setup"@,
        Code::Timeout.display_text() == "Timeout"@,
{
}

/// Each processor result code displays as its own variant's name:
/// `CID_ERROR` as `CidError`, `BAD_PIN` as `BadPin`, `GENERICFAIL` as
/// `Genericfail`, `ACCTERROR` as `Accterror`.
pub proof fn law_phard_code_names()
    ensures
        PhardCode::Success.display_text() == "Success"@,
        PhardCode::Unknown.display_text() == "Unknown"@,
        PhardCode::Genericfail.display_text() == "Genericfail"@,
        PhardCode::Call.display_text() == "Call"@,
        PhardCode::Noreply.display_text() == "Noreply"@,
        PhardCode::PickupNofraud.display_text() == "PickupNofraud"@,
        PhardCode::PickupFraud.display_text() == "PickupFraud"@,
        PhardCode::PickupLost.display_text() == "PickupLost"@,
        PhardCode::PickupStolen.display_text() == "PickupStolen"@,
        PhardCode::Accterror.display_text() == "Accterror"@,
        PhardCode::AlreadyReversed.display_text() == "AlreadyReversed"@,
        PhardCode::BadPin.display_text() == "BadPin"@,
        PhardCode::CashbackExceeded.display_text() == "CashbackExceeded"@,
        PhardCode::CashbackNoavail.display_text() == "CashbackNoavail"@,
        PhardCode::CidError.display_text() == "CidError"@,
        PhardCode::DateError.display_text() == "DateError"@,
        PhardCode::Donothonor.display_text() == "Donothonor"@,
        PhardCode::InsufficientFunds.display_text() == "InsufficientFunds"@,
        PhardCode::ExceedWithdrawalLimit.display_text() == "ExceedWithdrawalLimit"@,
        PhardCode::InvalidServiceCode.display_text() == "InvalidServiceCode"@,
        PhardCode::ExceedActivityLimit.display_text() == "ExceedActivityLimit"@,
        PhardCode::Violation.display_text() == "Violation"@,
        PhardCode::EncryptionError.display_text() == "EncryptionError"@,
        PhardCode::CardExpired.display_text() == "CardExpired"@,
        PhardCode::Reenter.display_text() == "Reenter"@,
        PhardCode::SecurityViolation.display_text() == "SecurityViolation"@,
        PhardCode::NotPermittedCard.display_text() == "NotPermittedCard"@,
        PhardCode::NotPermittedTran.display_text() == "NotPermittedTran"@,
        PhardCode::SystemError.display_text() == "SystemError"@,
        PhardCode::BadMerchId.display_text() == "BadMerchId"@,
        PhardCode::DuplicateBatch.display_text() == "DuplicateBatch"@,
        PhardCode::RejectedBatch.display_text() == "RejectedBatch"@,
        PhardCode::AccountClosed.display_text() == "AccountClosed"@,
        PhardCode::RecurringCancel.display_text() == "RecurringCancel"@,
        PhardCode::AlreadyActive.display_text() == "AlreadyActive"@,
        PhardCode::NotActive.display_text() == "NotActive"@,
        PhardCode::BalanceMismatch.display_text() == "BalanceMismatch"@,
        PhardCode::IdError.display_text() == "IdError"@,
        PhardCode::Represented.display_text() == "Represented"@,
        PhardCode::ManagerNeeded.display_text() == "ManagerNeeded"@,
        PhardCode::IneligibleConv.display_text() == "IneligibleConv"@,
        PhardCode::Retry.display_text() == "Retry"@,
        PhardCode::InvalidAccountType.display_text() == "InvalidAccountType"@,
        PhardCode::RetryForceInsert.display_text() == "RetryForceInsert"@,
{
}

/// Each internal result code displays as its own variant's name in snake
/// case: `INT_SUCCESS` as `int_success`, `DATA_EXPDATE` as `data_expdate`.
pub proof fn law_msoft_code_names()
    ensures
        MsoftCode::IntSuccess.display_text() == "int_success"@,
        MsoftCode::Unknown.display_text() == "unknown"@,
        MsoftCode::IntGenericfail.display_text() == "int_genericfail"@,
        MsoftCode::AcctAuthfailed.display_text() == "acct_authfailed"@,
        MsoftCode::AcctDisabled.display_text() == "acct_disabled"@,
        MsoftCode::AcctSslcert.display_text() == "acct_sslcert"@,
        MsoftCode::AcctPassexpired.display_text() == "acct_passexpired"@,
        MsoftCode::AcctToomanyattempts.display_text() == "acct_toomanyattempts"@,
        MsoftCode::AcctInvalidtrans.display_text() == "acct_invalidtrans"@,
        MsoftCode::AcctTransnotallowed.display_text() == "acct_transnotallowed"@,
        MsoftCode::AcctTransnotallowedPort.display_text() == "acct_transnotallowed_port"@,
        MsoftCode::AcctMfaRequired.display_text() == "acct_mfa_required"@,
        MsoftCode::AcctMfaInvalid.display_text() == "acct_mfa_invalid"@,
        MsoftCode::AuthMfaGenerate.display_text() == "auth_mfa_generate"@,
        MsoftCode::SetupSched.display_text() == "setup_sched"@,
        MsoftCode::SetupCardtype.display_text() == "setup_cardtype"@,
        MsoftCode::SetupTrantype.display_text() == "setup_trantype"@,
        MsoftCode::SetupData.display_text() == "setup_data"@,
        MsoftCode::DataBadtrans.display_text() == "data_badtrans"@,
        MsoftCode::DataAccount.display_text() == "data_account"@,
        MsoftCode::DataExpdate.display_text() == "data_expdate"@,
        MsoftCode::DataAmount.display_text() == "data_amount"@,
        MsoftCode::DataTrackdata.display_text() == "data_trackdata"@,
        MsoftCode::DataMicr.display_text() == "data_micr"@,
        MsoftCode::DataAbaroute.display_text() == "data_abaroute"@,
        MsoftCode::DataNoopenbatches.display_text() == "data_noopenbatches"@,
        MsoftCode::DataBatchlocked.display_text() == "data_batchlocked"@,
        MsoftCode::DataRecordnotfound.display_text() == "data_recordnotfound"@,
        MsoftCode::DataInvalidmod.display_text() == "data_invalidmod"@,
        MsoftCode::DataNochanges.display_text() == "data_nochanges"@,
        MsoftCode::DataV8Emulation.display_text() == "data_v8_emulation"@,
        MsoftCode::ConnToreversal.display_text() == "conn_toreversal"@,
        MsoftCode::ConnMaxsends.display_text() == "conn_maxsends"@,
        MsoftCode::ConnMaxattempts.display_text() == "conn_maxattempts"@,
        MsoftCode::SysShutdown.display_text() == "sys_shutdown"@,
        MsoftCode::SysMaintenance.display_text() == "sys_maintenance"@,
        MsoftCode::LicUsers.display_text() == "lic_users"@,
        MsoftCode::LicCardtype.display_text() == "lic_cardtype"@,
        MsoftCode::LicTranexceed.display_text() == "lic_tranexceed"@,
        MsoftCode::DbFail.display_text() == "db_fail"@,
        MsoftCode::Fraudautodeny.display_text() == "fraudautodeny"@,
        MsoftCode::Nsfautodeny.display_text() == "nsfautodeny"@,
        MsoftCode::Carddenylist.display_text() == "carddenylist"@,
        MsoftCode::Achverifydeny.display_text() == "achverifydeny"@,
        MsoftCode::Data3Dsmissing.display_text() == "data3_dsmissing"@,
{
}

/// Each card type displays as its own variant's name: `VISA` as `Visa`.
pub proof fn law_cardtype_names()
    ensures
        Cardtype::Visa.display_text() == "Visa"@,
        Cardtype::Mc.display_text() == "Mc"@,
        Cardtype::Amex.display_text() == "Amex"@,
        Cardtype::Disc.display_text() == "Disc"@,
        Cardtype::Diners.display_text() == "Diners"@,
        Cardtype::Jcb.display_text() == "Jcb"@,
        Cardtype::Switch.display_text() == "Switch"@,
        Cardtype::Bml.display_text() == "Bml"@,
        Cardtype::Gift.display_text() == "Gift"@,
        Cardtype::Other.display_text() == "Other"@,
        Cardtype::Visadebit.display_text() == "Visadebit"@,
        Cardtype::Mcdebit.display_text() == "Mcdebit"@,
        Cardtype::Otherdebit.display_text() == "Otherdebit"@,
        Cardtype::Visads.display_text() == "Visads"@,
        Cardtype::Ebt.display_text() == "Ebt"@,
        Cardtype::Check.display_text() == "Check"@,
        Cardtype::Interac.display_text() == "Interac"@,
        Cardtype::Cup.display_text() == "Cup"@,
        Cardtype::Paypalec.display_text() == "Paypalec"@,
        Cardtype::Ach.display_text() == "Ach"@,
        Cardtype::Unknown.display_text() == "Unknown"@,
{
}

/// The router error for an error body reports the name of the body's general
/// result code, and the fixed no-code text when the body has none: a body
/// with `RETRY` is reported with code `Retry`.
pub proof fn law_error_body_code_names(b: ErrorResponse)
    ensures
        b.code == Some(Code::Auth) ==> error_body_code_text(b) == "Auth"@,
        b.code == Some(Code::Success) ==> error_body_code_text(b) == "Success"@,
        b.code == Some(Code::Call) ==> error_body_code_text(b) == "Call"@,
        b.code == Some(Code::Deny) ==> error_body_code_text(b) == "Deny"@,
        b.code == Some(Code::Dupl) ==> error_body_code_text(b) == "Dupl"@,
        b.code == Some(Code::Pkup) ==> error_body_code_text(b) == "Pkup"@,
        b.code == Some(Code::Retry) ==> error_body_code_text(b) == "Retry"@,
        b.code == Some(Code::Setup) ==> error_body_code_text(b) == "Setup"@,
        b.code == Some(Code::Timeout) ==> error_body_code_text(b) == "Timeout"@,
        b.code is None ==> error_body_code_text(b) == NO_ERROR_CODE@,
{
}

/// The error code of a failed transaction (a payment, void or refund) is the
/// name of its processor result code when it has one (`CID_ERROR` gives
/// `CidError`, `GENERICFAIL` gives `Genericfail`), else the name of its
/// general result code.
pub proof fn law_transaction_error_code_names(code: Code, phard_code: Option<PhardCode>)
    ensures
        phard_code == Some(PhardCode::Success) ==> error_code_text(code, phard_code) == "Success"@,
        phard_code == Some(PhardCode::Unknown) ==> error_code_text(code, phard_code) == "Unknown"@,
        phard_code == Some(PhardCode::Genericfail) ==> error_code_text(code, phard_code) == "Genericfail"@,
        phard_code == Some(PhardCode::Call) ==> error_code_text(code, phard_code) == "Call"@,
        phard_code == Some(PhardCode::Noreply) ==> error_code_text(code, phard_code) == "Noreply"@,
        phard_code == Some(PhardCode::PickupNofraud) ==> error_code_text(code, phard_code) == "PickupNofraud"@,
        phard_code == Some(PhardCode::PickupFraud) ==> error_code_text(code, phard_code) == "PickupFraud"@,
        phard_code == Some(PhardCode::PickupLost) ==> error_code_text(code, phard_code) == "PickupLost"@,
        phard_code == Some(PhardCode::PickupStolen) ==> error_code_text(code, phard_code) == "PickupStolen"@,
        phard_code == Some(PhardCode::Accterror) ==> error_code_text(code, phard_code) == "Accterror"@,
        phard_code == Some(PhardCode::AlreadyReversed) ==> error_code_text(code, phard_code) == "AlreadyReversed"@,
        phard_code == Some(PhardCode::BadPin) ==> error_code_text(code, phard_code) == "BadPin"@,
        phard_code == Some(PhardCode::CashbackExceeded) ==> error_code_text(code, phard_code) == "CashbackExceeded"@,
        phard_code == Some(PhardCode::CashbackNoavail) ==> error_code_text(code, phard_code) == "CashbackNoavail"@,
        phard_code == Some(PhardCode::CidError) ==> error_code_text(code, phard_code) == "CidError"@,
        phard_code == Some(PhardCode::DateError) ==> error_code_text(code, phard_code) == "DateError"@,
        phard_code == Some(PhardCode::Donothonor) ==> error_code_text(code, phard_code) == "Donothonor"@,
        phard_code == Some(PhardCode::InsufficientFunds) ==> error_code_text(code, phard_code) == "InsufficientFunds"@,
        phard_code == Some(PhardCode::ExceedWithdrawalLimit) ==> error_code_text(code, phard_code) == "ExceedWithdrawalLimit"@,
        phard_code == Some(PhardCode::InvalidServiceCode) ==> error_code_text(code, phard_code) == "InvalidServiceCode"@,
        phard_code == Some(PhardCode::ExceedActivityLimit) ==> error_code_text(code, phard_code) == "ExceedActivityLimit"@,
        phard_code == Some(PhardCode::Violation) ==> error_code_text(code, phard_code) == "Violation"@,
        phard_code == Some(PhardCode::EncryptionError) ==> error_code_text(code, phard_code) == "EncryptionError"@,
        phard_code == Some(PhardCode::CardExpired) ==> error_code_text(code, phard_code) == "CardExpired"@,
        phard_code == Some(PhardCode::Reenter) ==> error_code_text(code, phard_code) == "Reenter"@,
        phard_code == Some(PhardCode::SecurityViolation) ==> error_code_text(code, phard_code) == "SecurityViolation"@,
        phard_code == Some(PhardCode::NotPermittedCard) ==> error_code_text(code, phard_code) == "NotPermittedCard"@,
        phard_code == Some(PhardCode::NotPermittedTran) ==> error_code_text(code, phard_code) == "NotPermittedTran"@,
        phard_code == Some(PhardCode::SystemError) ==> error_code_text(code, phard_code) == "SystemError"@,
        phard_code == Some(PhardCode::BadMerchId) ==> error_code_text(code, phard_code) == "BadMerchId"@,
        phard_code == Some(PhardCode::DuplicateBatch) ==> error_code_text(code, phard_code) == "DuplicateBatch"@,
        phard_code == Some(PhardCode::RejectedBatch) ==> error_code_text(code, phard_code) == "RejectedBatch"@,
        phard_code == Some(PhardCode::AccountClosed) ==> error_code_text(code, phard_code) == "AccountClosed"@,
        phard_code == Some(PhardCode::RecurringCancel) ==> error_code_text(code, phard_code) == "RecurringCancel"@,
        phard_code == Some(PhardCode::AlreadyActive) ==> error_code_text(code, phard_code) == "AlreadyActive"@,
        phard_code == Some(PhardCode::NotActive) ==> error_code_text(code, phard_code) == "NotActive"@,
        phard_code == Some(PhardCode::BalanceMismatch) ==> error_code_text(code, phard_code) == "BalanceMismatch"@,
        phard_code == Some(PhardCode::IdError) ==> error_code_text(code, phard_code) == "IdError"@,
        phard_code == Some(PhardCode::Represented) ==> error_code_text(code, phard_code) == "Represented"@,
        phard_code == Some(PhardCode::ManagerNeeded) ==> error_code_text(code, phard_code) == "ManagerNeeded"@,
        phard_code == Some(PhardCode::IneligibleConv) ==> error_code_text(code, phard_code) == "IneligibleConv"@,
        phard_code == Some(PhardCode::Retry) ==> error_code_text(code, phard_code) == "Retry"@,
        phard_code == Some(PhardCode::InvalidAccountType) ==> error_code_text(code, phard_code) == "InvalidAccountType"@,
        phard_code == Some(PhardCode::RetryForceInsert) ==> error_code_text(code, phard_code) == "RetryForceInsert"@,
        phard_code is None && code == Code::Auth ==> error_code_text(code, phard_code) == "Auth"@,
        phard_code is None && code == Code::Success ==> error_code_text(code, phard_code) == "Success"@,
        phard_code is None && code == Code::Call ==> error_code_text(code, phard_code) == "Call"@,
        phard_code is None && code == Code::Deny ==> error_code_text(code, phard_code) == "Deny"@,
        phard_code is None && code == Code::Dupl ==> error_code_text(code, phard_code) == "Dupl"@,
        phard_code is None && code == Code::Pkup ==> error_code_text(code, phard_code) == "Pkup"@,
        phard_code is None && code == Code::Retry ==> error_code_text(code, phard_code) == "Retry"@,
        phard_code is None && code == Code::Setup ==> error_code_text(code, phard_code) == "Setup"@,
        phard_code is None && code == Code::Timeout ==> error_code_text(code, phard_code) == "Timeout"@,
{
}

/// Each payment method type displays in snake case: `ApplePay` as
/// `apple_pay`, `Credit` as `credit`.
pub proof fn law_payment_method_type_names()
    ensures
        PaymentMethodType::Credit.display_text() == "credit"@,
        PaymentMethodType::Debit.display_text() == "debit"@,
        PaymentMethodType::ApplePay.display_text() == "apple_pay"@,
        PaymentMethodType::GooglePay.display_text() == "google_pay"@,
        PaymentMethodType::SamsungPay.display_text() == "samsung_pay"@,
        PaymentMethodType::Paypal.display_text() == "paypal"@,
        PaymentMethodType::Klarna.display_text() == "klarna"@,
        PaymentMethodType::Affirm.display_text() == "affirm"@,
        PaymentMethodType::Ach.display_text() == "ach"@,
        PaymentMethodType::Sepa.display_text() == "sepa"@,
        PaymentMethodType::Bacs.display_text() == "bacs"@,
{
}

} // verus!
