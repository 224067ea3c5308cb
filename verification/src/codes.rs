//! Result codes and card types reported by the Axia gateway.
//!
//! Each code has two textual forms: the wire form used in the JSON bodies
//! (for example `ALREADY_REVERSED`, read and written by the service layer),
//! and the display form, which is the variant's own name (for example
//! `AlreadyReversed`, or `acct_transnotallowed_port` in snake case for the
//! internal-check codes); the display form is what the connector reports as
//! an error code to the router.
use vstd::prelude::*;

use crate::utils::text_eq;

verus! {

/// The error for a text that is the display form of no code.
#[derive(Clone, Copy, Debug, PartialEq, Eq, Structural)]
pub enum ParseError {
    VariantNotFound,
}

/// Customer flags accepted by the customer endpoint.
#[derive(Clone, Copy, Debug, PartialEq, Eq, Structural, PartialOrd, Ord, Hash)]
pub enum Flags {
    Taxexempt,
    EmailReceiptRecurring,
}

/// General result code of a gateway response (`AUTH` means the transaction
/// was authorized or approved).
#[derive(Clone, Copy, Debug, PartialEq, Eq, Structural, PartialOrd)]
pub enum Code {
    Auth,
    Success,
    Call,
    Deny,
    Dupl,
    Pkup,
    Retry,
    Setup,
    Timeout,
}

impl Default for Code {
    fn default() -> (c: Code)
        ensures
            c == Code::Auth,
    {
        Code::Auth
    }
}

impl Code {
    /// The code whose display form is `text`, if any.
    pub open spec fn from_display_text(text: Seq<char>) -> Option<Code> {
        if text == "Auth"@ {
            Some(Code::Auth)
        } else if text == "Success"@ {
            Some(Code::Success)
        } else if text == "Call"@ {
            Some(Code::Call)
        } else if text == "Deny"@ {
            Some(Code::Deny)
        } else if text == "Dupl"@ {
            Some(Code::Dupl)
        } else if text == "Pkup"@ {
            Some(Code::Pkup)
        } else if text == "Retry"@ {
            Some(Code::Retry)
        } else if text == "Setup"@ {
            Some(Code::Setup)
        } else if text == "Timeout"@ {
            Some(Code::Timeout)
        } else {
            None
        }
    }

    /// Reads a code from its display form.
    pub fn from_str(text: &str) -> (r: Result<Code, ParseError>)
        ensures
            match Code::from_display_text(text@) {
                Some(c) => r == Ok::<Code, ParseError>(c),
                None => r == Err::<Code, ParseError>(ParseError::VariantNotFound),
            },
    {
        if text_eq(text, "Auth") {
            Ok(Code::Auth)
        } else if text_eq(text, "Success") {
            Ok(Code::Success)
        } else if text_eq(text, "Call") {
            Ok(Code::Call)
        } else if text_eq(text, "Deny") {
            Ok(Code::Deny)
        } else if text_eq(text, "Dupl") {
            Ok(Code::Dupl)
        } else if text_eq(text, "Pkup") {
            Ok(Code::Pkup)
        } else if text_eq(text, "Retry") {
            Ok(Code::Retry)
        } else if text_eq(text, "Setup") {
            Ok(Code::Setup)
        } else if text_eq(text, "Timeout") {
            Ok(Code::Timeout)
        } else {
            Err(ParseError::VariantNotFound)
        }
    }

    /// The display form of the code: the variant's name.
    pub open spec fn display_text(self) -> Seq<char> {
        match self {
            Code::Auth => "Auth"@,
            Code::Success => "Success"@,
            Code::Call => "Call"@,
            Code::Deny => "Deny"@,
            Code::Dupl => "Dupl"@,
            Code::Pkup => "Pkup"@,
            Code::Retry => "Retry"@,
            Code::Setup => "Setup"@,
            Code::Timeout => "Timeout"@,
        }
    }

    /// Renders the display form of the code.
    pub fn to_string(&self) -> (s: String)
        ensures
            s@ == self.display_text(),
    {
        let text: &str = match self {
            Code::Auth => "Auth",
            Code::Success => "Success",
            Code::Call => "Call",
            Code::Deny => "Deny",
            Code::Dupl => "Dupl",
            Code::Pkup => "Pkup",
            Code::Retry => "Retry",
            Code::Setup => "Setup",
            Code::Timeout => "Timeout",
        };
        text.to_owned()
    }
}

/// Detailed result code of the gateway's internal checks.
#[derive(Clone, Copy, Debug, PartialEq, Eq, Structural, PartialOrd)]
pub enum MsoftCode {
    IntSuccess,
    Unknown,
    IntGenericfail,
    AcctAuthfailed,
    AcctDisabled,
    AcctSslcert,
    AcctPassexpired,
    AcctToomanyattempts,
    AcctInvalidtrans,
    AcctTransnotallowed,
    AcctTransnotallowedPort,
    AcctMfaRequired,
    AcctMfaInvalid,
    AuthMfaGenerate,
    SetupSched,
    SetupCardtype,
    SetupTrantype,
    SetupData,
    DataBadtrans,
    DataAccount,
    DataExpdate,
    DataAmount,
    DataTrackdata,
    DataMicr,
    DataAbaroute,
    DataNoopenbatches,
    DataBatchlocked,
    DataRecordnotfound,
    DataInvalidmod,
    DataNochanges,
    DataV8Emulation,
    ConnToreversal,
    ConnMaxsends,
    ConnMaxattempts,
    SysShutdown,
    SysMaintenance,
    LicUsers,
    LicCardtype,
    LicTranexceed,
    DbFail,
    Fraudautodeny,
    Nsfautodeny,
    Carddenylist,
    Achverifydeny,
    Data3Dsmissing,
}

impl Default for MsoftCode {
    fn default() -> (c: MsoftCode)
        ensures
            c == MsoftCode::IntSuccess,
    {
        MsoftCode::IntSuccess
    }
}

impl MsoftCode {
    /// The display form of the code: the variant's name in snake case.
    pub open spec fn display_text(self) -> Seq<char> {
        match self {
            MsoftCode::IntSuccess => "int_success"@,
            MsoftCode::Unknown => "unknown"@,
            MsoftCode::IntGenericfail => "int_genericfail"@,
            MsoftCode::AcctAuthfailed => "acct_authfailed"@,
            MsoftCode::AcctDisabled => "acct_disabled"@,
            MsoftCode::AcctSslcert => "acct_sslcert"@,
            MsoftCode::AcctPassexpired => "acct_passexpired"@,
            MsoftCode::AcctToomanyattempts => "acct_toomanyattempts"@,
            MsoftCode::AcctInvalidtrans => "acct_invalidtrans"@,
            MsoftCode::AcctTransnotallowed => "acct_transnotallowed"@,
            MsoftCode::AcctTransnotallowedPort => "acct_transnotallowed_port"@,
            MsoftCode::AcctMfaRequired => "acct_mfa_required"@,
            MsoftCode::AcctMfaInvalid => "acct_mfa_invalid"@,
            MsoftCode::AuthMfaGenerate => "auth_mfa_generate"@,
            MsoftCode::SetupSched => "setup_sched"@,
            MsoftCode::SetupCardtype => "setup_cardtype"@,
            MsoftCode::SetupTrantype => "setup_trantype"@,
            MsoftCode::SetupData => "setup_data"@,
            MsoftCode::DataBadtrans => "data_badtrans"@,
            MsoftCode::DataAccount => "data_account"@,
            MsoftCode::DataExpdate => "data_expdate"@,
            MsoftCode::DataAmount => "data_amount"@,
            MsoftCode::DataTrackdata => "data_trackdata"@,
            MsoftCode::DataMicr => "data_micr"@,
            MsoftCode::DataAbaroute => "data_abaroute"@,
            MsoftCode::DataNoopenbatches => "data_noopenbatches"@,
            MsoftCode::DataBatchlocked => "data_batchlocked"@,
            MsoftCode::DataRecordnotfound => "data_recordnotfound"@,
            MsoftCode::DataInvalidmod => "data_invalidmod"@,
            MsoftCode::DataNochanges => "data_nochanges"@,
            MsoftCode::DataV8Emulation => "data_v8_emulation"@,
            MsoftCode::ConnToreversal => "conn_toreversal"@,
            MsoftCode::ConnMaxsends => "conn_maxsends"@,
            MsoftCode::ConnMaxattempts => "conn_maxattempts"@,
            MsoftCode::SysShutdown => "sys_shutdown"@,
            MsoftCode::SysMaintenance => "sys_maintenance"@,
            MsoftCode::LicUsers => "lic_users"@,
            MsoftCode::LicCardtype => "lic_cardtype"@,
            MsoftCode::LicTranexceed => "lic_tranexceed"@,
            MsoftCode::DbFail => "db_fail"@,
            MsoftCode::Fraudautodeny => "fraudautodeny"@,
            MsoftCode::Nsfautodeny => "nsfautodeny"@,
            MsoftCode::Carddenylist => "carddenylist"@,
            MsoftCode::Achverifydeny => "achverifydeny"@,
            MsoftCode::Data3Dsmissing => "data3_dsmissing"@,
        }
    }

    /// Renders the display form of the code.
    pub fn to_string(&self) -> (s: String)
        ensures
            s@ == self.display_text(),
    {
        let text: &str = match self {
            MsoftCode::IntSuccess => "int_success",
            MsoftCode::Unknown => "unknown",
            MsoftCode::IntGenericfail => "int_genericfail",
            MsoftCode::AcctAuthfailed => "acct_authfailed",
            MsoftCode::AcctDisabled => "acct_disabled",
            MsoftCode::AcctSslcert => "acct_sslcert",
            MsoftCode::AcctPassexpired => "acct_passexpired",
            MsoftCode::AcctToomanyattempts => "acct_toomanyattempts",
            MsoftCode::AcctInvalidtrans => "acct_invalidtrans",
            MsoftCode::AcctTransnotallowed => "acct_transnotallowed",
            MsoftCode::AcctTransnotallowedPort => "acct_transnotallowed_port",
            MsoftCode::AcctMfaRequired => "acct_mfa_required",
            MsoftCode::AcctMfaInvalid => "acct_mfa_invalid",
            MsoftCode::AuthMfaGenerate => "auth_mfa_generate",
            MsoftCode::SetupSched => "setup_sched",
            MsoftCode::SetupCardtype => "setup_cardtype",
            MsoftCode::SetupTrantype => "setup_trantype",
            MsoftCode::SetupData => "setup_data",
            MsoftCode::DataBadtrans => "data_badtrans",
            MsoftCode::DataAccount => "data_account",
            MsoftCode::DataExpdate => "data_expdate",
            MsoftCode::DataAmount => "data_amount",
            MsoftCode::DataTrackdata => "data_trackdata",
            MsoftCode::DataMicr => "data_micr",
            MsoftCode::DataAbaroute => "data_abaroute",
            MsoftCode::DataNoopenbatches => "data_noopenbatches",
            MsoftCode::DataBatchlocked => "data_batchlocked",
            MsoftCode::DataRecordnotfound => "data_recordnotfound",
            MsoftCode::DataInvalidmod => "data_invalidmod",
            MsoftCode::DataNochanges => "data_nochanges",
            MsoftCode::DataV8Emulation => "data_v8_emulation",
            MsoftCode::ConnToreversal => "conn_toreversal",
            MsoftCode::ConnMaxsends => "conn_maxsends",
            MsoftCode::ConnMaxattempts => "conn_maxattempts",
            MsoftCode::SysShutdown => "sys_shutdown",
            MsoftCode::SysMaintenance => "sys_maintenance",
            MsoftCode::LicUsers => "lic_users",
            MsoftCode::LicCardtype => "lic_cardtype",
            MsoftCode::LicTranexceed => "lic_tranexceed",
            MsoftCode::DbFail => "db_fail",
            MsoftCode::Fraudautodeny => "fraudautodeny",
            MsoftCode::Nsfautodeny => "nsfautodeny",
            MsoftCode::Carddenylist => "carddenylist",
            MsoftCode::Achverifydeny => "achverifydeny",
            MsoftCode::Data3Dsmissing => "data3_dsmissing",
        };
        text.to_owned()
    }

    /// The code whose display form is `text`, if any.
    pub open spec fn from_display_text(text: Seq<char>) -> Option<MsoftCode> {
        if text == "int_success"@ {
            Some(MsoftCode::IntSuccess)
        } else if text == "unknown"@ {
            Some(MsoftCode::Unknown)
        } else if text == "int_genericfail"@ {
            Some(MsoftCode::IntGenericfail)
        } else if text == "acct_authfailed"@ {
            Some(MsoftCode::AcctAuthfailed)
        } else if text == "acct_disabled"@ {
            Some(MsoftCode::AcctDisabled)
        } else if text == "acct_sslcert"@ {
            Some(MsoftCode::AcctSslcert)
        } else if text == "acct_passexpired"@ {
            Some(MsoftCode::AcctPassexpired)
        } else if text == "acct_toomanyattempts"@ {
            Some(MsoftCode::AcctToomanyattempts)
        } else if text == "acct_invalidtrans"@ {
            Some(MsoftCode::AcctInvalidtrans)
        } else if text == "acct_transnotallowed"@ {
            Some(MsoftCode::AcctTransnotallowed)
        } else if text == "acct_transnotallowed_port"@ {
            Some(MsoftCode::AcctTransnotallowedPort)
        } else if text == "acct_mfa_required"@ {
            Some(MsoftCode::AcctMfaRequired)
        } else if text == "acct_mfa_invalid"@ {
            Some(MsoftCode::AcctMfaInvalid)
        } else if text == "auth_mfa_generate"@ {
            Some(MsoftCode::AuthMfaGenerate)
        } else if text == "setup_sched"@ {
            Some(MsoftCode::SetupSched)
        } else if text == "setup_cardtype"@ {
            Some(MsoftCode::SetupCardtype)
        } else if text == "setup_trantype"@ {
            Some(MsoftCode::SetupTrantype)
        } else if text == "setup_data"@ {
            Some(MsoftCode::SetupData)
        } else if text == "data_badtrans"@ {
            Some(MsoftCode::DataBadtrans)
        } else if text == "data_account"@ {
            Some(MsoftCode::DataAccount)
        } else if text == "data_expdate"@ {
            Some(MsoftCode::DataExpdate)
        } else if text == "data_amount"@ {
            Some(MsoftCode::DataAmount)
        } else if text == "data_trackdata"@ {
            Some(MsoftCode::DataTrackdata)
        } else if text == "data_micr"@ {
            Some(MsoftCode::DataMicr)
        } else if text == "data_abaroute"@ {
            Some(MsoftCode::DataAbaroute)
        } else if text == "data_noopenbatches"@ {
            Some(MsoftCode::DataNoopenbatches)
        } else if text == "data_batchlocked"@ {
            Some(MsoftCode::DataBatchlocked)
        } else if text == "data_recordnotfound"@ {
            Some(MsoftCode::DataRecordnotfound)
        } else if text == "data_invalidmod"@ {
            Some(MsoftCode::DataInvalidmod)
        } else if text == "data_nochanges"@ {
            Some(MsoftCode::DataNochanges)
        } else if text == "data_v8_emulation"@ {
            Some(MsoftCode::DataV8Emulation)
        } else if text == "conn_toreversal"@ {
            Some(MsoftCode::ConnToreversal)
        } else if text == "conn_maxsends"@ {
            Some(MsoftCode::ConnMaxsends)
        } else if text == "conn_maxattempts"@ {
            Some(MsoftCode::ConnMaxattempts)
        } else if text == "sys_shutdown"@ {
            Some(MsoftCode::SysShutdown)
        } else if text == "sys_maintenance"@ {
            Some(MsoftCode::SysMaintenance)
        } else if text == "lic_users"@ {
            Some(MsoftCode::LicUsers)
        } else if text == "lic_cardtype"@ {
            Some(MsoftCode::LicCardtype)
        } else if text == "lic_tranexceed"@ {
            Some(MsoftCode::LicTranexceed)
        } else if text == "db_fail"@ {
            Some(MsoftCode::DbFail)
        } else if text == "fraudautodeny"@ {
            Some(MsoftCode::Fraudautodeny)
        } else if text == "nsfautodeny"@ {
            Some(MsoftCode::Nsfautodeny)
        } else if text == "carddenylist"@ {
            Some(MsoftCode::Carddenylist)
        } else if text == "achverifydeny"@ {
            Some(MsoftCode::Achverifydeny)
        } else if text == "data3_dsmissing"@ {
            Some(MsoftCode::Data3Dsmissing)
        } else {
            None
        }
    }

    /// Reads a code from its display form.
    pub fn from_str(text: &str) -> (r: Result<MsoftCode, ParseError>)
        ensures
            match MsoftCode::from_display_text(text@) {
                Some(c) => r == Ok::<MsoftCode, ParseError>(c),
                None => r == Err::<MsoftCode, ParseError>(ParseError::VariantNotFound),
            },
    {
        if text_eq(text, "int_success") {
            Ok(MsoftCode::IntSuccess)
        } else if text_eq(text, "unknown") {
            Ok(MsoftCode::Unknown)
        } else if text_eq(text, "int_genericfail") {
            Ok(MsoftCode::IntGenericfail)
        } else if text_eq(text, "acct_authfailed") {
            Ok(MsoftCode::AcctAuthfailed)
        } else if text_eq(text, "acct_disabled") {
            Ok(MsoftCode::AcctDisabled)
        } else if text_eq(text, "acct_sslcert") {
            Ok(MsoftCode::AcctSslcert)
        } else if text_eq(text, "acct_passexpired") {
            Ok(MsoftCode::AcctPassexpired)
        } else if text_eq(text, "acct_toomanyattempts") {
            Ok(MsoftCode::AcctToomanyattempts)
        } else if text_eq(text, "acct_invalidtrans") {
            Ok(MsoftCode::AcctInvalidtrans)
        } else if text_eq(text, "acct_transnotallowed") {
            Ok(MsoftCode::AcctTransnotallowed)
        } else if text_eq(text, "acct_transnotallowed_port") {
            Ok(MsoftCode::AcctTransnotallowedPort)
        } else if text_eq(text, "acct_mfa_required") {
            Ok(MsoftCode::AcctMfaRequired)
        } else if text_eq(text, "acct_mfa_invalid") {
            Ok(MsoftCode::AcctMfaInvalid)
        } else if text_eq(text, "auth_mfa_generate") {
            Ok(MsoftCode::AuthMfaGenerate)
        } else if text_eq(text, "setup_sched") {
            Ok(MsoftCode::SetupSched)
        } else if text_eq(text, "setup_cardtype") {
            Ok(MsoftCode::SetupCardtype)
        } else if text_eq(text, "setup_trantype") {
            Ok(MsoftCode::SetupTrantype)
        } else if text_eq(text, "setup_data") {
            Ok(MsoftCode::SetupData)
        } else if text_eq(text, "data_badtrans") {
            Ok(MsoftCode::DataBadtrans)
        } else if text_eq(text, "data_account") {
            Ok(MsoftCode::DataAccount)
        } else if text_eq(text, "data_expdate") {
            Ok(MsoftCode::DataExpdate)
        } else if text_eq(text, "data_amount") {
            Ok(MsoftCode::DataAmount)
        } else if text_eq(text, "data_trackdata") {
            Ok(MsoftCode::DataTrackdata)
        } else if text_eq(text, "data_micr") {
            Ok(MsoftCode::DataMicr)
        } else if text_eq(text, "data_abaroute") {
            Ok(MsoftCode::DataAbaroute)
        } else if text_eq(text, "data_noopenbatches") {
            Ok(MsoftCode::DataNoopenbatches)
        } else if text_eq(text, "data_batchlocked") {
            Ok(MsoftCode::DataBatchlocked)
        } else if text_eq(text, "data_recordnotfound") {
            Ok(MsoftCode::DataRecordnotfound)
        } else if text_eq(text, "data_invalidmod") {
            Ok(MsoftCode::DataInvalidmod)
        } else if text_eq(text, "data_nochanges") {
            Ok(MsoftCode::DataNochanges)
        } else if text_eq(text, "data_v8_emulation") {
            Ok(MsoftCode::DataV8Emulation)
        } else if text_eq(text, "conn_toreversal") {
            Ok(MsoftCode::ConnToreversal)
        } else if text_eq(text, "conn_maxsends") {
            Ok(MsoftCode::ConnMaxsends)
        } else if text_eq(text, "conn_maxattempts") {
            Ok(MsoftCode::ConnMaxattempts)
        } else if text_eq(text, "sys_shutdown") {
            Ok(MsoftCode::SysShutdown)
        } else if text_eq(text, "sys_maintenance") {
            Ok(MsoftCode::SysMaintenance)
        } else if text_eq(text, "lic_users") {
            Ok(MsoftCode::LicUsers)
        } else if text_eq(text, "lic_cardtype") {
            Ok(MsoftCode::LicCardtype)
        } else if text_eq(text, "lic_tranexceed") {
            Ok(MsoftCode::LicTranexceed)
        } else if text_eq(text, "db_fail") {
            Ok(MsoftCode::DbFail)
        } else if text_eq(text, "fraudautodeny") {
            Ok(MsoftCode::Fraudautodeny)
        } else if text_eq(text, "nsfautodeny") {
            Ok(MsoftCode::Nsfautodeny)
        } else if text_eq(text, "carddenylist") {
            Ok(MsoftCode::Carddenylist)
        } else if text_eq(text, "achverifydeny") {
            Ok(MsoftCode::Achverifydeny)
        } else if text_eq(text, "data3_dsmissing") {
            Ok(MsoftCode::Data3Dsmissing)
        } else {
            Err(ParseError::VariantNotFound)
        }
    }
}

/// Card brand reported with a transaction.
#[derive(Clone, Copy, Debug, PartialEq, Eq, Structural, PartialOrd)]
pub enum Cardtype {
    Visa,
    Mc,
    Amex,
    Disc,
    Diners,
    Jcb,
    Switch,
    Bml,
    Gift,
    Other,
    Visadebit,
    Mcdebit,
    Otherdebit,
    Visads,
    Ebt,
    Check,
    Interac,
    Cup,
    Paypalec,
    Ach,
    Unknown,
}

impl Default for Cardtype {
    fn default() -> (c: Cardtype)
        ensures
            c == Cardtype::Visa,
    {
        Cardtype::Visa
    }
}

impl Cardtype {
    /// The code whose display form is `text`, if any.
    pub open spec fn from_display_text(text: Seq<char>) -> Option<Cardtype> {
        if text == "Visa"@ {
            Some(Cardtype::Visa)
        } else if text == "Mc"@ {
            Some(Cardtype::Mc)
        } else if text == "Amex"@ {
            Some(Cardtype::Amex)
        } else if text == "Disc"@ {
            Some(Cardtype::Disc)
        } else if text == "Diners"@ {
            Some(Cardtype::Diners)
        } else if text == "Jcb"@ {
            Some(Cardtype::Jcb)
        } else if text == "Switch"@ {
            Some(Cardtype::Switch)
        } else if text == "Bml"@ {
            Some(Cardtype::Bml)
        } else if text == "Gift"@ {
            Some(Cardtype::Gift)
        } else if text == "Other"@ {
            Some(Cardtype::Other)
        } else if text == "Visadebit"@ {
            Some(Cardtype::Visadebit)
        } else if text == "Mcdebit"@ {
            Some(Cardtype::Mcdebit)
        } else if text == "Otherdebit"@ {
            Some(Cardtype::Otherdebit)
        } else if text == "Visads"@ {
            Some(Cardtype::Visads)
        } else if text == "Ebt"@ {
            Some(Cardtype::Ebt)
        } else if text == "Check"@ {
            Some(Cardtype::Check)
        } else if text == "Interac"@ {
            Some(Cardtype::Interac)
        } else if text == "Cup"@ {
            Some(Cardtype::Cup)
        } else if text == "Paypalec"@ {
            Some(Cardtype::Paypalec)
        } else if text == "Ach"@ {
            Some(Cardtype::Ach)
        } else if text == "Unknown"@ {
            Some(Cardtype::Unknown)
        } else {
            None
        }
    }

    /// Reads a code from its display form.
    pub fn from_str(text: &str) -> (r: Result<Cardtype, ParseError>)
        ensures
            match Cardtype::from_display_text(text@) {
                Some(c) => r == Ok::<Cardtype, ParseError>(c),
                None => r == Err::<Cardtype, ParseError>(ParseError::VariantNotFound),
            },
    {
        if text_eq(text, "Visa") {
            Ok(Cardtype::Visa)
        } else if text_eq(text, "Mc") {
            Ok(Cardtype::Mc)
        } else if text_eq(text, "Amex") {
            Ok(Cardtype::Amex)
        } else if text_eq(text, "Disc") {
            Ok(Cardtype::Disc)
        } else if text_eq(text, "Diners") {
            Ok(Cardtype::Diners)
        } else if text_eq(text, "Jcb") {
            Ok(Cardtype::Jcb)
        } else if text_eq(text, "Switch") {
            Ok(Cardtype::Switch)
        } else if text_eq(text, "Bml") {
            Ok(Cardtype::Bml)
        } else if text_eq(text, "Gift") {
            Ok(Cardtype::Gift)
        } else if text_eq(text, "Other") {
            Ok(Cardtype::Other)
        } else if text_eq(text, "Visadebit") {
            Ok(Cardtype::Visadebit)
        } else if text_eq(text, "Mcdebit") {
            Ok(Cardtype::Mcdebit)
        } else if text_eq(text, "Otherdebit") {
            Ok(Cardtype::Otherdebit)
        } else if text_eq(text, "Visads") {
            Ok(Cardtype::Visads)
        } else if text_eq(text, "Ebt") {
            Ok(Cardtype::Ebt)
        } else if text_eq(text, "Check") {
            Ok(Cardtype::Check)
        } else if text_eq(text, "Interac") {
            Ok(Cardtype::Interac)
        } else if text_eq(text, "Cup") {
            Ok(Cardtype::Cup)
        } else if text_eq(text, "Paypalec") {
            Ok(Cardtype::Paypalec)
        } else if text_eq(text, "Ach") {
            Ok(Cardtype::Ach)
        } else if text_eq(text, "Unknown") {
            Ok(Cardtype::Unknown)
        } else {
            Err(ParseError::VariantNotFound)
        }
    }

    /// The display form of the code: the variant's name.
    pub open spec fn display_text(self) -> Seq<char> {
        match self {
            Cardtype::Visa => "Visa"@,
            Cardtype::Mc => "Mc"@,
            Cardtype::Amex => "Amex"@,
            Cardtype::Disc => "Disc"@,
            Cardtype::Diners => "Diners"@,
            Cardtype::Jcb => "Jcb"@,
            Cardtype::Switch => "Switch"@,
            Cardtype::Bml => "Bml"@,
            Cardtype::Gift => "Gift"@,
            Cardtype::Other => "Other"@,
            Cardtype::Visadebit => "Visadebit"@,
            Cardtype::Mcdebit => "Mcdebit"@,
            Cardtype::Otherdebit => "Otherdebit"@,
            Cardtype::Visads => "Visads"@,
            Cardtype::Ebt => "Ebt"@,
            Cardtype::Check => "Check"@,
            Cardtype::Interac => "Interac"@,
            Cardtype::Cup => "Cup"@,
            Cardtype::Paypalec => "Paypalec"@,
            Cardtype::Ach => "Ach"@,
            Cardtype::Unknown => "Unknown"@,
        }
    }

    /// Renders the display form of the code.
    pub fn to_string(&self) -> (s: String)
        ensures
            s@ == self.display_text(),
    {
        let text: &str = match self {
            Cardtype::Visa => "Visa",
            Cardtype::Mc => "Mc",
            Cardtype::Amex => "Amex",
            Cardtype::Disc => "Disc",
            Cardtype::Diners => "Diners",
            Cardtype::Jcb => "Jcb",
            Cardtype::Switch => "Switch",
            Cardtype::Bml => "Bml",
            Cardtype::Gift => "Gift",
            Cardtype::Other => "Other",
            Cardtype::Visadebit => "Visadebit",
            Cardtype::Mcdebit => "Mcdebit",
            Cardtype::Otherdebit => "Otherdebit",
            Cardtype::Visads => "Visads",
            Cardtype::Ebt => "Ebt",
            Cardtype::Check => "Check",
            Cardtype::Interac => "Interac",
            Cardtype::Cup => "Cup",
            Cardtype::Paypalec => "Paypalec",
            Cardtype::Ach => "Ach",
            Cardtype::Unknown => "Unknown",
        };
        text.to_owned()
    }
}

/// Detailed result code from the processor. When `code` is `AUTH` and
/// `phard_code` is `SUCCESS`, the processor approved the transaction.
#[derive(Clone, Copy, Debug, PartialEq, Eq, Structural, PartialOrd)]
pub enum PhardCode {
    Success,
    Unknown,
    Genericfail,
    Call,
    Noreply,
    PickupNofraud,
    PickupFraud,
    PickupLost,
    PickupStolen,
    Accterror,
    AlreadyReversed,
    BadPin,
    CashbackExceeded,
    CashbackNoavail,
    CidError,
    DateError,
    Donothonor,
    InsufficientFunds,
    ExceedWithdrawalLimit,
    InvalidServiceCode,
    ExceedActivityLimit,
    Violation,
    EncryptionError,
    CardExpired,
    Reenter,
    SecurityViolation,
    NotPermittedCard,
    NotPermittedTran,
    SystemError,
    BadMerchId,
    DuplicateBatch,
    RejectedBatch,
    AccountClosed,
    RecurringCancel,
    AlreadyActive,
    NotActive,
    BalanceMismatch,
    IdError,
    Represented,
    ManagerNeeded,
    IneligibleConv,
    Retry,
    InvalidAccountType,
    RetryForceInsert,
}

impl Default for PhardCode {
    fn default() -> (c: PhardCode)
        ensures
            c == PhardCode::Success,
    {
        PhardCode::Success
    }
}

impl PhardCode {
    /// The code whose display form is `text`, if any.
    pub open spec fn from_display_text(text: Seq<char>) -> Option<PhardCode> {
        if text == "Success"@ {
            Some(PhardCode::Success)
        } else if text == "Unknown"@ {
            Some(PhardCode::Unknown)
        } else if text == "Genericfail"@ {
            Some(PhardCode::Genericfail)
        } else if text == "Call"@ {
            Some(PhardCode::Call)
        } else if text == "Noreply"@ {
            Some(PhardCode::Noreply)
        } else if text == "PickupNofraud"@ {
            Some(PhardCode::PickupNofraud)
        } else if text == "PickupFraud"@ {
            Some(PhardCode::PickupFraud)
        } else if text == "PickupLost"@ {
            Some(PhardCode::PickupLost)
        } else if text == "PickupStolen"@ {
            Some(PhardCode::PickupStolen)
        } else if text == "Accterror"@ {
            Some(PhardCode::Accterror)
        } else if text == "AlreadyReversed"@ {
            Some(PhardCode::AlreadyReversed)
        } else if text == "BadPin"@ {
            Some(PhardCode::BadPin)
        } else if text == "CashbackExceeded"@ {
            Some(PhardCode::CashbackExceeded)
        } else if text == "CashbackNoavail"@ {
            Some(PhardCode::CashbackNoavail)
        } else if text == "CidError"@ {
            Some(PhardCode::CidError)
        } else if text == "DateError"@ {
            Some(PhardCode::DateError)
        } else if text == "Donothonor"@ {
            Some(PhardCode::Donothonor)
        } else if text == "InsufficientFunds"@ {
            Some(PhardCode::InsufficientFunds)
        } else if text == "ExceedWithdrawalLimit"@ {
            Some(PhardCode::ExceedWithdrawalLimit)
        } else if text == "InvalidServiceCode"@ {
            Some(PhardCode::InvalidServiceCode)
        } else if text == "ExceedActivityLimit"@ {
            Some(PhardCode::ExceedActivityLimit)
        } else if text == "Violation"@ {
            Some(PhardCode::Violation)
        } else if text == "EncryptionError"@ {
            Some(PhardCode::EncryptionError)
        } else if text == "CardExpired"@ {
            Some(PhardCode::CardExpired)
        } else if text == "Reenter"@ {
            Some(PhardCode::Reenter)
        } else if text == "SecurityViolation"@ {
            Some(PhardCode::SecurityViolation)
        } else if text == "NotPermittedCard"@ {
            Some(PhardCode::NotPermittedCard)
        } else if text == "NotPermittedTran"@ {
            Some(PhardCode::NotPermittedTran)
        } else if text == "SystemError"@ {
            Some(PhardCode::SystemError)
        } else if text == "BadMerchId"@ {
            Some(PhardCode::BadMerchId)
        } else if text == "DuplicateBatch"@ {
            Some(PhardCode::DuplicateBatch)
        } else if text == "RejectedBatch"@ {
            Some(PhardCode::RejectedBatch)
        } else if text == "AccountClosed"@ {
            Some(PhardCode::AccountClosed)
        } else if text == "RecurringCancel"@ {
            Some(PhardCode::RecurringCancel)
        } else if text == "AlreadyActive"@ {
            Some(PhardCode::AlreadyActive)
        } else if text == "NotActive"@ {
            Some(PhardCode::NotActive)
        } else if text == "BalanceMismatch"@ {
            Some(PhardCode::BalanceMismatch)
        } else if text == "IdError"@ {
            Some(PhardCode::IdError)
        } else if text == "Represented"@ {
            Some(PhardCode::Represented)
        } else if text == "ManagerNeeded"@ {
            Some(PhardCode::ManagerNeeded)
        } else if text == "IneligibleConv"@ {
            Some(PhardCode::IneligibleConv)
        } else if text == "Retry"@ {
            Some(PhardCode::Retry)
        } else if text == "InvalidAccountType"@ {
            Some(PhardCode::InvalidAccountType)
        } else if text == "RetryForceInsert"@ {
            Some(PhardCode::RetryForceInsert)
        } else {
            None
        }
    }

    /// Reads a code from its display form.
    pub fn from_str(text: &str) -> (r: Result<PhardCode, ParseError>)
        ensures
            match PhardCode::from_display_text(text@) {
                Some(c) => r == Ok::<PhardCode, ParseError>(c),
                None => r == Err::<PhardCode, ParseError>(ParseError::VariantNotFound),
            },
    {
        if text_eq(text, "Success") {
            Ok(PhardCode::Success)
        } else if text_eq(text, "Unknown") {
            Ok(PhardCode::Unknown)
        } else if text_eq(text, "Genericfail") {
            Ok(PhardCode::Genericfail)
        } else if text_eq(text, "Call") {
            Ok(PhardCode::Call)
        } else if text_eq(text, "Noreply") {
            Ok(PhardCode::Noreply)
        } else if text_eq(text, "PickupNofraud") {
            Ok(PhardCode::PickupNofraud)
        } else if text_eq(text, "PickupFraud") {
            Ok(PhardCode::PickupFraud)
        } else if text_eq(text, "PickupLost") {
            Ok(PhardCode::PickupLost)
        } else if text_eq(text, "PickupStolen") {
            Ok(PhardCode::PickupStolen)
        } else if text_eq(text, "Accterror") {
            Ok(PhardCode::Accterror)
        } else if text_eq(text, "AlreadyReversed") {
            Ok(PhardCode::AlreadyReversed)
        } else if text_eq(text, "BadPin") {
            Ok(PhardCode::BadPin)
        } else if text_eq(text, "CashbackExceeded") {
            Ok(PhardCode::CashbackExceeded)
        } else if text_eq(text, "CashbackNoavail") {
            Ok(PhardCode::CashbackNoavail)
        } else if text_eq(text, "CidError") {
            Ok(PhardCode::CidError)
        } else if text_eq(text, "DateError") {
            Ok(PhardCode::DateError)
        } else if text_eq(text, "Donothonor") {
            Ok(PhardCode::Donothonor)
        } else if text_eq(text, "InsufficientFunds") {
            Ok(PhardCode::InsufficientFunds)
        } else if text_eq(text, "ExceedWithdrawalLimit") {
            Ok(PhardCode::ExceedWithdrawalLimit)
        } else if text_eq(text, "InvalidServiceCode") {
            Ok(PhardCode::InvalidServiceCode)
        } else if text_eq(text, "ExceedActivityLimit") {
            Ok(PhardCode::ExceedActivityLimit)
        } else if text_eq(text, "Violation") {
            Ok(PhardCode::Violation)
        } else if text_eq(text, "EncryptionError") {
            Ok(PhardCode::EncryptionError)
        } else if text_eq(text, "CardExpired") {
            Ok(PhardCode::CardExpired)
        } else if text_eq(text, "Reenter") {
            Ok(PhardCode::Reenter)
        } else if text_eq(text, "SecurityViolation") {
            Ok(PhardCode::SecurityViolation)
        } else if text_eq(text, "NotPermittedCard") {
            Ok(PhardCode::NotPermittedCard)
        } else if text_eq(text, "NotPermittedTran") {
            Ok(PhardCode::NotPermittedTran)
        } else if text_eq(text, "SystemError") {
            Ok(PhardCode::SystemError)
        } else if text_eq(text, "BadMerchId") {
            Ok(PhardCode::BadMerchId)
        } else if text_eq(text, "DuplicateBatch") {
            Ok(PhardCode::DuplicateBatch)
        } else if text_eq(text, "RejectedBatch") {
            Ok(PhardCode::RejectedBatch)
        } else if text_eq(text, "AccountClosed") {
            Ok(PhardCode::AccountClosed)
        } else if text_eq(text, "RecurringCancel") {
            Ok(PhardCode::RecurringCancel)
        } else if text_eq(text, "AlreadyActive") {
            Ok(PhardCode::AlreadyActive)
        } else if text_eq(text, "NotActive") {
            Ok(PhardCode::NotActive)
        } else if text_eq(text, "BalanceMismatch") {
            Ok(PhardCode::BalanceMismatch)
        } else if text_eq(text, "IdError") {
            Ok(PhardCode::IdError)
        } else if text_eq(text, "Represented") {
            Ok(PhardCode::Represented)
        } else if text_eq(text, "ManagerNeeded") {
            Ok(PhardCode::ManagerNeeded)
        } else if text_eq(text, "IneligibleConv") {
            Ok(PhardCode::IneligibleConv)
        } else if text_eq(text, "Retry") {
            Ok(PhardCode::Retry)
        } else if text_eq(text, "InvalidAccountType") {
            Ok(PhardCode::InvalidAccountType)
        } else if text_eq(text, "RetryForceInsert") {
            Ok(PhardCode::RetryForceInsert)
        } else {
            Err(ParseError::VariantNotFound)
        }
    }

    /// The display form of the code: the variant's name.
    pub open spec fn display_text(self) -> Seq<char> {
        match self {
            PhardCode::Success => "Success"@,
            PhardCode::Unknown => "Unknown"@,
            PhardCode::Genericfail => "Genericfail"@,
            PhardCode::Call => "Call"@,
            PhardCode::Noreply => "Noreply"@,
            PhardCode::PickupNofraud => "PickupNofraud"@,
            PhardCode::PickupFraud => "PickupFraud"@,
            PhardCode::PickupLost => "PickupLost"@,
            PhardCode::PickupStolen => "PickupStolen"@,
            PhardCode::Accterror => "Accterror"@,
            PhardCode::AlreadyReversed => "AlreadyReversed"@,
            PhardCode::BadPin => "BadPin"@,
            PhardCode::CashbackExceeded => "CashbackExceeded"@,
            PhardCode::CashbackNoavail => "CashbackNoavail"@,
            PhardCode::CidError => "CidError"@,
            PhardCode::DateError => "DateError"@,
            PhardCode::Donothonor => "Donothonor"@,
            PhardCode::InsufficientFunds => "InsufficientFunds"@,
            PhardCode::ExceedWithdrawalLimit => "ExceedWithdrawalLimit"@,
            PhardCode::InvalidServiceCode => "InvalidServiceCode"@,
            PhardCode::ExceedActivityLimit => "ExceedActivityLimit"@,
            PhardCode::Violation => "Violation"@,
            PhardCode::EncryptionError => "EncryptionError"@,
            PhardCode::CardExpired => "CardExpired"@,
            PhardCode::Reenter => "Reenter"@,
            PhardCode::SecurityViolation => "SecurityViolation"@,
            PhardCode::NotPermittedCard => "NotPermittedCard"@,
            PhardCode::NotPermittedTran => "NotPermittedTran"@,
            PhardCode::SystemError => "SystemError"@,
            PhardCode::BadMerchId => "BadMerchId"@,
            PhardCode::DuplicateBatch => "DuplicateBatch"@,
            PhardCode::RejectedBatch => "RejectedBatch"@,
            PhardCode::AccountClosed => "AccountClosed"@,
            PhardCode::RecurringCancel => "RecurringCancel"@,
            PhardCode::AlreadyActive => "AlreadyActive"@,
            PhardCode::NotActive => "NotActive"@,
            PhardCode::BalanceMismatch => "BalanceMismatch"@,
            PhardCode::IdError => "IdError"@,
            PhardCode::Represented => "Represented"@,
            PhardCode::ManagerNeeded => "ManagerNeeded"@,
            PhardCode::IneligibleConv => "IneligibleConv"@,
            PhardCode::Retry => "Retry"@,
            PhardCode::InvalidAccountType => "InvalidAccountType"@,
            PhardCode::RetryForceInsert => "RetryForceInsert"@,
        }
    }

    /// Renders the display form of the code.
    pub fn to_string(&self) -> (s: String)
        ensures
            s@ == self.display_text(),
    {
        let text: &str = match self {
            PhardCode::Success => "Success",
            PhardCode::Unknown => "Unknown",
            PhardCode::Genericfail => "Genericfail",
            PhardCode::Call => "Call",
            PhardCode::Noreply => "Noreply",
            PhardCode::PickupNofraud => "PickupNofraud",
            PhardCode::PickupFraud => "PickupFraud",
            PhardCode::PickupLost => "PickupLost",
            PhardCode::PickupStolen => "PickupStolen",
            PhardCode::Accterror => "Accterror",
            PhardCode::AlreadyReversed => "AlreadyReversed",
            PhardCode::BadPin => "BadPin",
            PhardCode::CashbackExceeded => "CashbackExceeded",
            PhardCode::CashbackNoavail => "CashbackNoavail",
            PhardCode::CidError => "CidError",
            PhardCode::DateError => "DateError",
            PhardCode::Donothonor => "Donothonor",
            PhardCode::InsufficientFunds => "InsufficientFunds",
            PhardCode::ExceedWithdrawalLimit => "ExceedWithdrawalLimit",
            PhardCode::InvalidServiceCode => "InvalidServiceCode",
            PhardCode::ExceedActivityLimit => "ExceedActivityLimit",
            PhardCode::Violation => "Violation",
            PhardCode::EncryptionError => "EncryptionError",
            PhardCode::CardExpired => "CardExpired",
            PhardCode::Reenter => "Reenter",
            PhardCode::SecurityViolation => "SecurityViolation",
            PhardCode::NotPermittedCard => "NotPermittedCard",
            PhardCode::NotPermittedTran => "NotPermittedTran",
            PhardCode::SystemError => "SystemError",
            PhardCode::BadMerchId => "BadMerchId",
            PhardCode::DuplicateBatch => "DuplicateBatch",
            PhardCode::RejectedBatch => "RejectedBatch",
            PhardCode::AccountClosed => "AccountClosed",
            PhardCode::RecurringCancel => "RecurringCancel",
            PhardCode::AlreadyActive => "AlreadyActive",
            PhardCode::NotActive => "NotActive",
            PhardCode::BalanceMismatch => "BalanceMismatch",
            PhardCode::IdError => "IdError",
            PhardCode::Represented => "Represented",
            PhardCode::ManagerNeeded => "ManagerNeeded",
            PhardCode::IneligibleConv => "IneligibleConv",
            PhardCode::Retry => "Retry",
            PhardCode::InvalidAccountType => "InvalidAccountType",
            PhardCode::RetryForceInsert => "RetryForceInsert",
        };
        text.to_owned()
    }
}

} // verus!
