use crate::client::{Client, Envelope};
use crate::error::Error;
use crate::json::{bool_literal, json_bool, json_string_literal, string_literal};
use crate::text::{push_signed_decimal, signed_decimal};
use vstd::prelude::*;
use vstd::string::StringExecFns;

verus! {

/// The operations on the main account.
pub struct AdminAccount {

}

/// The parameters of a balance enquiry on the main account.
#[derive(Default, Clone, Debug)]
pub struct AdminAccountBalanceRequest {
    /// Unique identifier for the account.
    pub tracking_reference: String,
}

impl AdminAccountBalanceRequest {
    /// Parameters with every text empty, every number zero and every flag down.
    pub fn new() -> (r: Self)
        ensures
            r.tracking_reference@ == Seq::<char>::empty(),
    {
        AdminAccountBalanceRequest {
            tracking_reference: String::new(),
        }
    }

    /// The parameters as the JSON object that the server reads: one member for
    /// each field, in the order of the fields.
    pub open spec fn json_of(self) -> Seq<char> {
        "{\"trackingReference\":"@ + json_string_literal(self.tracking_reference@) + "}"@
    }

    /// Writes the parameters as the JSON object that the server reads,
    /// which succeeds on all parameters.
    pub fn to_json(&self) -> (r: Result<String, Error>)
        ensures
            r matches Ok(text) && text@ == self.json_of(),
    {
        let mut text = String::from_str("{\"trackingReference\":");
        let tracking_reference = string_literal(self.tracking_reference.as_str())?;
        text.append(tracking_reference.as_str());
        text.append("}");
        Ok(text)
    }
}

/// The parameters of a name enquiry.
#[derive(Default, Clone, Debug)]
pub struct AccountEnquiryRequest {
    /// Destination bank account number.
    pub beneficiary_account_number: String,
    /// Destination bank code.
    pub beneficiary_bank_code: String,
}

impl AccountEnquiryRequest {
    /// Parameters with every text empty, every number zero and every flag down.
    pub fn new() -> (r: Self)
        ensures
            r.beneficiary_account_number@ == Seq::<char>::empty(),
            r.beneficiary_bank_code@ == Seq::<char>::empty(),
    {
        AccountEnquiryRequest {
            beneficiary_account_number: String::new(),
            beneficiary_bank_code: String::new(),
        }
    }

    /// The parameters as the JSON object that the server reads: one member for
    /// each field, in the order of the fields.
    pub open spec fn json_of(self) -> Seq<char> {
        "{\"beneficiaryAccountNumber\":"@ + json_string_literal(self.beneficiary_account_number@)
            + ",\"beneficiaryBankCode\":"@ + json_string_literal(self.beneficiary_bank_code@) + "}"@
    }

    /// Writes the parameters as the JSON object that the server reads,
    /// which succeeds on all parameters.
    pub fn to_json(&self) -> (r: Result<String, Error>)
        ensures
            r matches Ok(text) && text@ == self.json_of(),
    {
        let mut text = String::from_str("{\"beneficiaryAccountNumber\":");
        let beneficiary_account_number = string_literal(self.beneficiary_account_number.as_str())?;
        text.append(beneficiary_account_number.as_str());
        text.append(",\"beneficiaryBankCode\":");
        let beneficiary_bank_code = string_literal(self.beneficiary_bank_code.as_str())?;
        text.append(beneficiary_bank_code.as_str());
        text.append("}");
        Ok(text)
    }
}

/// The parameters of a transfer from the main account.
#[derive(Default, Clone, Debug)]
pub struct AdminAccountFundTransferRequest {
    /// Destination bank account number.
    pub beneficiary_account: String,
    /// Destination bank code.
    pub beneficiary_bank_code: String,
    /// Name of the recipient.
    pub beneficiary_name: String,
    /// Amount to be transferred. All amounts in kobo.
    pub amount: String,
    /// Transaction narration.
    pub narration: String,
    /// Session ID generated from the name enquiry.
    pub name_enquiry_session_id: String,
    /// Unique identifier for the account.
    pub tracking_reference: String,
    /// Name of the person sending money.
    pub sender_name: String,
}

impl AdminAccountFundTransferRequest {
    /// Parameters with every text empty, every number zero and every flag down.
    pub fn new() -> (r: Self)
        ensures
            r.beneficiary_account@ == Seq::<char>::empty(),
            r.beneficiary_bank_code@ == Seq::<char>::empty(),
            r.beneficiary_name@ == Seq::<char>::empty(),
            r.amount@ == Seq::<char>::empty(),
            r.narration@ == Seq::<char>::empty(),
            r.name_enquiry_session_id@ == Seq::<char>::empty(),
            r.tracking_reference@ == Seq::<char>::empty(),
            r.sender_name@ == Seq::<char>::empty(),
    {
        AdminAccountFundTransferRequest {
            beneficiary_account: String::new(),
            beneficiary_bank_code: String::new(),
            beneficiary_name: String::new(),
            amount: String::new(),
            narration: String::new(),
            name_enquiry_session_id: String::new(),
            tracking_reference: String::new(),
            sender_name: String::new(),
        }
    }

    /// The parameters as the JSON object that the server reads: one member for
    /// each field, in the order of the fields.
    pub open spec fn json_of(self) -> Seq<char> {
        "{\"beneficiaryAccount\":"@ + json_string_literal(self.beneficiary_account@)
            + ",\"beneficiarybankCode\":"@ + json_string_literal(self.beneficiary_bank_code@)
            + ",\"beneficiaryName\":"@ + json_string_literal(self.beneficiary_name@)
            + ",\"amount\":"@ + json_string_literal(self.amount@)
            + ",\"narration\":"@ + json_string_literal(self.narration@)
            + ",\"nameEnquirySessionID\":"@ + json_string_literal(self.name_enquiry_session_id@)
            + ",\"trackingReference\":"@ + json_string_literal(self.tracking_reference@)
            + ",\"senderName\":"@ + json_string_literal(self.sender_name@) + "}"@
    }

    /// Writes the parameters as the JSON object that the server reads,
    /// which succeeds on all parameters.
    pub fn to_json(&self) -> (r: Result<String, Error>)
        ensures
            r matches Ok(text) && text@ == self.json_of(),
    {
        let mut text = String::from_str("{\"beneficiaryAccount\":");
        let beneficiary_account = string_literal(self.beneficiary_account.as_str())?;
        text.append(beneficiary_account.as_str());
        text.append(",\"beneficiarybankCode\":");
        let beneficiary_bank_code = string_literal(self.beneficiary_bank_code.as_str())?;
        text.append(beneficiary_bank_code.as_str());
        text.append(",\"beneficiaryName\":");
        let beneficiary_name = string_literal(self.beneficiary_name.as_str())?;
        text.append(beneficiary_name.as_str());
        text.append(",\"amount\":");
        let amount = string_literal(self.amount.as_str())?;
        text.append(amount.as_str());
        text.append(",\"narration\":");
        let narration = string_literal(self.narration.as_str())?;
        text.append(narration.as_str());
        text.append(",\"nameEnquirySessionID\":");
        let name_enquiry_session_id = string_literal(self.name_enquiry_session_id.as_str())?;
        text.append(name_enquiry_session_id.as_str());
        text.append(",\"trackingReference\":");
        let tracking_reference = string_literal(self.tracking_reference.as_str())?;
        text.append(tracking_reference.as_str());
        text.append(",\"senderName\":");
        let sender_name = string_literal(self.sender_name.as_str())?;
        text.append(sender_name.as_str());
        text.append("}");
        Ok(text)
    }
}

/// The parameters of a listing of the main account's transactions.
#[derive(Default, Clone, Debug)]
pub struct AdminAccountTransactionHistoryRequest {
    /// Unique identifier for the account.
    pub tracking_reference: String,
    /// How many transactions a page holds.
    pub page_size: i64,
    /// Which page is asked for.
    pub page_number: i64,
}

impl AdminAccountTransactionHistoryRequest {
    /// Parameters with every text empty, every number zero and every flag down.
    pub fn new() -> (r: Self)
        ensures
            r.tracking_reference@ == Seq::<char>::empty(),
            r.page_size == 0,
            r.page_number == 0,
    {
        AdminAccountTransactionHistoryRequest {
            tracking_reference: String::new(),
            page_size: 0,
            page_number: 0,
        }
    }

    /// The parameters as the JSON object that the server reads: one member for
    /// each field, in the order of the fields.
    pub open spec fn json_of(self) -> Seq<char> {
        "{\"trackingReference\":"@ + json_string_literal(self.tracking_reference@)
            + ",\"pageSize\":"@ + signed_decimal(self.page_size as int)
            + ",\"pageNumber\":"@ + signed_decimal(self.page_number as int) + "}"@
    }

    /// Writes the parameters as the JSON object that the server reads,
    /// which succeeds on all parameters.
    pub fn to_json(&self) -> (r: Result<String, Error>)
        ensures
            r matches Ok(text) && text@ == self.json_of(),
    {
        let mut text = String::from_str("{\"trackingReference\":");
        let tracking_reference = string_literal(self.tracking_reference.as_str())?;
        text.append(tracking_reference.as_str());
        text.append(",\"pageSize\":");
        push_signed_decimal(&mut text, self.page_size);
        text.append(",\"pageNumber\":");
        push_signed_decimal(&mut text, self.page_number);
        text.append("}");
        Ok(text)
    }
}

/// The parameters of a listing of the main account's transactions between two dates.
#[derive(Default, Clone, Debug)]
pub struct AdminAccountFilteredTransactionHistoryRequest {
    /// Unique identifier for the account.
    pub tracking_reference: String,
    /// The first moment of the period.
    pub start_date: String,
    /// The last moment of the period.
    pub end_date: String,
    /// How many transactions a page holds.
    pub page_size: i64,
    /// Which page is asked for.
    pub page_number: i64,
}

impl AdminAccountFilteredTransactionHistoryRequest {
    /// Parameters with every text empty, every number zero and every flag down.
    pub fn new() -> (r: Self)
        ensures
            r.tracking_reference@ == Seq::<char>::empty(),
            r.start_date@ == Seq::<char>::empty(),
            r.end_date@ == Seq::<char>::empty(),
            r.page_size == 0,
            r.page_number == 0,
    {
        AdminAccountFilteredTransactionHistoryRequest {
            tracking_reference: String::new(),
            start_date: String::new(),
            end_date: String::new(),
            page_size: 0,
            page_number: 0,
        }
    }

    /// The parameters as the JSON object that the server reads: one member for
    /// each field, in the order of the fields.
    pub open spec fn json_of(self) -> Seq<char> {
        "{\"trackingReference\":"@ + json_string_literal(self.tracking_reference@)
            + ",\"startDate\":"@ + json_string_literal(self.start_date@)
            + ",\"endDate\":"@ + json_string_literal(self.end_date@)
            + ",\"pageSize\":"@ + signed_decimal(self.page_size as int)
            + ",\"pageNumber\":"@ + signed_decimal(self.page_number as int) + "}"@
    }

    /// Writes the parameters as the JSON object that the server reads,
    /// which succeeds on all parameters.
    pub fn to_json(&self) -> (r: Result<String, Error>)
        ensures
            r matches Ok(text) && text@ == self.json_of(),
    {
        let mut text = String::from_str("{\"trackingReference\":");
        let tracking_reference = string_literal(self.tracking_reference.as_str())?;
        text.append(tracking_reference.as_str());
        text.append(",\"startDate\":");
        let start_date = string_literal(self.start_date.as_str())?;
        text.append(start_date.as_str());
        text.append(",\"endDate\":");
        let end_date = string_literal(self.end_date.as_str())?;
        text.append(end_date.as_str());
        text.append(",\"pageSize\":");
        push_signed_decimal(&mut text, self.page_size);
        text.append(",\"pageNumber\":");
        push_signed_decimal(&mut text, self.page_number);
        text.append("}");
        Ok(text)
    }
}

/// The parameters of a query for the state of a transfer.
#[derive(Default, Clone, Debug)]
pub struct AdminAccountCheckTransferRequest {
    /// Whether the transfer went to another bank.
    pub is_third_party_bank_transfer: bool,
    /// The correlation id of the transfer.
    pub transaction_request_reference: String,
}

impl AdminAccountCheckTransferRequest {
    /// Parameters with every text empty, every number zero and every flag down.
    pub fn new() -> (r: Self)
        ensures
            !r.is_third_party_bank_transfer,
            r.transaction_request_reference@ == Seq::<char>::empty(),
    {
        AdminAccountCheckTransferRequest {
            is_third_party_bank_transfer: false,
            transaction_request_reference: String::new(),
        }
    }

    /// The parameters as the JSON object that the server reads: one member for
    /// each field, in the order of the fields.
    pub open spec fn json_of(self) -> Seq<char> {
        "{\"isThirdPartyBankTransfer\":"@ + json_bool(self.is_third_party_bank_transfer)
            + ",\"transactionRequestReference\":"@ + json_string_literal(
            self.transaction_request_reference@,
        ) + "}"@
    }

    /// Writes the parameters as the JSON object that the server reads,
    /// which succeeds on all parameters.
    pub fn to_json(&self) -> (r: Result<String, Error>)
        ensures
            r matches Ok(text) && text@ == self.json_of(),
    {
        let mut text = String::from_str("{\"isThirdPartyBankTransfer\":");
        text.append(bool_literal(self.is_third_party_bank_transfer));
        text.append(",\"transactionRequestReference\":");
        let transaction_request_reference = string_literal(
            self.transaction_request_reference.as_str(),
        )?;
        text.append(transaction_request_reference.as_str());
        text.append("}");
        Ok(text)
    }
}

impl AdminAccount {
    /// Asks for the balance of the main account.
    pub fn get_admin_account_balance(
        client: &Client,
        params: AdminAccountBalanceRequest,
    ) -> (r: Result<Envelope, Error>)
        ensures
            client.posted(
                "/v1"@,
                "ADMIN_RETRIEVE_MAIN_ACCOUNT_BALANCE"@,
                Some(params.json_of()),
                r,
            ),
    {
        let body = params.to_json()?;
        client.post_body("/v1", "ADMIN_RETRIEVE_MAIN_ACCOUNT_BALANCE", Some(body.as_str()))
    }

    /// Asks for a list of all transactions of the main account.
    pub fn get_admin_account_transaction_history(
        client: &Client,
        params: AdminAccountTransactionHistoryRequest,
    ) -> (r: Result<Envelope, Error>)
        ensures
            client.posted("/v1"@, "ADMIN_MAIN_ACCOUNT_TRANSACTIONS"@, Some(params.json_of()), r),
    {
        let body = params.to_json()?;
        client.post_body("/v1", "ADMIN_MAIN_ACCOUNT_TRANSACTIONS", Some(body.as_str()))
    }

    /// Asks for a list of the transactions of the main account between two dates.
    pub fn get_admin_account_filtered_transaction_history(
        client: &Client,
        params: AdminAccountFilteredTransactionHistoryRequest,
    ) -> (r: Result<Envelope, Error>)
        ensures
            client.posted(
                "/v1"@,
                "ADMIN_MAIN_ACCOUNT_FILTERED_TRANSACTIONS"@,
                Some(params.json_of()),
                r,
            ),
    {
        let body = params.to_json()?;
        client.post_body("/v1", "ADMIN_MAIN_ACCOUNT_FILTERED_TRANSACTIONS", Some(body.as_str()))
    }

    /// Asks who holds an account, to confirm the recipient of a transfer.
    pub fn enquire_bank_account(
        client: &Client,
        params: AccountEnquiryRequest,
    ) -> (r: Result<Envelope, Error>)
        ensures
            client.posted("/v1"@, "NAME_ENQUIRY"@, Some(params.json_of()), r),
    {
        let body = params.to_json()?;
        client.post_body("/v1", "NAME_ENQUIRY", Some(body.as_str()))
    }

    /// Sends money from the main account.
    pub fn fund_transfer(
        client: &Client,
        params: AdminAccountFundTransferRequest,
    ) -> (r: Result<Envelope, Error>)
        ensures
            client.posted("/v1"@, "SINGLE_FUND_TRANSFER"@, Some(params.json_of()), r),
    {
        let body = params.to_json()?;
        client.post_body("/v1", "SINGLE_FUND_TRANSFER", Some(body.as_str()))
    }

    /// Asks for the state of a bank transfer.
    pub fn check_transfer_status(
        client: &Client,
        params: AdminAccountCheckTransferRequest,
    ) -> (r: Result<Envelope, Error>)
        ensures
            client.posted("/v1"@, "TRANSACTION_STATUS_QUERY"@, Some(params.json_of()), r),
    {
        let body = params.to_json()?;
        client.post_body("/v1", "TRANSACTION_STATUS_QUERY", Some(body.as_str()))
    }
}

} // verus!
