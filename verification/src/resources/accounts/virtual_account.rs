use crate::client::{Client, Envelope};
use crate::error::Error;
use crate::json::{json_string_literal, string_literal};
use crate::text::{push_signed_decimal, signed_decimal};
use vstd::prelude::*;
use vstd::string::StringExecFns;

verus! {

/// The operations on virtual accounts.
pub struct VirtualAccount {

}

/// The parameters of the creation of a virtual account.
#[derive(Default, Clone, Debug)]
pub struct VirtualAccountCreateRequest {
    /// User's email address.
    pub email: String,
    /// User's phone number.
    pub phone_number: String,
    /// User's last name.
    pub last_name: String,
    /// User's first name.
    pub first_name: String,
    /// Unique identifier for the account.
    pub tracking_reference: String,
}

impl VirtualAccountCreateRequest {
    /// Parameters with every text empty, every number zero and every flag down.
    pub fn new() -> (r: Self)
        ensures
            r.email@ == Seq::<char>::empty(),
            r.phone_number@ == Seq::<char>::empty(),
            r.last_name@ == Seq::<char>::empty(),
            r.first_name@ == Seq::<char>::empty(),
            r.tracking_reference@ == Seq::<char>::empty(),
    {
        VirtualAccountCreateRequest {
            email: String::new(),
            phone_number: String::new(),
            last_name: String::new(),
            first_name: String::new(),
            tracking_reference: String::new(),
        }
    }

    /// The parameters as the JSON object that the server reads: one member for
    /// each field, in the order of the fields.
    pub open spec fn json_of(self) -> Seq<char> {
        "{\"email\":"@ + json_string_literal(self.email@)
            + ",\"phoneNumber\":"@ + json_string_literal(self.phone_number@)
            + ",\"lastName\":"@ + json_string_literal(self.last_name@)
            + ",\"firstName\":"@ + json_string_literal(self.first_name@)
            + ",\"trackingReference\":"@ + json_string_literal(self.tracking_reference@) + "}"@
    }

    /// Writes the parameters as the JSON object that the server reads,
    /// which succeeds on all parameters.
    pub fn to_json(&self) -> (r: Result<String, Error>)
        ensures
            r matches Ok(text) && text@ == self.json_of(),
    {
        let mut text = String::from_str("{\"email\":");
        let email = string_literal(self.email.as_str())?;
        text.append(email.as_str());
        text.append(",\"phoneNumber\":");
        let phone_number = string_literal(self.phone_number.as_str())?;
        text.append(phone_number.as_str());
        text.append(",\"lastName\":");
        let last_name = string_literal(self.last_name.as_str())?;
        text.append(last_name.as_str());
        text.append(",\"firstName\":");
        let first_name = string_literal(self.first_name.as_str())?;
        text.append(first_name.as_str());
        text.append(",\"trackingReference\":");
        let tracking_reference = string_literal(self.tracking_reference.as_str())?;
        text.append(tracking_reference.as_str());
        text.append("}");
        Ok(text)
    }
}

/// The parameters of a lookup of a virtual account.
#[derive(Default, Clone, Debug)]
pub struct VirtualAccountGetRequest {
    /// Unique identifier for the account.
    pub tracking_reference: String,
}

impl VirtualAccountGetRequest {
    /// Parameters with every text empty, every number zero and every flag down.
    pub fn new() -> (r: Self)
        ensures
            r.tracking_reference@ == Seq::<char>::empty(),
    {
        VirtualAccountGetRequest {
            tracking_reference: String::new(),
        }
    }

    /// The parameters as the JSON object that the server reads: one member for
    /// each field, in the order of the fields.
    pub open spec fn json_of(self) -> Seq<char> {
        "{\"trackingReference\":"@ + json_string_literal(self.tracking_reference@) + "}"@
    }

    /// Writes the parameters as the JSON object that the server reads,
    /// which succeeds on all parameters.
    pub fn to_json(&self) -> (r: Result<String, Error>)
        ensures
            r matches Ok(text) && text@ == self.json_of(),
    {
        let mut text = String::from_str("{\"trackingReference\":");
        let tracking_reference = string_literal(self.tracking_reference.as_str())?;
        text.append(tracking_reference.as_str());
        text.append("}");
        Ok(text)
    }
}

/// The parameters of a funding of, or a withdrawal from, a virtual account.
#[derive(Default, Clone, Debug)]
pub struct VirtualAccountFundWithdrawRequest {
    /// Unique identifier for the account.
    pub tracking_reference: String,
    /// Amount to be funded or withdrawn. All amounts in kobo.
    pub amount: String,
    /// Transaction narration.
    pub narration: String,
}

impl VirtualAccountFundWithdrawRequest {
    /// Parameters with every text empty, every number zero and every flag down.
    pub fn new() -> (r: Self)
        ensures
            r.tracking_reference@ == Seq::<char>::empty(),
            r.amount@ == Seq::<char>::empty(),
            r.narration@ == Seq::<char>::empty(),
    {
        VirtualAccountFundWithdrawRequest {
            tracking_reference: String::new(),
            amount: String::new(),
            narration: String::new(),
        }
    }

    /// The parameters as the JSON object that the server reads: one member for
    /// each field, in the order of the fields.
    pub open spec fn json_of(self) -> Seq<char> {
        "{\"TrackingReference\":"@ + json_string_literal(self.tracking_reference@)
            + ",\"amount\":"@ + json_string_literal(self.amount@)
            + ",\"narration\":"@ + json_string_literal(self.narration@) + "}"@
    }

    /// Writes the parameters as the JSON object that the server reads,
    /// which succeeds on all parameters.
    pub fn to_json(&self) -> (r: Result<String, Error>)
        ensures
            r matches Ok(text) && text@ == self.json_of(),
    {
        let mut text = String::from_str("{\"TrackingReference\":");
        let tracking_reference = string_literal(self.tracking_reference.as_str())?;
        text.append(tracking_reference.as_str());
        text.append(",\"amount\":");
        let amount = string_literal(self.amount.as_str())?;
        text.append(amount.as_str());
        text.append(",\"narration\":");
        let narration = string_literal(self.narration.as_str())?;
        text.append(narration.as_str());
        text.append("}");
        Ok(text)
    }
}

/// The parameters of a transfer from a virtual account.
#[derive(Default, Clone, Debug)]
pub struct VirtualAccountFundTransferRequest {
    /// Unique identifier of the sender.
    pub tracking_reference: String,
    /// Account number of the recipient.
    pub beneficiary_account: String,
    /// Amount to be transferred. All amounts in kobo.
    pub amount: String,
    /// Description of the transaction.
    pub narration: String,
    /// Bank code for the destination bank.
    pub beneficiary_bank_code: String,
    /// Name of the person receiving money.
    pub beneficiary_name: String,
    /// Name of the person sending money.
    pub sender_name: String,
    /// Session ID generated from the name enquiry.
    pub name_enquiry_id: String,
}

impl VirtualAccountFundTransferRequest {
    /// Parameters with every text empty, every number zero and every flag down.
    pub fn new() -> (r: Self)
        ensures
            r.tracking_reference@ == Seq::<char>::empty(),
            r.beneficiary_account@ == Seq::<char>::empty(),
            r.amount@ == Seq::<char>::empty(),
            r.narration@ == Seq::<char>::empty(),
            r.beneficiary_bank_code@ == Seq::<char>::empty(),
            r.beneficiary_name@ == Seq::<char>::empty(),
            r.sender_name@ == Seq::<char>::empty(),
            r.name_enquiry_id@ == Seq::<char>::empty(),
    {
        VirtualAccountFundTransferRequest {
            tracking_reference: String::new(),
            beneficiary_account: String::new(),
            amount: String::new(),
            narration: String::new(),
            beneficiary_bank_code: String::new(),
            beneficiary_name: String::new(),
            sender_name: String::new(),
            name_enquiry_id: String::new(),
        }
    }

    /// The parameters as the JSON object that the server reads: one member for
    /// each field, in the order of the fields.
    pub open spec fn json_of(self) -> Seq<char> {
        "{\"trackingReference\":"@ + json_string_literal(self.tracking_reference@)
            + ",\"beneficiaryAccount\":"@ + json_string_literal(self.beneficiary_account@)
            + ",\"amount\":"@ + json_string_literal(self.amount@)
            + ",\"narration\":"@ + json_string_literal(self.narration@)
            + ",\"beneficiarybankCode\":"@ + json_string_literal(self.beneficiary_bank_code@)
            + ",\"beneficiaryName\":"@ + json_string_literal(self.beneficiary_name@)
            + ",\"senderName\":"@ + json_string_literal(self.sender_name@)
            + ",\"nameEnquiryId\":"@ + json_string_literal(self.name_enquiry_id@) + "}"@
    }

    /// Writes the parameters as the JSON object that the server reads,
    /// which succeeds on all parameters.
    pub fn to_json(&self) -> (r: Result<String, Error>)
        ensures
            r matches Ok(text) && text@ == self.json_of(),
    {
        let mut text = String::from_str("{\"trackingReference\":");
        let tracking_reference = string_literal(self.tracking_reference.as_str())?;
        text.append(tracking_reference.as_str());
        text.append(",\"beneficiaryAccount\":");
        let beneficiary_account = string_literal(self.beneficiary_account.as_str())?;
        text.append(beneficiary_account.as_str());
        text.append(",\"amount\":");
        let amount = string_literal(self.amount.as_str())?;
        text.append(amount.as_str());
        text.append(",\"narration\":");
        let narration = string_literal(self.narration.as_str())?;
        text.append(narration.as_str());
        text.append(",\"beneficiarybankCode\":");
        let beneficiary_bank_code = string_literal(self.beneficiary_bank_code.as_str())?;
        text.append(beneficiary_bank_code.as_str());
        text.append(",\"beneficiaryName\":");
        let beneficiary_name = string_literal(self.beneficiary_name.as_str())?;
        text.append(beneficiary_name.as_str());
        text.append(",\"senderName\":");
        let sender_name = string_literal(self.sender_name.as_str())?;
        text.append(sender_name.as_str());
        text.append(",\"nameEnquiryId\":");
        let name_enquiry_id = string_literal(self.name_enquiry_id.as_str())?;
        text.append(name_enquiry_id.as_str());
        text.append("}");
        Ok(text)
    }
}

/// The parameters of a listing of a virtual account's transactions.
#[derive(Default, Clone, Debug)]
pub struct VirtualAccountTransactionHistoryRequest {
    /// Unique identifier for the account.
    pub tracking_reference: String,
    /// How many transactions a page holds.
    pub page_size: i64,
    /// Which page is asked for.
    pub page_number: i64,
}

impl VirtualAccountTransactionHistoryRequest {
    /// Parameters with every text empty, every number zero and every flag down.
    pub fn new() -> (r: Self)
        ensures
            r.tracking_reference@ == Seq::<char>::empty(),
            r.page_size == 0,
            r.page_number == 0,
    {
        VirtualAccountTransactionHistoryRequest {
            tracking_reference: String::new(),
            page_size: 0,
            page_number: 0,
        }
    }

    /// The parameters as the JSON object that the server reads: one member for
    /// each field, in the order of the fields.
    pub open spec fn json_of(self) -> Seq<char> {
        "{\"trackingReference\":"@ + json_string_literal(self.tracking_reference@)
            + ",\"pageSize\":"@ + signed_decimal(self.page_size as int)
            + ",\"pageNumber\":"@ + signed_decimal(self.page_number as int) + "}"@
    }

    /// Writes the parameters as the JSON object that the server reads,
    /// which succeeds on all parameters.
    pub fn to_json(&self) -> (r: Result<String, Error>)
        ensures
            r matches Ok(text) && text@ == self.json_of(),
    {
        let mut text = String::from_str("{\"trackingReference\":");
        let tracking_reference = string_literal(self.tracking_reference.as_str())?;
        text.append(tracking_reference.as_str());
        text.append(",\"pageSize\":");
        push_signed_decimal(&mut text, self.page_size);
        text.append(",\"pageNumber\":");
        push_signed_decimal(&mut text, self.page_number);
        text.append("}");
        Ok(text)
    }
}

/// The parameters of a listing of a virtual account's transactions between two dates.
#[derive(Default, Clone, Debug)]
pub struct VirtualAccountFilteredTransactionHistoryRequest {
    /// Unique identifier for the account.
    pub tracking_reference: String,
    /// The first moment of the period.
    pub start_date: String,
    /// The last moment of the period.
    pub end_date: String,
    /// How many transactions a page holds.
    pub page_size: i64,
    /// Which page is asked for.
    pub page_number: i64,
}

impl VirtualAccountFilteredTransactionHistoryRequest {
    /// Parameters with every text empty, every number zero and every flag down.
    pub fn new() -> (r: Self)
        ensures
            r.tracking_reference@ == Seq::<char>::empty(),
            r.start_date@ == Seq::<char>::empty(),
            r.end_date@ == Seq::<char>::empty(),
            r.page_size == 0,
            r.page_number == 0,
    {
        VirtualAccountFilteredTransactionHistoryRequest {
            tracking_reference: String::new(),
            start_date: String::new(),
            end_date: String::new(),
            page_size: 0,
            page_number: 0,
        }
    }

    /// The parameters as the JSON object that the server reads: one member for
    /// each field, in the order of the fields.
    pub open spec fn json_of(self) -> Seq<char> {
        "{\"trackingReference\":"@ + json_string_literal(self.tracking_reference@)
            + ",\"startDate\":"@ + json_string_literal(self.start_date@)
            + ",\"endDate\":"@ + json_string_literal(self.end_date@)
            + ",\"pageSize\":"@ + signed_decimal(self.page_size as int)
            + ",\"pageNumber\":"@ + signed_decimal(self.page_number as int) + "}"@
    }

    /// Writes the parameters as the JSON object that the server reads,
    /// which succeeds on all parameters.
    pub fn to_json(&self) -> (r: Result<String, Error>)
        ensures
            r matches Ok(text) && text@ == self.json_of(),
    {
        let mut text = String::from_str("{\"trackingReference\":");
        let tracking_reference = string_literal(self.tracking_reference.as_str())?;
        text.append(tracking_reference.as_str());
        text.append(",\"startDate\":");
        let start_date = string_literal(self.start_date.as_str())?;
        text.append(start_date.as_str());
        text.append(",\"endDate\":");
        let end_date = string_literal(self.end_date.as_str())?;
        text.append(end_date.as_str());
        text.append(",\"pageSize\":");
        push_signed_decimal(&mut text, self.page_size);
        text.append(",\"pageNumber\":");
        push_signed_decimal(&mut text, self.page_number);
        text.append("}");
        Ok(text)
    }
}

/// What the creation of a virtual account answers.
#[derive(Default, Debug, Clone, PartialEq)]
pub struct VirtualAccountCreateResponseData {
    pub account_number: String,
}

/// What a lookup of a virtual account answers.
#[derive(Default, Debug, Clone, PartialEq)]
pub struct VirtualAccountGetResponseData {
    pub account: VirtualAccountGetResponseAccount,
}

/// A virtual account as the server describes it.
#[derive(Default, Debug, Clone, PartialEq)]
pub struct VirtualAccountGetResponseAccount {
    pub account_number: String,
    pub email: String,
    pub phone_number: String,
    pub last_name: String,
    pub first_name: String,
    pub account_name: String,
    pub tracking_reference: String,
    pub creation_date: String,
}

impl VirtualAccount {
    /// Creates a virtual account.
    pub fn create_virtual_account(
        client: &Client,
        params: VirtualAccountCreateRequest,
    ) -> (r: Result<Envelope, Error>)
        ensures
            client.posted("/v1"@, "ADMIN_CREATE_VIRTUAL_ACCOUNT"@, Some(params.json_of()), r),
    {
        let body = params.to_json()?;
        client.post_body("/v1", "ADMIN_CREATE_VIRTUAL_ACCOUNT", Some(body.as_str()))
    }

    /// Looks a virtual account up.
    pub fn get_virtual_account(
        client: &Client,
        params: VirtualAccountGetRequest,
    ) -> (r: Result<Envelope, Error>)
        ensures
            client.posted(
                "/v1"@,
                "ADMIN_RETRIEVE_SINGLE_VIRTUAL_ACCOUNT"@,
                Some(params.json_of()),
                r,
            ),
    {
        let body = params.to_json()?;
        client.post_body("/v1", "ADMIN_RETRIEVE_SINGLE_VIRTUAL_ACCOUNT", Some(body.as_str()))
    }

    /// Asks for the balance of a virtual account.
    pub fn get_virtual_account_balance(
        client: &Client,
        params: VirtualAccountGetRequest,
    ) -> (r: Result<Envelope, Error>)
        ensures
            client.posted("/v1"@, "RETRIEVE_VIRTUAL_ACCOUNT_BALANCE"@, Some(params.json_of()), r),
    {
        let body = params.to_json()?;
        client.post_body("/v1", "RETRIEVE_VIRTUAL_ACCOUNT_BALANCE", Some(body.as_str()))
    }

    /// Asks for a list of all transactions of a virtual account.
    pub fn get_virtual_account_transaction_history(
        client: &Client,
        params: VirtualAccountTransactionHistoryRequest,
    ) -> (r: Result<Envelope, Error>)
        ensures
            client.posted("/v1"@, "ADMIN_VIRTUAL_ACCOUNT_TRANSACTIONS"@, Some(params.json_of()), r),
    {
        let body = params.to_json()?;
        client.post_body("/v1", "ADMIN_VIRTUAL_ACCOUNT_TRANSACTIONS", Some(body.as_str()))
    }

    /// Asks for a list of the transactions of a virtual account between two dates.
    pub fn get_virtual_account_filtered_transaction_history(
        client: &Client,
        params: VirtualAccountFilteredTransactionHistoryRequest,
    ) -> (r: Result<Envelope, Error>)
        ensures
            client.posted(
                "/v1"@,
                "ADMIN_VIRTUAL_ACCOUNT_FILTERED_TRANSACTIONS"@,
                Some(params.json_of()),
                r,
            ),
    {
        let body = params.to_json()?;
        client.post_body("/v1", "ADMIN_VIRTUAL_ACCOUNT_FILTERED_TRANSACTIONS", Some(body.as_str()))
    }

    /// Puts money into a virtual account.
    pub fn fund_virtual_account(
        client: &Client,
        params: VirtualAccountFundWithdrawRequest,
    ) -> (r: Result<Envelope, Error>)
        ensures
            client.posted("/v1"@, "FUND_VIRTUAL_ACCOUNT"@, Some(params.json_of()), r),
    {
        let body = params.to_json()?;
        client.post_body("/v1", "FUND_VIRTUAL_ACCOUNT", Some(body.as_str()))
    }

    /// Takes money out of a virtual account.
    pub fn withdraw_virtual_account(
        client: &Client,
        params: VirtualAccountFundWithdrawRequest,
    ) -> (r: Result<Envelope, Error>)
        ensures
            client.posted("/v1"@, "WITHDRAW_VIRTUAL_ACCOUNT"@, Some(params.json_of()), r),
    {
        let body = params.to_json()?;
        client.post_body("/v1", "WITHDRAW_VIRTUAL_ACCOUNT", Some(body.as_str()))
    }

    /// Sends money from a virtual account.
    pub fn fund_transfer_virtual_account(
        client: &Client,
        params: VirtualAccountFundTransferRequest,
    ) -> (r: Result<Envelope, Error>)
        ensures
            client.posted("/v1"@, "VIRTUAL_ACCOUNT_FUND_TRANSFER"@, Some(params.json_of()), r),
    {
        let body = params.to_json()?;
        client.post_body("/v1", "VIRTUAL_ACCOUNT_FUND_TRANSFER", Some(body.as_str()))
    }
}

} // verus!
