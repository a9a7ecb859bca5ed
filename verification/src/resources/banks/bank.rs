use crate::client::{Client, Envelope};
use crate::error::Error;
use vstd::prelude::*;

verus! {

/// The operations on the list of banks.
pub struct Bank {

}

/// What a listing of the banks answers.
#[derive(Default, Debug, Clone, PartialEq)]
pub struct GetBankListResponseData {
    pub banks: Vec<GetBankListBankResponseBank>,
}

/// One bank of the list.
#[derive(Default, Debug, Clone, PartialEq)]
pub struct GetBankListBankResponseBank {
    pub bank_code: String,
    pub bank_name: String,
}

impl Bank {
    /// Asks for the list of banks; the request carries no payload.
    pub fn get_bank_list(client: &Client) -> (r: Result<Envelope, Error>)
        ensures
            client.posted("/v1"@, "BANK_LIST"@, None, r),
    {
        client.post_body("/v1", "BANK_LIST", None)
    }
}

} // verus!
