pub use crate::client::{Client, Envelope};
pub use crate::envelope::KudaResponse;
pub use crate::error::{
    CipherError, ConfigurationError, DecodeFailure, EncryptError, Error, HttpError, RequestError,
};
pub use crate::params::Headers;
pub use crate::resources::{
    AccountEnquiryRequest, AdminAccount, AdminAccountBalanceRequest,
    AdminAccountCheckTransferRequest, AdminAccountFilteredTransactionHistoryRequest,
    AdminAccountFundTransferRequest, AdminAccountTransactionHistoryRequest, Bank,
    GetBankListBankResponseBank, GetBankListResponseData, VirtualAccount,
    VirtualAccountCreateRequest, VirtualAccountCreateResponseData,
    VirtualAccountFilteredTransactionHistoryRequest, VirtualAccountFundTransferRequest,
    VirtualAccountFundWithdrawRequest, VirtualAccountGetRequest,
    VirtualAccountGetResponseAccount, VirtualAccountGetResponseData,
    VirtualAccountTransactionHistoryRequest,
};

pub mod client;
pub mod encoding;
pub mod encryption;
pub mod envelope;
pub mod error;
pub mod json;
pub mod params;
pub mod resources;
pub mod text;
