pub use self::accounts::{
    AccountEnquiryRequest, AdminAccount, AdminAccountBalanceRequest,
    AdminAccountCheckTransferRequest, AdminAccountFilteredTransactionHistoryRequest,
    AdminAccountFundTransferRequest, AdminAccountTransactionHistoryRequest, VirtualAccount,
    VirtualAccountCreateRequest, VirtualAccountCreateResponseData,
    VirtualAccountFilteredTransactionHistoryRequest, VirtualAccountFundTransferRequest,
    VirtualAccountFundWithdrawRequest, VirtualAccountGetRequest,
    VirtualAccountGetResponseAccount, VirtualAccountGetResponseData,
    VirtualAccountTransactionHistoryRequest,
};
pub use self::banks::{Bank, GetBankListBankResponseBank, GetBankListResponseData};

pub mod accounts;
pub mod banks;
