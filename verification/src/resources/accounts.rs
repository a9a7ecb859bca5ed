pub use self::admin_account::{
    AccountEnquiryRequest, AdminAccount, AdminAccountBalanceRequest,
    AdminAccountCheckTransferRequest, AdminAccountFilteredTransactionHistoryRequest,
    AdminAccountFundTransferRequest, AdminAccountTransactionHistoryRequest,
};
pub use self::virtual_account::{
    VirtualAccount, VirtualAccountCreateRequest, VirtualAccountCreateResponseData,
    VirtualAccountFilteredTransactionHistoryRequest, VirtualAccountFundTransferRequest,
    VirtualAccountFundWithdrawRequest, VirtualAccountGetRequest,
    VirtualAccountGetResponseAccount, VirtualAccountGetResponseData,
    VirtualAccountTransactionHistoryRequest,
};

pub mod admin_account;
pub mod virtual_account;
