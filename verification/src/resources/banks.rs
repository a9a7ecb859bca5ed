pub use self::bank::{Bank, GetBankListBankResponseBank, GetBankListResponseData};

pub mod bank;
