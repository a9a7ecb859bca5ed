use kuda::{
    AccountEnquiryRequest, AdminAccount, AdminAccountBalanceRequest,
    AdminAccountCheckTransferRequest, AdminAccountFilteredTransactionHistoryRequest,
    AdminAccountFundTransferRequest, AdminAccountTransactionHistoryRequest, Bank, Client,
    Envelope, GetBankListResponseData, VirtualAccount, VirtualAccountCreateRequest,
    VirtualAccountCreateResponseData, VirtualAccountFilteredTransactionHistoryRequest,
    VirtualAccountFundTransferRequest, VirtualAccountFundWithdrawRequest,
    VirtualAccountGetRequest, VirtualAccountGetResponseData,
    VirtualAccountTransactionHistoryRequest,
};
use openssl::rsa::Rsa;

fn client() -> Client {
    let rsa = Rsa::generate(2048).unwrap();
    let public = String::from_utf8(rsa.public_key_to_pem().unwrap()).unwrap();
    let private = String::from_utf8(rsa.private_key_to_pem().unwrap()).unwrap();
    Client::new("https://host".to_string(), private, public, "CHANGE_ME".to_string())
}

fn sent(client: &Client, envelope: Envelope) -> serde_json::Value {
    assert_eq!(envelope.url, "https://host/v1");
    let body: serde_json::Value = serde_json::from_str(&envelope.body).unwrap();
    let data = body.get("data").unwrap().as_str().unwrap();
    let reply = format!("{{\"data\":\"{}\",\"password\":\"{}\"}}", data, envelope.password);
    let opened = client.decode(200, reply.as_bytes()).unwrap();
    serde_json::from_str(&opened).unwrap()
}

fn check(request: serde_json::Value, service_type: &str, payload: &str) {
    assert_eq!(request["serviceType"], service_type);
    assert!(request["requestRef"].as_str().unwrap().starts_with("SP-"));
    let expected: serde_json::Value = serde_json::from_str(payload).unwrap();
    assert_eq!(request["data"], expected);
    assert_eq!(request.as_object().unwrap().len(), 3);
}

fn some_admin_account_balance_request() -> AdminAccountBalanceRequest {
    let mut params = AdminAccountBalanceRequest::new();
    params.tracking_reference = "tracking reference 0\"q\"".to_string();
    params
}

const ADMIN_ACCOUNT_BALANCE_REQUEST: &str =
    "{\"trackingReference\":\"tracking reference 0\\\"q\\\"\"}";

fn some_account_enquiry_request() -> AccountEnquiryRequest {
    let mut params = AccountEnquiryRequest::new();
    params.beneficiary_account_number = "beneficiary account number 0\"q\"".to_string();
    params.beneficiary_bank_code = "beneficiary bank code 1\"q\"".to_string();
    params
}

const ACCOUNT_ENQUIRY_REQUEST: &str =
    "{\"beneficiaryAccountNumber\":\"beneficiary account number 0\\\"q\\\"\",\"beneficiaryBankCode\":\"beneficiary bank code 1\\\"q\\\"\"}";

fn some_admin_account_fund_transfer_request() -> AdminAccountFundTransferRequest {
    let mut params = AdminAccountFundTransferRequest::new();
    params.beneficiary_account = "beneficiary account 0\"q\"".to_string();
    params.beneficiary_bank_code = "beneficiary bank code 1\"q\"".to_string();
    params.beneficiary_name = "beneficiary name 2\"q\"".to_string();
    params.amount = "amount 3\"q\"".to_string();
    params.narration = "narration 4\"q\"".to_string();
    params.name_enquiry_session_id = "name enquiry session id 5\"q\"".to_string();
    params.tracking_reference = "tracking reference 6\"q\"".to_string();
    params.sender_name = "sender name 7\"q\"".to_string();
    params
}

const ADMIN_ACCOUNT_FUND_TRANSFER_REQUEST: &str =
    "{\"beneficiaryAccount\":\"beneficiary account 0\\\"q\\\"\",\"beneficiarybankCode\":\"beneficiary bank code 1\\\"q\\\"\",\"beneficiaryName\":\"beneficiary name 2\\\"q\\\"\",\"amount\":\"amount 3\\\"q\\\"\",\"narration\":\"narration 4\\\"q\\\"\",\"nameEnquirySessionID\":\"name enquiry session id 5\\\"q\\\"\",\"trackingReference\":\"tracking reference 6\\\"q\\\"\",\"senderName\":\"sender name 7\\\"q\\\"\"}";

fn some_admin_account_transaction_history_request() -> AdminAccountTransactionHistoryRequest {
    let mut params = AdminAccountTransactionHistoryRequest::new();
    params.tracking_reference = "tracking reference 0\"q\"".to_string();
    params.page_size = -7;
    params.page_number = 0;
    params
}

const ADMIN_ACCOUNT_TRANSACTION_HISTORY_REQUEST: &str =
    "{\"trackingReference\":\"tracking reference 0\\\"q\\\"\",\"pageSize\":-7,\"pageNumber\":0}";

fn some_admin_account_filtered_transaction_history_request() -> AdminAccountFilteredTransactionHistoryRequest {
    let mut params = AdminAccountFilteredTransactionHistoryRequest::new();
    params.tracking_reference = "tracking reference 0\"q\"".to_string();
    params.start_date = "start date 1\"q\"".to_string();
    params.end_date = "end date 2\"q\"".to_string();
    params.page_size = 9223372036854775807;
    params.page_number = 100;
    params
}

const ADMIN_ACCOUNT_FILTERED_TRANSACTION_HISTORY_REQUEST: &str =
    "{\"trackingReference\":\"tracking reference 0\\\"q\\\"\",\"startDate\":\"start date 1\\\"q\\\"\",\"endDate\":\"end date 2\\\"q\\\"\",\"pageSize\":9223372036854775807,\"pageNumber\":100}";

fn some_admin_account_check_transfer_request() -> AdminAccountCheckTransferRequest {
    let mut params = AdminAccountCheckTransferRequest::new();
    params.is_third_party_bank_transfer = true;
    params.transaction_request_reference = "transaction request reference 1\"q\"".to_string();
    params
}

const ADMIN_ACCOUNT_CHECK_TRANSFER_REQUEST: &str =
    "{\"isThirdPartyBankTransfer\":true,\"transactionRequestReference\":\"transaction request reference 1\\\"q\\\"\"}";

fn some_virtual_account_create_request() -> VirtualAccountCreateRequest {
    let mut params = VirtualAccountCreateRequest::new();
    params.email = "email 0\"q\"".to_string();
    params.phone_number = "phone number 1\"q\"".to_string();
    params.last_name = "last name 2\"q\"".to_string();
    params.first_name = "first name 3\"q\"".to_string();
    params.tracking_reference = "tracking reference 4\"q\"".to_string();
    params
}

const VIRTUAL_ACCOUNT_CREATE_REQUEST: &str =
    "{\"email\":\"email 0\\\"q\\\"\",\"phoneNumber\":\"phone number 1\\\"q\\\"\",\"lastName\":\"last name 2\\\"q\\\"\",\"firstName\":\"first name 3\\\"q\\\"\",\"trackingReference\":\"tracking reference 4\\\"q\\\"\"}";

fn some_virtual_account_get_request() -> VirtualAccountGetRequest {
    let mut params = VirtualAccountGetRequest::new();
    params.tracking_reference = "tracking reference 0\"q\"".to_string();
    params
}

const VIRTUAL_ACCOUNT_GET_REQUEST: &str =
    "{\"trackingReference\":\"tracking reference 0\\\"q\\\"\"}";

fn some_virtual_account_fund_withdraw_request() -> VirtualAccountFundWithdrawRequest {
    let mut params = VirtualAccountFundWithdrawRequest::new();
    params.tracking_reference = "tracking reference 0\"q\"".to_string();
    params.amount = "amount 1\"q\"".to_string();
    params.narration = "narration 2\"q\"".to_string();
    params
}

const VIRTUAL_ACCOUNT_FUND_WITHDRAW_REQUEST: &str =
    "{\"TrackingReference\":\"tracking reference 0\\\"q\\\"\",\"amount\":\"amount 1\\\"q\\\"\",\"narration\":\"narration 2\\\"q\\\"\"}";

fn some_virtual_account_fund_transfer_request() -> VirtualAccountFundTransferRequest {
    let mut params = VirtualAccountFundTransferRequest::new();
    params.tracking_reference = "tracking reference 0\"q\"".to_string();
    params.beneficiary_account = "beneficiary account 1\"q\"".to_string();
    params.amount = "amount 2\"q\"".to_string();
    params.narration = "narration 3\"q\"".to_string();
    params.beneficiary_bank_code = "beneficiary bank code 4\"q\"".to_string();
    params.beneficiary_name = "beneficiary name 5\"q\"".to_string();
    params.sender_name = "sender name 6\"q\"".to_string();
    params.name_enquiry_id = "name enquiry id 7\"q\"".to_string();
    params
}

const VIRTUAL_ACCOUNT_FUND_TRANSFER_REQUEST: &str =
    "{\"trackingReference\":\"tracking reference 0\\\"q\\\"\",\"beneficiaryAccount\":\"beneficiary account 1\\\"q\\\"\",\"amount\":\"amount 2\\\"q\\\"\",\"narration\":\"narration 3\\\"q\\\"\",\"beneficiarybankCode\":\"beneficiary bank code 4\\\"q\\\"\",\"beneficiaryName\":\"beneficiary name 5\\\"q\\\"\",\"senderName\":\"sender name 6\\\"q\\\"\",\"nameEnquiryId\":\"name enquiry id 7\\\"q\\\"\"}";

fn some_virtual_account_transaction_history_request() -> VirtualAccountTransactionHistoryRequest {
    let mut params = VirtualAccountTransactionHistoryRequest::new();
    params.tracking_reference = "tracking reference 0\"q\"".to_string();
    params.page_size = -7;
    params.page_number = 0;
    params
}

const VIRTUAL_ACCOUNT_TRANSACTION_HISTORY_REQUEST: &str =
    "{\"trackingReference\":\"tracking reference 0\\\"q\\\"\",\"pageSize\":-7,\"pageNumber\":0}";

fn some_virtual_account_filtered_transaction_history_request() -> VirtualAccountFilteredTransactionHistoryRequest {
    let mut params = VirtualAccountFilteredTransactionHistoryRequest::new();
    params.tracking_reference = "tracking reference 0\"q\"".to_string();
    params.start_date = "start date 1\"q\"".to_string();
    params.end_date = "end date 2\"q\"".to_string();
    params.page_size = 9223372036854775807;
    params.page_number = 100;
    params
}

const VIRTUAL_ACCOUNT_FILTERED_TRANSACTION_HISTORY_REQUEST: &str =
    "{\"trackingReference\":\"tracking reference 0\\\"q\\\"\",\"startDate\":\"start date 1\\\"q\\\"\",\"endDate\":\"end date 2\\\"q\\\"\",\"pageSize\":9223372036854775807,\"pageNumber\":100}";

#[test]
fn new_admin_account_balance_request() {
    let params = AdminAccountBalanceRequest::new();
    assert_eq!(params.tracking_reference, "");
}

#[test]
fn json_of_admin_account_balance_request() {
    assert_eq!(some_admin_account_balance_request().to_json().unwrap(), ADMIN_ACCOUNT_BALANCE_REQUEST);
}

#[test]
fn new_account_enquiry_request() {
    let params = AccountEnquiryRequest::new();
    assert_eq!(params.beneficiary_account_number, "");
    assert_eq!(params.beneficiary_bank_code, "");
}

#[test]
fn json_of_account_enquiry_request() {
    assert_eq!(some_account_enquiry_request().to_json().unwrap(), ACCOUNT_ENQUIRY_REQUEST);
}

#[test]
fn new_admin_account_fund_transfer_request() {
    let params = AdminAccountFundTransferRequest::new();
    assert_eq!(params.beneficiary_account, "");
    assert_eq!(params.beneficiary_bank_code, "");
    assert_eq!(params.beneficiary_name, "");
    assert_eq!(params.amount, "");
    assert_eq!(params.narration, "");
    assert_eq!(params.name_enquiry_session_id, "");
    assert_eq!(params.tracking_reference, "");
    assert_eq!(params.sender_name, "");
}

#[test]
fn json_of_admin_account_fund_transfer_request() {
    assert_eq!(some_admin_account_fund_transfer_request().to_json().unwrap(), ADMIN_ACCOUNT_FUND_TRANSFER_REQUEST);
}

#[test]
fn new_admin_account_transaction_history_request() {
    let params = AdminAccountTransactionHistoryRequest::new();
    assert_eq!(params.tracking_reference, "");
    assert_eq!(params.page_size, 0);
    assert_eq!(params.page_number, 0);
}

#[test]
fn json_of_admin_account_transaction_history_request() {
    assert_eq!(some_admin_account_transaction_history_request().to_json().unwrap(), ADMIN_ACCOUNT_TRANSACTION_HISTORY_REQUEST);
}

#[test]
fn new_admin_account_filtered_transaction_history_request() {
    let params = AdminAccountFilteredTransactionHistoryRequest::new();
    assert_eq!(params.tracking_reference, "");
    assert_eq!(params.start_date, "");
    assert_eq!(params.end_date, "");
    assert_eq!(params.page_size, 0);
    assert_eq!(params.page_number, 0);
}

#[test]
fn json_of_admin_account_filtered_transaction_history_request() {
    assert_eq!(some_admin_account_filtered_transaction_history_request().to_json().unwrap(), ADMIN_ACCOUNT_FILTERED_TRANSACTION_HISTORY_REQUEST);
}

#[test]
fn new_admin_account_check_transfer_request() {
    let params = AdminAccountCheckTransferRequest::new();
    assert!(!params.is_third_party_bank_transfer);
    assert_eq!(params.transaction_request_reference, "");
}

#[test]
fn json_of_admin_account_check_transfer_request() {
    assert_eq!(some_admin_account_check_transfer_request().to_json().unwrap(), ADMIN_ACCOUNT_CHECK_TRANSFER_REQUEST);
}

#[test]
fn new_virtual_account_create_request() {
    let params = VirtualAccountCreateRequest::new();
    assert_eq!(params.email, "");
    assert_eq!(params.phone_number, "");
    assert_eq!(params.last_name, "");
    assert_eq!(params.first_name, "");
    assert_eq!(params.tracking_reference, "");
}

#[test]
fn json_of_virtual_account_create_request() {
    assert_eq!(some_virtual_account_create_request().to_json().unwrap(), VIRTUAL_ACCOUNT_CREATE_REQUEST);
}

#[test]
fn new_virtual_account_get_request() {
    let params = VirtualAccountGetRequest::new();
    assert_eq!(params.tracking_reference, "");
}

#[test]
fn json_of_virtual_account_get_request() {
    assert_eq!(some_virtual_account_get_request().to_json().unwrap(), VIRTUAL_ACCOUNT_GET_REQUEST);
}

#[test]
fn new_virtual_account_fund_withdraw_request() {
    let params = VirtualAccountFundWithdrawRequest::new();
    assert_eq!(params.tracking_reference, "");
    assert_eq!(params.amount, "");
    assert_eq!(params.narration, "");
}

#[test]
fn json_of_virtual_account_fund_withdraw_request() {
    assert_eq!(some_virtual_account_fund_withdraw_request().to_json().unwrap(), VIRTUAL_ACCOUNT_FUND_WITHDRAW_REQUEST);
}

#[test]
fn new_virtual_account_fund_transfer_request() {
    let params = VirtualAccountFundTransferRequest::new();
    assert_eq!(params.tracking_reference, "");
    assert_eq!(params.beneficiary_account, "");
    assert_eq!(params.amount, "");
    assert_eq!(params.narration, "");
    assert_eq!(params.beneficiary_bank_code, "");
    assert_eq!(params.beneficiary_name, "");
    assert_eq!(params.sender_name, "");
    assert_eq!(params.name_enquiry_id, "");
}

#[test]
fn json_of_virtual_account_fund_transfer_request() {
    assert_eq!(some_virtual_account_fund_transfer_request().to_json().unwrap(), VIRTUAL_ACCOUNT_FUND_TRANSFER_REQUEST);
}

#[test]
fn new_virtual_account_transaction_history_request() {
    let params = VirtualAccountTransactionHistoryRequest::new();
    assert_eq!(params.tracking_reference, "");
    assert_eq!(params.page_size, 0);
    assert_eq!(params.page_number, 0);
}

#[test]
fn json_of_virtual_account_transaction_history_request() {
    assert_eq!(some_virtual_account_transaction_history_request().to_json().unwrap(), VIRTUAL_ACCOUNT_TRANSACTION_HISTORY_REQUEST);
}

#[test]
fn new_virtual_account_filtered_transaction_history_request() {
    let params = VirtualAccountFilteredTransactionHistoryRequest::new();
    assert_eq!(params.tracking_reference, "");
    assert_eq!(params.start_date, "");
    assert_eq!(params.end_date, "");
    assert_eq!(params.page_size, 0);
    assert_eq!(params.page_number, 0);
}

#[test]
fn json_of_virtual_account_filtered_transaction_history_request() {
    assert_eq!(some_virtual_account_filtered_transaction_history_request().to_json().unwrap(), VIRTUAL_ACCOUNT_FILTERED_TRANSACTION_HISTORY_REQUEST);
}

#[test]
fn json_of_parameters_that_were_not_set() {
    assert_eq!(
        AdminAccountCheckTransferRequest::new().to_json().unwrap(),
        "{\"isThirdPartyBankTransfer\":false,\"transactionRequestReference\":\"\"}"
    );
    assert_eq!(
        VirtualAccountTransactionHistoryRequest::new().to_json().unwrap(),
        "{\"trackingReference\":\"\",\"pageSize\":0,\"pageNumber\":0}"
    );
}

#[test]
fn json_of_the_smallest_number() {
    let mut params = AdminAccountTransactionHistoryRequest::new();
    params.page_size = i64::MIN;
    params.page_number = -1;
    assert_eq!(
        params.to_json().unwrap(),
        "{\"trackingReference\":\"\",\"pageSize\":-9223372036854775808,\"pageNumber\":-1}"
    );
}

#[test]
fn posts_get_admin_account_balance() {
    let client = client();
    let envelope = AdminAccount::get_admin_account_balance(&client, some_admin_account_balance_request()).unwrap();
    check(sent(&client, envelope), "ADMIN_RETRIEVE_MAIN_ACCOUNT_BALANCE", ADMIN_ACCOUNT_BALANCE_REQUEST);
}

#[test]
fn posts_get_admin_account_transaction_history() {
    let client = client();
    let envelope = AdminAccount::get_admin_account_transaction_history(&client, some_admin_account_transaction_history_request()).unwrap();
    check(sent(&client, envelope), "ADMIN_MAIN_ACCOUNT_TRANSACTIONS", ADMIN_ACCOUNT_TRANSACTION_HISTORY_REQUEST);
}

#[test]
fn posts_get_admin_account_filtered_transaction_history() {
    let client = client();
    let envelope = AdminAccount::get_admin_account_filtered_transaction_history(&client, some_admin_account_filtered_transaction_history_request()).unwrap();
    check(sent(&client, envelope), "ADMIN_MAIN_ACCOUNT_FILTERED_TRANSACTIONS", ADMIN_ACCOUNT_FILTERED_TRANSACTION_HISTORY_REQUEST);
}

#[test]
fn posts_enquire_bank_account() {
    let client = client();
    let envelope = AdminAccount::enquire_bank_account(&client, some_account_enquiry_request()).unwrap();
    check(sent(&client, envelope), "NAME_ENQUIRY", ACCOUNT_ENQUIRY_REQUEST);
}

#[test]
fn posts_fund_transfer() {
    let client = client();
    let envelope = AdminAccount::fund_transfer(&client, some_admin_account_fund_transfer_request()).unwrap();
    check(sent(&client, envelope), "SINGLE_FUND_TRANSFER", ADMIN_ACCOUNT_FUND_TRANSFER_REQUEST);
}

#[test]
fn posts_check_transfer_status() {
    let client = client();
    let envelope = AdminAccount::check_transfer_status(&client, some_admin_account_check_transfer_request()).unwrap();
    check(sent(&client, envelope), "TRANSACTION_STATUS_QUERY", ADMIN_ACCOUNT_CHECK_TRANSFER_REQUEST);
}

#[test]
fn posts_create_virtual_account() {
    let client = client();
    let envelope = VirtualAccount::create_virtual_account(&client, some_virtual_account_create_request()).unwrap();
    check(sent(&client, envelope), "ADMIN_CREATE_VIRTUAL_ACCOUNT", VIRTUAL_ACCOUNT_CREATE_REQUEST);
}

#[test]
fn posts_get_virtual_account() {
    let client = client();
    let envelope = VirtualAccount::get_virtual_account(&client, some_virtual_account_get_request()).unwrap();
    check(sent(&client, envelope), "ADMIN_RETRIEVE_SINGLE_VIRTUAL_ACCOUNT", VIRTUAL_ACCOUNT_GET_REQUEST);
}

#[test]
fn posts_get_virtual_account_balance() {
    let client = client();
    let envelope = VirtualAccount::get_virtual_account_balance(&client, some_virtual_account_get_request()).unwrap();
    check(sent(&client, envelope), "RETRIEVE_VIRTUAL_ACCOUNT_BALANCE", VIRTUAL_ACCOUNT_GET_REQUEST);
}

#[test]
fn posts_get_virtual_account_transaction_history() {
    let client = client();
    let envelope = VirtualAccount::get_virtual_account_transaction_history(&client, some_virtual_account_transaction_history_request()).unwrap();
    check(sent(&client, envelope), "ADMIN_VIRTUAL_ACCOUNT_TRANSACTIONS", VIRTUAL_ACCOUNT_TRANSACTION_HISTORY_REQUEST);
}

#[test]
fn posts_get_virtual_account_filtered_transaction_history() {
    let client = client();
    let envelope = VirtualAccount::get_virtual_account_filtered_transaction_history(&client, some_virtual_account_filtered_transaction_history_request()).unwrap();
    check(sent(&client, envelope), "ADMIN_VIRTUAL_ACCOUNT_FILTERED_TRANSACTIONS", VIRTUAL_ACCOUNT_FILTERED_TRANSACTION_HISTORY_REQUEST);
}

#[test]
fn posts_fund_virtual_account() {
    let client = client();
    let envelope = VirtualAccount::fund_virtual_account(&client, some_virtual_account_fund_withdraw_request()).unwrap();
    check(sent(&client, envelope), "FUND_VIRTUAL_ACCOUNT", VIRTUAL_ACCOUNT_FUND_WITHDRAW_REQUEST);
}

#[test]
fn posts_withdraw_virtual_account() {
    let client = client();
    let envelope = VirtualAccount::withdraw_virtual_account(&client, some_virtual_account_fund_withdraw_request()).unwrap();
    check(sent(&client, envelope), "WITHDRAW_VIRTUAL_ACCOUNT", VIRTUAL_ACCOUNT_FUND_WITHDRAW_REQUEST);
}

#[test]
fn posts_fund_transfer_virtual_account() {
    let client = client();
    let envelope = VirtualAccount::fund_transfer_virtual_account(&client, some_virtual_account_fund_transfer_request()).unwrap();
    check(sent(&client, envelope), "VIRTUAL_ACCOUNT_FUND_TRANSFER", VIRTUAL_ACCOUNT_FUND_TRANSFER_REQUEST);
}

#[test]
fn posts_get_bank_list() {
    let client = client();
    let envelope = Bank::get_bank_list(&client).unwrap();
    let request = sent(&client, envelope);
    assert_eq!(request["serviceType"], "BANK_LIST");
    assert!(request["requestRef"].as_str().unwrap().starts_with("SP-"));
    assert_eq!(request.get("data"), None);
    assert_eq!(request.as_object().unwrap().len(), 2);
}

#[test]
fn answers_start_empty() {
    assert_eq!(GetBankListResponseData::default().banks, Vec::new());
    assert_eq!(VirtualAccountCreateResponseData::default().account_number, "");
    assert_eq!(VirtualAccountGetResponseData::default().account.tracking_reference, "");
}
