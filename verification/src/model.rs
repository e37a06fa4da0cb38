use vstd::prelude::*;
use crate::canonical::{build_client_sign_string, client_sign_chars};

verus! {

/// Order amount, in minor units of the currency.
#[derive(Debug, Clone)]
pub struct Amount {
    /// Total of the order, in minor units.
    pub total: u64,
    /// Three-letter currency code; domestic merchants use CNY only.
    pub currency: String,
}

impl Amount {
    /// An amount in CNY, the only currency domestic merchants can use.
    pub fn cny(total: u64) -> (r: Self)
        ensures
            r.total == total,
            r.currency@ == "CNY"@,
    {
        Amount { total, currency: String::from_str("CNY") }
    }
}

/// The payer of an order, identified by the account id under the merchant's
/// application.
#[derive(Debug, Clone)]
pub struct Payer {
    /// Account identifier of the payer.
    pub openid: String,
}

impl Payer {
    pub fn new(openid: String) -> (r: Self)
        ensures
            r.openid@ == openid@,
    {
        Payer { openid }
    }
}

/// A merchant store.
#[derive(Debug, Clone)]
pub struct StoreInfo {
    /// Store number on the merchant side.
    pub id: String,
    /// Store name.
    pub name: Option<String>,
    /// Region code.
    pub area_code: Option<String>,
    /// Street address of the store.
    pub address: String,
}

/// The client-facing pay invocation payload of the JSAPI product.
#[derive(Debug, Clone)]
pub struct JsapiResult {
    pub app_id: String,
    pub time_stamp: String,
    pub nonce_str: String,
    pub package: String,
    pub sign_type: String,
    pub pay_sign: String,
    pub prepay_id: String,
}

impl JsapiResult {
    /// The four-line canonical string that the client-facing signature
    /// covers: app id, timestamp, nonce, package.
    pub fn get_sign_str(&self) -> (r: String)
        ensures
            r@ == client_sign_chars(self.app_id@, self.time_stamp@, self.nonce_str@, self.package@),
    {
        build_client_sign_string(
            self.app_id.as_str(),
            self.time_stamp.as_str(),
            self.nonce_str.as_str(),
            self.package.as_str(),
        )
    }
}

/// The client-facing pay invocation payload of the App product.
#[derive(Debug, Clone)]
pub struct AppResult {
    pub appid: String,
    pub partner_id: String,
    pub prepay_id: String,
    pub time_stamp: String,
    pub nonce_str: String,
    pub package_value: String,
    pub sign: String,
}

impl AppResult {
    /// The four-line canonical string that the client-facing signature
    /// covers: app id, timestamp, nonce, raw prepay id.
    pub fn get_sign_str(&self) -> (r: String)
        ensures
            r@ == client_sign_chars(
                self.appid@,
                self.time_stamp@,
                self.nonce_str@,
                self.prepay_id@,
            ),
    {
        build_client_sign_string(
            self.appid.as_str(),
            self.time_stamp.as_str(),
            self.nonce_str.as_str(),
            self.prepay_id.as_str(),
        )
    }
}

/// A wrapper for response payloads.
#[derive(Debug, Clone)]
pub struct RPayResponse<T> {
    pub data: T,
}

/// The payment product a request belongs to.
#[derive(Debug, Clone, Copy, PartialEq, Eq, Structural)]
pub enum PayType {
    /// In-person payment against a payment code shown by the payer.
    Micro,
    /// Payment invoked from a page inside the host application.
    Jsapi,
    /// Payment against a merchant-generated QR code.
    Native,
    /// Payment invoked from a native mobile application.
    App,
    /// Payment invoked from a mobile browser.
    H5,
}

impl PayType {
    pub open spec fn spec_str(&self) -> Seq<char> {
        match self {
            PayType::Micro => "MICRO"@,
            PayType::Jsapi => "JSAPI"@,
            PayType::Native => "NATIVE"@,
            PayType::App => "APP"@,
            PayType::H5 => "H5"@,
        }
    }

    /// The product tag as text.
    pub fn as_str(&self) -> (r: &'static str)
        ensures
            r@ == self.spec_str(),
    {
        match self {
            PayType::Micro => "MICRO",
            PayType::Jsapi => "JSAPI",
            PayType::Native => "NATIVE",
            PayType::App => "APP",
            PayType::H5 => "H5",
        }
    }
}

/// Details of the goods an order covers.
#[derive(Debug, Clone)]
pub struct Detail {
    /// Original price of the order, in minor units.
    pub cost_price: u64,
    /// Receipt id on the merchant side.
    pub invoice_id: Option<String>,
    /// The individual goods of the order.
    pub goods_detail: Vec<GoodsDetailItem>,
}

/// One item of goods inside an order's detail block.
#[derive(Debug, Clone)]
pub struct GoodsDetailItem {
    /// Goods code on the merchant side.
    pub merchant_goods_id: Option<String>,
    /// Goods code on the gateway side.
    pub wechatpay_goods_id: Option<String>,
    /// Name of the goods.
    pub goods_name: String,
    /// Quantity bought.
    pub quantity: u64,
    /// Unit price in minor units.
    pub unit_price: u64,
}

/// Settlement options of an order.
#[derive(Debug, Clone)]
pub struct SettleInfo {
    pub profit_sharing: bool,
}

/// Scene description of a payment.
#[derive(Debug, Clone)]
pub struct SceneInfo {
    /// Client IP of the payer's terminal.
    pub payer_client_ip: String,
    /// Device number of the merchant terminal.
    pub device_id: String,
    /// The store the payment happens at.
    pub store_info: StoreInfo,
}

/// The decrypted payload of a trade notification. Produced only by a fully
/// successful decryption; never partially populated.
#[derive(Debug, Clone)]
pub struct WechatPayDecodeData {
    pub mchid: String,
    pub appid: String,
    pub out_trade_no: String,
    pub transaction_id: String,
    pub trade_type: String,
    pub trade_state: String,
    pub trade_state_desc: String,
    pub bank_type: String,
    pub attach: String,
    pub success_time: String,
    pub payer: PayerInfo,
    pub amount: AmountInfo,
}

/// The payer identity inside a decrypted notification.
#[derive(Debug, Clone)]
pub struct PayerInfo {
    /// Account identifier of the payer.
    pub openid: String,
}

impl PayerInfo {
    pub fn new(openid: String) -> (r: Self)
        ensures
            r.openid@ == openid@,
    {
        PayerInfo { openid }
    }
}

/// The amount block inside a decrypted notification.
#[derive(Debug, Clone)]
pub struct AmountInfo {
    /// Total of the order, in minor units.
    pub total: i32,
}

impl AmountInfo {
    pub fn new(total: i32) -> (r: Self)
        ensures
            r.total == total,
    {
        AmountInfo { total }
    }
}

/// The encrypted notification envelope exactly as the gateway's callback
/// delivers it.
#[derive(Debug, Clone)]
pub struct ParseEncrypt {
    /// Base64 of the ciphertext, authentication tag included.
    pub ciphertext: String,
    /// The AEAD nonce; must be exactly 12 bytes.
    pub nonce: String,
    /// Additional authenticated data.
    pub associated_data: String,
    /// Algorithm tag of the envelope.
    pub algorithm: String,
    /// What kind of object the plaintext describes.
    pub original_type: String,
}

/// The signed data handed to a payer's device to invoke payment.
#[derive(Debug, Clone)]
pub struct SignData {
    pub app_id: String,
    pub sign_type: String,
    pub package: String,
    pub nonce_str: String,
    pub timestamp: String,
    pub pay_sign: String,
}

/// Merchant context of the payment gateway, with the fields every signing
/// operation needs.
#[derive(Debug, Clone)]
pub struct WechatPay {
    pub app_id: String,
    pub mch_id: String,
    pub private_key: String,
    pub serial_no: String,
    pub v3_key: String,
    pub notify_url: String,
    pub domain: String,
}

} // verus!
