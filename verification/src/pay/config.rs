use vstd::prelude::*;

verus! {

/// Merchant-side configuration of the payment gateway client.
///
/// Built once by the caller and passed by reference into every signing and
/// decryption operation; the library never reads it from the environment.
#[derive(Debug, Clone)]
pub struct WechatV3PayConfig {
    /// Application identifier.
    pub app_id: String,
    /// Application secret.
    pub secret: String,
    /// Merchant identifier.
    pub mch_id: String,
    /// Symmetric API key used to decrypt notifications; must be 32 bytes.
    pub api_key_v3: Option<String>,
    /// Legacy API key.
    pub api_key: Option<String>,
    /// Callback URL for payment notifications.
    pub notify_url: Option<String>,
    /// Callback URL for refund notifications.
    pub refund_notify_url: Option<String>,
    /// Serial number of the merchant certificate.
    pub serial_no: Option<String>,
    /// Private key in PKCS#8 PEM form.
    pub private_key: Option<String>,
    /// Path of a PKCS#12 certificate file, where one is used.
    pub pkcs12_path: Option<String>,
}

impl WechatV3PayConfig {
    /// Builds a configuration from the required merchant credentials; the
    /// remaining fields start empty and may be set directly.
    pub fn new(app_id: String, secret: String, mch_id: String) -> (r: Self)
        ensures
            r.app_id@ == app_id@,
            r.secret@ == secret@,
            r.mch_id@ == mch_id@,
            r.api_key_v3 is None,
            r.api_key is None,
            r.notify_url is None,
            r.refund_notify_url is None,
            r.serial_no is None,
            r.private_key is None,
            r.pkcs12_path is None,
    {
        WechatV3PayConfig {
            app_id,
            secret,
            mch_id,
            api_key_v3: None,
            api_key: None,
            notify_url: None,
            refund_notify_url: None,
            serial_no: None,
            private_key: None,
            pkcs12_path: None,
        }
    }

    /// The private key text, or empty when none is configured.
    pub open spec fn spec_private_key(&self) -> Seq<char> {
        match self.private_key {
            Some(k) => k@,
            None => Seq::empty(),
        }
    }

    /// The certificate serial number, or empty when none is configured.
    pub open spec fn spec_serial_no(&self) -> Seq<char> {
        match self.serial_no {
            Some(s) => s@,
            None => Seq::empty(),
        }
    }

    /// The notification key, or empty when none is configured.
    pub open spec fn spec_api_key_v3(&self) -> Seq<char> {
        match self.api_key_v3 {
            Some(s) => s@,
            None => Seq::empty(),
        }
    }

    /// The notification callback URL, or empty when none is configured.
    pub open spec fn spec_notify_url(&self) -> Seq<char> {
        match self.notify_url {
            Some(s) => s@,
            None => Seq::empty(),
        }
    }

    /// The private key as a borrowed string, or empty when none is configured.
    pub fn private_key_or_empty(&self) -> (r: &str)
        ensures
            r@ == self.spec_private_key(),
    {
        proof {
            reveal_strlit("");
        }
        match &self.private_key {
            Some(k) => k.as_str(),
            None => "",
        }
    }

    /// The serial number as a borrowed string, or empty when none is
    /// configured.
    pub fn serial_no_or_empty(&self) -> (r: &str)
        ensures
            r@ == self.spec_serial_no(),
    {
        proof {
            reveal_strlit("");
        }
        match &self.serial_no {
            Some(s) => s.as_str(),
            None => "",
        }
    }
}

} // verus!
