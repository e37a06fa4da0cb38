use vstd::prelude::*;

verus! {

/// A customer-service message to one user.
#[derive(Debug, Clone)]
pub struct CustomerService {
    /// Token the call is authorized with; carried as a URL parameter.
    pub access_token: String,
    /// Account id of the receiver.
    pub touser: String,
    /// Kind of the message.
    pub msg_type: MsgType,
    /// Text payload, for text messages.
    pub text: Option<Text>,
    /// Image payload, for image messages.
    pub image: Option<Image>,
    /// Link payload, for link messages.
    pub link: Option<Link>,
    /// Card payload, for mini-program card messages.
    pub miniprogrampage: Option<Miniprogrampage>,
}

impl CustomerService {
    /// The exact URL the message is sent to.
    pub fn send_url(&self) -> (r: String)
        ensures
            r@ == ("https://api.weixin.qq.com/cgi-bin/message/custom/send?access_token=")@
                + self.access_token@,
    {
        let mut out = String::from_str(
            "https://api.weixin.qq.com/cgi-bin/message/custom/send?access_token=",
        );
        out.append(self.access_token.as_str());
        proof {
            assert(out@ =~= ("https://api.weixin.qq.com/cgi-bin/message/custom/send?access_token=")@
                + self.access_token@);
        }
        out
    }

    /// The exact URL a thumbnail upload goes to.
    pub fn thumb_media_url(&self) -> (r: String)
        ensures
            r@ == ("https://api.weixin.qq.com/cgi-bin/material/add_material?access_token=")@
                + self.access_token@ + ("&type=thumb")@,
    {
        let mut out = String::from_str(
            "https://api.weixin.qq.com/cgi-bin/material/add_material?access_token=",
        );
        out.append(self.access_token.as_str());
        out.append("&type=thumb");
        proof {
            assert(out@ =~= (
            "https://api.weixin.qq.com/cgi-bin/material/add_material?access_token=")@
                + self.access_token@ + ("&type=thumb")@);
        }
        out
    }
}

/// The customer-service endpoint's answer.
#[derive(Debug, Clone)]
pub struct Response {
    pub errcode: i64,
    pub errmsg: String,
}

/// A mini-program card message.
#[derive(Debug, Clone)]
pub struct Miniprogrampage {
    pub title: Option<String>,
    pub pagepath: Option<String>,
    pub thumb_media_id: Option<String>,
}

/// A link message.
#[derive(Debug, Clone)]
pub struct Link {
    pub title: Option<String>,
    pub description: Option<String>,
    pub url: Option<String>,
    pub thumb_url: Option<String>,
}

/// An image message.
#[derive(Debug, Clone)]
pub struct Image {
    pub media_id: String,
}

/// A text message.
#[derive(Debug, Clone)]
pub struct Text {
    pub content: String,
}

/// Kind of a customer-service message.
#[derive(Debug, Clone, PartialEq, Eq, Structural)]
pub enum MsgType {
    Text,
    Link,
    Miniprogrampage,
}

impl MsgType {
    pub open spec fn spec_str(&self) -> Seq<char> {
        match self {
            MsgType::Text => "text"@,
            MsgType::Link => "link"@,
            MsgType::Miniprogrampage => "miniprogrampage"@,
        }
    }

    /// The kind as its wire tag.
    pub fn as_str(&self) -> (r: &'static str)
        ensures
            r@ == self.spec_str(),
    {
        match self {
            MsgType::Text => "text",
            MsgType::Link => "link",
            MsgType::Miniprogrampage => "miniprogrampage",
        }
    }
}

} // verus!
