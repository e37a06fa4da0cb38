use vstd::prelude::*;
use std::collections::HashMap;
use crate::common::Lang;

verus! {

/// A subscription message to one user.
#[derive(Debug, Clone)]
pub struct Message {
    /// Token the call is authorized with; carried as a URL parameter.
    pub access_token: String,
    /// Account id of the receiver.
    pub touser: String,
    /// Template of the message.
    pub template_id: String,
    /// Page opened when the card is tapped.
    pub page: Option<String>,
    pub mini_program: Option<MiniProgram>,
    /// The template's slots and their values.
    pub data: HashMap<String, DataItem>,
    /// Which build of the mini program the jump targets.
    pub miniprogram_state: String,
    pub lang: Lang,
}

/// Which build of the mini program a message jump targets.
#[derive(Debug, Clone)]
pub enum MiniProgramState {
    Developer,
    Trial,
    Formal,
}

impl Default for MiniProgramState {
    fn default() -> (r: Self)
        ensures
            r is Developer,
    {
        MiniProgramState::Developer
    }
}

/// The mini program a message jump targets.
#[derive(Debug, Clone)]
pub struct MiniProgram {
    pub app_id: String,
    pub page_path: String,
}

/// One value of a template slot.
#[derive(Debug, Clone)]
pub struct DataItem {
    pub value: String,
}

impl Message {
    /// The exact URL the message is sent to.
    pub fn send_url(&self) -> (r: String)
        ensures
            r@ == ("https://api.weixin.qq.com/cgi-bin/message/subscribe/send?access_token=")@
                + self.access_token@,
    {
        let mut out = String::from_str(
            "https://api.weixin.qq.com/cgi-bin/message/subscribe/send?access_token=",
        );
        out.append(self.access_token.as_str());
        proof {
            assert(out@ =~= (
            "https://api.weixin.qq.com/cgi-bin/message/subscribe/send?access_token=")@
                + self.access_token@);
        }
        out
    }
}

/// The message endpoint's answer.
#[derive(Debug, Clone)]
pub struct Response {
    pub errmsg: String,
    pub errcode: i64,
}

} // verus!
