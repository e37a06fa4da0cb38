use vstd::prelude::*;
use crate::json::{append_json_string, json_string_chars};

verus! {

/// A handle on the template-management endpoints.
#[derive(Debug, Clone)]
pub struct Templates {
    /// Token the calls are authorized with; carried as a URL parameter.
    pub access_token: String,
}

impl Templates {
    /// The exact URL a template deletion goes to.
    pub fn delete_url(&self) -> (r: String)
        ensures
            r@ == ("https://api.weixin.qq.com/wxaapi/newtmpl/deltemplate?access_token=")@
                + self.access_token@,
    {
        let mut out = String::from_str(
            "https://api.weixin.qq.com/wxaapi/newtmpl/deltemplate?access_token=",
        );
        out.append(self.access_token.as_str());
        proof {
            assert(out@ =~= ("https://api.weixin.qq.com/wxaapi/newtmpl/deltemplate?access_token=")@
                + self.access_token@);
        }
        out
    }

    /// The exact body of a template deletion.
    pub fn delete_body(&self, template_id: &str) -> (r: String)
        ensures
            r@ == ("{\"priTmplId\":")@ + json_string_chars(template_id@) + ("}")@,
    {
        let mut out = String::from_str("{\"priTmplId\":");
        append_json_string(&mut out, template_id);
        out.append("}");
        proof {
            assert(out@ =~= ("{\"priTmplId\":")@ + json_string_chars(template_id@) + ("}")@);
        }
        out
    }

    /// The exact URL of the category listing.
    pub fn get_category_url(&self) -> (r: String)
        ensures
            r@ == ("https://api.weixin.qq.com/wxaapi/newtmpl/getcategory?access_token=")@
                + self.access_token@,
    {
        let mut out = String::from_str(
            "https://api.weixin.qq.com/wxaapi/newtmpl/getcategory?access_token=",
        );
        out.append(self.access_token.as_str());
        proof {
            assert(out@ =~= ("https://api.weixin.qq.com/wxaapi/newtmpl/getcategory?access_token=")@
                + self.access_token@);
        }
        out
    }

    /// The exact URL of the keyword listing for one template title.
    pub fn get_pub_template_keywords_url(&self, tid: &str) -> (r: String)
        ensures
            r@ == ("https://api.weixin.qq.com/wxaapi/newtmpl/getpubtemplatekeywords?access_token=")@
                + self.access_token@ + ("&tid=")@ + tid@,
    {
        let mut out = String::from_str(
            "https://api.weixin.qq.com/wxaapi/newtmpl/getpubtemplatekeywords?access_token=",
        );
        out.append(self.access_token.as_str());
        out.append("&tid=");
        out.append(tid);
        proof {
            assert(out@ =~= (
            "https://api.weixin.qq.com/wxaapi/newtmpl/getpubtemplatekeywords?access_token=")@
                + self.access_token@ + ("&tid=")@ + tid@);
        }
        out
    }
}

/// One keyword of a public template.
#[derive(Debug, Clone)]
pub struct KeywordsResponse {
    pub kid: i64,
    pub name: String,
    pub example: String,
    pub rule: String,
}

/// The deletion endpoint's answer.
#[derive(Debug, Clone)]
pub struct Response {
    pub errmsg: String,
    pub errcode: i64,
}

/// One category of the template library.
#[derive(Debug, Clone)]
pub struct CategoryResponse {
    pub id: i64,
    pub name: String,
}

/// The wrapper the template endpoints answer with.
#[derive(Debug, Clone)]
pub struct TemplatesResponse<T> {
    pub errmsg: String,
    pub errcode: i64,
    pub data: Option<T>,
}

} // verus!
