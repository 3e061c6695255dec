//! Handles on shadow roots.
use vstd::prelude::*;
use vstd::string::*;
use crate::driver::{By, Session};
use crate::element::{read_element, read_elements, reads_element, reads_elements, Element};
use crate::http::{locator_json, shadow_path, Http, Method, MethodView};
use crate::json::rendered;
use crate::reply::Reply;
use crate::SResult;

verus! {

/// A handle on a shadow root: the name under which the endpoint returned
/// the reference, and the reference itself. It holds for the session that
/// gave it.
pub struct Shadow {
    pub http: Http,
    pub session: Session,
    pub identify: String,
    pub id: String,
}

/// The mathematical content of a [`Shadow`].
pub struct ShadowView {
    pub url: Seq<char>,
    pub timeout: u64,
    pub session_id: Seq<char>,
    pub identify: Seq<char>,
    pub id: Seq<char>,
}

impl View for Shadow {
    type V = ShadowView;

    open spec fn view(&self) -> ShadowView {
        ShadowView {
            url: self.http.url@,
            timeout: self.http.timeout,
            session_id: self.session.session_id@,
            identify: self.identify@,
            id: self.id@,
        }
    }
}

impl Shadow {
    /// The handle as a text: the name of the reference and the reference.
    pub fn to_string(&self) -> (text: String)
        ensures
            text@ == "identify="@ + self.identify@ + ",id="@ + self.id@,
    {
        let mut text = crate::text::concat("identify=", self.identify.as_str());
        text.append(",id=");
        text.append(self.id.as_str());
        text
    }

    /// The request that looks for one element below the shadow root, by a
    /// css selector.
    pub fn find_element(&self, css: &str) -> (m: Method)
        ensures
            m@ == MethodView::Post(
                shadow_path(self@.url, self@.session_id, self@.id, "/element"@),
                rendered(locator_json(By::Css(css))),
            ),
    {
        self.http.find_element_from_shadow_root(
            self.session.session_id.as_str(),
            self.id.as_str(),
            By::Css(css),
        )
    }

    /// The request that looks for all matching elements below the shadow
    /// root, by a css selector.
    pub fn find_elements(&self, css: &str) -> (m: Method)
        ensures
            m@ == MethodView::Post(
                shadow_path(self@.url, self@.session_id, self@.id, "/elements"@),
                rendered(locator_json(By::Css(css))),
            ),
    {
        self.http.find_elements_from_shadow_root(
            self.session.session_id.as_str(),
            self.id.as_str(),
            By::Css(css),
        )
    }

    /// Reads the reply to a find of one element below the shadow root.
    pub fn found_element(&self, reply: Reply) -> (r: SResult<Element>)
        ensures
            reads_element(r, reply@, self@.url, self@.timeout, self@.session_id),
    {
        read_element(&self.http, &self.session, reply)
    }

    /// Reads the reply to a find of several elements below the shadow root.
    pub fn found_elements(&self, reply: Reply) -> (r: SResult<Vec<Element>>)
        ensures
            reads_elements(r, reply@, self@.url, self@.timeout, self@.session_id),
    {
        read_elements(&self.http, &self.session, reply)
    }
}

} // verus!
