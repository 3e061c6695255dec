//! Handles on the elements of a page.
use vstd::prelude::*;
use vstd::string::*;
use crate::actions::{origin_json, OriginView};
use crate::driver::{By, Session};
use crate::http::{
    displayed_script, element_path, keys_body, locator_json, script_json, session_path, Http,
    Method, MethodView,
};
use crate::json::rendered;
use crate::reply::{
    answer, explains, read_reference, read_references, reference_of, references_of, Reply,
    ReplyView,
};
use crate::shadow::Shadow;
use crate::{SError, SErrorView, SResult};

verus! {

/// What can be typed into an element.
pub enum SendKey {
    Text(String),
}

/// A handle on an element: the name under which the endpoint returned the
/// reference, and the reference itself. It holds for the session that gave
/// it.
pub struct Element {
    pub http: Http,
    pub session: Session,
    pub identify: String,
    pub id: String,
}

/// The mathematical content of an [`Element`].
pub struct ElementView {
    pub url: Seq<char>,
    pub timeout: u64,
    pub session_id: Seq<char>,
    pub identify: Seq<char>,
    pub id: Seq<char>,
}

impl View for Element {
    type V = ElementView;

    open spec fn view(&self) -> ElementView {
        ElementView {
            url: self.http.url@,
            timeout: self.http.timeout,
            session_id: self.session.session_id@,
            identify: self.identify@,
            id: self.id@,
        }
    }
}

/// The contents of a list of handles.
pub open spec fn element_views(elements: Seq<Element>) -> Seq<ElementView> {
    Seq::new(elements.len(), |i: int| elements[i]@)
}

/// What the reading of the reply to a find of one element owes: the handle
/// on the element that the reply names; for an empty object the `Browser`
/// error that no element was found; and otherwise the transport or decode
/// error of the reply.
pub open spec fn reads_element(
    r: SResult<Element>,
    reply: ReplyView,
    url: Seq<char>,
    timeout: u64,
    session_id: Seq<char>,
) -> bool {
    match r {
        Ok(element) => answer(reply) is Ok && reference_of(answer(reply)->Ok_0) == Some(
            Some((element@.identify, element@.id)),
        ) && element@.url == url && element@.timeout == timeout && element@.session_id
            == session_id,
        Err(e) => if answer(reply) is Ok && reference_of(answer(reply)->Ok_0) == Some(
            None::<(Seq<char>, Seq<char>)>,
        ) {
            e@ == SErrorView::Browser("element not found"@)
        } else {
            explains(
                e@,
                reply,
                answer(reply) is Ok && reference_of(answer(reply)->Ok_0) is Some,
                "expected an object of strings"@,
            )
        },
    }
}

/// What the reading of the reply to a find of several elements owes: a
/// handle for every entry of the reply that holds a reference, in the order
/// of the entries; or the transport or decode error of the reply.
pub open spec fn reads_elements(
    r: SResult<Vec<Element>>,
    reply: ReplyView,
    url: Seq<char>,
    timeout: u64,
    session_id: Seq<char>,
) -> bool {
    match r {
        Ok(elements) => answer(reply) is Ok && references_of(answer(reply)->Ok_0) is Some
            && element_views(elements@) == crate::driver::handles(
            references_of(answer(reply)->Ok_0)->Some_0,
            url,
            timeout,
            session_id,
        ),
        Err(e) => explains(
            e@,
            reply,
            answer(reply) is Ok && references_of(answer(reply)->Ok_0) is Some,
            "expected an array of objects of strings"@,
        ),
    }
}

/// Reads the reply to a find of one element, for a session.
pub fn read_element(http: &Http, session: &Session, reply: Reply) -> (r: SResult<Element>)
    ensures
        reads_element(r, reply@, http.url@, http.timeout, session.session_id@),
{
    match read_reference(reply, "element not found") {
        Ok(found) => Ok(
            Element {
                http: http.duplicate(),
                session: session.duplicate(),
                identify: found.0,
                id: found.1,
            },
        ),
        Err(e) => Err(e),
    }
}

/// Reads the reply to a find of several elements, for a session.
pub fn read_elements(http: &Http, session: &Session, reply: Reply) -> (r: SResult<Vec<Element>>)
    ensures
        reads_elements(r, reply@, http.url@, http.timeout, session.session_id@),
{
    match read_references(reply) {
        Ok(found) => Ok(crate::driver::make_elements(http, session, found)),
        Err(e) => Err(e),
    }
}

impl Element {
    /// The handle as a text: the name of the reference and the reference.
    pub fn to_string(&self) -> (text: String)
        ensures
            text@ == "identify="@ + self.identify@ + ",id="@ + self.id@,
    {
        let mut text = crate::text::concat("identify=", self.identify.as_str());
        text.append(",id=");
        text.append(self.id.as_str());
        text
    }

    /// Reads the reply to a find of one element below this one.
    pub fn found_element(&self, reply: Reply) -> (r: SResult<Element>)
        ensures
            reads_element(r, reply@, self@.url, self@.timeout, self@.session_id),
    {
        read_element(&self.http, &self.session, reply)
    }

    /// Reads the reply to a find of several elements below this one.
    pub fn found_elements(&self, reply: Reply) -> (r: SResult<Vec<Element>>)
        ensures
            reads_elements(r, reply@, self@.url, self@.timeout, self@.session_id),
    {
        read_elements(&self.http, &self.session, reply)
    }

    /// Reads the reply to the request for the shadow root.
    pub fn found_shadow_root(&self, reply: Reply) -> (r: SResult<Shadow>)
        ensures
            match r {
                Ok(shadow) => answer(reply@) is Ok && reference_of(answer(reply@)->Ok_0) == Some(
                    Some((shadow@.identify, shadow@.id)),
                ) && shadow@.url == self@.url && shadow@.timeout == self@.timeout
                    && shadow@.session_id == self@.session_id,
                Err(e) => if answer(reply@) is Ok && reference_of(answer(reply@)->Ok_0) == Some(
                    None::<(Seq<char>, Seq<char>)>,
                ) {
                    e@ == SErrorView::Browser("element shadow not found"@)
                } else {
                    explains(
                        e@,
                        reply@,
                        answer(reply@) is Ok && reference_of(answer(reply@)->Ok_0) is Some,
                        "expected an object of strings"@,
                    )
                },
            },
    {
        match read_reference(reply, "element shadow not found") {
            Ok(found) => Ok(
                Shadow {
                    http: self.http.duplicate(),
                    session: self.session.duplicate(),
                    identify: found.0,
                    id: found.1,
                },
            ),
            Err(e) => Err(e),
        }
    }

    /// The request that looks for one element below this one.
    pub fn find_element(&self, by: By<'_>) -> (m: Method)
        ensures
            m@ == MethodView::Post(
                element_path(self@.url, self@.session_id, self@.id, "/element"@),
                rendered(locator_json(by)),
            ),
    {
        self.http.find_element_from_element(self.session.session_id.as_str(), self.id.as_str(), by)
    }

    /// The request that looks for all matching elements below this one.
    pub fn find_elements(&self, by: By<'_>) -> (m: Method)
        ensures
            m@ == MethodView::Post(
                element_path(self@.url, self@.session_id, self@.id, "/elements"@),
                rendered(locator_json(by)),
            ),
    {
        self.http.find_elements_from_element(self.session.session_id.as_str(), self.id.as_str(), by)
    }

    /// The request for the shadow root of the element.
    pub fn get_shadow_root(&self) -> (m: Method)
        ensures
            m@ == MethodView::Get(element_path(self@.url, self@.session_id, self@.id, "/shadow"@)),
    {
        self.http.get_element_shadow_root(self.session.session_id.as_str(), self.id.as_str())
    }

    /// The request that asks whether the element is selected.
    pub fn is_selected(&self) -> (m: Method)
        ensures
            m@ == MethodView::Get(
                element_path(self@.url, self@.session_id, self@.id, "/selected"@),
            ),
    {
        self.http.is_element_selected(self.session.session_id.as_str(), self.id.as_str())
    }

    /// The request for an attribute of the element.
    pub fn get_attribute(&self, name: &str) -> (m: Method)
        ensures
            m@ == MethodView::Get(
                element_path(self@.url, self@.session_id, self@.id, "/attribute/"@ + name@),
            ),
    {
        self.http.get_element_attribute(self.session.session_id.as_str(), self.id.as_str(), name)
    }

    /// The request for a property of the element.
    pub fn get_property(&self, name: &str) -> (m: Method)
        ensures
            m@ == MethodView::Get(
                element_path(self@.url, self@.session_id, self@.id, "/property/"@ + name@),
            ),
    {
        self.http.get_element_property(self.session.session_id.as_str(), self.id.as_str(), name)
    }

    /// The request for a computed style of the element.
    pub fn get_css_value(&self, name: &str) -> (m: Method)
        ensures
            m@ == MethodView::Get(
                element_path(self@.url, self@.session_id, self@.id, "/css/"@ + name@),
            ),
    {
        self.http.get_element_css_value(self.session.session_id.as_str(), self.id.as_str(), name)
    }

    /// The request for the text of the element.
    pub fn get_text(&self) -> (m: Method)
        ensures
            m@ == MethodView::Get(element_path(self@.url, self@.session_id, self@.id, "/text"@)),
    {
        self.http.get_element_text(self.session.session_id.as_str(), self.id.as_str())
    }

    /// The request for the tag name of the element.
    pub fn get_tag_name(&self) -> (m: Method)
        ensures
            m@ == MethodView::Get(element_path(self@.url, self@.session_id, self@.id, "/name"@)),
    {
        self.http.get_element_tag_name(self.session.session_id.as_str(), self.id.as_str())
    }

    /// The request for the place and the size of the element.
    pub fn get_rect(&self) -> (m: Method)
        ensures
            m@ == MethodView::Get(element_path(self@.url, self@.session_id, self@.id, "/rect"@)),
    {
        self.http.get_element_rect(self.session.session_id.as_str(), self.id.as_str())
    }

    /// The request that asks whether the element is enabled.
    pub fn is_enabled(&self) -> (m: Method)
        ensures
            m@ == MethodView::Get(element_path(self@.url, self@.session_id, self@.id, "/enabled"@)),
    {
        self.http.is_element_enabled(self.session.session_id.as_str(), self.id.as_str())
    }

    /// The request that clicks the element with the left button.
    pub fn click(&self) -> (m: Method)
        ensures
            m@ == MethodView::Post(
                element_path(self@.url, self@.session_id, self@.id, "/click"@),
                "{}"@,
            ),
    {
        self.http.element_click(self.session.session_id.as_str(), self.id.as_str())
    }

    /// The request that empties the element.
    pub fn clear(&self) -> (m: Method)
        ensures
            m@ == MethodView::Post(
                element_path(self@.url, self@.session_id, self@.id, "/clear"@),
                "{}"@,
            ),
    {
        self.http.element_clear(self.session.session_id.as_str(), self.id.as_str())
    }

    /// The request that types `key` into the element.
    pub fn send_keys(&self, key: &str) -> (m: Method)
        ensures
            m@ == MethodView::Post(
                element_path(self@.url, self@.session_id, self@.id, "/value"@),
                keys_body(key@),
            ),
    {
        self.http.element_send_keys(self.session.session_id.as_str(), self.id.as_str(), key)
    }

    /// The request for a picture of the element.
    pub fn take_screenshot(&self) -> (m: Method)
        ensures
            m@ == MethodView::Get(
                element_path(self@.url, self@.session_id, self@.id, "/screenshot"@),
            ),
    {
        self.http.take_element_screenshot(self.session.session_id.as_str(), self.id.as_str())
    }

    /// The request that asks whether the element is displayed, by running
    /// `atom`, the source of the function that decides it, on the element.
    pub fn is_displayed(&self, atom: &str) -> (m: Method)
        ensures
            m@ == MethodView::Post(
                session_path(self@.url, self@.session_id, "/execute/sync"@),
                rendered(
                    script_json(
                        displayed_script(atom@),
                        seq![origin_json(OriginView::Element(self@.identify, self@.id))],
                    ),
                ),
            ),
    {
        let element = crate::actions::Origin::Element(self.identify.clone(), self.id.clone());
        self.http.is_element_displayed(self.session.session_id.as_str(), element, atom)
    }
}

/// The handles of a find of several elements answer to the reply: there is
/// one for each entry that holds a reference, none for an empty entry, and
/// where the endpoint named no element twice, no two handles hold the same
/// reference.
pub proof fn found_handles_are_distinct(
    items: Seq<crate::json::JsonView>,
    url: Seq<char>,
    timeout: u64,
    session_id: Seq<char>,
)
    requires
        forall|i: int, j: int|
            0 <= i < j < items.len() && crate::reply::holds_reference(#[trigger] items[i])
                && crate::reply::holds_reference(#[trigger] items[j])
                ==> crate::reply::reference_in(items[i]).1 != crate::reply::reference_in(
                items[j],
            ).1,
    ensures
        crate::driver::handles(crate::reply::references_in(items), url, timeout, session_id).len()
            == crate::reply::entries_with_reference(items),
        forall|a: int, b: int|
            0 <= a < b < crate::reply::references_in(items).len() ==> (
            #[trigger] crate::driver::handles(
                crate::reply::references_in(items),
                url,
                timeout,
                session_id,
            )[a]).id != (#[trigger] crate::driver::handles(
                crate::reply::references_in(items),
                url,
                timeout,
                session_id,
            )[b]).id,
{
    crate::reply::found_references_are_the_entries(items);
    let found = crate::reply::references_in(items);
    assert forall|a: int, b: int| 0 <= a < b < found.len() implies (
    #[trigger] crate::driver::handles(found, url, timeout, session_id)[a]).id != (
    #[trigger] crate::driver::handles(found, url, timeout, session_id)[b]).id by {
        assert(found[a].1 != found[b].1);
    }
}

} // verus!
