//! Animation targets: which document elements an animation applies to.
//!
//! A [`Target`] names a set of elements by CSS selector. Looking the
//! elements up and writing style properties to them goes through the host
//! document, so those calls stand behind trusted wrappers; what the lookup
//! does with each answer — collecting elements, converting nodes and
//! reporting each failure as its [`TargetError`] — is verified here.

use vstd::prelude::*;

verus! {

#[verifier::external_type_specification]
#[verifier::external_body]
pub struct ExWindow(web_sys::Window);

#[verifier::external_type_specification]
#[verifier::external_body]
pub struct ExDocument(web_sys::Document);

#[verifier::external_type_specification]
#[verifier::external_body]
pub struct ExNodeList(web_sys::NodeList);

#[verifier::external_type_specification]
#[verifier::external_body]
pub struct ExNode(web_sys::Node);

#[verifier::external_type_specification]
#[verifier::external_body]
pub struct ExHtmlElement(web_sys::HtmlElement);

#[verifier::external_type_specification]
#[verifier::external_body]
pub struct ExCssStyleDeclaration(web_sys::CssStyleDeclaration);

/// Relies on `web_sys::window`: the global window, present when running in a
/// browser. Nothing can be promised of the answer.
#[verifier::external_body]
fn dom_window() -> (r: Option<web_sys::Window>) {
    web_sys::window()
}

/// Relies on `web_sys::Window::document`: the document of a window, when it
/// has one. Nothing can be promised of the answer.
#[verifier::external_body]
fn window_document(window: &web_sys::Window) -> (r: Option<web_sys::Document>) {
    window.document()
}

/// Relies on `web_sys::Document::query_selector_all`: the list of nodes the
/// selector matches, or `None` where the host rejects the selector. Nothing
/// can be promised of the answer.
#[verifier::external_body]
fn document_query_all(document: &web_sys::Document, selector: &str) -> (r: Option<
    web_sys::NodeList,
>) {
    document.query_selector_all(selector).ok()
}

/// Relies on `web_sys::NodeList::length`: how many nodes the list holds.
#[verifier::external_body]
fn node_list_length(list: &web_sys::NodeList) -> (r: u32) {
    list.length()
}

/// Relies on `web_sys::NodeList::get`: the node at an index, or `None` past
/// the end of the list.
#[verifier::external_body]
fn node_list_get(list: &web_sys::NodeList, index: u32) -> (r: Option<web_sys::Node>) {
    list.get(index)
}

/// Relies on `wasm_bindgen::JsCast::dyn_into`: the node as an HTML element,
/// or `None` where the node is not one.
#[verifier::external_body]
fn node_into_html_element(node: web_sys::Node) -> (r: Option<web_sys::HtmlElement>) {
    wasm_bindgen::JsCast::dyn_into::<web_sys::HtmlElement>(node).ok()
}

/// Relies on `web_sys::HtmlElement::style`: the element's inline style
/// declaration.
#[verifier::external_body]
fn element_style(element: &web_sys::HtmlElement) -> (r: web_sys::CssStyleDeclaration) {
    element.style()
}

/// Relies on `web_sys::CssStyleDeclaration::set_property`: writes one style
/// property on the element; the answer says whether the host accepted it.
#[verifier::external_body]
fn style_set_property(
    style: &web_sys::CssStyleDeclaration,
    property: &str,
    value: &str,
) -> (r: bool) {
    style.set_property(property, value).is_ok()
}

/// The set of document elements an animation applies to.
#[derive(Debug, PartialEq)]
pub enum Target {
    /// Every element the CSS selector matches.
    Selector(&'static str),
}

impl From<&'static str> for Target {
    /// A bare string is read as a CSS selector.
    fn from(s: &'static str) -> (r: Self) {
        Target::Selector(s)
    }
}

impl vstd::std_specs::convert::FromSpecImpl<&'static str> for Target {
    open spec fn obeys_from_spec() -> bool {
        true
    }

    open spec fn from_spec(s: &'static str) -> Self {
        Target::Selector(s)
    }
}

impl Target {
    /// The elements this target names, looked up in the host document.
    ///
    /// Which elements come back depends on the document, so only the failure
    /// modes are pinned down: a node that is no HTML element reports
    /// `Convert`, and a node index the host will not serve — or a document
    /// or selector it will not answer for at all — reports `Range`.
    fn list(&self) -> (r: Result<Vec<web_sys::HtmlElement>, TargetError>)
        ensures
            r matches Err(e) ==> (e == TargetError::Convert || e == TargetError::Range),
    {
        match self {
            Target::Selector(s) => {
                let window = match dom_window() {
                    Some(w) => w,
                    None => return Err(TargetError::Range),
                };
                let document = match window_document(&window) {
                    Some(d) => d,
                    None => return Err(TargetError::Range),
                };
                let node_list = match document_query_all(&document, s) {
                    Some(l) => l,
                    None => return Err(TargetError::Range),
                };
                let len = node_list_length(&node_list);
                let mut els: Vec<web_sys::HtmlElement> = Vec::new();
                let mut i: u32 = 0;
                while i < len
                    invariant
                        i <= len,
                    decreases len - i,
                {
                    match node_list_get(&node_list, i) {
                        Some(node) => match node_into_html_element(node) {
                            Some(el) => els.push(el),
                            None => return Err(TargetError::Convert),
                        },
                        None => return Err(TargetError::Range),
                    }
                    i = i + 1;
                }
                Ok(els)
            },
        }
    }

    /// Set one CSS property on every element this target names.
    ///
    /// A failed element lookup is reported as from [`Target::list`]; a style
    /// write the host refuses is discarded, so `Css` is never reported here.
    pub fn update_css(&self, property: &str, value: &str) -> (r: Result<(), TargetError>)
        ensures
            r matches Err(e) ==> (e == TargetError::Convert || e == TargetError::Range),
    {
        let els = match self.list() {
            Ok(els) => els,
            Err(e) => return Err(e),
        };
        let mut i: usize = 0;
        while i < els.len()
            invariant
                i <= els.len(),
            decreases els.len() - i,
        {
            let style = element_style(&els[i]);
            let _ = style_set_property(&style, property, value);
            i = i + 1;
        }
        Ok(())
    }
}

/// Why applying an animation to its target failed.
#[derive(Debug, Clone, Copy, PartialEq, Eq)]
pub enum TargetError {
    /// A matched node is not an HTML element.
    Convert,
    /// The host would not serve the document, selector or node index.
    Range,
    /// The host refused a style write.
    Css,
}

impl TargetError {
    /// A short description of the error.
    pub fn message(&self) -> (r: &'static str)
        ensures
            *self == TargetError::Convert ==> r@ == "failed to convert node to HtmlElement"@,
            *self == TargetError::Range ==> r@ == "Node index out of range"@,
            *self == TargetError::Css ==> r@ == "Failed to set CSS Value"@,
    {
        match self {
            TargetError::Convert => "failed to convert node to HtmlElement",
            TargetError::Range => "Node index out of range",
            TargetError::Css => "Failed to set CSS Value",
        }
    }
}

} // verus!
