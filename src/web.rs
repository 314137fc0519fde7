use vstd::prelude::*;

verus! {

#[verifier::external_type_specification]
#[verifier::external_body]
pub struct ExWindow(web_sys::Window);

#[verifier::external_type_specification]
#[verifier::external_body]
pub struct ExDocument(web_sys::Document);

#[verifier::external_type_specification]
#[verifier::external_body]
pub struct ExHtmlElement(web_sys::HtmlElement);

} // verus!
