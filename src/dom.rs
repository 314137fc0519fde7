use vstd::prelude::*;

verus! {

/// Relies on web_sys::window: the global `window` object, when the host has one.
#[verifier::external_body]
fn host_window() -> (r: Option<web_sys::Window>) {
    web_sys::window()
}

/// Relies on web_sys::Window::document: the window's document, when it has one.
#[verifier::external_body]
fn window_document(w: &web_sys::Window) -> (r: Option<web_sys::Document>) {
    w.document()
}

/// Relies on web_sys::Document::body: the document's body element, when it has one.
#[verifier::external_body]
fn document_body(d: &web_sys::Document) -> (r: Option<web_sys::HtmlElement>) {
    d.body()
}

/// Relies on web_sys::Document::ready_state: the document's current loading state.
#[verifier::external_body]
fn document_ready_state(d: &web_sys::Document) -> (r: String) {
    d.ready_state()
}

/// A host capability that the environment does not provide. It is reported
/// where it is asked for, not through a join handle.
#[derive(Debug, Clone, Copy, PartialEq, Eq, Structural)]
pub enum SetupFault {
    MissingWindow,
    MissingDocument,
    MissingBody,
}

/// The browser's `Window` object.
pub struct HostWindow {
    win: web_sys::Window,
}

/// The root document of the page.
pub struct HostDocument {
    doc: web_sys::Document,
}

/// The loading states in which the DOM is already usable.
pub open spec fn loaded_state(state: Seq<char>) -> bool {
    state == "complete"@ || state == "interactive"@
}

/// Whether a document in loading state `state` has its DOM ready, so that
/// waiting for `DOMContentLoaded` is not needed.
pub fn is_loaded_state(state: &String) -> (r: bool)
    ensures
        r == loaded_state(state@),
{
    let complete = "complete".to_owned();
    let interactive = "interactive".to_owned();
    *state == complete || *state == interactive
}

impl HostWindow {
    /// The inner `web_sys` value.
    pub closed spec fn raw(&self) -> web_sys::Window {
        self.win
    }

    /// Wraps the window the host reported, or reports that it has none.
    pub fn from_host(found: Option<web_sys::Window>) -> (r: Result<HostWindow, SetupFault>)
        ensures
            found is Some <==> r is Ok,
            found is Some ==> r->Ok_0.raw() == found->Some_0,
            found is None ==> r == Err::<HostWindow, SetupFault>(SetupFault::MissingWindow),
    {
        match found {
            Some(win) => Ok(HostWindow { win }),
            None => Err(SetupFault::MissingWindow),
        }
    }

    /// The host's window.
    pub fn new() -> (r: Result<HostWindow, SetupFault>)
        ensures
            r is Err ==> r == Err::<HostWindow, SetupFault>(SetupFault::MissingWindow),
    {
        HostWindow::from_host(host_window())
    }

    /// This window's document.
    pub fn document(&self) -> (r: Result<HostDocument, SetupFault>)
        ensures
            r is Err ==> r == Err::<HostDocument, SetupFault>(SetupFault::MissingDocument),
    {
        HostDocument::from_host(window_document(&self.win))
    }

    /// The inner `web_sys` window.
    pub fn raw_window(&self) -> (r: &web_sys::Window)
        ensures
            *r == self.raw(),
    {
        &self.win
    }
}

impl HostDocument {
    /// The inner `web_sys` value.
    pub closed spec fn raw(&self) -> web_sys::Document {
        self.doc
    }

    /// Wraps the document the host reported, or reports that it has none.
    pub fn from_host(found: Option<web_sys::Document>) -> (r: Result<HostDocument, SetupFault>)
        ensures
            found is Some <==> r is Ok,
            found is Some ==> r->Ok_0.raw() == found->Some_0,
            found is None ==> r == Err::<HostDocument, SetupFault>(SetupFault::MissingDocument),
    {
        match found {
            Some(doc) => Ok(HostDocument { doc }),
            None => Err(SetupFault::MissingDocument),
        }
    }

    /// The document of the host's window. A missing window is reported
    /// before a missing document.
    pub fn new() -> (r: Result<HostDocument, SetupFault>)
        ensures
            r is Err ==> (r == Err::<HostDocument, SetupFault>(SetupFault::MissingWindow)
                || r == Err::<HostDocument, SetupFault>(SetupFault::MissingDocument)),
    {
        match HostWindow::new() {
            Ok(w) => w.document(),
            Err(e) => Err(e),
        }
    }

    /// The document's body element.
    pub fn body(&self) -> (r: Result<web_sys::HtmlElement, SetupFault>)
        ensures
            r is Err ==> r == Err::<web_sys::HtmlElement, SetupFault>(SetupFault::MissingBody),
    {
        match document_body(&self.doc) {
            Some(b) => Ok(b),
            None => Err(SetupFault::MissingBody),
        }
    }

    /// Whether the DOM has loaded, judged by the document's loading state.
    pub fn is_loaded(&self) -> (r: bool) {
        let state = document_ready_state(&self.doc);
        is_loaded_state(&state)
    }

    /// The inner `web_sys` document.
    pub fn raw_document(&self) -> (r: &web_sys::Document)
        ensures
            *r == self.raw(),
    {
        &self.doc
    }
}

} // verus!
