//! The runtime settings handed to the browser, and the JSON document that
//! carries them.
use vstd::prelude::*;
use vstd::string::StringSliceAdditionalSpecFns;
use crate::response::{Response, ResponseView, application_json, internal_error, internal_error_view, ok_view};

verus! {

#[verifier::external_type_specification]
#[verifier::external_body]
pub struct ExJsonError(serde_json::Error);

/// The JSON text that serde_json writes for a string value, or `None` where
/// it reports an error.
pub uninterp spec fn json_string_of(s: Seq<char>) -> Option<Seq<char>>;

/// Relies on serde_json::to_string for a `String`: the string written as a
/// JSON string literal, the same text for the same string.
#[verifier::external_body]
fn encode_json_string(s: &String) -> (r: Result<String, serde_json::Error>)
    ensures
        match r {
            Ok(t) => json_string_of(s@) == Some(t@),
            Err(_) => json_string_of(s@) is None,
        },
{
    serde_json::to_string(s)
}

/// Settings fixed at start-up and read by every request.
pub struct WebConsoleSettings {
    /// The address of the console-enabled process the browser connects to.
    pub target_addr: Option<String>,
}

impl WebConsoleSettings {
    /// Builds the settings from the target address given at start-up.
    pub fn new(target_addr: Option<String>) -> (r: WebConsoleSettings)
        ensures
            r.target() == (match target_addr {
                Some(s) => Some(s@),
                None => None,
            }),
    {
        WebConsoleSettings { target_addr }
    }

    /// The target address as plain characters.
    pub open spec fn target(&self) -> Option<Seq<char>> {
        match self.target_addr {
            Some(s) => Some(s@),
            None => None,
        }
    }
}

/// The settings document around the JSON text `quoted` of the target address.
pub open spec fn settings_json(quoted: Seq<char>) -> Seq<char> {
    "{\"targetAddress\":"@ + quoted + "}"@
}

/// The answer that carries the settings document, given the outcome of
/// writing the target address as JSON text.
pub open spec fn settings_view(quoted: Option<Seq<char>>) -> ResponseView {
    match quoted {
        Some(q) => ok_view(application_json(), vstd::utf8::encode_utf8(settings_json(q))),
        None => internal_error_view(),
    }
}

/// Builds the settings response from the JSON text of the target address,
/// or the 500 response where that text could not be written.
pub fn settings_response(quoted: Option<String>) -> (r: Response)
    ensures
        r@ == settings_view(
            match quoted {
                Some(q) => Some(q@),
                None => None,
            },
        ),
{
    match quoted {
        Some(q) => {
            let mut text = "{\"targetAddress\":".to_owned();
            text.append(q.as_str());
            text.append("}");
            let body = crate::assets::copy_bytes(text.as_str().as_bytes());
            Response { status: 200, content_type: "application/json".to_owned(), body }
        },
        None => internal_error(),
    }
}

/// The settings response for the target address `addr`.
pub fn serve_settings(addr: &String) -> (r: Response)
    ensures
        r@ == settings_view(json_string_of(addr@)),
{
    match encode_json_string(addr) {
        Ok(t) => settings_response(Some(t)),
        Err(_) => settings_response(None),
    }
}

} // verus!
