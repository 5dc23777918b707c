use vstd::prelude::*;

verus! {

/// Whether `s` is a status code that an HTTP response can carry.
pub open spec fn valid_status(s: u16) -> bool {
    100 <= s <= 999
}

/// The JSON text of the string `s`: a quoted, escaped string literal.
pub uninterp spec fn json_quoted(s: Seq<char>) -> Seq<char>;

/// The JSON body sent for an error with message `m`: an object whose only
/// field, `message`, holds `m`.
pub open spec fn message_body(m: Seq<char>) -> Seq<char> {
    "{\"message\":"@ + json_quoted(m) + "}"@
}

/// Relies on serde_json's `Display` of a `Value::String`: the compact JSON
/// text of that string, which depends on the string alone.
#[verifier::external_body]
fn to_json_string(s: &str) -> (r: String)
    ensures
        r@ == json_quoted(s@),
{
    serde_json::Value::from(s).to_string()
}

/// What an error becomes at the HTTP boundary: a status and a message.
#[derive(Debug, PartialEq, Eq)]
pub struct HttpError {
    pub msg: String,
    pub status: u16,
}

impl HttpError {
    /// Whether the status is one that a response can carry.
    pub open spec fn wf(&self) -> bool {
        valid_status(self.status)
    }

    /// The JSON body of the response: `{"message": <msg>}`.
    pub fn body(&self) -> (r: String)
        ensures
            r@ == message_body(self.msg@),
    {
        let quoted = to_json_string(self.msg.as_str());
        let mut r = String::from_str("{\"message\":");
        r.append(quoted.as_str());
        r.append("}");
        r
    }
}

} // verus!
