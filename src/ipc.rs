use crate::error::KernelError;
use vstd::prelude::*;
use vstd::string::*;

verus! {

#[verifier::external_type_specification]
#[verifier::external_body]
pub struct ExValue(serde_json::Value);

/// Parameters of an `execute` request.
#[derive(Debug, Clone)]
pub struct ExecuteParams {
    pub code: String,
}

/// The structured payload carried by a request.
#[derive(Debug, Clone)]
pub enum RequestParams {
    /// `{"code": ...}`, sent with `execute`.
    Execute(ExecuteParams),
    /// `{}`, sent with `interrupt` and `restart`.
    Empty,
}

/// One request to a kernel: a correlation token, a method name and its payload.
#[derive(Debug, Clone)]
pub struct IpcRequest {
    pub id: String,
    pub method: String,
    pub params: RequestParams,
}

/// The error part of a reply.
#[derive(Debug, Clone)]
pub struct IpcError {
    pub code: String,
    pub message: String,
    pub details: Option<serde_json::Value>,
}

/// A decoded reply or out-of-band notification from a kernel.
#[derive(Debug, Clone)]
pub struct IpcEnvelope {
    pub id: Option<String>,
    pub event: Option<String>,
    pub result: Option<serde_json::Value>,
    pub error: Option<IpcError>,
}

/// The JSON string literal that serde_json writes for a text.
pub uninterp spec fn json_string_of(s: Seq<char>) -> Seq<char>;

/// Relies on `serde_json::to_string` applied to a `str`: it writes the quoted,
/// escaped JSON string, escaping every control character (line breaks
/// included); serialising a `str` into memory does not fail.
#[verifier::external_body]
fn json_string(s: &str) -> (r: String)
    ensures
        r@ == json_string_of(s@),
        !r@.contains('\n'),
{
    match serde_json::to_string(s) {
        Ok(t) => t,
        Err(_) => String::new(),
    }
}

/// What `str::trim` leaves of a text.
pub uninterp spec fn trimmed(s: Seq<char>) -> Seq<char>;

/// Relies on `str::trim`: the text without leading and trailing whitespace;
/// an empty text stays empty.
#[verifier::external_body]
fn trim_text(s: &str) -> (r: String)
    ensures
        r@ == trimmed(s@),
        s@.len() == 0 ==> r@.len() == 0,
{
    s.trim().to_owned()
}

/// The JSON text of a request payload.
pub open spec fn params_text(p: RequestParams) -> Seq<char> {
    match p {
        RequestParams::Execute(e) => "{\"code\":"@ + json_string_of(e.code@) + "}"@,
        RequestParams::Empty => "{}"@,
    }
}

/// The line written to a kernel for a request: one JSON object, then a line break.
pub open spec fn request_line(r: IpcRequest) -> Seq<char> {
    "{\"id\":"@ + json_string_of(r.id@) + ",\"method\":"@ + json_string_of(r.method@)
        + ",\"params\":"@ + params_text(r.params) + "}\n"@
}

/// A line holds exactly one line break, as its last character.
pub open spec fn is_single_line(s: Seq<char>) -> bool {
    &&& s.len() > 0
    &&& s.last() == '\n'
    &&& forall|i: int| 0 <= i < s.len() - 1 ==> s[i] != '\n'
}

fn encode_params(p: &RequestParams) -> (r: String)
    ensures
        r@ == params_text(*p),
        !r@.contains('\n'),
{
    proof {
        reveal_strlit("{\"code\":");
        reveal_strlit("}");
        reveal_strlit("{}");
    }
    match p {
        RequestParams::Execute(e) => {
            let code = json_string(e.code.as_str());
            let mut out = String::from_str("{\"code\":");
            out.append(code.as_str());
            out.append("}");
            assert(!out@.contains('\n')) by {
                assert(out@ == "{\"code\":"@ + code@ + "}"@);
                if out@.contains('\n') {
                    let i = choose|i: int| 0 <= i < out@.len() && out@[i] == '\n';
                    if i >= 8 && i < 8 + code@.len() {
                        assert(code@[i - 8] == '\n');
                    }
                }
            }
            out
        },
        RequestParams::Empty => String::from_str("{}"),
    }
}

/// Encodes a request as one self-contained line: a JSON object with no line
/// break inside it, terminated by a single line break.
pub fn encode_request(r: &IpcRequest) -> (line: String)
    ensures
        line@ == request_line(*r),
        is_single_line(line@),
{
    proof {
        reveal_strlit("{\"id\":");
        reveal_strlit(",\"method\":");
        reveal_strlit(",\"params\":");
        reveal_strlit("}\n");
    }
    let id = json_string(r.id.as_str());
    let method = json_string(r.method.as_str());
    let params = encode_params(&r.params);
    let mut line = String::from_str("{\"id\":");
    line.append(id.as_str());
    line.append(",\"method\":");
    line.append(method.as_str());
    line.append(",\"params\":");
    line.append(params.as_str());
    let ghost body = line@;
    line.append("}\n");
    proof {
        assert forall|i: int| 0 <= i < body.len() implies body[i] != '\n' by {
            let p1 = 6 + id@.len();
            let p2 = p1 + 10 + method@.len();
            let p3 = p2 + 10;
            if 6 <= i < p1 {
                assert(body[i] == id@[i - 6]);
            } else if p1 + 10 <= i < p2 {
                assert(body[i] == method@[i - p1 - 10]);
            } else if p3 <= i {
                assert(body[i] == params@[i - p3]);
            }
        }
        assert(line@ == body + "}\n"@);
    }
    line
}

/// Checks a reply line read from a kernel and yields its payload: the line
/// with surrounding whitespace removed. A line that holds nothing else (end
/// of stream included) means the kernel produced no reply.
pub fn read_reply_payload(line: &str) -> (r: Result<String, KernelError>)
    ensures
        trimmed(line@).len() == 0 ==> r == Err::<String, KernelError>(KernelError::EmptyResponse),
        trimmed(line@).len() > 0 ==> (r matches Ok(p) && p@ == trimmed(line@)),
{
    let payload = trim_text(line);
    if payload.as_str().is_empty() {
        Err(KernelError::EmptyResponse)
    } else {
        Ok(payload)
    }
}

} // verus!
