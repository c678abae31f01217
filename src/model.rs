use crate::json::{decimal, escaped, is_plain, joined, json_quoted, lemma_escaped_plain, lemma_joined_push, push_decimal, push_part, quote_json};
use vstd::prelude::*;

verus! {

/// What a payload that is not valid Base64 is answered with.
pub open spec fn invalid_base64_message() -> Seq<char> {
    "You inputted an invalid Base64 encoding"@
}

/// `base64::DecodeError`, carried through opaque: only its arrival matters.
#[verifier::external_type_specification]
#[verifier::external_body]
pub struct ExDecodeError(base64::DecodeError);

/// HTTP status codes of the classifications.
pub const BAD_REQUEST: u16 = 400;

pub const UNAUTHORIZED: u16 = 401;

pub const FORBIDDEN: u16 = 403;

pub const NOT_FOUND: u16 = 404;

pub const INTERNAL_SERVER_ERROR: u16 = 500;

/// The one kind of failure a service error stands for.
#[derive(Debug, Clone, Copy, PartialEq, Eq, Structural)]
pub enum ErrorResponseType {
    BadRequest,
    InternalServerError,
    Unauthorized,
    Forbidden,
    NotFound,
}

/// The HTTP status code of each classification.
pub open spec fn code_of(t: ErrorResponseType) -> u16 {
    match t {
        ErrorResponseType::BadRequest => BAD_REQUEST,
        ErrorResponseType::InternalServerError => INTERNAL_SERVER_ERROR,
        ErrorResponseType::Unauthorized => UNAUTHORIZED,
        ErrorResponseType::Forbidden => FORBIDDEN,
        ErrorResponseType::NotFound => NOT_FOUND,
    }
}

/// The canonical status label of each classification.
pub open spec fn label_of(t: ErrorResponseType) -> Seq<char> {
    match t {
        ErrorResponseType::BadRequest => "Bad Request"@,
        ErrorResponseType::InternalServerError => "Internal Server Error"@,
        ErrorResponseType::Unauthorized => "Unauthorized"@,
        ErrorResponseType::Forbidden => "Forbidden"@,
        ErrorResponseType::NotFound => "Not Found"@,
    }
}

impl ErrorResponseType {
    /// The HTTP status code that responses of this classification carry.
    pub fn status_code(&self) -> (r: u16)
        ensures
            r == code_of(*self),
    {
        match self {
            ErrorResponseType::BadRequest => BAD_REQUEST,
            ErrorResponseType::InternalServerError => INTERNAL_SERVER_ERROR,
            ErrorResponseType::Unauthorized => UNAUTHORIZED,
            ErrorResponseType::Forbidden => FORBIDDEN,
            ErrorResponseType::NotFound => NOT_FOUND,
        }
    }

    /// The canonical status label of this classification.
    pub fn label(&self) -> (r: String)
        ensures
            r@ == label_of(*self),
    {
        match self {
            ErrorResponseType::BadRequest => "Bad Request".to_owned(),
            ErrorResponseType::InternalServerError => "Internal Server Error".to_owned(),
            ErrorResponseType::Unauthorized => "Unauthorized".to_owned(),
            ErrorResponseType::Forbidden => "Forbidden".to_owned(),
            ErrorResponseType::NotFound => "Not Found".to_owned(),
        }
    }
}

/// One entry of an error body.
#[derive(Debug, Clone)]
pub struct Error {
    pub error: Option<String>,
    pub field: Option<String>,
    pub message: Option<String>,
}

/// The text of an optional field, if there is one.
pub open spec fn text_of(o: Option<String>) -> Option<Seq<char>> {
    match o {
        Some(s) => Some(s@),
        None => None,
    }
}

/// An entry with only a free-text error.
pub open spec fn is_common_entry(e: Error, text: Seq<char>) -> bool {
    &&& text_of(e.error) == Some(text)
    &&& e.field is None
    &&& e.message is None
}

impl Error {
    /// An entry for a field that failed validation.
    pub fn for_validation(field: String, message: String) -> (r: Error)
        ensures
            r.error is None,
            text_of(r.field) == Some(field@),
            text_of(r.message) == Some(message@),
    {
        Error { error: None, field: Some(field), message: Some(message) }
    }

    /// An entry holding a free-text error only.
    pub fn common_error(error: &str) -> (r: Error)
        ensures
            is_common_entry(r, error@),
    {
        Error { error: Some(error.to_owned()), field: None, message: None }
    }
}

/// The error surfaced to callers: a status code, its label, the entries of
/// the body, and the classification, which is never rendered.
#[derive(Debug)]
pub struct ServiceException {
    pub code: u16,
    pub status: String,
    pub errors: Vec<Error>,
    pub response_type: ErrorResponseType,
}

/// The shape of a rendered error body, as a client reads it back.
#[derive(Debug, Clone)]
pub struct TestServiceException {
    pub code: u16,
    pub status: String,
    pub errors: Vec<Error>,
}


/// `"key":value`, with the value written as a JSON string.
pub open spec fn member(key: Seq<char>, value: Seq<char>) -> Seq<char> {
    seq!['"'] + key + seq!['"', ':'] + json_quoted(value)
}

/// The member for an optional field: none where the field is absent.
pub open spec fn optional_member(key: Seq<char>, o: Option<String>) -> Seq<Seq<char>> {
    match o {
        Some(s) => seq![member(key, s@)],
        None => Seq::empty(),
    }
}

/// The members written for an entry, in the order error, field, message.
pub open spec fn entry_members(e: Error) -> Seq<Seq<char>> {
    optional_member("error"@, e.error) + optional_member("field"@, e.field) + optional_member(
        "message"@,
        e.message,
    )
}

/// An entry as a JSON object.
pub open spec fn render_entry(e: Error) -> Seq<char> {
    seq!['{'] + joined(entry_members(e)) + seq!['}']
}

/// A list of entries as a JSON array.
pub open spec fn render_errors(errors: Seq<Error>) -> Seq<char> {
    seq!['['] + joined(errors.map_values(|e: Error| render_entry(e))) + seq![']']
}

/// The JSON body of an error response: code, status and entries.
pub open spec fn render_body(code: u16, status: Seq<char>, errors: Seq<Error>) -> Seq<char> {
    "{\"code\":"@ + decimal(code as nat) + ",\"status\":"@ + json_quoted(status) + ",\"errors\":"@
        + render_errors(errors) + seq!['}']
}



/// The number of fields of an entry that are present.
pub open spec fn present_count(e: Error) -> nat {
    (if e.error is Some { 1nat } else { 0nat }) + (if e.field is Some { 1nat } else { 0nat }) + (
    if e.message is Some { 1nat } else { 0nat })
}

/// Rendering never shows the classification: two exceptions that agree on
/// code, status and entries have the same body, whatever their classes.
pub proof fn lemma_render_ignores_classification(a: ServiceException, b: ServiceException)
    requires
        a.code == b.code,
        a.status@ == b.status@,
        a.errors@ == b.errors@,
    ensures
        render_body(a.code, a.status@, a.errors@) == render_body(b.code, b.status@, b.errors@),
{
}

/// An entry is written with one member for each present field and none for
/// an absent one; an entry with no field present is written `{}`.
pub proof fn lemma_render_omits_absent_fields(e: Error)
    ensures
        entry_members(e).len() == present_count(e),
        e.error is None ==> entry_members(e) == optional_member("field"@, e.field)
            + optional_member("message"@, e.message),
        e.field is None ==> entry_members(e) == optional_member("error"@, e.error)
            + optional_member("message"@, e.message),
        e.message is None ==> entry_members(e) == optional_member("error"@, e.error)
            + optional_member("field"@, e.field),
        present_count(e) == 0 ==> render_entry(e) == "{}"@,
{
    let a = optional_member("error"@, e.error);
    let b = optional_member("field"@, e.field);
    let c = optional_member("message"@, e.message);
    assert(Seq::<Seq<char>>::empty() + b + c =~= b + c);
    assert(a + Seq::<Seq<char>>::empty() + c =~= a + c);
    assert(a + b + Seq::<Seq<char>>::empty() =~= a + b);
    if present_count(e) == 0 {
        assert(entry_members(e) =~= Seq::<Seq<char>>::empty());
        reveal_strlit("{}");
        assert(render_entry(e) =~= "{}"@);
    }
}


/// The generic internal error, however it was made, renders as
/// `{"code":500,"status":"Internal Server Error","errors":[{"error":"Internal Server Error"}]}`.
pub proof fn lemma_internal_error_body(e: ServiceException)
    requires
        e.is_common(ErrorResponseType::InternalServerError, "Internal Server Error"@),
    ensures
        render_body(e.code, e.status@, e.errors@)
            == "{\"code\":500,\"status\":\"Internal Server Error\",\"errors\":[{\"error\":\"Internal Server Error\"}]}"@,
{
    let text = "Internal Server Error"@;
    reveal_strlit("Internal Server Error");
    reveal_strlit("error");
    reveal_strlit("{\"code\":");
    reveal_strlit(",\"status\":");
    reveal_strlit(",\"errors\":");
    reveal_strlit("{\"code\":500,\"status\":\"Internal Server Error\",\"errors\":[{\"error\":\"Internal Server Error\"}]}");
    assert forall|i: int| 0 <= i < text.len() implies is_plain(#[trigger] text[i]) by {}
    lemma_escaped_plain(text);
    assert(decimal(5) == seq!['5']);
    assert(decimal(50) == decimal(5).push('0'));
    assert(decimal(500) == decimal(50).push('0'));
    let entry = e.errors@[0];
    assert(entry_members(entry) =~= seq![member("error"@, text)]);
    assert(joined(seq![member("error"@, text)]) == member("error"@, text));
    let rendered = e.errors@.map_values(|x: Error| render_entry(x));
    assert(rendered =~= seq![render_entry(entry)]);
    assert(joined(seq![render_entry(entry)]) == render_entry(entry));
    assert(render_body(e.code, e.status@, e.errors@) =~= "{\"code\":500,\"status\":\"Internal Server Error\",\"errors\":[{\"error\":\"Internal Server Error\"}]}"@);
}

/// Appends the member for an optional field, if the field is present.
fn push_optional_member(
    out: &mut String,
    first: bool,
    key: &str,
    o: &Option<String>,
    Ghost(done): Ghost<Seq<Seq<char>>>,
) -> (now_first: bool)
    requires
        first == (done.len() == 0),
        old(out)@ == seq!['{'] + joined(done),
    ensures
        final(out)@ == seq!['{'] + joined(done + optional_member(key@, *o)),
        now_first == ((done + optional_member(key@, *o)).len() == 0),
{
    match o {
        Some(s) => {
            let mut m = String::from_str("\"");
            m.append(key);
            m.append("\":");
            let q = quote_json(s.as_str());
            m.append(q.as_str());
            push_part(out, first, m.as_str());
            proof {
                reveal_strlit("\"");
                reveal_strlit("\":");
                assert(m@ =~= member(key@, s@));
                assert(done + optional_member(key@, *o) =~= done.push(member(key@, s@)));
                lemma_joined_push(done, member(key@, s@));
                assert(final(out)@ =~= seq!['{'] + joined(done + optional_member(key@, *o)));
            }
            false
        },
        None => {
            assert(done + optional_member(key@, *o) =~= done);
            first
        },
    }
}

/// An entry as a JSON object, without its absent fields.
fn render_entry_exec(e: &Error) -> (r: String)
    ensures
        r@ == render_entry(*e),
{
    let mut out = String::from_str("{");
    proof {
        reveal_strlit("{");
        assert(out@ =~= seq!['{'] + joined(Seq::<Seq<char>>::empty()));
    }
    let first = push_optional_member(&mut out, true, "error", &e.error, Ghost(Seq::empty()));
    let ghost d1 = optional_member("error"@, e.error);
    assert(Seq::<Seq<char>>::empty() + d1 =~= d1);
    let first = push_optional_member(&mut out, first, "field", &e.field, Ghost(d1));
    let ghost d2 = d1 + optional_member("field"@, e.field);
    let _ = push_optional_member(&mut out, first, "message", &e.message, Ghost(d2));
    out.append("}");
    proof {
        reveal_strlit("}");
        assert(d2 + optional_member("message"@, e.message) =~= entry_members(*e));
        assert(out@ =~= render_entry(*e));
    }
    out
}

impl ServiceException {
    /// Code and label agree with the classification.
    pub open spec fn wf(&self) -> bool {
        &&& self.code == code_of(self.response_type)
        &&& self.status@ == label_of(self.response_type)
    }

    /// A well-formed exception of classification `t` with the single entry `text`.
    pub open spec fn is_common(&self, t: ErrorResponseType, text: Seq<char>) -> bool {
        &&& self.wf()
        &&& self.response_type == t
        &&& self.errors@.len() == 1
        &&& is_common_entry(self.errors@[0], text)
    }

    /// The generic failure: code 500 with the single entry "Internal Server Error".
    pub fn internal_server_error() -> (r: ServiceException)
        ensures
            r.is_common(ErrorResponseType::InternalServerError, "Internal Server Error"@),
    {
        ServiceException::common_error("Internal Server Error", ErrorResponseType::InternalServerError)
    }

    /// A bad request carrying the given field errors unchanged.
    pub fn for_validation(errors: Vec<Error>) -> (r: ServiceException)
        ensures
            r.wf(),
            r.response_type == ErrorResponseType::BadRequest,
            r.errors@ == errors@,
    {
        ServiceException {
            code: BAD_REQUEST,
            errors,
            response_type: ErrorResponseType::BadRequest,
            status: "Bad Request".to_owned(),
        }
    }

    /// An exception of classification `error_type` with the single entry `error`.
    pub fn common_error(error: &str, error_type: ErrorResponseType) -> (r: ServiceException)
        ensures
            r.is_common(error_type, error@),
    {
        let entry = Error::common_error(error);
        let mut errors: Vec<Error> = Vec::new();
        errors.push(entry);
        ServiceException {
            code: error_type.status_code(),
            status: error_type.label(),
            errors,
            response_type: error_type,
        }
    }

    /// The JSON body of this exception; the classification is left out.
    pub fn to_json(&self) -> (r: String)
        ensures
            r@ == render_body(self.code, self.status@, self.errors@),
    {
        let mut out = String::from_str("{\"code\":");
        push_decimal(&mut out, self.code);
        out.append(",\"status\":");
        let status = quote_json(self.status.as_str());
        out.append(status.as_str());
        out.append(",\"errors\":[");
        let ghost start = out@;
        let ghost rendered = self.errors@.map_values(|e: Error| render_entry(e));
        let mut i: usize = 0;
        while i < self.errors.len()
            invariant
                0 <= i <= self.errors@.len(),
                rendered == self.errors@.map_values(|e: Error| render_entry(e)),
                out@ == start + joined(rendered.take(i as int)),
            decreases self.errors@.len() - i,
        {
            let entry = render_entry_exec(&self.errors[i]);
            push_part(&mut out, i == 0, entry.as_str());
            proof {
                lemma_joined_push(rendered.take(i as int), rendered[i as int]);
                assert(rendered.take(i as int).push(rendered[i as int]) =~= rendered.take(i + 1));
            }
            i = i + 1;
        }
        out.append("]}");
        proof {
            assert(rendered.take(i as int) =~= rendered);
            reveal_strlit("{\"code\":");
            reveal_strlit(",\"status\":");
            reveal_strlit(",\"errors\":[");
            reveal_strlit(",\"errors\":");
            reveal_strlit("]}");
            assert(out@ =~= render_body(self.code, self.status@, self.errors@));
        }
        out
    }

    /// The answer to a payload that failed Base64 decoding: a bad request
    /// with a fixed message; the cause is not exposed.
    pub fn from_decode_error(e: base64::DecodeError) -> (r: ServiceException)
        ensures
            r.is_common(ErrorResponseType::BadRequest, invalid_base64_message()),
    {
        ServiceException::common_error(
            "You inputted an invalid Base64 encoding",
            ErrorResponseType::BadRequest,
        )
    }
}

impl From<base64::DecodeError> for ServiceException {
    /// A bad request with a fixed message; the cause is not exposed.
    fn from(e: base64::DecodeError) -> (r: ServiceException)
        ensures
            r.is_common(ErrorResponseType::BadRequest, invalid_base64_message()),
    {
        ServiceException::from_decode_error(e)
    }
}

impl vstd::std_specs::convert::FromSpecImpl<base64::DecodeError> for ServiceException {
    open spec fn obeys_from_spec() -> bool {
        false
    }

    open spec fn from_spec(e: base64::DecodeError) -> ServiceException {
        arbitrary()
    }
}

} // verus!
