//! Request and error bodies, and the JSON error object.

use crate::reply::{bad, Reply};
use crate::text::byte_hex;
use vstd::prelude::*;

verus! {

/// How a JSON string literal writes one character: `"` and `\\` behind a
/// backslash, the short escapes `\b \t \n \f \r`, `\u00xx` (lower-case
/// hex) for the other control characters below U+0020, and every other
/// character as it is.
pub open spec fn json_escaped_char(c: char) -> Seq<char> {
    if c == '"' {
        seq!['\\', '"']
    } else if c == '\\' {
        seq!['\\', '\\']
    } else if c == '\u{8}' {
        seq!['\\', 'b']
    } else if c == '\t' {
        seq!['\\', 't']
    } else if c == '\n' {
        seq!['\\', 'n']
    } else if c == '\u{c}' {
        seq!['\\', 'f']
    } else if c == '\r' {
        seq!['\\', 'r']
    } else if (c as u32) < 0x20 {
        seq!['\\', 'u', '0', '0'] + byte_hex(c as u8)
    } else {
        seq![c]
    }
}

/// The characters of `text`, each written as in a JSON string literal.
pub open spec fn json_escaped(text: Seq<char>) -> Seq<char>
    decreases text.len(),
{
    if text.len() == 0 {
        Seq::empty()
    } else {
        json_escaped(text.drop_last()) + json_escaped_char(text.last())
    }
}

/// The JSON string literal of `text`: the escaped text between quotes.
pub open spec fn json_string_literal(text: Seq<char>) -> Seq<char> {
    seq!['"'] + json_escaped(text) + seq!['"']
}

/// Whether a character is written as it is in a JSON string literal.
pub open spec fn is_plain_char(c: char) -> bool {
    c != '"' && c != '\\' && (c as u32) >= 0x20
}

/// A text of plain characters is written verbatim between the quotes.
pub proof fn law_plain_text_verbatim(text: Seq<char>)
    requires
        forall|i: int| 0 <= i < text.len() ==> is_plain_char(#[trigger] text[i]),
    ensures
        json_escaped(text) == text,
        json_string_literal(text) == seq!['"'] + text + seq!['"'],
    decreases text.len(),
{
    if text.len() > 0 {
        let rest = text.drop_last();
        assert forall|i: int| 0 <= i < rest.len() implies is_plain_char(#[trigger] rest[i]) by {
            assert(rest[i] == text[i]);
        }
        law_plain_text_verbatim(rest);
        let c = text.last();
        assert(is_plain_char(text[text.len() - 1]));
        assert(c != '\u{8}' && c != '\t' && c != '\n' && c != '\u{c}' && c != '\r') by {
            assert((c as u32) >= 0x20);
        }
        assert(json_escaped_char(c) == seq![c]);
        assert(text =~= rest + seq![c]);
    } else {
        assert(text =~= Seq::<char>::empty());
    }
}

/// Encodes `text` as a JSON string literal through `blazingly_json::to_string`.
///
/// Trusted: claims that the encoder always answers for a string, and that
/// its answer is `json_string_literal(text)`. In blazingly-json 0.1.9 a
/// string is written by `Serializer::write_string` into an in-memory
/// `VecWriter` whose writes never fail; bytes that need escaping are
/// exactly `"`, `\\` and those below 0x20, escaped by the table `ESCAPE`
/// (short forms for 8, 9, 10, 12, 13, else `\u00` and two lower-case hex
/// digits); all other bytes, multi-byte characters included, are copied,
/// so the output is valid UTF-8.
#[verifier::external_body]
fn encode_json_string(text: &str) -> (encoded: Option<String>)
    ensures
        encoded is Some,
        encoded matches Some(literal) ==> literal@ == json_string_literal(text@),
{
    match blazingly_json::to_string(text) {
        Ok(literal) => Some(literal),
        Err(_) => None,
    }
}

/// The error object `{"error":<encoded>}` around an encoded string literal.
pub open spec fn error_object(encoded: Seq<char>) -> Seq<char> {
    "{\"error\":"@ + encoded + "}"@
}

/// The body used when a message could not be encoded.
pub open spec fn encode_failed_body() -> Seq<char> {
    "{\"error\":\"encode failed\"}"@
}

/// The error body for an encoding outcome of a message.
pub open spec fn error_body(encoded: Option<Seq<char>>) -> Seq<char> {
    match encoded {
        Some(literal) => error_object(literal),
        None => encode_failed_body(),
    }
}

/// The standard error object of `message`: `{"error":"<message>"}`.
pub open spec fn error_json_of(message: Seq<char>) -> Seq<char> {
    error_object(json_string_literal(message))
}

/// JSON object returned on errors.
pub struct ErrorBody {
    /// Human-readable failure.
    pub error: String,
}

/// Account create / restore fields.
pub struct SecretBody {
    pub password: String,
    pub device_secret: String,
    pub manifest_hex: Option<String>,
}

/// Emit a signed event.
pub struct EmitBody {
    pub kind: String,
    pub payload: String,
}

/// Verify a signed event hex.
pub struct VerifyBody {
    pub event_hex: String,
}

/// Change the vault password.
pub struct PasswordBody {
    pub password: String,
}

/// A durable put: the payload, and the storage tier when one is named.
pub struct PutBody {
    pub payload: String,
    pub tier: Option<String>,
}

/// A reaction in the reputation book.
pub struct ReactBody {
    pub author: String,
    pub target: String,
    pub kind: String,
    pub cluster: Option<String>,
    pub now: u64,
}

/// A new contact.
pub struct ContactBody {
    pub identity: String,
    pub messaging_public: String,
    pub petname: Option<String>,
}

/// The text of an optional field, or `default` when it is absent.
pub open spec fn or_default(value: Option<String>, default: Seq<char>) -> Seq<char> {
    match value {
        Some(text) => text@,
        None => default,
    }
}

/// A value that is given is kept, whatever it holds; only an absent value
/// takes the default.
pub proof fn law_given_value_kept(text: String, default: Seq<char>)
    ensures
        or_default(Some(text), default) == text@,
        or_default(None, default) == default,
{
}

impl SecretBody {
    /// The manifest to restore from; a restore without one is a client
    /// error "manifest_hex is required".
    pub fn manifest(&self) -> (manifest: Result<&str, Reply>)
        ensures
            match self.manifest_hex {
                Some(text) => manifest matches Ok(found) && found@ == text@,
                None => manifest matches Err(reply) && reply.status == 400 && reply.body@ == error_json_of("manifest_hex is required"@),
            },
    {
        match &self.manifest_hex {
            Some(text) => Ok(text.as_str()),
            None => Err(bad("manifest_hex is required")),
        }
    }
}

impl PutBody {
    /// The storage tier: the named one, else "critical".
    pub fn tier(&self) -> (tier: &str)
        ensures
            tier@ == or_default(self.tier, "critical"@),
            self.tier matches Some(text) ==> tier@ == text@,
            self.tier is None ==> tier@ == "critical"@,
    {
        match &self.tier {
            Some(text) => text.as_str(),
            None => "critical",
        }
    }
}

impl ReactBody {
    /// The cluster of the reaction: the named one, else empty.
    pub fn cluster(&self) -> (cluster: &str)
        ensures
            cluster@ == or_default(self.cluster, Seq::empty()),
            self.cluster matches Some(text) ==> cluster@ == text@,
            self.cluster is None ==> cluster@.len() == 0,
    {
        match &self.cluster {
            Some(text) => text.as_str(),
            None => {
                proof {
                    reveal_strlit("");
                }
                ""
            },
        }
    }
}

impl ContactBody {
    /// The petname of the contact: the given one, else empty.
    pub fn petname(&self) -> (petname: String)
        ensures
            petname@ == or_default(self.petname, Seq::empty()),
            self.petname matches Some(text) ==> petname@ == text@,
            self.petname is None ==> petname@.len() == 0,
    {
        match &self.petname {
            Some(text) => text.clone(),
            None => String::new(),
        }
    }
}

/// The error body for an already computed encoding of the message:
/// `{"error":<literal>}`, or the fixed "encode failed" object.
pub fn error_json_from(encoded: Option<String>) -> (body: String)
    ensures
        body@ == error_body(
            match encoded {
                Some(literal) => Some(literal@),
                None => None,
            },
        ),
{
    match encoded {
        Some(literal) => {
            let mut body = String::new();
            body.append("{\"error\":");
            body.append(literal.as_str());
            body.append("}");
            body
        },
        None => String::from_str("{\"error\":\"encode failed\"}"),
    }
}

/// Standard error object `{"error":"<message>"}`.
pub fn error_json(message: &str) -> (body: String)
    ensures
        body@ == error_json_of(message@),
{
    error_json_from(encode_json_string(message))
}

} // verus!
