//! The contact form and its validation rules.
use vstd::prelude::*;
use vstd::utf8::encode_utf8;
use crate::text::{is_blank, is_whitespace, str_is_blank};

verus! {

/// Longest accepted name, in UTF-8 bytes.
pub const MAX_NAME_BYTES: usize = 200;

/// Longest accepted email address, in UTF-8 bytes.
pub const MAX_EMAIL_BYTES: usize = 254;

/// Longest accepted message, in UTF-8 bytes.
pub const MAX_MESSAGE_BYTES: usize = 10_000;

/// The fields a visitor submits on the contact page.
pub struct ContactForm {
    pub name: String,
    pub email: String,
    pub message: String,
    /// Honeypot: `None`/empty for humans, non-empty means a bot filled it.
    pub _website: Option<String>,
}

/// Number of bytes of the UTF-8 encoding of `s`, which is what `str::len`
/// counts.
pub open spec fn byte_len(s: Seq<char>) -> nat {
    encode_utf8(s).len()
}

/// The first complaint about a form with these fields, if any: blank fields
/// are reported before over-long ones, and fields in the order name, email,
/// message.
pub open spec fn first_problem(name: Seq<char>, email: Seq<char>, message: Seq<char>) -> Option<Seq<char>> {
    if is_blank(name) {
        Some("Please enter your name."@)
    } else if is_blank(email) {
        Some("Please enter your email address."@)
    } else if is_blank(message) {
        Some("Please enter a message."@)
    } else if byte_len(name) > MAX_NAME_BYTES {
        Some("Name must be 200 characters or fewer."@)
    } else if byte_len(email) > MAX_EMAIL_BYTES {
        Some("Email must be 254 characters or fewer."@)
    } else if byte_len(message) > MAX_MESSAGE_BYTES {
        Some("Message must be 10,000 characters or fewer."@)
    } else {
        None
    }
}

impl ContactForm {
    /// Validate form fields and return the first human-readable error, if any.
    /// Checks empty/whitespace fields first, then maximum lengths.
    pub fn validate(&self) -> (r: Result<(), String>)
        ensures
            match first_problem(self.name@, self.email@, self.message@) {
                None => r is Ok,
                Some(msg) => r matches Err(e) && e@ == msg,
            },
    {
        if str_is_blank(self.name.as_str()) {
            return Err(String::from_str("Please enter your name."));
        }
        if str_is_blank(self.email.as_str()) {
            return Err(String::from_str("Please enter your email address."));
        }
        if str_is_blank(self.message.as_str()) {
            return Err(String::from_str("Please enter a message."));
        }
        if self.name.as_str().as_bytes().len() > MAX_NAME_BYTES {
            return Err(String::from_str("Name must be 200 characters or fewer."));
        }
        if self.email.as_str().as_bytes().len() > MAX_EMAIL_BYTES {
            return Err(String::from_str("Email must be 254 characters or fewer."));
        }
        if self.message.as_str().as_bytes().len() > MAX_MESSAGE_BYTES {
            return Err(String::from_str("Message must be 10,000 characters or fewer."));
        }
        Ok(())
    }

    /// Whether the hidden `_website` field was filled in, which only bots do:
    /// such a submission is answered as if it had been sent, and no email
    /// goes out.
    pub fn is_honeypot_filled(&self) -> (b: bool)
        ensures
            b == (self._website matches Some(w) && w@.len() > 0),
    {
        match &self._website {
            Some(w) => !w.as_str().is_empty(),
            None => false,
        }
    }
}

/// A blank field is always reported as blank, never as too long: the
/// emptiness checks come before the length checks.
pub proof fn lemma_blank_reported_before_length(name: Seq<char>, email: Seq<char>, message: Seq<char>)
    requires
        is_blank(name) || is_blank(email) || is_blank(message),
    ensures
        first_problem(name, email, message) matches Some(m) && (m == "Please enter your name."@
            || m == "Please enter your email address."@ || m == "Please enter a message."@),
{
}

/// A form that passes validation has no blank field and every field within
/// its length limit.
pub proof fn lemma_accepted_form_within_limits(name: Seq<char>, email: Seq<char>, message: Seq<char>)
    requires
        first_problem(name, email, message) is None,
    ensures
        !is_blank(name) && !is_blank(email) && !is_blank(message),
        byte_len(name) <= MAX_NAME_BYTES,
        byte_len(email) <= MAX_EMAIL_BYTES,
        byte_len(message) <= MAX_MESSAGE_BYTES,
{
}

/// A form whose three fields each hold a character that is not whitespace,
/// and which keeps every field within its byte limit, validates: no field
/// is taken as blank merely for holding spaces.
pub proof fn lemma_visible_fields_within_limits_accepted(
    name: Seq<char>,
    email: Seq<char>,
    message: Seq<char>,
    i: int,
    j: int,
    k: int,
)
    requires
        0 <= i < name.len() && !is_whitespace(name[i]),
        0 <= j < email.len() && !is_whitespace(email[j]),
        0 <= k < message.len() && !is_whitespace(message[k]),
        byte_len(name) <= MAX_NAME_BYTES,
        byte_len(email) <= MAX_EMAIL_BYTES,
        byte_len(message) <= MAX_MESSAGE_BYTES,
    ensures
        first_problem(name, email, message) is None,
{
    crate::text::lemma_blank_iff_only_whitespace(name);
    crate::text::lemma_blank_iff_only_whitespace(email);
    crate::text::lemma_blank_iff_only_whitespace(message);
}

} // verus!
