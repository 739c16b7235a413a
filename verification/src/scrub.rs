//! Redaction of secrets from CLI output before it goes into a diagnostics
//! bundle.
use vstd::prelude::*;

use crate::json::{Json, JsonNumber, JsonView};
use crate::text::{ascii_lower, ascii_lowercase, contains, contains_str, lossy_text, text, utf8_lossy};

verus! {

/// `key: value` / `key=value` assignments of secret-looking keys.
pub const ASSIGNMENT_PATTERN: &'static str = r#"(?i)(secret(?:[ _-]?access[ _-]?key)?|password|authorization|auth[_-]?token)(\s*[:=]\s*)(?:\"[^\"\r\n]*\"|'[^'\r\n]*'|[^\s,}\]]+)"#;

/// `Bearer <token>`.
pub const BEARER_PATTERN: &'static str = r"(?i)\bbearer\s+[^\s,}\]]+";

/// A bare 40-character token, the shape of a secret access key.
pub const SECRET_TOKEN_PATTERN: &'static str = r"\b[A-Za-z0-9_+/=-]{40}\b";

/// Whether `regex::Regex::new` accepts the pattern.
pub uninterp spec fn regex_valid(pattern: Seq<char>) -> bool;

/// What `regex::Regex::replace_all` makes of `haystack`: every
/// non-overlapping match of `pattern` replaced by `replacement`, with its
/// `$name` group references expanded.
pub uninterp spec fn regex_replaced(
    pattern: Seq<char>,
    haystack: Seq<char>,
    replacement: Seq<char>,
) -> Seq<char>;

/// `regex::Regex::new(pattern)`, then `replace_all(haystack, replacement)`
/// on the compiled expression. Nothing comes back when the pattern does not
/// compile; otherwise the named replacement of the haystack.
#[verifier::external_body]
fn regex_replace_all(pattern: &str, haystack: &str, replacement: &str) -> (r: Option<String>)
    ensures
        r is Some <==> regex_valid(pattern@),
        r matches Some(s) ==> s@ == regex_replaced(pattern@, haystack@, replacement@),
{
    match regex::Regex::new(pattern) {
        Ok(re) => Some(re.replace_all(haystack, replacement).into_owned()),
        Err(_) => None,
    }
}

/// One replacement pass; a pattern that does not compile leaves the text as it is.
pub open spec fn pass(pattern: Seq<char>, s: Seq<char>, replacement: Seq<char>) -> Seq<char> {
    if regex_valid(pattern) {
        regex_replaced(pattern, s, replacement)
    } else {
        s
    }
}

/// The text with secret assignments, bearer tokens and bare 40-character
/// tokens redacted, in that order.
pub open spec fn scrubbed_text(s: Seq<char>) -> Seq<char> {
    pass(
        SECRET_TOKEN_PATTERN@,
        pass(BEARER_PATTERN@, pass(ASSIGNMENT_PATTERN@, s, "$1$2[REDACTED]"@), "Bearer [REDACTED]"@),
        "[REDACTED]"@,
    )
}

fn replace_pass(pattern: &str, s: String, replacement: &str) -> (r: String)
    ensures
        r@ == pass(pattern@, s@, replacement@),
{
    match regex_replace_all(pattern, s.as_str(), replacement) {
        Some(t) => t,
        None => s,
    }
}

/// Redacts secret-looking text: `secret`/`password`/`authorization`/
/// `auth token` assignments keep their key and separator, bearer tokens
/// keep the word `Bearer`, and bare 40-character tokens go entirely.
pub fn scrub_secrets(input: &str) -> (r: String)
    ensures
        r@ == scrubbed_text(input@),
{
    let s = replace_pass(ASSIGNMENT_PATTERN, text(input), "$1$2[REDACTED]");
    let s = replace_pass(BEARER_PATTERN, s, "Bearer [REDACTED]");
    replace_pass(SECRET_TOKEN_PATTERN, s, "[REDACTED]")
}

/// An object key whose value is redacted outright.
pub open spec fn secret_key(key: Seq<char>) -> bool {
    let k = ascii_lower(key);
    contains(k, "secret"@) || contains(k, "password"@) || contains(k, "authorization"@) || contains(
        k,
        "auth_token"@,
    ) || contains(k, "auth-token"@)
}

/// A JSON value with the values of secret keys replaced by "[REDACTED]"
/// and every string scrubbed, at any depth.
pub open spec fn scrubbed(v: JsonView) -> JsonView
    decreases v,
{
    match v {
        JsonView::Str(s) => JsonView::Str(scrubbed_text(s)),
        JsonView::Array(items) => JsonView::Array(
            Seq::new(
                items.len(),
                |i: int|
                    if 0 <= i < items.len() {
                        scrubbed(items[i])
                    } else {
                        JsonView::Null
                    },
            ),
        ),
        JsonView::Object(entries) => JsonView::Object(
            Seq::new(
                entries.len(),
                |i: int|
                    if 0 <= i < entries.len() {
                        (
                            entries[i].0,
                            if secret_key(entries[i].0) {
                                JsonView::Str("[REDACTED]"@)
                            } else {
                                scrubbed(entries[i].1)
                            },
                        )
                    } else {
                        (Seq::empty(), JsonView::Null)
                    },
            ),
        ),
        _ => v,
    }
}

/// Scrubbing redacts every value kept under a secret key, at the top of
/// an object, and keeps the object's keys and their order.
pub proof fn secret_values_are_redacted(entries: Seq<(Seq<char>, JsonView)>, i: int)
    requires
        0 <= i < entries.len(),
    ensures
        scrubbed(JsonView::Object(entries)) matches JsonView::Object(out) && out.len() == entries.len()
            && out[i].0 == entries[i].0 && (secret_key(entries[i].0) ==> out[i].1 == JsonView::Str(
            "[REDACTED]"@,
        )),
{
}

fn is_secret_key(key: &str) -> (r: bool)
    ensures
        r == secret_key(key@),
{
    let k = ascii_lowercase(key);
    contains_str(k.as_str(), "secret") || contains_str(k.as_str(), "password") || contains_str(
        k.as_str(),
        "authorization",
    ) || contains_str(k.as_str(), "auth_token") || contains_str(k.as_str(), "auth-token")
}

/// The scrubbed copy of a JSON value.
pub fn scrubbed_json(value: &Json) -> (r: Json)
    ensures
        r@ == scrubbed(value@),
    decreases value,
{
    match value {
        Json::Null => Json::Null,
        Json::Bool(b) => Json::Bool(*b),
        Json::Number(n) => Json::Number(JsonNumber { unsigned: n.unsigned, text: n.text.clone() }),
        Json::String(s) => Json::String(scrub_secrets(s.as_str())),
        Json::Array(items) => {
            let mut out: Vec<Json> = Vec::new();
            let mut i: usize = 0;
            while i < items.len()
                invariant
                    *value == Json::Array(*items),
                    i <= items@.len(),
                    out@.len() == i,
                    forall|k: int| 0 <= k < i ==> (#[trigger] out@[k])@ == scrubbed(items@[k]@),
                decreases items@.len() - i,
            {
                assert(decreases_to!(*value => (*value)->Array_0));
                assert(decreases_to!(*items => items@));
                assert(decreases_to!(items@ => items@[i as int]));
                assert(decreases_to!(*value => items@[i as int]));
                let x = scrubbed_json(&items[i]);
                out.push(x);
                i += 1;
            }
            let r = Json::Array(out);
            assert(r@ =~= scrubbed(value@)) by {
                if let JsonView::Array(a) = r@ {
                    if let JsonView::Array(b) = scrubbed(value@) {
                        assert(a =~= b);
                    }
                }
            }
            r
        },
        Json::Object(entries) => {
            let mut out: Vec<(String, Json)> = Vec::new();
            let mut i: usize = 0;
            while i < entries.len()
                invariant
                    *value == Json::Object(*entries),
                    i <= entries@.len(),
                    out@.len() == i,
                    forall|k: int|
                        0 <= k < i ==> (#[trigger] out@[k]).0@ == entries@[k].0@ && out@[k].1@ == (
                        if secret_key(entries@[k].0@) {
                            JsonView::Str("[REDACTED]"@)
                        } else {
                            scrubbed(entries@[k].1@)
                        }),
                decreases entries@.len() - i,
            {
                let key = entries[i].0.clone();
                if is_secret_key(key.as_str()) {
                    out.push((key, Json::String(text("[REDACTED]"))));
                } else {
                    assert(decreases_to!(*value => (*value)->Object_0));
                    assert(decreases_to!(*entries => entries@));
                    assert(decreases_to!(entries@ => entries@[i as int]));
                    assert(decreases_to!(entries@[i as int] => entries@[i as int].1));
                    assert(decreases_to!(*value => entries@[i as int].1));
                    let x = scrubbed_json(&entries[i].1);
                    out.push((key, x));
                }
                i += 1;
            }
            let r = Json::Object(out);
            assert(r@ =~= scrubbed(value@)) by {
                if let JsonView::Object(a) = r@ {
                    if let JsonView::Object(b) = scrubbed(value@) {
                        assert(a =~= b);
                    }
                }
            }
            r
        },
    }
}

/// Scrubs a JSON value in place.
pub fn scrub_json(value: &mut Json)
    ensures
        final(value)@ == scrubbed(old(value)@),
{
    let r = scrubbed_json(value);
    *value = r;
}

/// What a command's output becomes in a diagnostics bundle: its scrubbed
/// JSON when it parsed (`parsed` is the output parsed as JSON, or the
/// parser's message), else its scrubbed text.
pub fn scrub_output(parsed: Result<Json, String>, bytes: &[u8]) -> (r: Json)
    ensures
        match parsed {
            Ok(v) => r@ == scrubbed(v@),
            Err(_) => r@ == JsonView::Str(scrubbed_text(utf8_lossy(bytes@))),
        },
{
    match parsed {
        Ok(v) => scrubbed_json(&v),
        Err(_) => Json::String(scrub_secrets(lossy_text(bytes).as_str())),
    }
}

} // verus!
