//! Which highlighting language goes with a text.

use crate::net::ContentType;
use vstd::prelude::*;
use vstd::string::StrSliceExecFns;

verus! {

/// The language guessed from how a text begins: `json` after an opening brace
/// or bracket, `xml` after `<`, else `text`.
pub open spec fn detected_lang(text: Seq<char>) -> Seq<char> {
    if text.len() > 0 && (text[0] == '{' || text[0] == '[') {
        "json"@
    } else if text.len() > 0 && text[0] == '<' {
        "xml"@
    } else {
        "text"@
    }
}

/// Guesses the language of a response from its first character.
pub fn auto_detect_lang(resp_text: &str) -> (lang: &'static str)
    ensures
        lang@ == detected_lang(resp_text@),
{
    if resp_text.is_empty() {
        return "text";
    }
    let first = resp_text.get_char(0);
    if first == '{' || first == '[' {
        "json"
    } else if first == '<' {
        "xml"
    } else {
        "text"
    }
}

/// The language in which a payload of a content type is highlighted.
pub open spec fn spec_language_of(content_type: ContentType) -> Seq<char> {
    match content_type {
        ContentType::Json => "json"@,
        ContentType::Text => "text"@,
        ContentType::Form => "ini"@,
        ContentType::Xml => "xml"@,
    }
}

/// The highlighting language of a content type.
pub fn language_of(content_type: ContentType) -> (lang: &'static str)
    ensures
        lang@ == spec_language_of(content_type),
{
    match content_type {
        ContentType::Json => "json",
        ContentType::Text => "text",
        ContentType::Form => "ini",
        ContentType::Xml => "xml",
    }
}

} // verus!
