//! Turning the text of a server's address into a URL.

use crate::outcome::text_or_text;
use vstd::prelude::*;

verus! {

/// What `reqwest`'s `IntoUrl::into_url` makes of a text that is meant as a URL:
/// the URL as it is written out, or the message of the error.
pub uninterp spec fn url_of(text: Seq<char>) -> Result<Seq<char>, Seq<char>>;

/// Calls `reqwest::IntoUrl::into_url`.
///
/// The trait is sealed: of the types that have it, those with a view as a
/// sequence of characters are `&str`, `String` and `&String`, and each is read
/// through the same parser. What is trusted: for such a text, the URL as it is
/// written out, or else the error's message, depends on the text's characters
/// alone (on targets other than WebAssembly, where `blob:` addresses are treated
/// in a way of their own). Nothing is said of which texts are URLs.
#[verifier::external_body]
fn into_url<U: reqwest::IntoUrl + View<V = Seq<char>>>(text: U) -> (outcome: Result<String, String>)
    ensures
        text_or_text(outcome) == url_of(text@),
{
    match text.into_url() {
        Ok(url) => Ok(url.as_str().to_owned()),
        Err(error) => Err(error.to_string()),
    }
}

/// Reads a text as the URL of a server: gives the URL as it is written out, or
/// says why the text is no such URL.
pub fn resolve_url(text: &str) -> (outcome: Result<String, String>)
    ensures
        text_or_text(outcome) == url_of(text@),
{
    into_url(text)
}

/// The URL is given as it is written out, and the reason why there is none is
/// given as it stands, character for character.
pub proof fn resolved_url_is_whole(text: &str, outcome: Result<String, String>)
    requires
        call_ensures(resolve_url, (text,), outcome),
    ensures
        outcome matches Ok(url) ==> url_of(text@) == Ok::<Seq<char>, Seq<char>>(url@),
        outcome matches Err(reason) ==> url_of(text@) == Err::<Seq<char>, Seq<char>>(reason@),
{
}

} // verus!
