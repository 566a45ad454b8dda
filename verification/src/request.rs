//! The page path that a web request asks for.
use crate::db::{percent_decode, percent_decoded};
use crate::url::starts_with_slash;
use vstd::prelude::*;

verus! {

/// `url` with a leading slash added when it has none.
pub open spec fn spec_with_leading_slash(url: Seq<char>) -> Seq<char> {
    if starts_with_slash(url) {
        url
    } else {
        seq!['/'] + url
    }
}

/// The path that a CGI request URI asks for: the URI behind a leading slash
/// (added when missing), percent-decoded as UTF-8. An error when the decoded
/// bytes are not UTF-8.
pub fn request_path(uri: &str) -> (res: Result<String, std::string::FromUtf8Error>)
    ensures
        res is Ok <==> vstd::utf8::valid_utf8(
            percent_decoded(vstd::utf8::encode_utf8(spec_with_leading_slash(uri@))),
        ),
        res matches Ok(path) ==> path@ == vstd::utf8::decode_utf8(
            percent_decoded(vstd::utf8::encode_utf8(spec_with_leading_slash(uri@))),
        ),
{
    let n = uri.unicode_len();
    if n == 0 || uri.get_char(0) != '/' {
        proof {
            reveal_strlit("/");
        }
        let mut prefixed = String::new();
        prefixed.append("/");
        prefixed.append(uri);
        assert(prefixed@ =~= seq!['/'] + uri@);
        percent_decode(prefixed.as_str())
    } else {
        percent_decode(uri)
    }
}

} // verus!
