use vstd::prelude::*;
use vstd::string::{StringExecFns, StringSliceAdditionalSpecFns};

verus! {

/// Bytes that percent-encoding leaves as they are: ASCII letters and
/// digits, `-`, `.`, `_` and `~`.
pub open spec fn is_unreserved(b: u8) -> bool {
    (48 <= b <= 57) || (65 <= b <= 90) || (97 <= b <= 122) || b == 45 || b == 46 || b == 95 || b
        == 126
}

/// An uppercase hexadecimal digit.
pub open spec fn upper_hex(d: nat) -> char {
    if d < 10 {
        (48 + d) as char
    } else {
        (55 + d) as char
    }
}

/// Percent-encoding of a byte string: every byte but the unreserved ones
/// becomes `%` and two uppercase hexadecimal digits.
pub open spec fn percent_encoded(bytes: Seq<u8>) -> Seq<char>
    decreases bytes.len(),
{
    if bytes.len() == 0 {
        Seq::empty()
    } else {
        let b = bytes[0];
        (if is_unreserved(b) {
            seq![b as char]
        } else {
            seq!['%', upper_hex((b / 16) as nat), upper_hex((b % 16) as nat)]
        }) + percent_encoded(bytes.drop_first())
    }
}

/// Relies on urlencoding::encode, which percent-encodes every byte of the
/// UTF-8 text except ASCII alphanumerics and `-`, `_`, `.`, `~`, writing
/// the hexadecimal digits in uppercase.
#[verifier::external_body]
fn url_encode(text: &str) -> (r: String)
    ensures
        r@ == percent_encoded(text.spec_bytes()),
{
    urlencoding::encode(text).into_owned()
}

/// The page the editor window opens on, with the recording to edit, if
/// any, as a percent-encoded query parameter.
pub open spec fn editor_url(recording_path: Option<Seq<u8>>) -> Seq<char> {
    match recording_path {
        Some(p) => "index.html?window=editor&recording="@ + percent_encoded(p),
        None => "index.html?window=editor"@,
    }
}

/// The URL the editor window loads for `recording_path`.
pub fn editor_window_url(recording_path: Option<&str>) -> (r: String)
    ensures
        r@ == editor_url(
            match recording_path {
                Some(p) => Some(p.spec_bytes()),
                None => None,
            },
        ),
{
    match recording_path {
        Some(path) => {
            let mut r = String::from_str("index.html?window=editor&recording=");
            let encoded = url_encode(path);
            r.append(encoded.as_str());
            r
        },
        None => String::from_str("index.html?window=editor"),
    }
}

} // verus!
