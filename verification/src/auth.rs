//! Authentication of Anthropic API requests with an `x-api-key` header.

use vstd::prelude::*;

use crate::headers::{
    header_entries, header_map_insert, header_value_from_static, header_value_from_str,
    is_header_value, is_lower_header_name, is_visible_header_value,
};
use vstd::utf8::encode_utf8;

verus! {

/// Anthropic API authentication using the `x-api-key` header.
#[derive(Clone, Debug)]
pub struct AnthropicAuthProvider {
    pub api_key: String,
}

/// The API version that every request names.
pub open spec fn anthropic_version() -> Seq<char> {
    "2023-06-01"@
}

/// The headers after authentication: the key under `x-api-key` when it may
/// stand in a header (else that header is left as it was), and the API
/// version under `anthropic-version`, each replacing what the name held.
pub open spec fn with_auth_headers(
    entries: Map<Seq<char>, Seq<Seq<u8>>>,
    api_key: Seq<char>,
) -> Map<Seq<char>, Seq<Seq<u8>>> {
    let with_key = if is_header_value(encode_utf8(api_key)) {
        entries.insert("x-api-key"@, seq![encode_utf8(api_key)])
    } else {
        entries
    };
    with_key.insert("anthropic-version"@, seq![encode_utf8(anthropic_version())])
}

/// Authentication puts the whole key, as its UTF-8 bytes and whatever its
/// length, alone under `x-api-key` when the key may stand in a header, and
/// leaves that header as it was otherwise; it puts `2023-06-01` alone under
/// `anthropic-version`; every other header keeps its values.
pub proof fn law_auth_headers_hold_the_whole_key(
    entries: Map<Seq<char>, Seq<Seq<u8>>>,
    api_key: Seq<char>,
)
    ensures
        ({
            let after = with_auth_headers(entries, api_key);
            &&& is_header_value(encode_utf8(api_key)) ==> after.contains_key("x-api-key"@)
                && after["x-api-key"@] == seq![encode_utf8(api_key)]
            &&& !is_header_value(encode_utf8(api_key)) ==> (after.contains_key("x-api-key"@)
                == entries.contains_key("x-api-key"@) && (entries.contains_key("x-api-key"@)
                ==> after["x-api-key"@] == entries["x-api-key"@]))
            &&& after.contains_key("anthropic-version"@)
            &&& after["anthropic-version"@] == seq![encode_utf8("2023-06-01"@)]
            &&& forall|name: Seq<char>|
                name != "x-api-key"@ && name != "anthropic-version"@ ==> (#[trigger] after.contains_key(
                    name,
                ) == entries.contains_key(name) && (entries.contains_key(name) ==> after[name]
                    == entries[name]))
        }),
{
    reveal_strlit("x-api-key");
    reveal_strlit("anthropic-version");
    assert("x-api-key"@.len() != "anthropic-version"@.len());
}

/// Adding the authentication headers twice gives what adding them once
/// gives.
pub proof fn law_auth_headers_idempotent(
    entries: Map<Seq<char>, Seq<Seq<u8>>>,
    api_key: Seq<char>,
)
    ensures
        with_auth_headers(with_auth_headers(entries, api_key), api_key) == with_auth_headers(
            entries,
            api_key,
        ),
{
    let once = with_auth_headers(entries, api_key);
    assert(with_auth_headers(once, api_key) =~= once);
}

impl AnthropicAuthProvider {
    /// A provider that authenticates with the given key.
    pub fn new(api_key: String) -> (r: Self)
        ensures
            r.api_key@ == api_key@,
    {
        Self { api_key }
    }

    /// Adds the authentication headers, as `with_auth_headers` says.
    pub fn add_auth_headers(&self, headers: &mut http::HeaderMap)
        requires
            header_entries(*old(headers)).dom().len() < 6553,
        ensures
            header_entries(*final(headers)) == with_auth_headers(
                header_entries(*old(headers)),
                self.api_key@,
            ),
            header_entries(*final(headers)).dom().len() <= header_entries(
                *old(headers),
            ).dom().len() + 2,
    {
        proof {
            reveal_strlit("x-api-key");
            reveal_strlit("anthropic-version");
            reveal_strlit("2023-06-01");
            vstd::utf8::is_ascii_chars_encode_utf8(anthropic_version());
            assert(is_lower_header_name("x-api-key"@));
            assert(is_lower_header_name("anthropic-version"@));
            assert(is_visible_header_value(encode_utf8(anthropic_version())));
        }
        if let Ok(value) = header_value_from_str(self.api_key.as_str()) {
            header_map_insert(headers, "x-api-key", value);
        }
        header_map_insert(headers, "anthropic-version", header_value_from_static("2023-06-01"));
    }
}

} // verus!
