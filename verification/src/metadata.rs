//! Descriptive metadata for minted items, composed deterministically from
//! the template fields: a JSON document carried inline in a base64 data
//! URI, and the token-metadata fields attached to the freshly minted item.

use base64::Engine;
use vstd::prelude::*;
use vstd::string::StrSliceExecFns;
use vstd::string::StringExecFns;

use crate::cosmetics::CosmeticTemplate;

verus! {

/// What base64's standard engine returns for a text: the padded
/// standard-alphabet encoding of the text's UTF-8 bytes, a pure function
/// of the text.
pub uninterp spec fn base64_of(text: Seq<char>) -> Seq<char>;

/// Relies on base64's `Engine::encode` with the `STANDARD` engine: the
/// padded standard-alphabet encoding of the input bytes, depending on the
/// input alone; an empty input encodes to an empty string.
#[verifier::external_body]
fn base64_encode(text: &str) -> (r: String)
    requires
        text@.len() <= usize::MAX / 8,
    ensures
        r@ == base64_of(text@),
        text@.len() == 0 ==> r@.len() == 0,
{
    base64::engine::general_purpose::STANDARD.encode(text.as_bytes())
}

/// Relies on `String::push`: appends the character to the end.
#[verifier::external_body]
fn push_char(s: &mut String, c: char)
    requires
        old(s)@.len() < usize::MAX / 8,
    ensures
        final(s)@ == old(s)@ + seq![c],
{
    s.push(c);
}

/// How one character is folded into a URL slug: spaces become dashes and
/// ASCII capitals become lower case; everything else is kept.
pub open spec fn spec_slug_char(c: char) -> char {
    if c == ' ' {
        '-'
    } else if 65 <= c as int <= 90 {
        ((c as int) + 32) as char
    } else {
        c
    }
}

/// A display name folded character by character into a URL slug.
pub open spec fn spec_slug(text: Seq<char>) -> Seq<char> {
    Seq::new(text.len(), |i: int| spec_slug_char(text[i]))
}

fn slug_char(c: char) -> (r: char)
    ensures
        r == spec_slug_char(c),
{
    match c {
        ' ' => '-',
        'A' => 'a',
        'B' => 'b',
        'C' => 'c',
        'D' => 'd',
        'E' => 'e',
        'F' => 'f',
        'G' => 'g',
        'H' => 'h',
        'I' => 'i',
        'J' => 'j',
        'K' => 'k',
        'L' => 'l',
        'M' => 'm',
        'N' => 'n',
        'O' => 'o',
        'P' => 'p',
        'Q' => 'q',
        'R' => 'r',
        'S' => 's',
        'T' => 't',
        'U' => 'u',
        'V' => 'v',
        'W' => 'w',
        'X' => 'x',
        'Y' => 'y',
        'Z' => 'z',
        _ => c,
    }
}

/// Fold a display name into the URL slug used under the item's external
/// address.
pub fn slug_of(text: &str) -> (r: String)
    requires
        text@.len() < usize::MAX / 8,
    ensures
        r@ == spec_slug(text@),
{
    let n = text.unicode_len();
    let mut out = String::new();
    let mut i: usize = 0;
    while i < n
        invariant
            n == text@.len(),
            n < usize::MAX / 8,
            i <= n,
            out@ =~= spec_slug(text@).subrange(0, i as int),
        decreases n - i,
    {
        let c = text.get_char(i);
        push_char(&mut out, slug_char(c));
        assert(out@ =~= spec_slug(text@).subrange(0, i + 1));
        i = i + 1;
    }
    assert(out@ =~= spec_slug(text@));
    out
}

/// Whether the template's display fields are small enough for the metadata
/// document to be composed within the machine's limits.
pub open spec fn uri_fields_bounded(d: CosmeticTemplate) -> bool {
    &&& d.name@.len() <= 0x100_0000
    &&& d.description@.len() <= 0x100_0000
    &&& d.cosmetic_type@.len() <= 0x100_0000
    &&& d.rarity@.len() <= 0x100_0000
    &&& d.collection@.len() <= 0x100_0000
    &&& d.image_cid@.len() <= 0x100_0000
}

/// The boolean's spelling inside the JSON document.
pub open spec fn spec_bool_text(b: bool) -> Seq<char> {
    if b {
        "true"@
    } else {
        "false"@
    }
}

/// The JSON document describing one minted item, composed field by field
/// from its template.
pub open spec fn spec_metadata_json(d: CosmeticTemplate) -> Seq<char> {
    "{\"name\":\""@ + d.name@ + "\",\"symbol\":\"NEOCOS\",\"description\":\""@ + d.description@
        + "\",\"image\":\"ipfs://"@ + d.image_cid@
        + "\",\"external_url\":\"https://neoengine.xyz/cosmetics/"@ + spec_slug(d.name@)
        + "\",\"attributes\":[{\"trait_type\":\"Type\",\"value\":\""@ + d.cosmetic_type@
        + "\"},{\"trait_type\":\"Rarity\",\"value\":\""@ + d.rarity@
        + "\"},{\"trait_type\":\"Collection\",\"value\":\""@ + d.collection@
        + "\"},{\"trait_type\":\"Tradable\",\"value\":\""@ + spec_bool_text(d.tradable)
        + "\"}]}"@
}

/// The item's metadata URI: the JSON document carried inline, base64
/// encoded, in a data URI.
pub open spec fn spec_metadata_uri(d: CosmeticTemplate) -> Seq<char> {
    "data:application/json;base64,"@ + base64_of(spec_metadata_json(d))
}

/// Compose the metadata URI for an item minted from this template.
pub fn generate_cosmetic_metadata_uri(cosmetic_data: &CosmeticTemplate) -> (r: String)
    requires
        uri_fields_bounded(*cosmetic_data),
    ensures
        r@ == spec_metadata_uri(*cosmetic_data),
{
    proof {
        reveal_strlit("{\"name\":\"");
        reveal_strlit("\",\"symbol\":\"NEOCOS\",\"description\":\"");
        reveal_strlit("\",\"image\":\"ipfs://");
        reveal_strlit("\",\"external_url\":\"https://neoengine.xyz/cosmetics/");
        reveal_strlit("\",\"attributes\":[{\"trait_type\":\"Type\",\"value\":\"");
        reveal_strlit("\"},{\"trait_type\":\"Rarity\",\"value\":\"");
        reveal_strlit("\"},{\"trait_type\":\"Collection\",\"value\":\"");
        reveal_strlit("\"},{\"trait_type\":\"Tradable\",\"value\":\"");
        reveal_strlit("true");
        reveal_strlit("false");
        reveal_strlit("\"}]}");
        reveal_strlit("data:application/json;base64,");
    }
    let mut json = String::new();
    json.append("{\"name\":\"");
    json.append(cosmetic_data.name.as_str());
    json.append("\",\"symbol\":\"NEOCOS\",\"description\":\"");
    json.append(cosmetic_data.description.as_str());
    json.append("\",\"image\":\"ipfs://");
    json.append(cosmetic_data.image_cid.as_str());
    json.append("\",\"external_url\":\"https://neoengine.xyz/cosmetics/");
    let slug = slug_of(cosmetic_data.name.as_str());
    json.append(slug.as_str());
    json.append("\",\"attributes\":[{\"trait_type\":\"Type\",\"value\":\"");
    json.append(cosmetic_data.cosmetic_type.as_str());
    json.append("\"},{\"trait_type\":\"Rarity\",\"value\":\"");
    json.append(cosmetic_data.rarity.as_str());
    json.append("\"},{\"trait_type\":\"Collection\",\"value\":\"");
    json.append(cosmetic_data.collection.as_str());
    json.append("\"},{\"trait_type\":\"Tradable\",\"value\":\"");
    json.append(if cosmetic_data.tradable { "true" } else { "false" });
    json.append("\"}]}");
    assert(json@ == spec_metadata_json(*cosmetic_data));
    let encoded = base64_encode(json.as_str());
    let mut uri = String::new();
    uri.append("data:application/json;base64,");
    uri.append(encoded.as_str());
    uri
}

/// The token-metadata fields attached to one freshly minted item: static
/// metadata under the program's own creator entry, with a resale fee only
/// on tradable items.
#[derive(Clone, Debug, PartialEq, Eq)]
pub struct TokenMetadata {
    pub name: String,
    pub symbol: String,
    pub uri: String,
    pub seller_fee_basis_points: u16,
    pub creator_share: u8,
    pub creator_verified: bool,
    pub is_mutable: bool,
}

/// Compose the token-metadata fields for an item minted from this template.
pub fn create_cosmetic_metadata(cosmetic_data: &CosmeticTemplate, uri: String) -> (m:
    TokenMetadata)
    ensures
        m.name@ == cosmetic_data.name@,
        m.symbol@ == "NEOCOS"@,
        m.uri == uri,
        m.seller_fee_basis_points == (if cosmetic_data.tradable {
            250u16
        } else {
            0u16
        }),
        m.creator_share == 100u8,
        !m.creator_verified,
        !m.is_mutable,
{
    TokenMetadata {
        name: cosmetic_data.name.clone(),
        symbol: "NEOCOS".to_owned(),
        uri,
        seller_fee_basis_points: if cosmetic_data.tradable {
            250
        } else {
            0
        },
        creator_share: 100,
        creator_verified: false,
        is_mutable: false,
    }
}

} // verus!
