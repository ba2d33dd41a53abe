//! Identifier rules: bounded request and reference ids, UUID text, and the
//! location ids of SSH targets.

use vstd::prelude::*;

use crate::filesystem::ExplorerError;

verus! {

/// The hyphenated lowercase text form of a UUID: 8-4-4-4-12 hexadecimal digits.
pub open spec fn is_uuid_text(s: Seq<char>) -> bool {
    &&& s.len() == 36
    &&& forall|i: int|
        0 <= i < 36 ==> (if i == 8 || i == 13 || i == 18 || i == 23 {
            #[trigger] s[i] == '-'
        } else {
            ('0' <= s[i] && s[i] <= '9') || ('a' <= s[i] && s[i] <= 'f')
        })
}

/// A fresh random identifier: the text of `uuid::Uuid::new_v4()`.
///
/// Trusted: the value is random, so only its documented hyphenated form is stated.
#[verifier::external_body]
pub(crate) fn random_id() -> (r: String)
    ensures
        is_uuid_text(r@),
{
    uuid::Uuid::new_v4().to_string()
}

/// The text of the name-based UUID (version 5) that `uuid::Uuid::new_v5` derives from
/// the synced-folder namespace and `name`.
pub uninterp spec fn synced_folder_uuid(name: Seq<u8>) -> Seq<char>;

/// The namespace under which mount identities become stable location ids.
pub const GIO_SYNCED_FOLDER_NAMESPACE: u128 = 0x5369ad81_e91f_44e4_8187_58d55eac53b0u128;

/// `uuid::Uuid::new_v5(namespace, name)` rendered as text.
///
/// Trusted: the result is a function of `name` alone (the namespace is fixed), in the
/// documented hyphenated form.
#[verifier::external_body]
pub(crate) fn name_based_id(name: &Vec<u8>) -> (r: String)
    ensures
        r@ == synced_folder_uuid(name@),
        is_uuid_text(r@),
{
    uuid::Uuid::new_v5(&uuid::Uuid::from_u128(GIO_SYNCED_FOLDER_NAMESPACE), name.as_slice()).to_string()
}

/// A hexadecimal digit, in either case.
pub open spec fn is_hex_digit(c: char) -> bool {
    ('0' <= c && c <= '9') || ('a' <= c && c <= 'f') || ('A' <= c && c <= 'F')
}

/// 8-4-4-4-12 hexadecimal digits, in either case.
pub open spec fn hyphenated_uuid(s: Seq<char>) -> bool {
    &&& s.len() == 36
    &&& forall|i: int| 0 <= i < 36 ==> if i == 8 || i == 13 || i == 18 || i == 23 {
        #[trigger] s[i] == '-'
    } else {
        is_hex_digit(s[i])
    }
}

/// The texts `uuid::Uuid::parse_str` accepts: 32 hexadecimal digits, the hyphenated form,
/// the hyphenated form in braces, or the hyphenated form after `urn:uuid:` in any case.
pub open spec fn parses_as_uuid(text: Seq<char>) -> bool {
    ||| (text.len() == 32 && forall|i: int| 0 <= i < 32 ==> is_hex_digit(#[trigger] text[i]))
    ||| hyphenated_uuid(text)
    ||| (text.len() == 38 && text[0] == '{' && text[37] == '}' && hyphenated_uuid(text.subrange(1, 37)))
    ||| (text.len() == 45 && text.take(9).map_values(|c: char| if 'A' <= c && c <= 'Z' { ((c as u32) + 32) as char } else { c })
        == "urn:uuid:"@ && hyphenated_uuid(text.skip(9)))
}

/// `uuid::Uuid::parse_str(text).is_ok()`.
///
/// Trusted: the crate's parser (`try_parse`) accepts exactly the four shapes that
/// `parses_as_uuid` lists; since every accepted character is ASCII, its checks on bytes and
/// this statement on characters agree.
#[verifier::external_body]
pub(crate) fn is_uuid(text: &str) -> (r: bool)
    ensures
        r == parses_as_uuid(text@),
{
    uuid::Uuid::parse_str(text).is_ok()
}

/// The lowercase hyphenated form is one that parses.
pub proof fn lemma_uuid_text_parses(text: Seq<char>)
    requires
        is_uuid_text(text),
    ensures
        parses_as_uuid(text),
{
    assert forall|i: int| 0 <= i < 36 implies if i == 8 || i == 13 || i == 18 || i == 23 {
        #[trigger] text[i] == '-'
    } else {
        is_hex_digit(text[i])
    } by {
        assert(text[i] == text[i]);
    }
}

/// Request ids are 1 to 128 bytes long.
pub open spec fn valid_request_id(id: Seq<char>) -> bool {
    let n = vstd::utf8::encode_utf8(id).len();
    1 <= n && n <= 128
}

/// Reference ids are 1 to 256 bytes long.
pub open spec fn valid_reference_id(id: Seq<char>) -> bool {
    let n = vstd::utf8::encode_utf8(id).len();
    1 <= n && n <= 256
}

pub fn validate_request_id(request_id: &str) -> (r: Result<(), ExplorerError>)
    ensures
        r is Ok <==> valid_request_id(request_id@),
        r is Err ==> r == Err::<(), ExplorerError>(ExplorerError::InvalidReference),
{
    let n = request_id.as_bytes().len();
    if n == 0 || n > 128 {
        Err(ExplorerError::InvalidReference)
    } else {
        Ok(())
    }
}

pub fn validate_reference_id(value: &str) -> (r: Result<(), ExplorerError>)
    ensures
        r is Ok <==> valid_reference_id(value@),
        r is Err ==> r == Err::<(), ExplorerError>(ExplorerError::InvalidReference),
{
    let n = value.as_bytes().len();
    if n == 0 || n > 256 {
        Err(ExplorerError::InvalidReference)
    } else {
        Ok(())
    }
}

} // verus!
