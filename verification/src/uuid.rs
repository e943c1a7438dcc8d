//! Bluetooth UUIDs in their canonical text form.

use vstd::prelude::*;
use vstd::string::*;

verus! {

/// The lowercase equivalent of `text`, as the Unicode character database
/// defines it.
pub uninterp spec fn unicode_lowercase(text: Seq<char>) -> Seq<char>;

/// `str::to_lowercase` of the standard library. Its result is a function of
/// the text alone; what that function is on a given text is not stated here.
#[verifier::external_body]
fn to_lowercase(text: &str) -> (lower: String)
    ensures
        lower@ == unicode_lowercase(text@),
{
    text.to_lowercase()
}

/// A UUID of fewer characters than this is taken for a short alias.
pub const SHORT_ALIAS_LIMIT: usize = 8;

/// The characters of a short alias that go into the full UUID: those at
/// offsets 2 and 3, as far as the alias has them.
pub open spec fn alias_digits(alias: Seq<char>) -> Seq<char> {
    let from = if alias.len() < 2 {
        alias.len() as int
    } else {
        2
    };
    let to = if alias.len() < 4 {
        alias.len() as int
    } else {
        4
    };
    alias.subrange(from, to)
}

/// The full UUID for a lowercase UUID: a short alias is set into the
/// Bluetooth base UUID, anything longer is already full.
pub open spec fn spec_expand_short_uuid(lower: Seq<char>) -> Seq<char> {
    if lower.len() < SHORT_ALIAS_LIMIT {
        "0000"@ + alias_digits(lower) + "-0000-1000-8000-00805f9b34fb"@
    } else {
        lower
    }
}

/// The canonical form of a UUID as the wire carries it.
pub open spec fn spec_uuid_convert(uuid: Seq<char>) -> Seq<char> {
    spec_expand_short_uuid(unicode_lowercase(uuid))
}

/// Sets a short alias into the Bluetooth base UUID. `lower` is a UUID that
/// has been lowercased already; one of eight characters or more is returned
/// as it is.
pub fn expand_short_uuid(lower: String) -> (uuid: String)
    ensures
        uuid@ == spec_expand_short_uuid(lower@),
{
    let len = lower.as_str().unicode_len();
    if len < SHORT_ALIAS_LIMIT {
        let from: usize = if len < 2 {
            len
        } else {
            2
        };
        let to: usize = if len < 4 {
            len
        } else {
            4
        };
        let mut uuid = String::from_str("0000");
        uuid.append(lower.as_str().substring_char(from, to));
        uuid.append("-0000-1000-8000-00805f9b34fb");
        uuid
    } else {
        lower
    }
}

/// Brings a UUID into its canonical form: lowercase, and full.
pub fn uuid_convert(uuid: String) -> (canonical: String)
    ensures
        canonical@ == spec_uuid_convert(uuid@),
{
    expand_short_uuid(to_lowercase(uuid.as_str()))
}

/// A UUID whose lowercase form is no short alias is only lowercased.
pub proof fn lemma_full_uuid_is_lowercased(uuid: Seq<char>)
    requires
        unicode_lowercase(uuid).len() >= SHORT_ALIAS_LIMIT,
    ensures
        spec_uuid_convert(uuid) == unicode_lowercase(uuid),
{
}

/// Converting a UUID twice gives one answer: what the function may return
/// is fixed by the UUID.
pub proof fn lemma_uuid_convert_repeatable(uuid: String, first: String, second: String)
    requires
        call_ensures(uuid_convert, (uuid,), first),
        call_ensures(uuid_convert, (uuid,), second),
    ensures
        first@ == second@,
{
}

} // verus!
