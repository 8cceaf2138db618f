use vstd::prelude::*;
use vstd::string::*;

use crate::bytes::{eq_ascii_case_insensitive, eq_ignore_ascii_case};

verus! {

/// An encoding of the Encoding Standard (as `encoding_rs` implements it),
/// known by its canonical name, such as `windows-1252` or `UTF-8`.
#[derive(Debug, Clone, Copy, PartialEq, Eq)]
pub struct StandardEncoding {
    name: &'static str,
}

impl View for StandardEncoding {
    type V = Seq<char>;

    closed spec fn view(&self) -> Seq<char> {
        self.name@
    }
}

impl StandardEncoding {
    /// The canonical name of the encoding.
    pub fn name(&self) -> (r: &'static str)
        ensures
            r@ == self@,
    {
        self.name
    }
}

/// The names of an optional encoding.
pub open spec fn encoding_name_of(e: Option<StandardEncoding>) -> Option<Seq<char>> {
    match e {
        Some(e) => Some(e@),
        None => None,
    }
}

/// The canonical name of the encoding that `encoding_rs` finds for a label
/// with `Encoding::for_label_no_replacement`, if it finds one.
pub uninterp spec fn label_encoding_name(label: Seq<u8>) -> Option<Seq<char>>;

/// Looks a label up with `encoding_rs::Encoding::for_label_no_replacement`
/// and keeps the name of the encoding found.
///
/// Claimed of the outside function: its result is the named
/// `label_encoding_name` of the label; it never yields the `replacement`
/// encoding (its documentation says it returns `None` instead); and, as its
/// documentation says, the label is matched after ASCII lowercasing, so labels
/// that differ only in ASCII case give the same result.
#[verifier::external_body]
fn encoding_for_label(label: &[u8]) -> (r: Option<StandardEncoding>)
    ensures
        encoding_name_of(r) == label_encoding_name(label@),
        r matches Some(e) ==> e@ != "replacement"@,
        forall|other: Seq<u8>|
            #[trigger] eq_ascii_case_insensitive(other, label@) ==> label_encoding_name(other)
                == encoding_name_of(r),
{
    encoding_rs::Encoding::for_label_no_replacement(label).map(|e| StandardEncoding { name: e.name() })
}

/// The encoding `encoding_rs::X_MAC_CYRILLIC`.
///
/// Claimed of the outside static: its name is `x-mac-cyrillic`, as the crate's
/// source defines it.
#[verifier::external_body]
fn x_mac_cyrillic() -> (r: StandardEncoding)
    ensures
        r@ == "x-mac-cyrillic"@,
{
    StandardEncoding { name: encoding_rs::X_MAC_CYRILLIC.name() }
}

/// A label that names a Mac Cyrillic encoding in the detector's vocabulary.
pub open spec fn is_mac_cyrillic_label(label: Seq<u8>) -> bool {
    eq_ascii_case_insensitive(label, "MAC-CYRILLIC".spec_bytes())
}

/// A label of a stateful 7-bit encoding that the Encoding Standard maps to
/// the `replacement` encoding.
pub open spec fn is_replacement_label(label: Seq<u8>) -> bool {
    ||| eq_ascii_case_insensitive(label, "HZ-GB-2312".spec_bytes())
    ||| eq_ascii_case_insensitive(label, "ISO-2022-CN".spec_bytes())
    ||| eq_ascii_case_insensitive(label, "ISO-2022-KR".spec_bytes())
}

/// The name of the standard encoding that a detector's charset name stands for.
pub open spec fn standard_name_for(label: Seq<u8>) -> Option<Seq<char>> {
    if is_mac_cyrillic_label(label) {
        Some("x-mac-cyrillic"@)
    } else if is_replacement_label(label) {
        None
    } else {
        label_encoding_name(label)
    }
}

/// Maps a charset name, as the detector reports it, to an encoding of the
/// Encoding Standard.
///
/// `MAC-CYRILLIC` becomes `x-mac-cyrillic`; `HZ-GB-2312`, `ISO-2022-CN` and
/// `ISO-2022-KR`, which the standard only maps to its `replacement` encoding,
/// give `None`; every other name is looked up as a label. The comparison
/// ignores ASCII case, so names that differ only in ASCII case give the same
/// result.
pub fn to_standard(encoding: &str) -> (r: Option<StandardEncoding>)
    ensures
        encoding_name_of(r) == standard_name_for(encoding.spec_bytes()),
        r matches Some(e) ==> e@ != "replacement"@,
        forall|other: Seq<u8>|
            #[trigger] eq_ascii_case_insensitive(other, encoding.spec_bytes())
                ==> standard_name_for(other) == encoding_name_of(r),
{
    let label = encoding.as_bytes();
    if eq_ignore_ascii_case(label, "MAC-CYRILLIC".as_bytes()) {
        proof {
            reveal_strlit("x-mac-cyrillic");
            reveal_strlit("replacement");
            assert("x-mac-cyrillic"@[0] != "replacement"@[0]);
        }
        return Some(x_mac_cyrillic());
    }
    if eq_ignore_ascii_case(label, "HZ-GB-2312".as_bytes())
        || eq_ignore_ascii_case(label, "ISO-2022-CN".as_bytes())
        || eq_ignore_ascii_case(label, "ISO-2022-KR".as_bytes())
    {
        return None;
    }
    encoding_for_label(label)
}

} // verus!

verus! {

/// What the mapping of charset names does, over every name: a name equal to
/// `MAC-CYRILLIC` ignoring ASCII case gives `x-mac-cyrillic`; a name equal
/// to `HZ-GB-2312`, `ISO-2022-CN` or `ISO-2022-KR` ignoring ASCII case gives
/// nothing; every other name gives exactly what `encoding_rs` finds for it
/// as a label. So nothing else is refused, and `x-mac-cyrillic` comes only
/// from `MAC-CYRILLIC` or from a label that `encoding_rs` maps to it.
pub proof fn lemma_standard_name_for(label: Seq<u8>)
    ensures
        eq_ascii_case_insensitive(label, "MAC-CYRILLIC".spec_bytes()) ==> standard_name_for(label)
            == Some("x-mac-cyrillic"@),
        eq_ascii_case_insensitive(label, "HZ-GB-2312".spec_bytes()) ==> standard_name_for(
            label,
        ) is None,
        eq_ascii_case_insensitive(label, "ISO-2022-CN".spec_bytes()) ==> standard_name_for(
            label,
        ) is None,
        eq_ascii_case_insensitive(label, "ISO-2022-KR".spec_bytes()) ==> standard_name_for(
            label,
        ) is None,
        !eq_ascii_case_insensitive(label, "MAC-CYRILLIC".spec_bytes())
            && !eq_ascii_case_insensitive(label, "HZ-GB-2312".spec_bytes())
            && !eq_ascii_case_insensitive(label, "ISO-2022-CN".spec_bytes())
            && !eq_ascii_case_insensitive(label, "ISO-2022-KR".spec_bytes()) ==> standard_name_for(
            label,
        ) == label_encoding_name(label),
        standard_name_for(label) is None ==> {
            ||| eq_ascii_case_insensitive(label, "HZ-GB-2312".spec_bytes())
            ||| eq_ascii_case_insensitive(label, "ISO-2022-CN".spec_bytes())
            ||| eq_ascii_case_insensitive(label, "ISO-2022-KR".spec_bytes())
            ||| label_encoding_name(label) is None
        },
        standard_name_for(label) == Some("x-mac-cyrillic"@) ==> {
            ||| eq_ascii_case_insensitive(label, "MAC-CYRILLIC".spec_bytes())
            ||| label_encoding_name(label) == Some("x-mac-cyrillic"@)
        },
{
    broadcast use vstd::string::is_ascii_spec_bytes;

    reveal_strlit("MAC-CYRILLIC");
    reveal_strlit("HZ-GB-2312");
    reveal_strlit("ISO-2022-CN");
    reveal_strlit("ISO-2022-KR");
    assert(is_ascii("MAC-CYRILLIC"));
    assert(is_ascii("HZ-GB-2312"));
    assert(is_ascii("ISO-2022-CN"));
    assert(is_ascii("ISO-2022-KR"));
    let mac = crate::bytes::ascii_lowercase("MAC-CYRILLIC".spec_bytes());
    assert(mac.len() == 12);
    assert(crate::bytes::ascii_lowercase("HZ-GB-2312".spec_bytes()).len() == 10);
    assert(crate::bytes::ascii_lowercase("ISO-2022-CN".spec_bytes()).len() == 11);
    assert(crate::bytes::ascii_lowercase("ISO-2022-KR".spec_bytes()).len() == 11);
}

} // verus!
