//! Case-insensitive matching of the media types this subsystem reacts to.

use vstd::prelude::*;

verus! {

/// ASCII lowercasing of a single byte.
pub open spec fn lower_byte(b: u8) -> u8 {
    if 65 <= b && b <= 90 {
        (b + 32) as u8
    } else {
        b
    }
}

/// Byte-string equality up to ASCII letter case.
pub open spec fn eq_ignore_case(a: Seq<u8>, b: Seq<u8>) -> bool {
    a.len() == b.len() && forall|i: int| 0 <= i < a.len() ==> lower_byte(a[i]) == lower_byte(b[i])
}

/// The bytes of `application/json`.
pub open spec fn json_media_type() -> Seq<u8> {
    seq![97u8, 112, 112, 108, 105, 99, 97, 116, 105, 111, 110, 47, 106, 115, 111, 110]
}

/// The bytes of `application/x-www-form-urlencoded`.
pub open spec fn form_media_type() -> Seq<u8> {
    seq![
        97u8, 112, 112, 108, 105, 99, 97, 116, 105, 111, 110, 47, 120, 45, 119, 119, 119, 45, 102,
        111, 114, 109, 45, 117, 114, 108, 101, 110, 99, 111, 100, 101, 100,
    ]
}

/// The view of an optional header value.
pub open spec fn opt_bytes(h: Option<&[u8]>) -> Option<Seq<u8>> {
    match h {
        Some(b) => Some(b@),
        None => None,
    }
}

/// Whether a header value names the JSON media type, case-insensitively.
pub open spec fn is_json_media(h: Seq<u8>) -> bool {
    eq_ignore_case(h, json_media_type())
}

/// Whether a header value names the form media type, case-insensitively.
pub open spec fn is_form_media(h: Seq<u8>) -> bool {
    eq_ignore_case(h, form_media_type())
}

fn lower_byte_exec(b: u8) -> (r: u8)
    ensures
        r == lower_byte(b),
{
    if 65 <= b && b <= 90 {
        b + 32
    } else {
        b
    }
}

/// Compares two byte strings up to ASCII letter case.
pub fn eq_ignore_ascii_case_bytes(a: &[u8], b: &[u8]) -> (r: bool)
    ensures
        r == eq_ignore_case(a@, b@),
{
    if a.len() != b.len() {
        return false;
    }
    let n = a.len();
    let mut i: usize = 0;
    while i < n
        invariant
            n == a@.len(),
            n == b@.len(),
            0 <= i <= n,
            forall|j: int| 0 <= j < i ==> lower_byte(a@[j]) == lower_byte(b@[j]),
        decreases n - i,
    {
        if lower_byte_exec(a[i]) != lower_byte_exec(b[i]) {
            return false;
        }
        i = i + 1;
    }
    true
}

pub(crate) fn json_media_bytes() -> (r: Vec<u8>)
    ensures
        r@ == json_media_type(),
{
    let v: Vec<u8> = vec![97u8, 112, 112, 108, 105, 99, 97, 116, 105, 111, 110, 47, 106, 115, 111, 110];
    proof {
        assert(v@ =~= json_media_type());
    }
    v
}

fn form_media_bytes() -> (r: Vec<u8>)
    ensures
        r@ == form_media_type(),
{
    let v: Vec<u8> = vec![
        97u8, 112, 112, 108, 105, 99, 97, 116, 105, 111, 110, 47, 120, 45, 119, 119, 119, 45, 102,
        111, 114, 109, 45, 117, 114, 108, 101, 110, 99, 111, 100, 101, 100,
    ];
    proof {
        assert(v@ =~= form_media_type());
    }
    v
}

/// Whether a header value is `application/json` up to letter case.
pub fn matches_json_media(h: &[u8]) -> (r: bool)
    ensures
        r == is_json_media(h@),
{
    let expected = json_media_bytes();
    eq_ignore_ascii_case_bytes(h, expected.as_slice())
}

/// Whether a header value is `application/x-www-form-urlencoded` up to
/// letter case.
pub fn matches_form_media(h: &[u8]) -> (r: bool)
    ensures
        r == is_form_media(h@),
{
    let expected = form_media_bytes();
    eq_ignore_ascii_case_bytes(h, expected.as_slice())
}

} // verus!
