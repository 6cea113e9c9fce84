//! Entries of the XML report that the GPU query tool prints.
//!
//! The report is turned into a JSON tree by `xmltojson`, and an entry is
//! looked up in that tree by the names of the elements that enclose it. The
//! conversion is not verified: this module holds the one call into it and
//! says what the rest of the library takes on trust. The tree never leaves
//! that call: an entry is asked for by the names on the way to it and comes
//! back as text, so that everything the library goes on to do is done on
//! plain strings.

use vstd::prelude::*;
use vstd::utf8::encode_utf8;

verus! {

/// Whether `pattern` stands in `bytes` at index `at`.
pub open spec fn occurs_at(bytes: Seq<u8>, pattern: Seq<u8>, at: int) -> bool {
    &&& 0 <= at
    &&& at + pattern.len() <= bytes.len()
    &&& bytes.subrange(at, at + pattern.len()) == pattern
}

/// Whether `pattern` stands anywhere in `bytes`.
pub open spec fn occurs(bytes: Seq<u8>, pattern: Seq<u8>) -> bool {
    exists|at: int| occurs_at(bytes, pattern, at)
}

/// Whether `pattern` stands in `bytes` at index `at`.
fn matches_at(bytes: &[u8], pattern: &[u8], at: usize) -> (found: bool)
    requires
        at + pattern@.len() <= bytes@.len(),
    ensures
        found == occurs_at(bytes@, pattern@, at as int),
{
    let n: usize = pattern.len();
    let len: usize = bytes.len();
    let mut j: usize = 0;
    while j < n
        invariant
            n == pattern@.len(),
            len == bytes@.len(),
            at + n <= len,
            j <= n,
            forall|k: int| 0 <= k < j ==> bytes@[at + k] == pattern@[k],
        decreases n - j,
    {
        if bytes[at + j] != pattern[j] {
            proof {
                let window = bytes@.subrange(at as int, at + n);
                assert(window[j as int] == bytes@[at + j]);
            }
            return false;
        }
        j = j + 1;
    }
    assert(bytes@.subrange(at as int, at + n) =~= pattern@);
    true
}

/// Whether `pattern` stands anywhere in `bytes`.
pub fn contains_bytes(bytes: &[u8], pattern: &[u8]) -> (found: bool)
    ensures
        found == occurs(bytes@, pattern@),
{
    let n: usize = pattern.len();
    let len: usize = bytes.len();
    if n > len {
        return false;
    }
    let last: usize = len - n;
    let mut at: usize = 0;
    loop
        invariant
            n == pattern@.len(),
            len == bytes@.len(),
            last == len - n,
            at <= last,
            forall|k: int| 0 <= k < at ==> !occurs_at(bytes@, pattern@, k),
        decreases last - at,
    {
        if matches_at(bytes, pattern, at) {
            return true;
        }
        if at == last {
            return false;
        }
        at = at + 1;
    }
}

/// The bytes of `<#cdata`, the opening of an element named `#cdata`.
pub open spec fn cdata_element() -> Seq<u8> {
    seq![0x3cu8, 0x23u8, 0x63u8, 0x64u8, 0x61u8, 0x74u8, 0x61u8]
}

/// A report that can be handed to the conversion: one that opens no element
/// named `#cdata`. No XML name begins with `#`, so no well-formed report does.
/// The conversion files a CDATA section under that very key and takes for
/// granted that only text is found there.
pub open spec fn convertible(report: Seq<char>) -> bool {
    !occurs(encode_utf8(report), cdata_element())
}

/// Whether a report can be handed to the conversion.
pub fn is_convertible(report: &str) -> (ok: bool)
    ensures
        ok == convertible(report@),
{
    let marker: [u8; 7] = [0x3c, 0x23, 0x63, 0x64, 0x61, 0x74, 0x61];
    assert(marker@ =~= cdata_element());
    !contains_bytes(report.as_bytes(), marker.as_slice())
}

/// The text of one entry of a report, as the conversion renders it: the JSON
/// tree that `xmltojson::to_json` builds from `report`, indexed in turn by the
/// four element names, and what is found there written out as JSON text. An
/// entry that holds text is rendered within double quotes, one that is missing
/// from the report as the word `null`. `None` stands for a report that the
/// conversion gives up on.
pub uninterp spec fn entry_text(
    report: Seq<char>,
    root: Seq<char>,
    device: Seq<char>,
    section: Seq<char>,
    field: Seq<char>,
) -> Option<Seq<char>>;

/// The view of a text that may be absent.
pub open spec fn text_view(text: Option<String>) -> Option<Seq<char>> {
    match text {
        Some(t) => Some(t@),
        None => None,
    }
}

/// Calls `xmltojson::to_json` on the report, indexes the `serde_json::Value`
/// that comes back by `root`, `device`, `section` and `field` in turn, and
/// renders what it finds with `to_string`.
///
/// Taken on trust: the rendered text depends on the five arguments alone, so
/// it is the value of `entry_text` on their views. Nothing is claimed about
/// what that text holds. The precondition keeps out the reports on which the
/// conversion panics; indexing a `Value` by a name and rendering it do not
/// fail. The conversion descends into nested elements by recursion and so
/// takes stack in proportion to the depth of the report, of which the
/// contract does not speak.
#[verifier::external_body]
pub(crate) fn read_entry(
    report: &str,
    root: &str,
    device: &str,
    section: &str,
    field: &str,
) -> (text: Option<String>)
    requires
        convertible(report@),
    ensures
        text_view(text) == entry_text(report@, root@, device@, section@, field@),
{
    match xmltojson::to_json(report) {
        Ok(tree) => Some(tree[root][device][section][field].to_string()),
        Err(_) => None,
    }
}

} // verus!
