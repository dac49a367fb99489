//! The text that the log shows of a request or a response: its header lines
//! and its body, with a placeholder for what is not text.
use vstd::prelude::*;
use vstd::string::StringExecFns;
use vstd::utf8::{decode_utf8, valid_utf8};
use crate::message::Header;

verus! {

/// Calls `String::from_utf8`, which succeeds exactly on well-formed UTF-8 and
/// then holds the text that the bytes encode.
#[verifier::external_body]
fn text_of_bytes(bytes: &Vec<u8>) -> (r: Option<String>)
    ensures
        r is Some == valid_utf8(bytes@),
        r is Some ==> r->0@ == decode_utf8(bytes@),
{
    String::from_utf8(bytes.clone()).ok()
}

/// What stands in the log for a value that is not text.
pub open spec fn placeholder() -> Seq<char> {
    "<invalid UTF-8>"@
}

/// A byte that a header value shows as text: a tab or a printable ASCII
/// character.
pub open spec fn is_visible_ascii(b: u8) -> bool {
    (32 <= b && b < 127) || b == 9
}

/// Every byte of `value` is a tab or printable ASCII.
pub open spec fn all_visible(value: Seq<u8>) -> bool {
    forall|i: int| 0 <= i < value.len() ==> is_visible_ascii(#[trigger] value[i])
}

/// A header value as the log shows it.
pub open spec fn header_value_text(value: Seq<u8>) -> Seq<char> {
    if all_visible(value) {
        value.map_values(|b: u8| b as char)
    } else {
        placeholder()
    }
}

/// One header as a line of the log: name, colon, value, line feed.
pub open spec fn header_line(h: Header) -> Seq<char> {
    h.name@ + ": "@ + header_value_text(h.value@) + "\n"@
}

/// The lines of all headers, in order, repeated names included.
pub open spec fn header_lines(headers: Seq<Header>) -> Seq<char>
    decreases headers.len(),
{
    if headers.len() == 0 {
        Seq::<char>::empty()
    } else {
        header_lines(headers.drop_last()) + header_line(headers.last())
    }
}

/// A body as the log shows it.
pub open spec fn body_text(body: Seq<u8>) -> Seq<char> {
    if valid_utf8(body) {
        decode_utf8(body)
    } else {
        placeholder()
    }
}

/// The log entry for a message: a label, the header lines and the body.
pub open spec fn message_text(label: Seq<char>, headers: Seq<Header>, body: Seq<u8>) -> Seq<char> {
    label + ":\nHeaders:\n"@ + header_lines(headers) + "\nBody:\n"@ + body_text(body)
}

/// Appends a header value as the log shows it.
fn push_header_value(out: &mut String, value: &Vec<u8>)
    ensures
        final(out)@ == old(out)@ + header_value_text(value@),
{
    let mut i: usize = 0;
    let mut visible: bool = true;
    while visible && i < value.len()
        invariant
            i <= value@.len(),
            visible ==> forall|k: int| 0 <= k < i ==> is_visible_ascii(#[trigger] value@[k]),
            !visible ==> !all_visible(value@),
        decreases value@.len() - i + (if visible { 1int } else { 0int }),
    {
        let b: u8 = value[i];
        if (32 <= b && b < 127) || b == 9 {
            i += 1;
        } else {
            visible = false;
        }
    }
    if !visible {
        out.append("<invalid UTF-8>");
        return;
    }
    let mut j: usize = 0;
    while j < value.len()
        invariant
            j <= value@.len(),
            all_visible(value@),
            out@ == old(out)@ + value@.take(j as int).map_values(|b: u8| b as char),
        decreases value@.len() - j,
    {
        out.push(value[j] as char);
        j += 1;
        assert(value@.take(j as int).map_values(|b: u8| b as char) =~= value@.take(j - 1).map_values(
            |b: u8| b as char,
        ).push(value@[j - 1] as char));
    }
    assert(value@.take(j as int) =~= value@);
}

/// The header lines of a message as the log shows them.
pub fn format_headers(headers: &Vec<Header>) -> (r: String)
    ensures
        r@ == header_lines(headers@),
{
    let mut out = String::new();
    let mut i: usize = 0;
    while i < headers.len()
        invariant
            i <= headers@.len(),
            out@ == header_lines(headers@.take(i as int)),
        decreases headers@.len() - i,
    {
        let ghost before = out@;
        out.append(headers[i].name.as_str());
        out.append(": ");
        push_header_value(&mut out, &headers[i].value);
        out.append("\n");
        i += 1;
        proof {
            let upto = headers@.take(i as int);
            assert(upto.drop_last() =~= headers@.take(i - 1));
            assert(upto.last() == headers@[i - 1]);
            assert(out@ =~= before + header_line(headers@[i - 1]));
        }
    }
    assert(headers@.take(i as int) =~= headers@);
    out
}

/// The body of a message as the log shows it.
pub fn format_body(body: &Vec<u8>) -> (r: String)
    ensures
        r@ == body_text(body@),
{
    match text_of_bytes(body) {
        Some(text) => text,
        None => "<invalid UTF-8>".to_owned(),
    }
}

/// The log entry for a message with the given headers and body.
pub fn format_message(label: &str, headers: &Vec<Header>, body: &Vec<u8>) -> (r: String)
    ensures
        r@ == message_text(label@, headers@, body@),
{
    let mut out = label.to_owned();
    out.append(":\nHeaders:\n");
    let lines = format_headers(headers);
    out.append(lines.as_str());
    out.append("\nBody:\n");
    let text = format_body(body);
    out.append(text.as_str());
    out
}

} // verus!
