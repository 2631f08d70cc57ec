//! The sd-notify lines that are relayed from a container to the host.
use vstd::prelude::*;
use vstd::utf8::{decode_utf8, encode_utf8, valid_utf8};

use crate::socket_buffer::NEWLINE;
use crate::text::text_from_utf8;

verus! {

broadcast use vstd::slice::group_slice_axioms;

/// The byte that may stand before or in place of a newline.
pub const CARRIAGE_RETURN: u8 = 13u8;

/// The lines that are relayed when they match exactly.
pub open spec fn relayed_line(line: Seq<char>) -> bool {
    ||| line == "READY=1"@
    ||| line == "RELOADING=1"@
    ||| line == "STOPPING=1"@
    ||| line == "WATCHDOG=1"@
    ||| line == "WATCHDOG=trigger"@
}

/// The lines that are relayed for what they begin with.
pub open spec fn relayed_prefix(line: Seq<char>) -> bool {
    ||| "STATUS="@.is_prefix_of(line)
    ||| "ERRNO="@.is_prefix_of(line)
    ||| "BUSERROR="@.is_prefix_of(line)
    ||| "MONOTONIC_USEC="@.is_prefix_of(line)
}

/// Whether a notify line is relayed to the host.
pub open spec fn relayed(line: Seq<char>) -> bool {
    relayed_line(line) || relayed_prefix(line)
}

/// Whether a byte ends a notify line.
pub open spec fn line_break(b: u8) -> bool {
    b == NEWLINE || b == CARRIAGE_RETURN
}

/// Index of the first byte of `s` that ends a line, or the length of `s`.
pub open spec fn first_break(s: Seq<u8>) -> int
    decreases s.len(),
{
    if s.len() == 0 || line_break(s[0]) {
        0
    } else {
        1 + first_break(s.skip(1))
    }
}

/// Whether the bytes of a line are UTF-8 text that is relayed.
pub open spec fn relayed_bytes(line: Seq<u8>) -> bool {
    valid_utf8(line) && relayed(decode_utf8(line))
}

/// What the host is sent for one line of a datagram: the line and a newline, or nothing.
pub open spec fn relay_of_line(line: Seq<u8>) -> Seq<u8> {
    if line.len() > 0 && relayed_bytes(line) {
        line.push(NEWLINE)
    } else {
        seq![]
    }
}

/// What the host is sent for a datagram: what it is sent for each line, in order.
pub open spec fn filtered(datagram: Seq<u8>) -> Seq<u8>
    decreases datagram.len(),
    via filtered_decreases
{
    let end = first_break(datagram);
    if end < datagram.len() {
        relay_of_line(datagram.take(end)) + filtered(datagram.skip(end + 1))
    } else {
        relay_of_line(datagram)
    }
}

#[via_fn]
proof fn filtered_decreases(datagram: Seq<u8>) {
    lemma_first_break(datagram);
}

/// `first_break` is the least index that holds a byte that ends a line.
pub proof fn lemma_first_break(s: Seq<u8>)
    ensures
        0 <= first_break(s) <= s.len(),
        first_break(s) < s.len() ==> line_break(s[first_break(s)]),
        forall|k: int| 0 <= k < first_break(s) ==> !line_break(s[k]),
    decreases s.len(),
{
    if s.len() != 0 && !line_break(s[0]) {
        let rest = s.skip(1);
        lemma_first_break(rest);
        assert forall|k: int| 0 <= k < first_break(s) implies !line_break(s[k]) by {
            if k > 0 {
                assert(s[k] == rest[k - 1]);
            }
        }
    }
}

/// An index below which no byte ends a line is the first break as soon as it holds
/// one, or as soon as it is the end.
proof fn lemma_first_break_at(s: Seq<u8>, i: int)
    requires
        0 <= i <= s.len(),
        forall|k: int| 0 <= k < i ==> !line_break(s[k]),
        i < s.len() ==> line_break(s[i]),
    ensures
        first_break(s) == i,
{
    lemma_first_break(s);
}

/// Encoding keeps concatenation.
proof fn lemma_encode_concat(a: Seq<char>, b: Seq<char>)
    ensures
        encode_utf8(a + b) == encode_utf8(a) + encode_utf8(b),
    decreases a.len(),
{
    if a.len() == 0 {
        assert(a + b =~= b);
        assert(encode_utf8(a) =~= seq![]);
        assert(seq![] + encode_utf8(b) =~= encode_utf8(b));
    } else {
        assert((a + b).drop_first() =~= a.drop_first() + b);
        lemma_encode_concat(a.drop_first(), b);
        assert(encode_utf8(a + b) =~= encode_utf8(a) + encode_utf8(b));
    }
}

/// A text whose encoding begins with the encoding of another begins with that other.
proof fn lemma_encoded_prefix(a: Seq<char>, b: Seq<char>)
    requires
        encode_utf8(a).is_prefix_of(encode_utf8(b)),
    ensures
        a.is_prefix_of(b),
    decreases a.len(),
{
    if a.len() > 0 {
        let ea = encode_utf8(a);
        let eb = encode_utf8(b);
        vstd::utf8::encode_utf8_first_scalar(a);
        assert(ea.len() > 0);
        assert(b.len() > 0);
        vstd::utf8::encode_utf8_first_scalar(b);
        assert(forall|k: int| 0 <= k < ea.len() ==> ea[k] == eb[k]);
        assert(a[0] as u32 == b[0] as u32);
        vstd::utf8::char_u32_cast(a[0], a[0] as u32);
        vstd::utf8::char_u32_cast(b[0], b[0] as u32);
        assert(a[0] == b[0]);
        let n = vstd::utf8::length_of_first_scalar(ea);
        assert(encode_utf8(a.drop_first()) =~= ea.skip(n));
        assert(encode_utf8(b.drop_first()) =~= eb.skip(n));
        lemma_encoded_prefix(a.drop_first(), b.drop_first());
        assert forall|k: int| 0 <= k < a.len() implies a[k] == b[k] by {
            if k > 0 {
                assert(a[k] == a.drop_first()[k - 1]);
                assert(b[k] == b.drop_first()[k - 1]);
            }
        }
        assert(a =~= b.subrange(0, a.len() as int));
    }
}

/// Whether `text` begins with `prefix`.
fn begins_with(text: &str, prefix: &str) -> (b: bool)
    ensures
        b == prefix@.is_prefix_of(text@),
{
    let whole = text.as_bytes();
    let part = prefix.as_bytes();
    let mut same: bool = part.len() <= whole.len();
    let mut i: usize = 0;
    while same && i < part.len()
        invariant
            i <= part@.len(),
            same ==> part@.len() <= whole@.len(),
            same ==> forall|k: int| 0 <= k < i ==> part@[k] == whole@[k],
            !same ==> !part@.is_prefix_of(whole@),
        decreases part@.len() - i,
    {
        if part[i] != whole[i] {
            same = false;
        }
        i = i + 1;
    }
    proof {
        if same {
            assert(part@ =~= whole@.subrange(0, part@.len() as int));
            lemma_encoded_prefix(prefix@, text@);
        } else if prefix@.is_prefix_of(text@) {
            let rest = text@.skip(prefix@.len() as int);
            assert(text@ =~= prefix@ + rest);
            lemma_encode_concat(prefix@, rest);
            assert(part@ =~= whole@.subrange(0, part@.len() as int));
        }
    }
    same
}

/// Whether `a` and `b` are the same text.
fn same_text(a: &str, b: &str) -> (same: bool)
    ensures
        same == (a@ == b@),
{
    let ab = begins_with(a, b);
    let ba = begins_with(b, a);
    assert(b@.is_prefix_of(a@) && a@.is_prefix_of(b@) ==> a@ =~= b@);
    ab && ba
}

/// Returns whether a single notify line should be relayed to the host socket.
pub fn should_forward_notify_line(line: &str) -> (forward: bool)
    ensures
        forward == relayed(line@),
{
    same_text(line, "READY=1") || same_text(line, "RELOADING=1") || same_text(line, "STOPPING=1")
        || same_text(line, "WATCHDOG=1") || same_text(line, "WATCHDOG=trigger") || begins_with(
        line,
        "STATUS=",
    ) || begins_with(line, "ERRNO=") || begins_with(line, "BUSERROR=") || begins_with(
        line,
        "MONOTONIC_USEC=",
    )
}

/// Filter a notify datagram, keeping only the lines that are relayed.
pub fn filter_notify_payload(data: &[u8]) -> (payload: Vec<u8>)
    ensures
        payload@ == filtered(data@),
{
    let mut out: Vec<u8> = Vec::new();
    let mut start: usize = 0;
    let mut more: bool = true;
    assert(data@.skip(0) =~= data@);
    while more
        invariant
            start <= data@.len(),
            more ==> filtered(data@) == out@ + filtered(data@.skip(start as int)),
            !more ==> filtered(data@) == out@,
        decreases
                (if more {
                    data@.len() - start + 1
                } else {
                    0
                }),
    {
        let ghost rest = data@.skip(start as int);
        let mut end: usize = start;
        while end < data.len() && data[end] != NEWLINE && data[end] != CARRIAGE_RETURN
            invariant
                start <= end <= data@.len(),
                forall|k: int| start <= k < end ==> !line_break(data@[k]),
            decreases data@.len() - end,
        {
            end = end + 1;
        }
        let line = &data[start..end];
        proof {
            assert forall|k: int| 0 <= k < end - start implies !line_break(rest[k]) by {
                assert(rest[k] == data@[start + k]);
            }
            lemma_first_break_at(rest, end - start);
            assert(line@ =~= rest.take(end - start));
            assert(end < data@.len() ==> rest.skip(end - start + 1) =~= data@.skip(end + 1));
            assert(end == data@.len() ==> line@ =~= rest);
        }
        let ghost before = out@;
        if line.len() > 0 {
            if let Ok(text) = text_from_utf8(line) {
                if should_forward_notify_line(text.as_str()) {
                    out.extend_from_slice(line);
                    out.push(NEWLINE);
                }
            }
        }
        assert(out@ =~= before + relay_of_line(line@));
        if end < data.len() {
            start = end + 1;
            assert(out@ + filtered(data@.skip(start as int)) =~= before + filtered(rest));
        } else {
            more = false;
        }
    }
    out
}

/// A line that is put before a datagram, with a byte that ends it, is relayed before what is
/// relayed of the datagram.
proof fn lemma_filter_line_first(line: Seq<u8>, end_byte: u8, rest: Seq<u8>)
    requires
        forall|k: int| 0 <= k < line.len() ==> !line_break(line[k]),
        line_break(end_byte),
    ensures
        filtered(line.push(end_byte) + rest) == relay_of_line(line) + filtered(rest),
{
    let all = line.push(end_byte) + rest;
    assert forall|k: int| 0 <= k < line.len() implies !line_break(all[k]) by {
        assert(all[k] == line[k]);
    }
    assert(all[line.len() as int] == end_byte);
    lemma_first_break_at(all, line.len() as int);
    assert(all.take(line.len() as int) =~= line);
    assert(all.skip(line.len() as int + 1) =~= rest);
}

/// The lines of a datagram are filtered one by one: a newline or a carriage return between
/// two datagrams parts what is relayed of them.
pub proof fn law_filter_concat(a: Seq<u8>, end_byte: u8, b: Seq<u8>)
    requires
        end_byte == 10 || end_byte == 13,
    ensures
        filtered(a.push(end_byte) + b) == filtered(a) + filtered(b),
    decreases a.len(),
{
    let end = first_break(a);
    lemma_first_break(a);
    if end == a.len() {
        lemma_filter_line_first(a, end_byte, b);
    } else {
        let all = a.push(end_byte) + b;
        let tail = a.skip(end + 1);
        assert forall|k: int| 0 <= k < end implies !line_break(all[k]) by {
            assert(all[k] == a[k]);
        }
        assert(all[end] == a[end]);
        lemma_first_break_at(all, end);
        assert(all.take(end) =~= a.take(end));
        assert(all.skip(end + 1) =~= tail.push(end_byte) + b);
        law_filter_concat(tail, end_byte, b);
        assert(filtered(all) =~= filtered(a) + filtered(b));
    }
}

/// Filtering what was filtered changes nothing.
pub proof fn law_filter_idempotent(datagram: Seq<u8>)
    ensures
        filtered(filtered(datagram)) == filtered(datagram),
    decreases datagram.len(),
{
    let end = first_break(datagram);
    lemma_first_break(datagram);
    let line = datagram.take(end);
    assert(end == datagram.len() ==> line =~= datagram);
    let rest = if end < datagram.len() {
        datagram.skip(end + 1)
    } else {
        seq![]
    };
    assert(filtered(seq![]) =~= seq![]);
    assert(filtered(datagram) =~= relay_of_line(line) + filtered(rest));
    if end < datagram.len() {
        law_filter_idempotent(rest);
    }
    if relay_of_line(line).len() > 0 {
        lemma_filter_line_first(line, NEWLINE, filtered(rest));
    } else {
        assert(filtered(datagram) =~= filtered(rest));
    }
}

/// Whether a payload consists of relayed lines only, each ended by a newline.
pub open spec fn only_relayed_lines(payload: Seq<u8>) -> bool
    decreases payload.len(),
    via only_relayed_lines_decreases
{
    payload.len() > 0 ==> {
        let end = first_break(payload);
        &&& end < payload.len()
        &&& payload[end] == NEWLINE
        &&& relayed_bytes(payload.take(end))
        &&& only_relayed_lines(payload.skip(end + 1))
    }
}

#[via_fn]
proof fn only_relayed_lines_decreases(payload: Seq<u8>) {
    lemma_first_break(payload);
}

/// Nothing but relayed lines reaches the host.
pub proof fn law_filter_only_relayed_lines(datagram: Seq<u8>)
    ensures
        only_relayed_lines(filtered(datagram)),
    decreases datagram.len(),
{
    let end = first_break(datagram);
    lemma_first_break(datagram);
    let line = datagram.take(end);
    assert(end == datagram.len() ==> line =~= datagram);
    let rest = if end < datagram.len() {
        datagram.skip(end + 1)
    } else {
        seq![]
    };
    assert(filtered(seq![]) =~= seq![]);
    assert(filtered(datagram) =~= relay_of_line(line) + filtered(rest));
    if end < datagram.len() {
        law_filter_only_relayed_lines(rest);
    }
    assert(only_relayed_lines(filtered(rest)));
    let payload = filtered(datagram);
    if relay_of_line(line).len() > 0 {
        assert forall|k: int| 0 <= k < end implies !line_break(payload[k]) by {
            assert(payload[k] == datagram[k]);
        }
        assert(payload[end] == NEWLINE);
        lemma_first_break_at(payload, end);
        assert(payload.take(end) =~= line);
        assert(payload.skip(end + 1) =~= filtered(rest));
    } else {
        assert(payload =~= filtered(rest));
    }
}

/// The lines that are relayed: five of them as they are, and those that begin in one of four
/// ways.
pub proof fn law_relayed_lines(line: Seq<char>, rest: Seq<char>)
    ensures
        relayed("READY=1"@),
        relayed("RELOADING=1"@),
        relayed("STOPPING=1"@),
        relayed("WATCHDOG=1"@),
        relayed("WATCHDOG=trigger"@),
        relayed("STATUS="@ + rest),
        relayed("ERRNO="@ + rest),
        relayed("BUSERROR="@ + rest),
        relayed("MONOTONIC_USEC="@ + rest),
        relayed(line) ==> {
            ||| line == "READY=1"@
            ||| line == "RELOADING=1"@
            ||| line == "STOPPING=1"@
            ||| line == "WATCHDOG=1"@
            ||| line == "WATCHDOG=trigger"@
            ||| exists|tail: Seq<char>| line == #[trigger] ("STATUS="@ + tail)
            ||| exists|tail: Seq<char>| line == #[trigger] ("ERRNO="@ + tail)
            ||| exists|tail: Seq<char>| line == #[trigger] ("BUSERROR="@ + tail)
            ||| exists|tail: Seq<char>| line == #[trigger] ("MONOTONIC_USEC="@ + tail)
        },
{
    assert("STATUS="@.is_prefix_of("STATUS="@ + rest)) by {
        assert(("STATUS="@ + rest).subrange(0, "STATUS="@.len() as int) =~= "STATUS="@);
    }
    assert("ERRNO="@.is_prefix_of("ERRNO="@ + rest)) by {
        assert(("ERRNO="@ + rest).subrange(0, "ERRNO="@.len() as int) =~= "ERRNO="@);
    }
    assert("BUSERROR="@.is_prefix_of("BUSERROR="@ + rest)) by {
        assert(("BUSERROR="@ + rest).subrange(0, "BUSERROR="@.len() as int) =~= "BUSERROR="@);
    }
    assert("MONOTONIC_USEC="@.is_prefix_of("MONOTONIC_USEC="@ + rest)) by {
        assert(("MONOTONIC_USEC="@ + rest).subrange(0, "MONOTONIC_USEC="@.len() as int)
            =~= "MONOTONIC_USEC="@);
    }
    if "STATUS="@.is_prefix_of(line) {
        assert(line =~= "STATUS="@ + line.skip("STATUS="@.len() as int));
    }
    if "ERRNO="@.is_prefix_of(line) {
        assert(line =~= "ERRNO="@ + line.skip("ERRNO="@.len() as int));
    }
    if "BUSERROR="@.is_prefix_of(line) {
        assert(line =~= "BUSERROR="@ + line.skip("BUSERROR="@.len() as int));
    }
    if "MONOTONIC_USEC="@.is_prefix_of(line) {
        assert(line =~= "MONOTONIC_USEC="@ + line.skip("MONOTONIC_USEC="@.len() as int));
    }
}

/// A datagram of one line gives that line and a newline if the line is text that is relayed,
/// and nothing otherwise; it does not matter whether a newline or a carriage return ends it.
pub proof fn law_filter_of_one_line(line: Seq<u8>, end_byte: u8)
    requires
        !line.contains(10u8),
        !line.contains(13u8),
        end_byte == 10 || end_byte == 13,
    ensures
        valid_utf8(line) && relayed(decode_utf8(line)) ==> filtered(line) == line.push(10u8),
        !(valid_utf8(line) && relayed(decode_utf8(line))) ==> filtered(line) == Seq::<u8>::empty(),
        filtered(line.push(end_byte)) == filtered(line),
{
    assert forall|k: int| 0 <= k < line.len() implies !line_break(line[k]) by {
        assert(line.contains(line[k]));
    }
    lemma_first_break_at(line, line.len() as int);
    if line.len() == 0 {
        lemma_empty_is_not_relayed(line);
    }
    lemma_filter_line_first(line, end_byte, Seq::empty());
    assert(line.push(end_byte) + Seq::empty() =~= line.push(end_byte));
    assert(filtered(Seq::<u8>::empty()) =~= Seq::empty());
    assert(relay_of_line(line) + Seq::empty() =~= relay_of_line(line));
}

proof fn lemma_empty_is_not_relayed(line: Seq<u8>)
    requires
        line.len() == 0,
    ensures
        !relayed(decode_utf8(line)),
{
    reveal_strlit("READY=1");
    reveal_strlit("RELOADING=1");
    reveal_strlit("STOPPING=1");
    reveal_strlit("WATCHDOG=1");
    reveal_strlit("WATCHDOG=trigger");
    reveal_strlit("STATUS=");
    reveal_strlit("ERRNO=");
    reveal_strlit("BUSERROR=");
    reveal_strlit("MONOTONIC_USEC=");
    assert(decode_utf8(line).len() == 0);
}

} // verus!
