//! Length-prefixed message framing: a `Content-Length: <N>` header line, a
//! separator line, then exactly `N` bytes of UTF-8 body.

use vstd::prelude::*;
use vstd::utf8::{decode_utf8, encode_utf8, valid_utf8};
use vstd::string::*;
use crate::error::{YnabError, YnabResult};
use crate::text::concat;

verus! {

broadcast use vstd::utf8::encode_utf8_valid_utf8, vstd::utf8::encode_utf8_decode_utf8;

/// The bytes `Content-Length:` that a header line starts with.
pub open spec fn header_name() -> Seq<u8> {
    seq![67u8, 111, 110, 116, 101, 110, 116, 45, 76, 101, 110, 103, 116, 104, 58]
}

/// The bytes `\r\n`.
pub open spec fn crlf() -> Seq<u8> {
    seq![13u8, 10]
}

/// The bytes that `str::trim` removes and that can stand in a header.
pub open spec fn is_space(b: u8) -> bool {
    b == 32 || b == 9 || b == 10 || b == 11 || b == 12 || b == 13
}

/// A decimal digit.
pub open spec fn is_digit(b: u8) -> bool {
    48 <= b <= 57
}

/// The bytes without leading spaces.
pub open spec fn trim_start(s: Seq<u8>) -> Seq<u8>
    decreases s.len(),
{
    if s.len() > 0 && is_space(s[0]) {
        trim_start(s.drop_first())
    } else {
        s
    }
}

/// The bytes without trailing spaces.
pub open spec fn trim_end(s: Seq<u8>) -> Seq<u8>
    decreases s.len(),
{
    if s.len() > 0 && is_space(s.last()) {
        trim_end(s.drop_last())
    } else {
        s
    }
}

/// The bytes without leading and trailing spaces.
pub open spec fn trim_bytes(s: Seq<u8>) -> Seq<u8> {
    trim_end(trim_start(s))
}

/// The value of a run of decimal digits.
pub open spec fn digits_value(s: Seq<u8>) -> nat
    decreases s.len(),
{
    if s.len() == 0 {
        0
    } else {
        digits_value(s.drop_last()) * 10 + (s.last() - 48) as nat
    }
}

/// What `usize::from_str` accepts: an optional `+` and one or more digits.
pub open spec fn is_number(s: Seq<u8>) -> bool {
    unsigned_part(s).len() > 0 && forall|i: int|
        0 <= i < unsigned_part(s).len() ==> is_digit(#[trigger] unsigned_part(s)[i])
}

/// The bytes after an optional leading `+`.
pub open spec fn unsigned_part(s: Seq<u8>) -> Seq<u8> {
    if s.len() > 0 && s[0] == 43 {
        s.drop_first()
    } else {
        s
    }
}

/// The value of a number that `is_number` accepts.
pub open spec fn number_value(s: Seq<u8>) -> nat {
    digits_value(unsigned_part(s))
}

/// The decimal digits of `n`, without leading zeros.
pub open spec fn decimal(n: nat) -> Seq<u8>
    decreases n,
{
    if n < 10 {
        seq![(48 + n) as u8]
    } else {
        decimal(n / 10).push((48 + n % 10) as u8)
    }
}

/// The header and separator that come before a body of `n` bytes.
pub open spec fn frame_header(n: nat) -> Seq<u8> {
    header_name() + seq![32u8] + decimal(n) + crlf() + crlf()
}

/// The framed form of a message.
pub open spec fn frame(m: Seq<char>) -> Seq<u8> {
    frame_header(encode_utf8(m).len()) + encode_utf8(m)
}

/// Where the line that starts at `start` ends: after its `\n`, or at the end
/// of the input.
pub open spec fn line_end(s: Seq<u8>, start: int) -> int
    decreases s.len() - start,
{
    if start >= s.len() {
        s.len() as int
    } else if s[start] == 10 {
        start + 1
    } else {
        line_end(s, start + 1)
    }
}

/// The text after the header name, without surrounding spaces.
pub open spec fn header_value(line: Seq<u8>) -> Seq<u8> {
    trim_bytes(line.skip(header_name().len() as int))
}

/// The line starts with the header name.
pub open spec fn has_header_name(line: Seq<u8>) -> bool {
    line.len() >= header_name().len() && line.take(header_name().len() as int) == header_name()
}

/// What a header line declares, when it is a valid header line.
pub open spec fn declared_length(line: Seq<u8>) -> Option<nat> {
    if has_header_name(line) && is_number(header_value(line)) && number_value(header_value(line))
        <= usize::MAX {
        Some(number_value(header_value(line)))
    } else {
        None
    }
}

/// The bytes `Content-Length:`.
fn header_name_bytes() -> (r: Vec<u8>)
    ensures
        r@ == header_name(),
{
    let r: Vec<u8> = vec![67u8, 111, 110, 116, 101, 110, 116, 45, 76, 101, 110, 103, 116, 104, 58];
    assert(r@ =~= header_name());
    r
}

fn is_space_byte(b: u8) -> (r: bool)
    ensures
        r == is_space(b),
{
    b == 32 || b == 9 || b == 10 || b == 11 || b == 12 || b == 13
}

proof fn lemma_trim_start_skip(s: Seq<u8>, i: int)
    requires
        0 <= i < s.len(),
        is_space(s[i]),
    ensures
        trim_start(s.skip(i)) == trim_start(s.skip(i + 1)),
{
    assert(s.skip(i).drop_first() =~= s.skip(i + 1));
}

proof fn lemma_trim_end_take(s: Seq<u8>, j: int)
    requires
        0 < j <= s.len(),
        is_space(s[j - 1]),
    ensures
        trim_end(s.take(j)) == trim_end(s.take(j - 1)),
{
    assert(s.take(j).drop_last() =~= s.take(j - 1));
}

/// The bytes of `s` from `from` on, without leading and trailing spaces.
fn trimmed(s: &[u8], from: usize) -> (r: Vec<u8>)
    requires
        from <= s@.len(),
    ensures
        r@ == trim_bytes(s@.skip(from as int)),
{
    let ghost t = s@.skip(from as int);
    let mut i: usize = from;
    while i < s.len() && is_space_byte(s[i])
        invariant
            t == s@.skip(from as int),
            from <= i <= s@.len(),
            trim_start(t) == trim_start(s@.skip(i as int)),
        decreases s@.len() - i,
    {
        proof {
            lemma_trim_start_skip(s@, i as int);
        }
        i = i + 1;
    }
    let ghost u = s@.skip(i as int);
    proof {
        if i < s@.len() {
            assert(u[0] == s@[i as int]);
        }
    }
    assert(trim_start(u) == u);
    let mut j: usize = s.len();
    proof {
        assert(u.take(u.len() as int) =~= u);
    }
    while j > i && is_space_byte(s[j - 1])
        invariant
            u == s@.skip(i as int),
            i <= j <= s@.len(),
            trim_end(u) == trim_end(u.take(j - i)),
        decreases j,
    {
        proof {
            assert(u[j - i - 1] == s@[j - 1]);
            lemma_trim_end_take(u, j - i);
        }
        j = j - 1;
    }
    proof {
        if j > i {
            assert(u.take(j - i).last() == s@[j - 1]);
        }
    }
    assert(trim_end(u.take(j - i)) == u.take(j - i));
    let mut r: Vec<u8> = Vec::new();
    let mut k: usize = i;
    while k < j
        invariant
            i <= k <= j <= s@.len(),
            r@ == s@.subrange(i as int, k as int),
        decreases j - k,
    {
        r.push(s[k]);
        proof {
            assert(r@ =~= s@.subrange(i as int, k + 1));
        }
        k = k + 1;
    }
    assert(r@ =~= u.take(j - i));
    r
}

/// The number that a run of bytes spells, when `usize::from_str` accepts it.
fn parse_number(s: &Vec<u8>) -> (r: Option<usize>)
    ensures
        r is Some <==> is_number(s@) && number_value(s@) <= usize::MAX,
        r matches Some(n) ==> n == number_value(s@),
{
    let start: usize = if s.len() > 0 && s[0] == 43 { 1 } else { 0 };
    let ghost d = s@.skip(start as int);
    proof {
        assert(start == 1 ==> d =~= s@.drop_first());
        assert(start == 0 ==> d =~= s@);
    }
    if start >= s.len() {
        return None;
    }
    let mut value: usize = 0;
    let mut overflow = false;
    let mut i: usize = start;
    proof {
        assert(d.take(0) =~= Seq::<u8>::empty());
    }
    while i < s.len()
        invariant
            d == s@.skip(start as int),
            d == unsigned_part(s@),
            start < s@.len(),
            start <= i <= s@.len(),
            forall|k: int| 0 <= k < i - start ==> is_digit(#[trigger] d[k]),
            !overflow ==> value == digits_value(d.take(i - start)),
            overflow ==> digits_value(d.take(i - start)) > usize::MAX,
        decreases s@.len() - i,
    {
        let b = s[i];
        assert(d[i - start] == b);
        if b < 48 || b > 57 {
            assert(!is_digit(unsigned_part(s@)[i - start]));
            return None;
        }
        proof {
            assert(d.take(i - start + 1).drop_last() =~= d.take(i - start));
        }
        let digit = (b - 48) as usize;
        if !overflow {
            if value > (usize::MAX - digit) / 10 {
                overflow = true;
            } else {
                value = value * 10 + digit;
            }
        }
        i = i + 1;
    }
    proof {
        assert(d.take(i - start) =~= d);
    }
    if overflow {
        None
    } else {
        Some(value)
    }
}

/// Where the line that starts at `start` ends.
fn find_line_end(input: &[u8], start: usize) -> (r: usize)
    requires
        start <= input@.len(),
    ensures
        r == line_end(input@, start as int),
        start <= r <= input@.len(),
{
    let mut i: usize = start;
    while i < input.len() && input[i] != 10
        invariant
            start <= i <= input@.len(),
            line_end(input@, start as int) == line_end(input@, i as int),
        decreases input@.len() - i,
    {
        i = i + 1;
    }
    if i < input.len() {
        i + 1
    } else {
        i
    }
}

/// Relies on `String::from_utf8`: it succeeds exactly on valid UTF-8 and
/// then holds the characters that the bytes encode.
#[verifier::external_body]
fn utf8_string(bytes: Vec<u8>) -> (r: Option<String>)
    ensures
        r is Some <==> valid_utf8(bytes@),
        r matches Some(s) ==> s@ == decode_utf8(bytes@),
{
    String::from_utf8(bytes).ok()
}

/// The message for a header whose value is not a valid length: it quotes
/// the value when that is text.
pub open spec fn invalid_value_message(value: Seq<u8>) -> Seq<char> {
    if valid_utf8(value) {
        "Invalid Content-Length value: "@ + decode_utf8(value)
    } else {
        "Invalid Content-Length value"@
    }
}

/// The length that a header line declares; the line may end in `\r\n`.
pub fn parse_content_length(line: &[u8]) -> (r: YnabResult<usize>)
    ensures
        !has_header_name(line@) ==> (r matches Err(YnabError::ApiError(m))
            && m@ == "Expected Content-Length header"@),
        has_header_name(line@) && declared_length(line@) is None ==> (r matches Err(
            YnabError::ApiError(m),
        ) && m@ == invalid_value_message(header_value(line@))),
        declared_length(line@) matches Some(n) ==> r == Ok::<usize, YnabError>(n as usize),
{
    let name = header_name_bytes();
    if line.len() < name.len() {
        return Err(YnabError::api_error("Expected Content-Length header"));
    }
    let mut i: usize = 0;
    while i < name.len()
        invariant
            name@ == header_name(),
            name@.len() <= line@.len(),
            i <= name@.len(),
            forall|k: int| 0 <= k < i ==> line@[k] == name@[k],
        decreases name@.len() - i,
    {
        if line[i] != name[i] {
            return Err(YnabError::api_error("Expected Content-Length header"));
        }
        i = i + 1;
    }
    assert(line@.take(name@.len() as int) =~= header_name());
    let value = trimmed(line, name.len());
    match parse_number(&value) {
        Some(n) => Ok(n),
        None => {
            match utf8_string(value) {
                Some(text) => Err(YnabError::ApiError(concat("Invalid Content-Length value: ", text.as_str()))),
                None => Err(YnabError::api_error("Invalid Content-Length value")),
            }
        },
    }
}

/// The body of a message as text.
pub fn decode_body(body: Vec<u8>) -> (r: YnabResult<String>)
    ensures
        valid_utf8(body@) ==> (r matches Ok(s) && s@ == decode_utf8(body@)),
        !valid_utf8(body@) ==> (r matches Err(YnabError::ApiError(m))
            && m@ == "Message content is not valid UTF-8"@),
{
    match utf8_string(body) {
        Some(s) => Ok(s),
        None => Err(YnabError::api_error("Message content is not valid UTF-8")),
    }
}

/// The end of the header line of the input.
pub open spec fn header_end(input: Seq<u8>) -> int {
    line_end(input, 0)
}

/// The end of the separator line of the input.
pub open spec fn separator_end(input: Seq<u8>) -> int {
    line_end(input, header_end(input))
}

/// The input starts with a whole message whose text is `m` and which takes
/// its first `k` bytes.
pub open spec fn reads_as(input: Seq<u8>, m: Seq<char>, k: int) -> bool {
    &&& input.len() > 0
    &&& declared_length(input.take(header_end(input))) matches Some(n)
    &&& k == separator_end(input) + n
    &&& k <= input.len()
    &&& valid_utf8(input.subrange(separator_end(input), k))
    &&& m == decode_utf8(input.subrange(separator_end(input), k))
}

/// Reads the message at the start of `input`: `None` at the end of the
/// stream, else the message and the number of bytes it took.
pub fn read_message(input: &[u8]) -> (r: YnabResult<Option<(String, usize)>>)
    ensures
        input@.len() == 0 ==> r matches Ok(None),
        r matches Ok(Some((s, k))) ==> reads_as(input@, s@, k as int),
        forall|m: Seq<char>, k: int| reads_as(input@, m, k) ==> r matches Ok(Some(_)),
        input@.len() > 0 && !has_header_name(input@.take(header_end(input@))) ==> (r matches Err(
            YnabError::ApiError(m),
        ) && m@ == "Expected Content-Length header"@),
        input@.len() > 0 && has_header_name(input@.take(header_end(input@))) && declared_length(
            input@.take(header_end(input@)),
        ) is None ==> (r matches Err(YnabError::ApiError(m)) && m@
            == invalid_value_message(header_value(input@.take(header_end(input@))))),
        input@.len() > 0 && (declared_length(input@.take(header_end(input@))) matches Some(n)
            && separator_end(input@) + n > input@.len()) ==> r matches Err(YnabError::IoError(_)),
        input@.len() > 0 && (declared_length(input@.take(header_end(input@))) matches Some(n)
            && separator_end(input@) + n <= input@.len() && !valid_utf8(
            input@.subrange(separator_end(input@), separator_end(input@) + n),
        )) ==> (r matches Err(YnabError::ApiError(m)) && m@ == "Message content is not valid UTF-8"@),
{
    if input.len() == 0 {
        return Ok(None);
    }
    let l1 = find_line_end(input, 0);
    let mut line: Vec<u8> = Vec::new();
    let mut i: usize = 0;
    while i < l1
        invariant
            l1 <= input@.len(),
            i <= l1,
            line@ == input@.take(i as int),
        decreases l1 - i,
    {
        line.push(input[i]);
        proof {
            assert(line@ =~= input@.take(i + 1));
        }
        i = i + 1;
    }
    let n = match parse_content_length(line.as_slice()) {
        Ok(n) => n,
        Err(e) => return Err(e),
    };
    let l2 = find_line_end(input, l1);
    if n > input.len() - l2 {
        return Err(YnabError::IoError(String::from_str("failed to fill whole buffer")));
    }
    let end = l2 + n;
    let mut body: Vec<u8> = Vec::new();
    let mut j: usize = l2;
    while j < end
        invariant
            end == l2 + n,
            end <= input@.len(),
            l2 <= j <= end,
            body@ == input@.subrange(l2 as int, j as int),
        decreases end - j,
    {
        body.push(input[j]);
        proof {
            assert(body@ =~= input@.subrange(l2 as int, j + 1));
        }
        j = j + 1;
    }
    match decode_body(body) {
        Ok(s) => Ok(Some((s, end))),
        Err(e) => Err(e),
    }
}

/// Appends the decimal digits of `n`.
fn push_decimal(n: usize, out: &mut Vec<u8>)
    ensures
        final(out)@ == old(out)@ + decimal(n as nat),
    decreases n,
{
    if n >= 10 {
        push_decimal(n / 10, out);
    }
    let digit: u8 = (n % 10) as u8;
    out.push(48 + digit);
    proof {
        if n >= 10 {
            assert(final(out)@ =~= old(out)@ + decimal(n as nat));
        } else {
            assert(final(out)@ =~= old(out)@ + decimal(n as nat));
        }
    }
}

/// The framed form of a message: the header declaring its length in UTF-8
/// bytes, a blank line, then the bytes themselves.
pub fn write_message(message: &str) -> (r: Vec<u8>)
    ensures
        r@ == frame(message@),
        r@ == frame_header(encode_utf8(message@).len()) + encode_utf8(message@),
{
    let mut out = header_name_bytes();
    out.push(32);
    let body = message.as_bytes();
    push_decimal(body.len(), &mut out);
    out.push(13);
    out.push(10);
    out.push(13);
    out.push(10);
    let ghost head = out@;
    assert(head =~= frame_header(encode_utf8(message@).len()));
    let mut i: usize = 0;
    while i < body.len()
        invariant
            body@ == encode_utf8(message@),
            i <= body@.len(),
            out@ == head + body@.take(i as int),
        decreases body@.len() - i,
    {
        out.push(body[i]);
        proof {
            assert(out@ =~= head + body@.take(i + 1));
        }
        i = i + 1;
    }
    assert(body@.take(i as int) =~= body@);
    out
}

proof fn lemma_decimal(n: nat)
    ensures
        decimal(n).len() > 0,
        forall|i: int| 0 <= i < decimal(n).len() ==> is_digit(#[trigger] decimal(n)[i]),
        digits_value(decimal(n)) == n,
    decreases n,
{
    if n < 10 {
        assert(decimal(n).drop_last() =~= Seq::<u8>::empty());
        assert(decimal(n).last() == 48 + n);
        assert(digits_value(decimal(n)) == digits_value(Seq::<u8>::empty()) * 10 + (decimal(n).last() - 48) as nat);
    } else {
        lemma_decimal(n / 10);
        let d = decimal(n);
        assert(d.drop_last() =~= decimal(n / 10));
        assert(d.last() - 48 == n % 10);
        assert((n / 10) * 10 + n % 10 == n);
        assert(digits_value(d) == digits_value(decimal(n / 10)) * 10 + (d.last() - 48) as nat);
        assert forall|i: int| 0 <= i < d.len() implies is_digit(#[trigger] d[i]) by {
            if i < d.len() - 1 {
                assert(d[i] == decimal(n / 10)[i]);
            }
        }
    }
}

proof fn lemma_line_end_at(s: Seq<u8>, start: int, j: int)
    requires
        0 <= start <= j < s.len(),
        s[j] == 10,
        forall|k: int| start <= k < j ==> s[k] != 10,
    ensures
        line_end(s, start) == j + 1,
    decreases j - start,
{
    if start < j {
        lemma_line_end_at(s, start + 1, j);
    }
}

/// Reading the framed form of a message gives back the message, and the
/// read takes the whole frame: its header declares the body's length in
/// UTF-8 bytes.
pub proof fn lemma_frame_round_trip(m: Seq<char>)
    requires
        encode_utf8(m).len() <= usize::MAX,
    ensures
        declared_length(frame(m).take(header_end(frame(m)))) == Some(encode_utf8(m).len()),
        reads_as(frame(m), m, frame(m).len() as int),
        forall|t: Seq<char>, k: int| reads_as(frame(m), t, k) ==> t == m && k == frame(m).len(),
{
    let body = encode_utf8(m);
    let n = body.len();
    let d = decimal(n);
    lemma_decimal(n);
    let f = frame(m);
    let name = header_name();
    let h: int = (name.len() + 1 + d.len()) as int;
    assert(f =~= name + seq![32u8] + d + seq![13u8, 10u8] + seq![13u8, 10u8] + body);
    assert forall|k: int| 0 <= k < h implies f[k] != 10 by {
        if k < name.len() {
            assert(f[k] == name[k]);
        } else if k == name.len() {
            assert(f[k] == 32);
        } else {
            assert(f[k] == d[k - name.len() - 1]);
            assert(is_digit(d[k - name.len() - 1]));
        }
    }
    assert(f[h] == 13);
    assert(f[h + 1] == 10);
    lemma_line_end_at(f, 0, h + 1);
    let l1: int = h + 2;
    assert(header_end(f) == l1);
    let line = f.take(l1);
    assert(line =~= name + seq![32u8] + d + seq![13u8, 10u8]);
    assert(line.take(name.len() as int) =~= name);
    assert(has_header_name(line));
    let rest = line.skip(name.len() as int);
    assert(rest =~= seq![32u8] + d + seq![13u8, 10u8]);
    assert(rest.drop_first() =~= d + seq![13u8, 10u8]);
    assert(is_digit(d[0]));
    assert((d + seq![13u8, 10u8])[0] == d[0]);
    assert(trim_start(d + seq![13u8, 10u8]) == d + seq![13u8, 10u8]);
    assert(trim_start(rest) == d + seq![13u8, 10u8]);
    assert((d + seq![13u8, 10u8]).drop_last() =~= d + seq![13u8]);
    assert((d + seq![13u8]).drop_last() =~= d);
    assert(is_digit(d.last()));
    assert(trim_end(d) == d);
    assert(trim_end(d + seq![13u8]) == d);
    assert(trim_end(d + seq![13u8, 10u8]) == d);
    assert(header_value(line) == d);
    assert(unsigned_part(d) == d);
    assert(is_number(d));
    assert(number_value(d) == n);
    assert(f[l1] == 13 && f[l1 + 1] == 10);
    lemma_line_end_at(f, l1, l1 + 1);
    assert(separator_end(f) == l1 + 2);
    assert(f.subrange(l1 + 2, f.len() as int) =~= body);
}

} // verus!
