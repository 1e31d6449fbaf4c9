//! Bytes and text: white space, trimming and comparison.
use vstd::prelude::*;
use vstd::slice::slice_subrange;

verus! {

/// ASCII white space: space, tab, line feed, form feed and carriage return.
pub open spec fn is_space(byte: u8) -> bool {
    byte == 0x20 || byte == 0x09 || byte == 0x0a || byte == 0x0c || byte == 0x0d
}

/// Whether `bytes` holds nothing but white space.
pub open spec fn is_blank(bytes: Seq<u8>) -> bool {
    forall|i: int| 0 <= i < bytes.len() ==> is_space(#[trigger] bytes[i])
}

/// `bytes` without the white space that it starts with.
pub open spec fn trim_start(bytes: Seq<u8>) -> Seq<u8>
    decreases bytes.len(),
{
    if bytes.len() > 0 && is_space(bytes.first()) {
        trim_start(bytes.drop_first())
    } else {
        bytes
    }
}

/// `bytes` without the white space that it ends with.
pub open spec fn trim_end(bytes: Seq<u8>) -> Seq<u8>
    decreases bytes.len(),
{
    if bytes.len() > 0 && is_space(bytes.last()) {
        trim_end(bytes.drop_last())
    } else {
        bytes
    }
}

/// `bytes` without the white space around it.
pub open spec fn trimmed(bytes: Seq<u8>) -> Seq<u8> {
    trim_end(trim_start(bytes))
}

/// Whether `byte` is ASCII white space.
pub fn is_ascii_space(byte: u8) -> (space: bool)
    ensures
        space == is_space(byte),
{
    byte == 0x20 || byte == 0x09 || byte == 0x0a || byte == 0x0c || byte == 0x0d
}

/// Returns `input` without the ASCII white space around it.
pub fn trim_ascii(input: &[u8]) -> (output: &[u8])
    ensures
        output@ == trimmed(input@),
{
    let mut start: usize = 0;
    let mut end: usize = input.len();
    assert(input@.subrange(0, end as int) == input@);
    while start < end && is_ascii_space(input[start])
        invariant
            start <= end == input.len(),
            trim_start(input@.subrange(start as int, end as int)) == trim_start(input@),
        decreases end - start,
    {
        assert(input@.subrange(start as int, end as int).drop_first() == input@.subrange(
            start + 1,
            end as int,
        ));
        start = start + 1;
    }
    assert(trim_start(input@) == input@.subrange(start as int, end as int));
    while start < end && is_ascii_space(input[end - 1])
        invariant
            start <= end <= input.len(),
            trim_end(input@.subrange(start as int, end as int)) == trimmed(input@),
        decreases end - start,
    {
        assert(input@.subrange(start as int, end as int).drop_last() == input@.subrange(
            start as int,
            end - 1,
        ));
        end = end - 1;
    }
    slice_subrange(input, start, end)
}

/// Whether two byte strings are the same.
pub fn bytes_equal(left: &[u8], right: &[u8]) -> (equal: bool)
    ensures
        equal == (left@ == right@),
{
    if left.len() != right.len() {
        return false;
    }
    let mut i: usize = 0;
    while i < left.len()
        invariant
            i <= left.len() == right.len(),
            forall|j: int| 0 <= j < i ==> left@[j] == right@[j],
        decreases left.len() - i,
    {
        if left[i] != right[i] {
            return false;
        }
        i = i + 1;
    }
    assert(left@ == right@);
    true
}

/// Whether two texts are the same.
pub fn text_equal(left: &str, right: &str) -> (equal: bool)
    ensures
        equal == (left@ == right@),
{
    proof {
        vstd::utf8::encode_utf8_decode_utf8(left@);
        vstd::utf8::encode_utf8_decode_utf8(right@);
    }
    bytes_equal(left.as_bytes(), right.as_bytes())
}

/// Trimming removes white space, all of it at either end, and nothing else:
/// what is left is the middle of the input between two blank parts, and neither
/// starts nor ends with white space.
pub proof fn trimming(bytes: Seq<u8>) -> (parts: (Seq<u8>, Seq<u8>))
    ensures
        bytes == parts.0 + trimmed(bytes) + parts.1,
        is_blank(parts.0),
        is_blank(parts.1),
        trimmed(bytes).len() > 0 ==> !is_space(trimmed(bytes).first()) && !is_space(
            trimmed(bytes).last(),
        ),
{
    let before = lemma_trim_start(bytes);
    let after = lemma_trim_end(trim_start(bytes));
    assert(bytes == before + trimmed(bytes) + after);
    let middle = trimmed(bytes);
    if middle.len() > 0 {
        assert(trim_start(bytes).first() == middle.first());
    }
    (before, after)
}

proof fn lemma_trim_start(bytes: Seq<u8>) -> (before: Seq<u8>)
    ensures
        bytes == before + trim_start(bytes),
        is_blank(before),
        trim_start(bytes).len() > 0 ==> !is_space(trim_start(bytes).first()),
    decreases bytes.len(),
{
    if bytes.len() > 0 && is_space(bytes.first()) {
        let rest = lemma_trim_start(bytes.drop_first());
        let before = seq![bytes.first()] + rest;
        assert(bytes == seq![bytes.first()] + bytes.drop_first());
        assert(bytes == before + trim_start(bytes));
        before
    } else {
        assert(bytes == Seq::<u8>::empty() + bytes);
        Seq::empty()
    }
}

proof fn lemma_trim_end(bytes: Seq<u8>) -> (after: Seq<u8>)
    ensures
        bytes == trim_end(bytes) + after,
        is_blank(after),
        trim_end(bytes).len() > 0 ==> !is_space(trim_end(bytes).last()),
    decreases bytes.len(),
{
    if bytes.len() > 0 && is_space(bytes.last()) {
        let rest = lemma_trim_end(bytes.drop_last());
        let after = rest.push(bytes.last());
        assert(bytes == bytes.drop_last().push(bytes.last()));
        assert(bytes == trim_end(bytes) + after);
        after
    } else {
        assert(bytes == bytes + Seq::<u8>::empty());
        Seq::empty()
    }
}

/// White space around a payload makes no difference to what is trimmed.
pub proof fn trimming_ignores_white_space(before: Seq<u8>, bytes: Seq<u8>, after: Seq<u8>)
    requires
        is_blank(before),
        is_blank(after),
    ensures
        trimmed(before + bytes + after) == trimmed(bytes),
    decreases before.len() + after.len(),
{
    let whole = before + bytes + after;
    if before.len() > 0 {
        assert(whole.first() == before[0]);
        assert(whole.drop_first() == before.drop_first() + bytes + after);
        assert(is_blank(before.drop_first()));
        trimming_ignores_white_space(before.drop_first(), bytes, after);
    } else if after.len() > 0 {
        assert(whole == (before + bytes + after.drop_last()).push(after.last()));
        assert(is_space(after[after.len() - 1]));
        assert(is_blank(after.drop_last()));
        lemma_trim_trailing_space(before + bytes + after.drop_last(), after.last());
        trimming_ignores_white_space(before, bytes, after.drop_last());
    } else {
        assert(whole == bytes);
    }
}

proof fn lemma_trim_trailing_space(bytes: Seq<u8>, space: u8)
    requires
        is_space(space),
    ensures
        trimmed(bytes.push(space)) == trimmed(bytes),
    decreases bytes.len(),
{
    let longer = bytes.push(space);
    if bytes.len() == 0 {
        assert(longer.drop_first() == bytes);
    } else if is_space(bytes.first()) {
        assert(longer.drop_first() == bytes.drop_first().push(space));
        lemma_trim_trailing_space(bytes.drop_first(), space);
    } else {
        assert(longer.drop_last() == bytes);
    }
}

} // verus!
