//! The byte layout of the values that cross the pipe between host and
//! reaper: fixed-width little-endian integers, and texts and lists behind
//! their length.

use vstd::bytes::{
    lemma_auto_spec_u32_to_from_le_bytes, lemma_auto_spec_u64_to_from_le_bytes,
    spec_u32_from_le_bytes, spec_u32_to_le_bytes, spec_u64_from_le_bytes, spec_u64_to_le_bytes,
    u32_from_le_bytes, u32_to_le_bytes, u64_from_le_bytes, u64_to_le_bytes,
};
use vstd::prelude::*;
use vstd::slice::slice_subrange;
use vstd::utf8::{decode_utf8, encode_utf8, valid_utf8};

verus! {

/// What reading one value from the front of some bytes gives.
pub enum Parsed<T> {
    /// The value, and the bytes that follow it.
    Done(T, Seq<u8>),
    /// The bytes end before the value does.
    Short,
    /// The bytes cannot be the start of such a value.
    Bad,
}

/// What reading one value from the front of a slice gave.
pub enum Read<'a, T> {
    /// The value, and the bytes that follow it.
    Done(T, &'a [u8]),
    /// The slice ends before the value does.
    Short,
    /// The slice cannot be the start of such a value.
    Bad,
}

impl<'a, T: DeepView> Read<'a, T> {
    /// Whether this outcome is the outcome `parsed` of the specification.
    pub open spec fn agrees(self, parsed: Parsed<T::V>) -> bool {
        match self {
            Read::Done(value, rest) => parsed == Parsed::Done(value.deep_view(), rest@),
            Read::Short => parsed is Short,
            Read::Bad => parsed is Bad,
        }
    }
}

/// The bytes of a 32-bit number: four, least significant first.
pub open spec fn wire_u32(x: u32) -> Seq<u8> {
    spec_u32_to_le_bytes(x)
}

/// The bytes of a 64-bit number: eight, least significant first.
pub open spec fn wire_u64(x: u64) -> Seq<u8> {
    spec_u64_to_le_bytes(x)
}

/// The bytes of a text: the number of bytes of its UTF-8 form as a 64-bit
/// number, then that form.
pub open spec fn wire_str(text: Seq<char>) -> Seq<u8> {
    wire_u64(encode_utf8(text).len() as u64) + encode_utf8(text)
}

/// The bytes of the texts of a list, one after the other.
pub open spec fn wire_strs(texts: Seq<Seq<char>>) -> Seq<u8> {
    texts.map_values(|t: Seq<char>| wire_str(t)).flatten()
}

/// The bytes of a list of texts: the number of texts as a 64-bit number, then
/// each text.
pub open spec fn wire_str_list(texts: Seq<Seq<char>>) -> Seq<u8> {
    wire_u64(texts.len() as u64) + wire_strs(texts)
}

/// Whether the length of a text's UTF-8 form can be written as a 64-bit
/// number.
pub open spec fn str_fits(text: Seq<char>) -> bool {
    encode_utf8(text).len() <= u64::MAX
}

/// Whether a list of texts, and each text of it, has a length that can be
/// written as a 64-bit number.
pub open spec fn str_list_fits(texts: Seq<Seq<char>>) -> bool {
    &&& texts.len() <= u64::MAX
    &&& forall|i: int| 0 <= i < texts.len() ==> str_fits(#[trigger] texts[i])
}

/// Reads a 32-bit number from the front of `bytes`.
pub open spec fn parse_u32(bytes: Seq<u8>) -> Parsed<u32> {
    if bytes.len() < 4 {
        Parsed::Short
    } else {
        Parsed::Done(
            spec_u32_from_le_bytes(bytes.subrange(0, 4)),
            bytes.subrange(4, bytes.len() as int),
        )
    }
}

/// Reads a 64-bit number from the front of `bytes`.
pub open spec fn parse_u64(bytes: Seq<u8>) -> Parsed<u64> {
    if bytes.len() < 8 {
        Parsed::Short
    } else {
        Parsed::Done(
            spec_u64_from_le_bytes(bytes.subrange(0, 8)),
            bytes.subrange(8, bytes.len() as int),
        )
    }
}

/// Reads a text from the front of `bytes`: its length, then as many bytes,
/// which must be UTF-8.
pub open spec fn parse_str(bytes: Seq<u8>) -> Parsed<Seq<char>> {
    match parse_u64(bytes) {
        Parsed::Done(length, rest) => {
            if rest.len() < length {
                Parsed::Short
            } else if !valid_utf8(rest.subrange(0, length as int)) {
                Parsed::Bad
            } else {
                Parsed::Done(
                    decode_utf8(rest.subrange(0, length as int)),
                    rest.subrange(length as int, rest.len() as int),
                )
            }
        },
        Parsed::Short => Parsed::Short,
        Parsed::Bad => Parsed::Bad,
    }
}

/// Reads `count` texts from the front of `bytes`, one after the other.
pub open spec fn parse_strs(bytes: Seq<u8>, count: nat) -> Parsed<Seq<Seq<char>>>
    decreases count,
{
    if count == 0 {
        Parsed::Done(Seq::empty(), bytes)
    } else {
        match parse_str(bytes) {
            Parsed::Done(first, rest) => match parse_strs(rest, (count - 1) as nat) {
                Parsed::Done(more, left) => Parsed::Done(seq![first] + more, left),
                Parsed::Short => Parsed::Short,
                Parsed::Bad => Parsed::Bad,
            },
            Parsed::Short => Parsed::Short,
            Parsed::Bad => Parsed::Bad,
        }
    }
}

/// Reads a list of texts from the front of `bytes`: the number of texts, then
/// each text.
pub open spec fn parse_str_list(bytes: Seq<u8>) -> Parsed<Seq<Seq<char>>> {
    match parse_u64(bytes) {
        Parsed::Done(count, rest) => parse_strs(rest, count as nat),
        Parsed::Short => Parsed::Short,
        Parsed::Bad => Parsed::Bad,
    }
}

/// `core::str::from_utf8`: the text whose UTF-8 form is `bytes`, or nothing
/// when `bytes` is not UTF-8. The contract claims that the function accepts
/// exactly the byte sequences that are valid UTF-8, and that the text it
/// returns has the given bytes as its UTF-8 form.
#[verifier::external_body]
fn text_of_utf8(bytes: &[u8]) -> (r: Option<&str>)
    ensures
        match r {
            Some(text) => valid_utf8(bytes@) && encode_utf8(text@) == bytes@,
            None => !valid_utf8(bytes@),
        },
{
    match core::str::from_utf8(bytes) {
        Ok(text) => Some(text),
        Err(_) => None,
    }
}

/// Appends the bytes of `x` to `out`.
pub fn write_u32(out: &mut Vec<u8>, x: u32)
    ensures
        final(out)@ == old(out)@ + wire_u32(x),
{
    let bytes = u32_to_le_bytes(x);
    out.extend_from_slice(bytes.as_slice());
}

/// Appends the bytes of `x` to `out`.
pub fn write_u64(out: &mut Vec<u8>, x: u64)
    ensures
        final(out)@ == old(out)@ + wire_u64(x),
{
    let bytes = u64_to_le_bytes(x);
    out.extend_from_slice(bytes.as_slice());
}

/// Appends the bytes of `text` to `out`.
pub fn write_str(out: &mut Vec<u8>, text: &str)
    ensures
        final(out)@ == old(out)@ + wire_str(text@),
        str_fits(text@),
{
    let ghost before = out@;
    let bytes = text.as_bytes();
    let length = bytes.len();
    write_u64(out, length as u64);
    out.extend_from_slice(bytes);
    assert(out@ =~= before + wire_str(text@));
}

/// Appends the bytes of the list `texts` to `out`.
pub fn write_str_list(out: &mut Vec<u8>, texts: &Vec<String>)
    ensures
        final(out)@ == old(out)@ + wire_str_list(texts.deep_view()),
        str_list_fits(texts.deep_view()),
{
    let ghost before = out@;
    let ghost all = texts.deep_view();
    let count = texts.len();
    write_u64(out, count as u64);
    let ghost head = out@;
    let mut i: usize = 0;
    assert(wire_strs(all.subrange(0, 0)) =~= Seq::empty());
    assert(out@ =~= head + wire_strs(all.subrange(0, 0)));
    while i < texts.len()
        invariant
            i <= texts.len(),
            all == texts.deep_view(),
            out@ == head + wire_strs(all.subrange(0, i as int)),
            forall|j: int| 0 <= j < i ==> str_fits(#[trigger] all[j]),
        decreases texts.len() - i,
    {
        write_str(out, texts[i].as_str());
        proof {
            let done = all.subrange(0, i as int);
            let next = all.subrange(0, i + 1);
            let each = |t: Seq<char>| wire_str(t);
            assert(next.map_values(each) =~= done.map_values(each).push(wire_str(all[i as int])));
            done.map_values(each).lemma_flatten_push(wire_str(all[i as int]));
            assert(out@ =~= head + wire_strs(next));
        }
        i = i + 1;
    }
    assert(all.subrange(0, i as int) =~= all);
    assert(out@ =~= before + wire_str_list(all));
}

/// Reads a 32-bit number from the front of `input`.
pub fn read_u32(input: &[u8]) -> (r: Read<'_, u32>)
    ensures
        r.agrees(parse_u32(input@)),
{
    if input.len() < 4 {
        Read::Short
    } else {
        let value = u32_from_le_bytes(slice_subrange(input, 0, 4));
        Read::Done(value, slice_subrange(input, 4, input.len()))
    }
}

/// Reads a 64-bit number from the front of `input`.
pub fn read_u64(input: &[u8]) -> (r: Read<'_, u64>)
    ensures
        r.agrees(parse_u64(input@)),
{
    if input.len() < 8 {
        Read::Short
    } else {
        let value = u64_from_le_bytes(slice_subrange(input, 0, 8));
        Read::Done(value, slice_subrange(input, 8, input.len()))
    }
}

/// Reads a text from the front of `input`.
pub fn read_str(input: &[u8]) -> (r: Read<'_, String>)
    ensures
        r.agrees(parse_str(input@)),
{
    match read_u64(input) {
        Read::Done(length, rest) => {
            if (rest.len() as u64) < length {
                Read::Short
            } else {
                let length = length as usize;
                match text_of_utf8(slice_subrange(rest, 0, length)) {
                    Some(text) => {
                        proof {
                            vstd::utf8::encode_utf8_decode_utf8(text@);
                        }
                        Read::Done(text.to_owned(), slice_subrange(rest, length, rest.len()))
                    },
                    None => Read::Bad,
                }
            }
        },
        Read::Short => Read::Short,
        Read::Bad => Read::Bad,
    }
}

/// The outcome `parsed` of reading a list, with `items` put before what was
/// read.
pub open spec fn prepend<T>(items: Seq<T>, parsed: Parsed<Seq<T>>) -> Parsed<Seq<T>> {
    match parsed {
        Parsed::Done(more, left) => Parsed::Done(items + more, left),
        Parsed::Short => Parsed::Short,
        Parsed::Bad => Parsed::Bad,
    }
}

/// Reading a list of `count` items after `items` have been read, one more
/// item read from the front.
proof fn lemma_parse_strs_step(
    items: Seq<Seq<char>>,
    bytes: Seq<u8>,
    count: nat,
    first: Seq<char>,
    rest: Seq<u8>,
)
    requires
        count > 0,
        parse_str(bytes) == Parsed::Done(first, rest),
    ensures
        prepend(items, parse_strs(bytes, count)) == prepend(
            items.push(first),
            parse_strs(rest, (count - 1) as nat),
        ),
{
    match parse_strs(rest, (count - 1) as nat) {
        Parsed::Done(more, left) => {
            assert(items + (seq![first] + more) =~= items.push(first) + more);
        },
        Parsed::Short => {},
        Parsed::Bad => {},
    }
}

/// Reads a list of texts from the front of `input`.
pub fn read_str_list(input: &[u8]) -> (r: Read<'_, Vec<String>>)
    ensures
        r.agrees(parse_str_list(input@)),
{
    match read_u64(input) {
        Read::Done(count, rest) => {
            let mut items: Vec<String> = Vec::new();
            let mut cur = rest;
            let mut i: u64 = 0;
            proof {
                let start = parse_strs(rest@, count as nat);
                assert(items.deep_view() =~= Seq::empty());
                match start {
                    Parsed::Done(more, left) => {
                        assert(Seq::<Seq<char>>::empty() + more =~= more);
                    },
                    Parsed::Short => {},
                    Parsed::Bad => {},
                }
            }
            while i < count
                invariant
                    i <= count,
                    parse_str_list(input@) == parse_strs(rest@, count as nat),
                    parse_strs(rest@, count as nat) == prepend(
                        items.deep_view(),
                        parse_strs(cur@, (count - i) as nat),
                    ),
                decreases count - i,
            {
                let ghost before = items.deep_view();
                match read_str(cur) {
                    Read::Done(text, next) => {
                        proof {
                            lemma_parse_strs_step(
                                before,
                                cur@,
                                (count - i) as nat,
                                text@,
                                next@,
                            );
                        }
                        items.push(text);
                        assert(items.deep_view() =~= before.push(text@));
                        cur = next;
                    },
                    Read::Short => {
                        return Read::Short;
                    },
                    Read::Bad => {
                        return Read::Bad;
                    },
                }
                i = i + 1;
            }
            proof {
                assert(items.deep_view() + Seq::<Seq<char>>::empty() =~= items.deep_view());
            }
            Read::Done(items, cur)
        },
        Read::Short => Read::Short,
        Read::Bad => Read::Bad,
    }
}

/// A 32-bit number that was written is read back, and what follows it is
/// left.
pub proof fn lemma_u32_round_trip(x: u32, rest: Seq<u8>)
    ensures
        wire_u32(x).len() == 4,
        parse_u32(wire_u32(x) + rest) == Parsed::Done(x, rest),
{
    lemma_auto_spec_u32_to_from_le_bytes();
    let bytes = wire_u32(x) + rest;
    assert(bytes.subrange(0, 4) =~= wire_u32(x));
    assert(bytes.subrange(4, bytes.len() as int) =~= rest);
}

/// A 64-bit number that was written is read back, and what follows it is
/// left.
pub proof fn lemma_u64_round_trip(x: u64, rest: Seq<u8>)
    ensures
        wire_u64(x).len() == 8,
        parse_u64(wire_u64(x) + rest) == Parsed::Done(x, rest),
{
    lemma_auto_spec_u64_to_from_le_bytes();
    let bytes = wire_u64(x) + rest;
    assert(bytes.subrange(0, 8) =~= wire_u64(x));
    assert(bytes.subrange(8, bytes.len() as int) =~= rest);
}

/// Bytes from which a 32-bit number is read start with the bytes of that
/// number.
pub proof fn lemma_u32_exact(bytes: Seq<u8>)
    ensures
        parse_u32(bytes) !is Bad,
        parse_u32(bytes) matches Parsed::Done(x, rest) ==> bytes == wire_u32(x) + rest,
{
    lemma_auto_spec_u32_to_from_le_bytes();
    if bytes.len() >= 4 {
        let head = bytes.subrange(0, 4);
        assert(bytes =~= head + bytes.subrange(4, bytes.len() as int));
        assert(spec_u32_to_le_bytes(spec_u32_from_le_bytes(head)) == head);
    }
}

/// Bytes from which a 64-bit number is read start with the bytes of that
/// number.
pub proof fn lemma_u64_exact(bytes: Seq<u8>)
    ensures
        parse_u64(bytes) !is Bad,
        parse_u64(bytes) matches Parsed::Done(x, rest) ==> bytes == wire_u64(x) + rest,
{
    lemma_auto_spec_u64_to_from_le_bytes();
    if bytes.len() >= 8 {
        let head = bytes.subrange(0, 8);
        assert(bytes =~= head + bytes.subrange(8, bytes.len() as int));
        assert(spec_u64_to_le_bytes(spec_u64_from_le_bytes(head)) == head);
    }
}

/// A text that was written is read back, and what follows it is left.
pub proof fn lemma_str_round_trip(text: Seq<char>, rest: Seq<u8>)
    requires
        str_fits(text),
    ensures
        parse_str(wire_str(text) + rest) == Parsed::Done(text, rest),
{
    let utf8 = encode_utf8(text);
    let length = utf8.len() as u64;
    lemma_u64_round_trip(length, utf8 + rest);
    assert(wire_str(text) + rest =~= wire_u64(length) + (utf8 + rest));
    assert((utf8 + rest).subrange(0, length as int) =~= utf8);
    assert((utf8 + rest).subrange(length as int, (utf8 + rest).len() as int) =~= rest);
    vstd::utf8::encode_utf8_valid_utf8(text);
    vstd::utf8::encode_utf8_decode_utf8(text);
}

/// A written text that is cut short reads as cut short.
pub proof fn lemma_str_truncated(text: Seq<char>, kept: int)
    requires
        str_fits(text),
        0 <= kept < wire_str(text).len(),
    ensures
        parse_str(wire_str(text).subrange(0, kept)) is Short,
{
    let utf8 = encode_utf8(text);
    let length = utf8.len() as u64;
    lemma_auto_spec_u64_to_from_le_bytes();
    let cut = wire_str(text).subrange(0, kept);
    if kept >= 8 {
        let tail = utf8.subrange(0, kept - 8);
        assert(cut =~= wire_u64(length) + tail);
        lemma_u64_round_trip(length, tail);
    }
}

/// Bytes from which a text is read start with the bytes of that text.
pub proof fn lemma_str_exact(bytes: Seq<u8>)
    ensures
        parse_str(bytes) matches Parsed::Done(text, rest) ==> str_fits(text) && bytes == wire_str(
            text,
        ) + rest,
{
    lemma_u64_exact(bytes);
    if let Parsed::Done(text, rest) = parse_str(bytes) {
        let length = parse_u64(bytes)->Done_0;
        let after = parse_u64(bytes)->Done_1;
        let utf8 = after.subrange(0, length as int);
        vstd::utf8::decode_utf8_encode_utf8(utf8);
        assert(encode_utf8(text) == utf8);
        assert(after =~= utf8 + rest);
        assert(bytes =~= wire_str(text) + rest);
    }
}

/// The bytes of a list that is not empty are the bytes of its first text,
/// then those of the others.
pub proof fn lemma_wire_strs_unfold(texts: Seq<Seq<char>>)
    requires
        texts.len() > 0,
    ensures
        wire_strs(texts) == wire_str(texts[0]) + wire_strs(texts.drop_first()),
{
    let each = |t: Seq<char>| wire_str(t);
    assert(texts.map_values(each).drop_first() =~= texts.drop_first().map_values(each));
}

/// Texts that were written one after the other are read back in their order,
/// and what follows them is left.
pub proof fn lemma_strs_round_trip(texts: Seq<Seq<char>>, rest: Seq<u8>)
    requires
        forall|i: int| 0 <= i < texts.len() ==> str_fits(#[trigger] texts[i]),
    ensures
        parse_strs(wire_strs(texts) + rest, texts.len()) == Parsed::Done(texts, rest),
    decreases texts.len(),
{
    if texts.len() == 0 {
        assert(wire_strs(texts) + rest =~= rest);
        assert(texts =~= Seq::empty());
    } else {
        let first = texts[0];
        let others = texts.drop_first();
        lemma_wire_strs_unfold(texts);
        assert(wire_strs(texts) + rest =~= wire_str(first) + (wire_strs(others) + rest));
        lemma_str_round_trip(first, wire_strs(others) + rest);
        assert forall|i: int| 0 <= i < others.len() implies str_fits(#[trigger] others[i]) by {
            assert(others[i] == texts[i + 1]);
        }
        lemma_strs_round_trip(others, rest);
        assert(seq![first] + others =~= texts);
    }
}

/// Written texts that are cut short read as cut short.
pub proof fn lemma_strs_truncated(texts: Seq<Seq<char>>, kept: int)
    requires
        forall|i: int| 0 <= i < texts.len() ==> str_fits(#[trigger] texts[i]),
        0 <= kept < wire_strs(texts).len(),
    ensures
        parse_strs(wire_strs(texts).subrange(0, kept), texts.len()) is Short,
    decreases texts.len(),
{
    if texts.len() == 0 {
        assert(wire_strs(texts) =~= Seq::empty());
    } else {
        let first = texts[0];
        let others = texts.drop_first();
        lemma_wire_strs_unfold(texts);
        let cut = wire_strs(texts).subrange(0, kept);
        if kept < wire_str(first).len() {
            assert(cut =~= wire_str(first).subrange(0, kept));
            lemma_str_truncated(first, kept);
        } else {
            let tail = wire_strs(others).subrange(0, kept - wire_str(first).len());
            assert(cut =~= wire_str(first) + tail);
            lemma_str_round_trip(first, tail);
            assert forall|i: int| 0 <= i < others.len() implies str_fits(#[trigger] others[i]) by {
                assert(others[i] == texts[i + 1]);
            }
            lemma_strs_truncated(others, kept - wire_str(first).len());
        }
    }
}

/// Bytes from which texts are read start with the bytes of those texts.
pub proof fn lemma_strs_exact(bytes: Seq<u8>, count: nat)
    ensures
        parse_strs(bytes, count) matches Parsed::Done(texts, rest) ==> {
            &&& texts.len() == count
            &&& forall|i: int| 0 <= i < texts.len() ==> str_fits(#[trigger] texts[i])
            &&& bytes == wire_strs(texts) + rest
        },
    decreases count,
{
    if let Parsed::Done(texts, rest) = parse_strs(bytes, count) {
        if count == 0 {
            assert(wire_strs(texts) + rest =~= rest);
        } else {
            let first = parse_str(bytes)->Done_0;
            let after = parse_str(bytes)->Done_1;
            lemma_str_exact(bytes);
            lemma_strs_exact(after, (count - 1) as nat);
            let others = parse_strs(after, (count - 1) as nat)->Done_0;
            assert(texts == seq![first] + others);
            assert(texts.drop_first() =~= others);
            lemma_wire_strs_unfold(texts);
            assert(bytes =~= wire_strs(texts) + rest);
            assert forall|i: int| 0 <= i < texts.len() implies str_fits(#[trigger] texts[i]) by {
                if i > 0 {
                    assert(texts[i] == others[i - 1]);
                }
            }
        }
    }
}

/// A list of texts that was written is read back, and what follows it is
/// left.
pub proof fn lemma_str_list_round_trip(texts: Seq<Seq<char>>, rest: Seq<u8>)
    requires
        str_list_fits(texts),
    ensures
        parse_str_list(wire_str_list(texts) + rest) == Parsed::Done(texts, rest),
{
    let count = texts.len() as u64;
    lemma_u64_round_trip(count, wire_strs(texts) + rest);
    assert(wire_str_list(texts) + rest =~= wire_u64(count) + (wire_strs(texts) + rest));
    lemma_strs_round_trip(texts, rest);
}

/// A written list of texts that is cut short reads as cut short.
pub proof fn lemma_str_list_truncated(texts: Seq<Seq<char>>, kept: int)
    requires
        str_list_fits(texts),
        0 <= kept < wire_str_list(texts).len(),
    ensures
        parse_str_list(wire_str_list(texts).subrange(0, kept)) is Short,
{
    let count = texts.len() as u64;
    lemma_auto_spec_u64_to_from_le_bytes();
    let cut = wire_str_list(texts).subrange(0, kept);
    if kept >= 8 {
        let tail = wire_strs(texts).subrange(0, kept - 8);
        assert(cut =~= wire_u64(count) + tail);
        lemma_u64_round_trip(count, tail);
        lemma_strs_truncated(texts, kept - 8);
    }
}

/// Bytes from which a list of texts is read start with the bytes of that
/// list.
pub proof fn lemma_str_list_exact(bytes: Seq<u8>)
    ensures
        parse_str_list(bytes) matches Parsed::Done(texts, rest) ==> str_list_fits(texts) && bytes
            == wire_str_list(texts) + rest,
{
    lemma_u64_exact(bytes);
    if let Parsed::Done(texts, rest) = parse_str_list(bytes) {
        let count = parse_u64(bytes)->Done_0;
        let after = parse_u64(bytes)->Done_1;
        lemma_strs_exact(after, count as nat);
        assert(bytes =~= wire_str_list(texts) + rest);
    }
}

} // verus!
