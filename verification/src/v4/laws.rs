//! What holds of reading and writing DHCPv4 together: what is written
//! reads back as what it was.

use crate::addr::{lemma_ips_round_trip, lemma_pairs_round_trip};
use crate::decoder::{nul_from, padded_text_in, take};
use crate::error::DecodeFault;
use crate::v4::message::{magic_cookie, padded, parse_header, parse_message, MessageModel};
use crate::v4::model::{parse_body, parse_option, shape_of, OptionModel, OptionValue};
use crate::v4::options::{options_valid, options_wire, options_wire_range, parse_options};
use crate::wire::{lemma_be16_round_trip, lemma_be32_round_trip, lemma_be_i32_round_trip};
use vstd::prelude::*;
use vstd::utf8::{encode_utf8, encode_utf8_decode_utf8, encode_utf8_valid_utf8};

verus! {

/// The body of a valid option reads back from its bytes.
pub proof fn lemma_body_round_trip(option: OptionModel)
    requires
        option.valid(),
    ensures
        parse_body(option.code, option.value.wire()) == Ok::<OptionValue, DecodeFault>(option.value),
{
    match option.value {
        OptionValue::Ips(ips) => {
            lemma_ips_round_trip(ips);
        },
        OptionValue::Pairs(pairs) => {
            lemma_pairs_round_trip(pairs);
        },
        OptionValue::Text(text) => {
            encode_utf8_valid_utf8(text);
            encode_utf8_decode_utf8(text);
        },
        OptionValue::U16(v) => {
            lemma_be16_round_trip(v);
        },
        OptionValue::U32(v) => {
            lemma_be32_round_trip(v);
        },
        OptionValue::I32(v) => {
            lemma_be_i32_round_trip(v);
        },
        _ => {},
    }
}

/// A valid option reads back from its bytes, whatever stands before and
/// after them.
pub proof fn lemma_option_round_trip(option: OptionModel, before: Seq<u8>, after: Seq<u8>)
    requires
        option.valid(),
    ensures
        parse_option(before + option.wire() + after, before.len() as int) == Ok::<
            (OptionModel, int),
            DecodeFault,
        >((option, (before.len() + option.wire().len()) as int)),
{
    let bytes = before + option.wire() + after;
    let index = before.len() as int;
    assert(bytes[index] == option.code);
    assert(take(bytes, index, 1) == Ok::<Seq<u8>, DecodeFault>(bytes.subrange(index, index + 1)));
    assert(bytes.subrange(index, index + 1)[0] == option.code);
    if option.value is Empty {
    } else {
        let body = option.value.wire();
        assert(bytes[index + 1] == body.len() as u8);
        assert(bytes.subrange(index + 1, index + 2)[0] == body.len() as u8);
        assert(bytes.subrange(index + 2, index + 2 + body.len()) =~= body);
        lemma_body_round_trip(option);
    }
}

/// The options of `options` whose code is less than `bound`.
pub open spec fn options_below(options: Map<u8, OptionModel>, bound: int) -> Map<u8, OptionModel> {
    Map::new(|code: u8| code < bound && options.contains_key(code), |code: u8| options[code])
}

/// The bytes of the options from a code on are the bytes of the option with
/// that code, if there is one, and then those of the options above it.
pub proof fn lemma_wire_range_front(options: Map<u8, OptionModel>, low: int, high: int)
    requires
        0 <= low < high,
    ensures
        options_wire_range(options, low, high) == (if options.contains_key(low as u8) {
            options[low as u8].wire()
        } else {
            Seq::empty()
        }) + options_wire_range(options, low + 1, high),
    decreases high - low,
{
    if high == low + 1 {
        assert(options_wire_range(options, low, low) =~= Seq::<u8>::empty());
        assert(options_wire_range(options, low + 1, high) =~= Seq::<u8>::empty());
        assert(options_wire_range(options, low, high) =~= (if options.contains_key(low as u8) {
            options[low as u8].wire()
        } else {
            Seq::empty()
        }) + options_wire_range(options, low + 1, high));
    } else {
        lemma_wire_range_front(options, low, high - 1);
        let first = if options.contains_key(low as u8) {
            options[low as u8].wire()
        } else {
            Seq::empty()
        };
        let last = if options.contains_key((high - 1) as u8) {
            options[(high - 1) as u8].wire()
        } else {
            Seq::empty()
        };
        assert(options_wire_range(options, low, high) =~= first + (options_wire_range(
            options,
            low + 1,
            high - 1,
        ) + last));
    }
}

/// Reading the bytes of the options from the code `from` on, with the
/// options below `from` already found, gives all the options.
proof fn lemma_options_round_trip_from(
    options: Map<u8, OptionModel>,
    from: int,
    before: Seq<u8>,
    after: Seq<u8>,
)
    requires
        options_valid(options),
        0 <= from <= 256,
    ensures
        parse_options(
            before + options_wire_range(options, from, 256) + seq![255u8] + after,
            before.len() as int,
            options_below(options, from),
        ) == Ok::<(Map<u8, OptionModel>, int), DecodeFault>(
            (options, (before.len() + options_wire_range(options, from, 256).len() + 1) as int),
        ),
    decreases 256 - from,
{
    let rest = options_wire_range(options, from, 256);
    let bytes = before + rest + seq![255u8] + after;
    let index = before.len() as int;
    let found = options_below(options, from);
    if from == 256 {
        assert(rest =~= Seq::<u8>::empty());
        assert(bytes[index] == 255u8);
        assert(bytes.subrange(index, index + 1)[0] == 255u8);
        assert(found =~= options);
    } else {
        lemma_wire_range_front(options, from, 256);
        let above = options_wire_range(options, from + 1, 256);
        if options.contains_key(from as u8) {
            let option = options[from as u8];
            let later = above + seq![255u8] + after;
            let next = before + option.wire();
            assert(bytes == before + option.wire() + later) by {
                assert(bytes =~= before + option.wire() + later);
            }
            assert(parse_option(bytes, index) == Ok::<(OptionModel, int), DecodeFault>(
                (option, next.len() as int),
            )) by {
                lemma_option_round_trip(option, before, later);
            }
            assert(found.insert(option.code, option) == options_below(options, from + 1)) by {
                assert(found.insert(option.code, option) =~= options_below(options, from + 1));
            }
            assert(index < bytes.len());
            assert(parse_options(bytes, index, found) == parse_options(
                bytes,
                next.len() as int,
                options_below(options, from + 1),
            ));
            assert(bytes == next + above + seq![255u8] + after) by {
                assert(bytes =~= next + above + seq![255u8] + after);
            }
            lemma_options_round_trip_from(options, from + 1, next, after);
        } else {
            assert(rest == above) by {
                assert(rest =~= above);
            }
            assert(found == options_below(options, from + 1)) by {
                assert(found =~= options_below(options, from + 1));
            }
            lemma_options_round_trip_from(options, from + 1, before, after);
        }
    }
}

/// Valid options read back from their bytes, whatever stands before and
/// after them.
pub proof fn lemma_options_round_trip(
    options: Map<u8, OptionModel>,
    before: Seq<u8>,
    after: Seq<u8>,
)
    requires
        options_valid(options),
    ensures
        parse_options(before + options_wire(options) + after, before.len() as int, Map::empty())
            == Ok::<(Map<u8, OptionModel>, int), DecodeFault>(
            (options, (before.len() + options_wire(options).len()) as int),
        ),
{
    lemma_options_round_trip_from(options, 0, before, after);
    assert(options_below(options, 0) =~= Map::<u8, OptionModel>::empty());
    assert(before + options_wire(options) + after =~= before + options_wire_range(options, 0, 256)
        + seq![255u8] + after);
}

/// In a slot that holds bytes without a NUL and is filled up with NUL, the
/// first NUL stands where the bytes end.
proof fn lemma_nul_from_padded(bytes: Seq<u8>, n: int, from: int)
    requires
        !bytes.contains(0u8),
        bytes.len() <= n,
        0 <= from <= bytes.len(),
    ensures
        nul_from(padded(bytes, n), from) == bytes.len(),
    decreases bytes.len() - from,
{
    let slot = padded(bytes, n);
    if from < bytes.len() {
        assert(slot[from] == bytes[from]);
        assert(bytes.contains(bytes[from]));
        lemma_nul_from_padded(bytes, n, from + 1);
    } else if from < n {
        assert(slot[from] == 0u8);
    }
}

/// Text without a NUL reads back from a slot that it fits.
pub proof fn lemma_padded_text_round_trip(text: Seq<char>, n: int)
    requires
        !encode_utf8(text).contains(0u8),
        encode_utf8(text).len() <= n,
    ensures
        padded(encode_utf8(text), n).len() == n,
        padded_text_in(padded(encode_utf8(text), n)) == Ok::<Seq<char>, DecodeFault>(text),
{
    let bytes = encode_utf8(text);
    lemma_nul_from_padded(bytes, n, 0);
    assert(padded(bytes, n).take(bytes.len() as int) =~= bytes);
    encode_utf8_valid_utf8(text);
    encode_utf8_decode_utf8(text);
}

/// The header of a valid message is 240 bytes and reads back as the
/// message without its options.
pub proof fn lemma_header_round_trip(message: MessageModel)
    requires
        message.valid(),
    ensures
        message.header_wire().len() == 240,
        parse_header(message.header_wire()) == Ok::<MessageModel, DecodeFault>(
            MessageModel { options: Map::empty(), ..message },
        ),
{
    let fixed = message.fixed_wire();
    let names = message.names_wire();
    let header = message.header_wire();
    let sname = padded(encode_utf8(message.sname), 64);
    let file = padded(encode_utf8(message.file), 128);
    lemma_padded_text_round_trip(message.sname, 64);
    lemma_padded_text_round_trip(message.file, 128);
    lemma_be32_round_trip(message.xid);
    lemma_be16_round_trip(message.secs);
    lemma_be16_round_trip(message.flags);
    assert(fixed.len() == 28);
    assert(names.len() == 212);
    assert(fixed =~= seq![
        crate::v4::code::byte_of_opcode(message.opcode),
        message.htype,
        message.hlen,
        message.hops,
        crate::wire::be32(message.xid)[0],
        crate::wire::be32(message.xid)[1],
        crate::wire::be32(message.xid)[2],
        crate::wire::be32(message.xid)[3],
        crate::wire::be16(message.secs)[0],
        crate::wire::be16(message.secs)[1],
        crate::wire::be16(message.flags)[0],
        crate::wire::be16(message.flags)[1],
        message.ciaddr.a,
        message.ciaddr.b,
        message.ciaddr.c,
        message.ciaddr.d,
        message.yiaddr.a,
        message.yiaddr.b,
        message.yiaddr.c,
        message.yiaddr.d,
        message.siaddr.a,
        message.siaddr.b,
        message.siaddr.c,
        message.siaddr.d,
        message.giaddr.a,
        message.giaddr.b,
        message.giaddr.c,
        message.giaddr.d,
    ]);
    assert(forall|i: int| 0 <= i < 28 ==> header[i] == fixed[i]);
    assert(header.subrange(28, 44) =~= message.chaddr);
    assert(header.subrange(44, 108) =~= sname);
    assert(header.subrange(108, 236) =~= file);
    assert(header.subrange(236, 240) =~= magic_cookie());
}

/// A valid message reads back from its bytes, whatever stands before and
/// after them.
pub proof fn lemma_message_round_trip(message: MessageModel, before: Seq<u8>, after: Seq<u8>)
    requires
        message.valid(),
    ensures
        parse_message(before + message.wire() + after, before.len() as int) == Ok::<
            (MessageModel, int),
            DecodeFault,
        >((message, (before.len() + message.wire().len()) as int)),
{
    let bytes = before + message.wire() + after;
    let index = before.len() as int;
    let header = message.header_wire();
    lemma_header_round_trip(message);
    assert(bytes.subrange(index, index + 240) =~= header);
    let start = before + header;
    assert(bytes =~= start + options_wire(message.options) + after);
    lemma_options_round_trip(message.options, start, after);
}

/// Padding before an option is passed over: reading the options from a
/// padding byte on gives what reading them from the next byte on gives.
pub proof fn lemma_padding_skipped(bytes: Seq<u8>, index: int, found: Map<u8, OptionModel>)
    requires
        0 <= index < bytes.len(),
        bytes[index] == 0u8,
    ensures
        parse_options(bytes, index, found) == parse_options(bytes, index + 1, found),
{
    assert(bytes.subrange(index, index + 1)[0] == 0u8);
}

/// The bytes of an options section from `index` on with the padding taken
/// out: every option up to the end mark stays, byte for byte, and so does
/// all that stands from the end mark, or from an option that does not read,
/// on.
pub open spec fn without_padding(bytes: Seq<u8>, index: int) -> Seq<u8>
    decreases bytes.len() - index,
{
    if index < 0 || index >= bytes.len() {
        Seq::empty()
    } else {
        match parse_option(bytes, index) {
            Err(_) => bytes.skip(index),
            Ok((option, next)) => if option.value is Empty {
                if option.code == 255 {
                    bytes.skip(index)
                } else {
                    without_padding(bytes, next)
                }
            } else {
                bytes.subrange(index, next) + without_padding(bytes, next)
            },
        }
    }
}

/// Whether two readings of options come to the same: both give the same
/// options, or both fail for the same reason.
pub open spec fn same_options(
    one: Result<(Map<u8, OptionModel>, int), DecodeFault>,
    other: Result<(Map<u8, OptionModel>, int), DecodeFault>,
) -> bool {
    match (one, other) {
        (Ok((found, _)), Ok((also, _))) => found == also,
        (Err(DecodeFault::EndOfBuffer { .. }), Err(DecodeFault::EndOfBuffer { .. })) => true,
        (Err(e), Err(f)) => e == f,
        _ => false,
    }
}

/// An option that reads at one place reads as the same option wherever its
/// bytes stand.
proof fn lemma_option_reads_anywhere(bytes: Seq<u8>, index: int, other: Seq<u8>, at: int)
    requires
        0 <= index,
        0 <= at,
        parse_option(bytes, index) is Ok,
        at + (parse_option(bytes, index)->Ok_0.1 - index) <= other.len(),
        other.subrange(at, at + (parse_option(bytes, index)->Ok_0.1 - index)) == bytes.subrange(
            index,
            parse_option(bytes, index)->Ok_0.1,
        ),
    ensures
        parse_option(other, at) == Ok::<(OptionModel, int), DecodeFault>(
            (
                parse_option(bytes, index)->Ok_0.0,
                at + (parse_option(bytes, index)->Ok_0.1 - index),
            ),
        ),
{
    let next = parse_option(bytes, index)->Ok_0.1;
    let here = bytes.subrange(index, next);
    let there = other.subrange(at, at + (next - index));
    assert(here[0] == bytes[index] && there[0] == other[at]);
    assert(bytes.subrange(index, index + 1)[0] == other.subrange(at, at + 1)[0]);
    if !(shape_of(bytes[index]) is Empty) {
        assert(here[1] == bytes[index + 1] && there[1] == other[at + 1]);
        assert(bytes.subrange(index + 1, index + 2)[0] == other.subrange(at + 1, at + 2)[0]);
        let length = bytes[index + 1] as int;
        assert(bytes.subrange(index + 2, index + 2 + length) =~= here.subrange(2, 2 + length));
        assert(other.subrange(at + 2, at + 2 + length) =~= there.subrange(2, 2 + length));
    }
}

/// What does not read as an option at one place does not read as one where
/// the same bytes stand at the end of another buffer, and for the same
/// reason.
proof fn lemma_option_fails_anywhere(bytes: Seq<u8>, index: int, other: Seq<u8>, at: int)
    requires
        0 <= index <= bytes.len(),
        0 <= at <= other.len(),
        parse_option(bytes, index) is Err,
        other.skip(at) == bytes.skip(index),
    ensures
        parse_option(other, at) is Err,
        parse_option(bytes, index)->Err_0 is EndOfBuffer ==> parse_option(other, at)->Err_0
            is EndOfBuffer,
        !(parse_option(bytes, index)->Err_0 is EndOfBuffer) ==> parse_option(other, at)->Err_0
            == parse_option(bytes, index)->Err_0,
{
    let here = bytes.skip(index);
    let there = other.skip(at);
    assert(here.len() == there.len());
    if index < bytes.len() {
        assert(here[0] == bytes[index] && there[0] == other[at]);
        assert(bytes.subrange(index, index + 1)[0] == other.subrange(at, at + 1)[0]);
        if index + 1 < bytes.len() {
            assert(here[1] == bytes[index + 1] && there[1] == other[at + 1]);
            assert(bytes.subrange(index + 1, index + 2)[0] == other.subrange(at + 1, at + 2)[0]);
            let length = bytes[index + 1] as int;
            if index + 2 + length <= bytes.len() {
                assert(bytes.subrange(index + 2, index + 2 + length) =~= here.subrange(
                    2,
                    2 + length,
                ));
                assert(other.subrange(at + 2, at + 2 + length) =~= there.subrange(2, 2 + length));
            }
        }
    }
}

/// Reading the options of a section without its padding, wherever it
/// stands at the end of a buffer, comes to the same as reading the options
/// of the section.
proof fn lemma_padding_changes_nothing_after(
    bytes: Seq<u8>,
    index: int,
    found: Map<u8, OptionModel>,
    before: Seq<u8>,
)
    requires
        0 <= index <= bytes.len(),
    ensures
        same_options(
            parse_options(bytes, index, found),
            parse_options(before + without_padding(bytes, index), before.len() as int, found),
        ),
    decreases bytes.len() - index,
{
    let clean = without_padding(bytes, index);
    let other = before + clean;
    let at = before.len() as int;
    if index < bytes.len() {
        match parse_option(bytes, index) {
            Err(e) => {
                assert(other.skip(at) =~= bytes.skip(index));
                lemma_option_fails_anywhere(bytes, index, other, at);
            },
            Ok((option, next)) => {
                if option.value is Empty {
                    if option.code == 255 {
                        assert(other.subrange(at, at + 1) =~= bytes.subrange(index, index + 1));
                        lemma_option_reads_anywhere(bytes, index, other, at);
                    } else {
                        lemma_padding_changes_nothing_after(bytes, next, found, before);
                    }
                } else {
                    let option_bytes = bytes.subrange(index, next);
                    let rest = without_padding(bytes, next);
                    assert(other.subrange(at, at + (next - index)) =~= option_bytes);
                    lemma_option_reads_anywhere(bytes, index, other, at);
                    assert(other =~= (before + option_bytes) + rest);
                    lemma_padding_changes_nothing_after(
                        bytes,
                        next,
                        found.insert(option.code, option),
                        before + option_bytes,
                    );
                }
            },
        }
    } else {
        assert(other =~= before);
    }
}

/// Padding changes nothing: the options read from a section are the
/// options read from the section without its padding.
pub proof fn lemma_padding_changes_nothing(bytes: Seq<u8>, index: int)
    requires
        0 <= index <= bytes.len(),
    ensures
        same_options(
            parse_options(bytes, index, Map::empty()),
            parse_options(without_padding(bytes, index), 0, Map::empty()),
        ),
{
    lemma_padding_changes_nothing_after(bytes, index, Map::empty(), Seq::empty());
    assert(Seq::<u8>::empty() + without_padding(bytes, index) =~= without_padding(bytes, index));
}

} // verus!
