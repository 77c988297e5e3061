//! What holds of reading and writing DHCPv6 together: what is written
//! reads back as what it was.

use crate::decoder::take;
use crate::error::DecodeFault;
use crate::v6::message::{parse_message, MessageModel};
use crate::v6::model::{
    duid_in, parse_body, parse_option, DuidModel, OptionModel, OptionValue,
};
use crate::v6::options::{options_valid, options_wire, options_wire_range, parse_options};
use crate::wire::{
    be16, lemma_be16_round_trip, lemma_be16s_round_trip, lemma_be32_round_trip,
    lemma_be64_round_trip,
};
use vstd::prelude::*;
use vstd::utf8::{encode_utf8, encode_utf8_decode_utf8, encode_utf8_valid_utf8};

verus! {

/// An identifier reads back from its bytes.
pub proof fn lemma_duid_round_trip(duid: DuidModel)
    requires
        duid.canonical(),
    ensures
        duid_in(duid.wire()) == Ok::<DuidModel, DecodeFault>(duid),
{
    let body = duid.wire();
    match duid {
        DuidModel::LinkLayerTime { htype, time, addr } => {
            lemma_be16_round_trip(1);
            lemma_be16_round_trip(htype);
            lemma_be32_round_trip(time);
            assert(body.skip(8) =~= addr);
        },
        DuidModel::Enterprise { enterprise, id } => {
            lemma_be16_round_trip(2);
            lemma_be32_round_trip(enterprise);
            assert(body.skip(6) =~= id);
        },
        DuidModel::LinkLayer { htype, addr } => {
            lemma_be16_round_trip(3);
            lemma_be16_round_trip(htype);
            assert(body.skip(4) =~= addr);
        },
        DuidModel::Uuid(uuid) => {
            lemma_be16_round_trip(4);
            assert(body.skip(2) =~= uuid);
        },
        DuidModel::Unknown { kind, bytes } => {
            lemma_be16_round_trip(kind);
            assert(body.skip(2) =~= bytes);
        },
    }
}

/// The body of a valid option reads back from its bytes.
pub proof fn lemma_body_round_trip(option: OptionModel)
    requires
        option.valid(),
    ensures
        parse_body(option.code, option.value.wire()) == Ok::<OptionValue, DecodeFault>(
            option.value,
        ),
{
    let body = option.value.wire();
    match option.value {
        OptionValue::Duid(duid) => {
            lemma_duid_round_trip(duid);
        },
        OptionValue::IaNa { iaid, t1, t2, options } => {
            lemma_be32_round_trip(iaid);
            lemma_be32_round_trip(t1);
            lemma_be32_round_trip(t2);
            assert(body.skip(12) =~= options);
        },
        OptionValue::IaTa { iaid, options } => {
            lemma_be32_round_trip(iaid);
            assert(body.skip(4) =~= options);
        },
        OptionValue::IaAddr { addr, preferred, valid, options } => {
            lemma_be32_round_trip(preferred);
            lemma_be32_round_trip(valid);
            assert(body.take(16) =~= addr);
            assert(body.skip(24) =~= options);
        },
        OptionValue::Codes(codes) => {
            lemma_be16s_round_trip(codes);
        },
        OptionValue::U16(v) => {
            lemma_be16_round_trip(v);
        },
        OptionValue::Auth { proto, algo, rdm, replay, info } => {
            lemma_be64_round_trip(replay);
            let replay_bytes = crate::wire::be64(replay);
            assert(forall|i: int| 0 <= i < 8 ==> body[3 + i] == replay_bytes[i]);
            assert(crate::wire::u32_at(body, 3) == crate::wire::u32_at(replay_bytes, 0));
            assert(crate::wire::u32_at(body, 7) == crate::wire::u32_at(replay_bytes, 4));
            assert(body.skip(11) =~= info);
        },
        OptionValue::Status { code, message } => {
            lemma_be16_round_trip(code);
            encode_utf8_valid_utf8(message);
            encode_utf8_decode_utf8(message);
            assert(body.skip(2) =~= encode_utf8(message));
        },
        OptionValue::Vendor { enterprise, data } => {
            lemma_be32_round_trip(enterprise);
            assert(body.skip(4) =~= data);
        },
        _ => {},
    }
}

/// A valid option reads back from its bytes, whatever stands before and
/// after them.
pub proof fn lemma_option_round_trip(option: OptionModel, before: Seq<u8>, after: Seq<u8>)
    requires
        option.valid(),
    ensures
        parse_option(before + option.wire() + after, before.len() as int) == Ok::<
            (OptionModel, int),
            DecodeFault,
        >((option, (before.len() + option.wire().len()) as int)),
{
    let bytes = before + option.wire() + after;
    let index = before.len() as int;
    let body = option.value.wire();
    lemma_be16_round_trip(option.code);
    lemma_be16_round_trip(body.len() as u16);
    assert(bytes.subrange(index, index + 2) =~= be16(option.code));
    assert(bytes.subrange(index + 2, index + 4) =~= be16(body.len() as u16));
    assert(bytes.subrange(index + 4, index + 4 + body.len()) =~= body);
    lemma_body_round_trip(option);
}

/// The options of `options` whose code is less than `bound`.
pub open spec fn options_below(options: Map<u16, OptionModel>, bound: int) -> Map<
    u16,
    OptionModel,
> {
    Map::new(|code: u16| code < bound && options.contains_key(code), |code: u16| options[code])
}

/// The bytes of the options from a code on are the bytes of the option with
/// that code, if there is one, and then those of the options above it.
pub proof fn lemma_wire_range_front(options: Map<u16, OptionModel>, low: int, high: int)
    requires
        0 <= low < high,
    ensures
        options_wire_range(options, low, high) == (if options.contains_key(low as u16) {
            options[low as u16].wire()
        } else {
            Seq::empty()
        }) + options_wire_range(options, low + 1, high),
    decreases high - low,
{
    if high == low + 1 {
        assert(options_wire_range(options, low, low) =~= Seq::<u8>::empty());
        assert(options_wire_range(options, low + 1, high) =~= Seq::<u8>::empty());
        assert(options_wire_range(options, low, high) =~= (if options.contains_key(low as u16) {
            options[low as u16].wire()
        } else {
            Seq::empty()
        }) + options_wire_range(options, low + 1, high));
    } else {
        lemma_wire_range_front(options, low, high - 1);
        let first = if options.contains_key(low as u16) {
            options[low as u16].wire()
        } else {
            Seq::empty()
        };
        let last = if options.contains_key((high - 1) as u16) {
            options[(high - 1) as u16].wire()
        } else {
            Seq::empty()
        };
        assert(options_wire_range(options, low, high) =~= first + (options_wire_range(
            options,
            low + 1,
            high - 1,
        ) + last));
    }
}

/// Reading the bytes of the options from the code `from` on, with the
/// options below `from` already found, gives all the options.
proof fn lemma_options_round_trip_from(options: Map<u16, OptionModel>, from: int, before: Seq<u8>)
    requires
        options_valid(options),
        0 <= from <= 0x1_0000,
    ensures
        parse_options(
            before + options_wire_range(options, from, 0x1_0000),
            before.len() as int,
            options_below(options, from),
        ) == Ok::<(Map<u16, OptionModel>, int), DecodeFault>(
            (options, (before.len() + options_wire_range(options, from, 0x1_0000).len()) as int),
        ),
    decreases 0x1_0000 - from,
{
    let rest = options_wire_range(options, from, 0x1_0000);
    let bytes = before + rest;
    let index = before.len() as int;
    let found = options_below(options, from);
    if from == 0x1_0000 {
        assert(rest =~= Seq::<u8>::empty());
        assert(found =~= options);
        assert(bytes.len() == index);
    } else {
        lemma_wire_range_front(options, from, 0x1_0000);
        let above = options_wire_range(options, from + 1, 0x1_0000);
        if options.contains_key(from as u16) {
            let option = options[from as u16];
            let next = before + option.wire();
            assert(bytes == before + option.wire() + above) by {
                assert(bytes =~= before + option.wire() + above);
            }
            assert(parse_option(bytes, index) == Ok::<(OptionModel, int), DecodeFault>(
                (option, next.len() as int),
            )) by {
                lemma_option_round_trip(option, before, above);
            }
            assert(found.insert(option.code, option) == options_below(options, from + 1)) by {
                assert(found.insert(option.code, option) =~= options_below(options, from + 1));
            }
            assert(index < bytes.len());
            assert(parse_options(bytes, index, found) == parse_options(
                bytes,
                next.len() as int,
                options_below(options, from + 1),
            ));
            assert(bytes == next + above) by {
                assert(bytes =~= next + above);
            }
            lemma_options_round_trip_from(options, from + 1, next);
        } else {
            assert(rest == above) by {
                assert(rest =~= above);
            }
            assert(found == options_below(options, from + 1)) by {
                assert(found =~= options_below(options, from + 1));
            }
            lemma_options_round_trip_from(options, from + 1, before);
        }
    }
}

/// Valid options read back from their bytes at the end of a buffer,
/// whatever stands before them.
pub proof fn lemma_options_round_trip(options: Map<u16, OptionModel>, before: Seq<u8>)
    requires
        options_valid(options),
    ensures
        parse_options(before + options_wire(options), before.len() as int, Map::empty()) == Ok::<
            (Map<u16, OptionModel>, int),
            DecodeFault,
        >((options, (before.len() + options_wire(options).len()) as int)),
{
    lemma_options_round_trip_from(options, 0, before);
    assert(options_below(options, 0) =~= Map::<u16, OptionModel>::empty());
}

/// A valid message reads back from its bytes at the end of a buffer,
/// whatever stands before them.
pub proof fn lemma_message_round_trip(message: MessageModel, before: Seq<u8>)
    requires
        message.valid(),
    ensures
        parse_message(before + message.wire(), before.len() as int) == Ok::<
            (MessageModel, int),
            DecodeFault,
        >((message, (before.len() + message.wire().len()) as int)),
{
    let bytes = before + message.wire();
    let index = before.len() as int;
    let head = seq![crate::v6::code::byte_of_message_type(message.mtype)] + message.trans_id;
    assert(bytes.subrange(index, index + 1)[0] == crate::v6::code::byte_of_message_type(
        message.mtype,
    ));
    assert(bytes.subrange(index + 1, index + 4) =~= message.trans_id);
    let start = before + head;
    assert(bytes =~= start + options_wire(message.options));
    lemma_options_round_trip(message.options, start);
}

} // verus!
