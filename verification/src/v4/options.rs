//! The options of one DHCPv4 message, at most one for each code.

use crate::decoder::{Decodable, Decoder};
use crate::encoder::{Encodable, Encoder};
use crate::error::{DecodeFault, DecodeResult, EncodeError, EncodeResult};
use crate::v4::code::{byte_of, OptionCode};
use crate::v4::model::{parse_option, OptionModel};
use crate::v4::option::DhcpOption;
use std::collections::HashMap;
use vstd::prelude::*;

verus! {

broadcast use vstd::std_specs::hash::group_hash_axioms;

/// The bytes of the options of `options` whose code is at least `low` and
/// less than `high`, in the order of their codes.
pub open spec fn options_wire_range(options: Map<u8, OptionModel>, low: int, high: int) -> Seq<u8>
    decreases high - low,
{
    if high <= low {
        Seq::empty()
    } else {
        options_wire_range(options, low, high - 1) + if options.contains_key((high - 1) as u8) {
            options[(high - 1) as u8].wire()
        } else {
            Seq::empty()
        }
    }
}

/// The bytes of a set of options on the wire: the options in the order of
/// their codes, then the end mark.
pub open spec fn options_wire(options: Map<u8, OptionModel>) -> Seq<u8> {
    options_wire_range(options, 0, 256) + seq![255u8]
}

/// Whether `list` is the options of `options` in the order of their codes:
/// the codes rise, each option of the list is the one that `options` holds
/// under its code, and every code of `options` is in the list.
pub open spec fn options_listed(list: Seq<OptionModel>, options: Map<u8, OptionModel>) -> bool {
    &&& forall|i: int, j: int| 0 <= i < j < list.len() ==> list[i].code < list[j].code
    &&& forall|i: int|
        0 <= i < list.len() ==> options.contains_key(#[trigger] list[i].code)
            && options[list[i].code] == list[i]
    &&& forall|code: u8| #[trigger]
        options.contains_key(code) ==> exists|i: int|
            0 <= i < list.len() && #[trigger] list[i].code == code
}

/// Whether the body of every option of `options` fits its length octet.
pub open spec fn options_encodable(options: Map<u8, OptionModel>) -> bool {
    forall|code: u8| #[trigger] options.contains_key(code) ==> options[code].encodable()
}

/// Whether `options` holds each option under its own code, and neither
/// padding nor an end mark.
pub open spec fn options_keyed(options: Map<u8, OptionModel>) -> bool {
    forall|code: u8| #[trigger]
        options.contains_key(code) ==> options[code].code == code && !(options[code].value
            is Empty)
}

/// Whether `options` is a set of options that a read can give.
pub open spec fn options_valid(options: Map<u8, OptionModel>) -> bool {
    &&& options_keyed(options)
    &&& forall|code: u8| #[trigger] options.contains_key(code) ==> options[code].valid()
}

/// The options that stand in `bytes` from `index` on, put into `found`, and
/// the index after them.
///
/// Padding is passed over. The end mark ends the options, and so does the
/// end of the buffer. Of two options with one code the later one stays.
pub open spec fn parse_options(bytes: Seq<u8>, index: int, found: Map<u8, OptionModel>) -> Result<
    (Map<u8, OptionModel>, int),
    DecodeFault,
>
    decreases bytes.len() - index,
{
    if index < 0 || index >= bytes.len() {
        Ok((found, index))
    } else {
        match parse_option(bytes, index) {
            Err(e) => Err(e),
            Ok((option, next)) => if option.value is Empty {
                if option.code == 255 {
                    Ok((found, next))
                } else {
                    parse_options(bytes, next, found)
                }
            } else {
                parse_options(bytes, next, found.insert(option.code, option))
            },
        }
    }
}

/// The options of one DHCPv4 message: at most one for each code, and
/// neither padding nor an end mark among them.
///
/// The options are kept in a hash map under the byte of their code. A code
/// is one octet, so whatever has to go through the options in order asks
/// for each of the 256 codes in turn.
#[derive(Debug, PartialEq, Eq)]
pub struct DhcpOptions {
    map: HashMap<u8, DhcpOption>,
}

impl View for DhcpOptions {
    type V = Map<u8, OptionModel>;

    closed spec fn view(&self) -> Map<u8, OptionModel> {
        self.map@.map_values(|option: DhcpOption| option@)
    }
}

impl Clone for DhcpOptions {
    fn clone(&self) -> (copy: DhcpOptions)
        ensures
            copy@ == self@,
    {
        proof {
            use_type_invariant(self);
        }
        DhcpOptions { map: self.map.clone() }
    }
}

impl DhcpOptions {
    #[verifier::type_invariant]
    spec fn keyed(self) -> bool {
        forall|code: u8| #[trigger]
            self.map@.contains_key(code) ==> byte_of(self.map@[code].spec_code()) == code && !(
            self.map@[code].value() is Empty)
    }

    /// No options.
    pub fn new() -> (options: DhcpOptions)
        ensures
            options@ == Map::<u8, OptionModel>::empty(),
    {
        let options = DhcpOptions { map: HashMap::new() };
        assert(options@ =~= Map::<u8, OptionModel>::empty());
        options
    }

    /// How many options there are. Each of them stands under its own code.
    pub fn len(&self) -> (n: usize)
        ensures
            n == self@.len(),
            self@.dom().finite(),
            options_keyed(self@),
    {
        proof {
            use_type_invariant(self);
        }
        assert(self@.dom() =~= self.map@.dom());
        self.map.len()
    }

    /// Whether there is no option.
    pub fn is_empty(&self) -> (empty: bool)
        ensures
            empty == (self@.len() == 0),
    {
        self.len() == 0
    }

    /// The option with the code `code`, if there is one.
    pub fn get(&self, code: OptionCode) -> (r: Option<&DhcpOption>)
        ensures
            match r {
                Some(option) => self@.contains_key(byte_of(code)) && option@ == self@[byte_of(
                    code,
                )],
                None => !self@.contains_key(byte_of(code)),
            },
    {
        let key: u8 = u8::from(code);
        self.map.get(&key)
    }

    /// The options, in the order of their codes.
    pub fn iter(&self) -> (list: Vec<&DhcpOption>)
        ensures
            options_listed(list@.map_values(|option: &DhcpOption| option@), self@),
    {
        proof {
            use_type_invariant(self);
        }
        let mut list: Vec<&DhcpOption> = Vec::new();
        let mut next: usize = 0;
        while next < 256
            invariant
                next <= 256,
                self.keyed(),
                forall|i: int, j: int| 0 <= i < j < list@.len() ==> list@[i]@.code < list@[j]@.code,
                forall|i: int|
                    0 <= i < list@.len() ==> (#[trigger] list@[i])@.code < next
                        && self@.contains_key(list@[i]@.code) && self@[list@[i]@.code]
                        == list@[i]@,
                forall|code: u8| #[trigger]
                    self@.contains_key(code) && code < next ==> exists|i: int|
                        0 <= i < list@.len() && (#[trigger] list@[i])@.code == code,
            decreases 256 - next,
        {
            let code: u8 = next as u8;
            let ghost before = list@;
            match self.map.get(&code) {
                Some(option) => {
                    assert(self@.contains_key(code) && self@[code] == option@);
                    list.push(option);
                    assert(list@[before.len() as int]@.code == code);
                    assert forall|other: u8| #[trigger]
                        self@.contains_key(other) && other < next + 1 implies exists|i: int|
                        0 <= i < list@.len() && (#[trigger] list@[i])@.code == other by {
                        if other < next {
                            let i = choose|i: int|
                                0 <= i < before.len() && (#[trigger] before[i])@.code == other;
                            assert(list@[i] == before[i]);
                        }
                    }
                },
                None => {},
            }
            next = next + 1;
        }
        proof {
            let models = list@.map_values(|option: &DhcpOption| option@);
            assert forall|code: u8| #[trigger] self@.contains_key(code) implies exists|i: int|
                0 <= i < models.len() && #[trigger] models[i].code == code by {
                let i = choose|i: int| 0 <= i < list@.len() && (#[trigger] list@[i])@.code == code;
                assert(models[i].code == code);
            }
        }
        list
    }

    /// Puts `option` among the options, in place of the one with the same
    /// code if there is one, and returns that one. Padding and the end mark
    /// are not kept.
    pub fn insert(&mut self, option: DhcpOption) -> (r: Option<DhcpOption>)
        ensures
            final(self)@ == if option@.value is Empty {
                old(self)@
            } else {
                old(self)@.insert(option@.code, option@)
            },
            match r {
                Some(earlier) => !(option@.value is Empty) && old(self)@.contains_key(
                    option@.code,
                ) && earlier@ == old(self)@[option@.code],
                None => option@.value is Empty || !old(self)@.contains_key(option@.code),
            },
    {
        proof {
            use_type_invariant(&*self);
        }
        match option {
            DhcpOption::Pad | DhcpOption::End => {
                return None;
            },
            _ => {},
        }
        let key: u8 = u8::from(option.code());
        let ghost model = option@;
        let mut map: HashMap<u8, DhcpOption> = HashMap::new();
        core::mem::swap(&mut self.map, &mut map);
        let earlier = map.insert(key, option);
        self.map = map;
        assert(self@ =~= old(self)@.insert(key, model));
        earlier
    }

    /// Takes the option with the code `code` out of the options and returns
    /// it, if there is one.
    pub fn remove(&mut self, code: OptionCode) -> (r: Option<DhcpOption>)
        ensures
            final(self)@ == old(self)@.remove(byte_of(code)),
            match r {
                Some(option) => old(self)@.contains_key(byte_of(code)) && option@ == old(
                    self,
                )@[byte_of(code)],
                None => !old(self)@.contains_key(byte_of(code)),
            },
    {
        proof {
            use_type_invariant(&*self);
        }
        let key: u8 = u8::from(code);
        let mut map: HashMap<u8, DhcpOption> = HashMap::new();
        core::mem::swap(&mut self.map, &mut map);
        let taken = map.remove(&key);
        self.map = map;
        assert(self@ =~= old(self)@.remove(key));
        taken
    }
}

impl Decodable for DhcpOptions {
    open spec fn parse(bytes: Seq<u8>, index: int) -> Result<
        (Map<u8, OptionModel>, int),
        DecodeFault,
    > {
        parse_options(bytes, index, Map::empty())
    }

    /// Reads options up to the end mark or the end of the buffer.
    fn decode<'a>(decoder: &mut Decoder<'a>) -> (r: DecodeResult<DhcpOptions>) {
        let start: usize = decoder.index();
        let mut options = DhcpOptions::new();
        loop
            invariant_except_break
                parse_options(decoder.bytes(), start as int, Map::empty()) == parse_options(
                    decoder.bytes(),
                    decoder.position(),
                    options@,
                ),
            invariant
                decoder.bytes() == old(decoder).bytes(),
                start == old(decoder).position(),
                start <= decoder.position(),
            ensures
                parse_options(decoder.bytes(), start as int, Map::empty()) == Ok::<
                    (Map<u8, OptionModel>, int),
                    DecodeFault,
                >((options@, decoder.position())),
            decreases decoder.remaining(),
        {
            if decoder.is_empty() {
                break ;
            }
            match DhcpOption::decode(decoder) {
                Err(e) => {
                    decoder.rewind(start);
                    return Err(e);
                },
                Ok(DhcpOption::End) => {
                    break ;
                },
                Ok(option) => {
                    options.insert(option);
                },
            }
        }
        Ok(options)
    }
}

impl Encodable for DhcpOptions {
    open spec fn wire(&self) -> Seq<u8> {
        options_wire(self@)
    }

    open spec fn encodable(&self) -> bool {
        options_encodable(self@)
    }

    /// Appends the options in the order of their codes, then the end mark.
    fn encode<'a>(&self, e: &mut Encoder<'a>) -> (r: EncodeResult<usize>) {
        proof {
            use_type_invariant(self);
        }
        let mut scratch: Vec<u8> = Vec::new();
        let mut sink = Encoder::new(&mut scratch);
        let mut next: usize = 0;
        while next < 256
            invariant
                next <= 256,
                sink.buffer@ == options_wire_range(self@, 0, next as int),
                forall|code: u8|
                    code < next && #[trigger] self@.contains_key(code) ==> self@[code].encodable(),
                after_borrow(scratch) == *final(sink.buffer),
            decreases 256 - next,
        {
            let code: u8 = next as u8;
            match self.map.get(&code) {
                Some(option) => {
                    assert(self@.contains_key(code) && self@[code] == option@);
                    if option.encode(&mut sink).is_err() {
                        return Err(EncodeError::AddOverflow);
                    }
                },
                None => {
                    assert(sink.buffer@ =~= sink.buffer@ + Seq::<u8>::empty());
                },
            }
            next = next + 1;
        }
        sink.write_u8(255)?;
        e.write(scratch.as_slice())
    }
}

} // verus!
