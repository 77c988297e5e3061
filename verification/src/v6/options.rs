//! The options of one DHCPv6 message, at most one for each code.

use crate::decoder::{Decodable, Decoder};
use crate::encoder::{Encodable, Encoder};
use crate::error::{DecodeFault, DecodeResult, EncodeError, EncodeResult};
use crate::v6::code::{number_of, OptionCode};
use crate::v6::model::{parse_option, OptionModel};
use crate::v6::option::DhcpOption;
use crate::order::lemma_increasing_u16;
use std::collections::BTreeMap;
use vstd::prelude::*;
use vstd::std_specs::btree::spec_btree_map_iter;
use vstd::std_specs::iter::IteratorSpec;

verus! {

broadcast use vstd::std_specs::btree::group_btree_axioms;

/// The bytes of the options of `options` whose code is at least `low` and
/// less than `high`, in the order of their codes.
pub open spec fn options_wire_range(options: Map<u16, OptionModel>, low: int, high: int) -> Seq<u8>
    decreases high - low,
{
    if high <= low {
        Seq::empty()
    } else {
        options_wire_range(options, low, high - 1) + if options.contains_key((high - 1) as u16) {
            options[(high - 1) as u16].wire()
        } else {
            Seq::empty()
        }
    }
}

/// The bytes of a set of options on the wire: the options in the order of
/// their codes.
pub open spec fn options_wire(options: Map<u16, OptionModel>) -> Seq<u8> {
    options_wire_range(options, 0, 0x1_0000)
}

/// Whether `list` is the options of `options` in the order of their codes:
/// the codes rise, each option of the list is the one that `options` holds
/// under its code, and every code of `options` is in the list.
pub open spec fn options_listed(list: Seq<OptionModel>, options: Map<u16, OptionModel>) -> bool {
    &&& forall|i: int, j: int| 0 <= i < j < list.len() ==> list[i].code < list[j].code
    &&& forall|i: int|
        0 <= i < list.len() ==> options.contains_key(#[trigger] list[i].code)
            && options[list[i].code] == list[i]
    &&& forall|code: u16| #[trigger]
        options.contains_key(code) ==> exists|i: int|
            0 <= i < list.len() && #[trigger] list[i].code == code
}

/// The bytes of the options of `list`, one after the other.
pub open spec fn list_wire(list: Seq<OptionModel>) -> Seq<u8>
    decreases list.len(),
{
    if list.len() == 0 {
        Seq::empty()
    } else {
        list_wire(list.drop_last()) + list.last().wire()
    }
}

/// Where no code from `low` up to `high` has an option, the bytes of the
/// options below `high` are those of the options below `low`.
pub proof fn lemma_wire_range_gap(options: Map<u16, OptionModel>, low: int, high: int)
    requires
        0 <= low <= high <= 0x1_0000,
        forall|code: u16| low <= code < high ==> !options.contains_key(code),
    ensures
        options_wire_range(options, 0, high) == options_wire_range(options, 0, low),
    decreases high - low,
{
    if low < high {
        lemma_wire_range_gap(options, low, high - 1);
        assert(!options.contains_key((high - 1) as u16));
        assert(options_wire_range(options, 0, high) =~= options_wire_range(options, 0, high - 1));
    }
}

/// The bytes of the options in the order of their codes are the bytes of
/// the list of the options in that order.
pub proof fn lemma_list_wire(list: Seq<OptionModel>, options: Map<u16, OptionModel>, n: int)
    requires
        options_listed(list, options),
        0 <= n <= list.len(),
    ensures
        list_wire(list.take(n)) == options_wire_range(
            options,
            0,
            if n == 0 {
                0
            } else {
                list[n - 1].code + 1
            },
        ),
        n == list.len() ==> list_wire(list) == options_wire(options),
    decreases n,
{
    let reached = if n == 0 {
        0
    } else {
        list[n - 1].code + 1
    };
    if n > 0 {
        lemma_list_wire(list, options, n - 1);
        let earlier = if n == 1 {
            0
        } else {
            list[n - 2].code + 1
        };
        let code = list[n - 1].code;
        assert(options.contains_key(code));
        assert forall|other: u16| earlier <= other < code implies !options.contains_key(other) by {
            if options.contains_key(other) {
                let i = choose|i: int| 0 <= i < list.len() && list[i].code == other;
                if i < n - 1 {
                    if n >= 2 && i < n - 2 {
                        assert(list[i].code < list[n - 2].code);
                    }
                } else if i > n - 1 {
                    assert(list[n - 1].code < list[i].code);
                }
            }
        }
        lemma_wire_range_gap(options, earlier, code as int);
        assert(list.take(n).drop_last() =~= list.take(n - 1));
        assert(list.take(n).last() == list[n - 1]);
    }
    if n == list.len() {
        assert forall|other: u16| reached <= other < 0x1_0000 implies !options.contains_key(
            other,
        ) by {
            if options.contains_key(other) {
                let i = choose|i: int| 0 <= i < list.len() && list[i].code == other;
                if i < n - 1 {
                    assert(list[i].code < list[n - 1].code);
                }
            }
        }
        lemma_wire_range_gap(options, reached, 0x1_0000);
        assert(list.take(n) =~= list);
    }
}

/// Whether the body of every option of `options` fits its length.
pub open spec fn options_encodable(options: Map<u16, OptionModel>) -> bool {
    forall|code: u16| #[trigger] options.contains_key(code) ==> options[code].encodable()
}

/// Whether `options` holds each option under its own code.
pub open spec fn options_keyed(options: Map<u16, OptionModel>) -> bool {
    forall|code: u16| #[trigger] options.contains_key(code) ==> options[code].code == code
}

/// Whether `options` is a set of options that a read can give.
pub open spec fn options_valid(options: Map<u16, OptionModel>) -> bool {
    &&& options_keyed(options)
    &&& forall|code: u16| #[trigger] options.contains_key(code) ==> options[code].valid()
}

/// The options that stand in `bytes` from `index` to the end, put into
/// `found`, and the index after them.
///
/// Of two options with one code the later one stays.
pub open spec fn parse_options(bytes: Seq<u8>, index: int, found: Map<u16, OptionModel>) -> Result<
    (Map<u16, OptionModel>, int),
    DecodeFault,
>
    decreases bytes.len() - index,
{
    if index < 0 || index >= bytes.len() {
        Ok((found, index))
    } else {
        match parse_option(bytes, index) {
            Err(e) => Err(e),
            Ok((option, next)) => parse_options(bytes, next, found.insert(option.code, option)),
        }
    }
}

/// The options of one DHCPv6 message: at most one for each code.
///
/// The options are kept in an ordered map under the number of their code,
/// so whatever has to go through the options in order walks the map.
#[derive(Debug, PartialEq, Eq)]
pub struct DhcpOptions {
    map: BTreeMap<u16, DhcpOption>,
}

impl View for DhcpOptions {
    type V = Map<u16, OptionModel>;

    closed spec fn view(&self) -> Map<u16, OptionModel> {
        self.map@.map_values(|option: DhcpOption| option@)
    }
}

impl Clone for DhcpOptions {
    fn clone(&self) -> (copy: DhcpOptions)
        ensures
            copy@ == self@,
    {
        proof {
            use_type_invariant(self);
        }
        DhcpOptions { map: self.map.clone() }
    }
}

impl DhcpOptions {
    #[verifier::type_invariant]
    spec fn keyed(self) -> bool {
        forall|code: u16| #[trigger]
            self.map@.contains_key(code) ==> number_of(self.map@[code].spec_code()) == code
    }

    /// No options.
    pub fn new() -> (options: DhcpOptions)
        ensures
            options@ == Map::<u16, OptionModel>::empty(),
    {
        let options = DhcpOptions { map: BTreeMap::new() };
        assert(options@ =~= Map::<u16, OptionModel>::empty());
        options
    }

    /// How many options there are. Each of them stands under its own code.
    pub fn len(&self) -> (n: usize)
        ensures
            n == self@.len(),
            self@.dom().finite(),
            options_keyed(self@),
    {
        proof {
            use_type_invariant(self);
        }
        assert(self@.dom() =~= self.map@.dom());
        self.map.len()
    }

    /// Whether there is no option.
    pub fn is_empty(&self) -> (empty: bool)
        ensures
            empty == (self@.len() == 0),
    {
        self.len() == 0
    }

    /// The option with the code `code`, if there is one.
    pub fn get(&self, code: OptionCode) -> (r: Option<&DhcpOption>)
        ensures
            match r {
                Some(option) => self@.contains_key(number_of(code)) && option@ == self@[number_of(
                    code,
                )],
                None => !self@.contains_key(number_of(code)),
            },
    {
        let key: u16 = u16::from(code);
        self.map.get(&key)
    }

    /// The options, in the order of their codes.
    pub fn iter(&self) -> (list: Vec<&DhcpOption>)
        ensures
            options_listed(list@.map_values(|option: &DhcpOption| option@), self@),
    {
        proof {
            use_type_invariant(self);
        }
        let mut list: Vec<&DhcpOption> = Vec::new();
        let ghost all = spec_btree_map_iter(&self.map).remaining();
        for entry in it: self.map.iter()
            invariant
                it.seq() == all,
                list@.len() == it.index(),
                forall|i: int| 0 <= i < list@.len() ==> list@[i] == all[i].1,
        {
            list.push(entry.1);
        }
        proof {
            self.lemma_walk(all, list@.map_values(|option: &DhcpOption| option@));
        }
        list
    }

    /// What an ordered walk over the options gives is the list of the
    /// options in the order of their codes.
    proof fn lemma_walk(&self, all: Seq<(&u16, &DhcpOption)>, list: Seq<OptionModel>)
        requires
            self.keyed(),
            all == spec_btree_map_iter(&self.map).remaining(),
            vstd::std_specs::btree::increasing_seq(
                all.map_values(|entry: (&u16, &DhcpOption)| *entry.0),
            ),
            list.len() == all.len(),
            forall|i: int| 0 <= i < list.len() ==> list[i] == all[i].1@,
        ensures
            options_listed(list, self@),
    {
        let keys = all.map_values(|entry: (&u16, &DhcpOption)| *entry.0);
        lemma_increasing_u16(keys);
        assert forall|i: int| 0 <= i < list.len() implies self@.contains_key(
            #[trigger] list[i].code,
        ) && self@[list[i].code] == list[i] && list[i].code == keys[i] by {
            assert(self.map@.contains_key(*all[i].0));
        }
        assert forall|code: u16| #[trigger] self@.contains_key(code) implies exists|i: int|
            0 <= i < list.len() && #[trigger] list[i].code == code by {
            assert(all.contains((&code, &self.map@[code])));
            let i = choose|i: int| 0 <= i < all.len() && all[i] == (&code, &self.map@[code]);
            assert(list[i].code == code);
        }
    }

    /// Puts `option` among the options, in place of the one with the same
    /// code if there is one, and returns that one.
    pub fn insert(&mut self, option: DhcpOption) -> (r: Option<DhcpOption>)
        ensures
            final(self)@ == old(self)@.insert(option@.code, option@),
            match r {
                Some(earlier) => old(self)@.contains_key(option@.code) && earlier@ == old(
                    self,
                )@[option@.code],
                None => !old(self)@.contains_key(option@.code),
            },
    {
        proof {
            use_type_invariant(&*self);
        }
        let key: u16 = u16::from(option.code());
        let ghost model = option@;
        let mut map: BTreeMap<u16, DhcpOption> = BTreeMap::new();
        core::mem::swap(&mut self.map, &mut map);
        let earlier = map.insert(key, option);
        self.map = map;
        assert(self@ =~= old(self)@.insert(key, model));
        earlier
    }

    /// Takes the option with the code `code` out of the options and returns
    /// it, if there is one.
    pub fn remove(&mut self, code: OptionCode) -> (r: Option<DhcpOption>)
        ensures
            final(self)@ == old(self)@.remove(number_of(code)),
            match r {
                Some(option) => old(self)@.contains_key(number_of(code)) && option@ == old(
                    self,
                )@[number_of(code)],
                None => !old(self)@.contains_key(number_of(code)),
            },
    {
        proof {
            use_type_invariant(&*self);
        }
        let key: u16 = u16::from(code);
        let mut map: BTreeMap<u16, DhcpOption> = BTreeMap::new();
        core::mem::swap(&mut self.map, &mut map);
        let taken = map.remove(&key);
        self.map = map;
        assert(self@ =~= old(self)@.remove(key));
        taken
    }
}

impl Decodable for DhcpOptions {
    open spec fn parse(bytes: Seq<u8>, index: int) -> Result<
        (Map<u16, OptionModel>, int),
        DecodeFault,
    > {
        parse_options(bytes, index, Map::empty())
    }

    /// Reads options up to the end of the buffer.
    fn decode<'a>(decoder: &mut Decoder<'a>) -> (r: DecodeResult<DhcpOptions>) {
        let start: usize = decoder.index();
        let mut options = DhcpOptions::new();
        while !decoder.is_empty()
            invariant
                parse_options(decoder.bytes(), start as int, Map::empty()) == parse_options(
                    decoder.bytes(),
                    decoder.position(),
                    options@,
                ),
                decoder.bytes() == old(decoder).bytes(),
                start == old(decoder).position(),
                start <= decoder.position(),
                decoder.remaining() >= 0,
            decreases decoder.remaining(),
        {
            match DhcpOption::decode(decoder) {
                Err(e) => {
                    decoder.rewind(start);
                    return Err(e);
                },
                Ok(option) => {
                    options.insert(option);
                },
            }
        }
        Ok(options)
    }
}

impl Encodable for DhcpOptions {
    open spec fn wire(&self) -> Seq<u8> {
        options_wire(self@)
    }

    open spec fn encodable(&self) -> bool {
        options_encodable(self@)
    }

    /// Appends the options in the order of their codes.
    fn encode<'a>(&self, e: &mut Encoder<'a>) -> (r: EncodeResult<usize>) {
        proof {
            use_type_invariant(self);
        }
        let mut scratch: Vec<u8> = Vec::new();
        let mut sink = Encoder::new(&mut scratch);
        let ghost all = spec_btree_map_iter(&self.map).remaining();
        let ghost list = Seq::new(all.len(), |i: int| all[i].1@);
        let walk = self.map.iter();
        proof {
            self.lemma_walk(all, list);
        }
        for entry in it: walk
            invariant
                it.seq() == all,
                all.len() == list.len(),
                forall|i: int| 0 <= i < list.len() ==> list[i] == all[i].1@,
                options_listed(list, self@),
                sink.buffer@ == list_wire(list.take(it.index())),
                forall|i: int| 0 <= i < it.index() ==> list[i].encodable(),
                after_borrow(scratch) == *final(sink.buffer),
        {
            let ghost at = it.index();
            assert(self@.contains_key(list[at].code));
            if entry.1.encode(&mut sink).is_err() {
                return Err(EncodeError::AddOverflow);
            }
            assert(list.take(at + 1).drop_last() =~= list.take(at));
        }
        proof {
            lemma_list_wire(list, self@, list.len() as int);
            assert(list.take(list.len() as int) =~= list);
            assert forall|code: u16| #[trigger] self@.contains_key(code) implies self@[code]
                .encodable() by {
                let i = choose|i: int| 0 <= i < list.len() && list[i].code == code;
            }
        }
        e.write(scratch.as_slice())
    }
}

} // verus!
