//! The DHCPv6 message: a message type, a transaction id and the options.

use crate::decoder::{take, Decodable, Decoder};
use crate::encoder::{Encodable, Encoder};
use crate::error::{DecodeFault, DecodeResult, EncodeError, EncodeResult};
use crate::v6::code::{byte_of_message_type, message_type_of, MessageType};
use crate::v6::model::OptionModel;
use crate::v6::options::{
    options_encodable, options_valid, options_wire, parse_options, DhcpOptions,
};
use vstd::prelude::*;

verus! {

/// A DHCPv6 message, as mathematics.
pub struct MessageModel {
    pub mtype: MessageType,
    pub trans_id: Seq<u8>,
    pub options: Map<u16, OptionModel>,
}

impl MessageModel {
    /// The bytes of the message on the wire: the message type, the three
    /// bytes of the transaction id and the options.
    pub open spec fn wire(self) -> Seq<u8> {
        seq![byte_of_message_type(self.mtype)] + self.trans_id + options_wire(self.options)
    }

    /// Whether the body of every option fits its length.
    pub open spec fn encodable(self) -> bool {
        options_encodable(self.options)
    }

    /// Whether the message is one that a read can give.
    pub open spec fn valid(self) -> bool {
        &&& message_type_of(byte_of_message_type(self.mtype)) == self.mtype
        &&& self.trans_id.len() == 3
        &&& options_valid(self.options)
    }
}

/// The message that stands at `index` of `bytes` and runs to their end,
/// and the index after it.
pub open spec fn parse_message(bytes: Seq<u8>, index: int) -> Result<
    (MessageModel, int),
    DecodeFault,
> {
    match take(bytes, index, 1) {
        Err(e) => Err(e),
        Ok(mtype) => match take(bytes, index + 1, 3) {
            Err(e) => Err(e),
            Ok(trans_id) => match parse_options(bytes, index + 4, Map::empty()) {
                Err(e) => Err(e),
                Ok((options, next)) => Ok(
                    (MessageModel { mtype: message_type_of(mtype[0]), trans_id, options }, next),
                ),
            },
        },
    }
}

/// A DHCPv6 message.
#[derive(Debug, Clone, PartialEq, Eq)]
pub struct Message {
    mtype: MessageType,
    trans_id: [u8; 3],
    options: DhcpOptions,
}

impl View for Message {
    type V = MessageModel;

    closed spec fn view(&self) -> MessageModel {
        MessageModel { mtype: self.mtype, trans_id: self.trans_id@, options: self.options@ }
    }
}

impl Message {
    /// The message with these fields.
    pub fn new(mtype: MessageType, trans_id: [u8; 3], options: DhcpOptions) -> (message: Message)
        ensures
            message@ == (MessageModel { mtype, trans_id: trans_id@, options: options@ }),
    {
        Message { mtype, trans_id, options }
    }

    /// What the message is for.
    pub fn mtype(&self) -> (mtype: MessageType)
        ensures
            mtype == self@.mtype,
    {
        self.mtype
    }

    /// The transaction id.
    pub fn trans_id(&self) -> (trans_id: [u8; 3])
        ensures
            trans_id@ == self@.trans_id,
    {
        self.trans_id
    }

    /// The options.
    pub fn opts(&self) -> (options: &DhcpOptions)
        ensures
            options@ == self@.options,
    {
        &self.options
    }

    /// Puts `options` in place of the options of the message.
    pub fn set_opts(&mut self, options: DhcpOptions)
        ensures
            final(self)@ == (MessageModel { options: options@, ..old(self)@ }),
    {
        self.options = options;
    }
}

impl Decodable for Message {
    open spec fn parse(bytes: Seq<u8>, index: int) -> Result<(MessageModel, int), DecodeFault> {
        parse_message(bytes, index)
    }

    /// Reads the message type, the transaction id and the options.
    fn decode<'a>(decoder: &mut Decoder<'a>) -> (r: DecodeResult<Message>) {
        let start: usize = decoder.index();
        let mtype = MessageType::from(decoder.read_u8()?);
        let trans_id: [u8; 3] = match decoder.read_array::<3>() {
            Ok(trans_id) => trans_id,
            Err(e) => {
                decoder.rewind(start);
                return Err(e);
            },
        };
        match DhcpOptions::decode(decoder) {
            Ok(options) => Ok(Message { mtype, trans_id, options }),
            Err(e) => {
                decoder.rewind(start);
                Err(e)
            },
        }
    }
}

impl Encodable for Message {
    open spec fn wire(&self) -> Seq<u8> {
        self@.wire()
    }

    open spec fn encodable(&self) -> bool {
        self@.encodable()
    }

    /// Appends the message type, the transaction id and the options.
    fn encode<'a>(&self, e: &mut Encoder<'a>) -> (r: EncodeResult<usize>) {
        let mut scratch: Vec<u8> = Vec::new();
        let mut sink = Encoder::new(&mut scratch);
        if self.options.encode(&mut sink).is_err() {
            return Err(EncodeError::AddOverflow);
        }
        let ghost before = e.buffer@;
        let start: usize = e.buffer.len();
        e.write_u8(u8::from(self.mtype))?;
        e.write(self.trans_id.as_slice())?;
        e.write(scratch.as_slice())?;
        assert(e.buffer@ =~= before + self@.wire());
        Ok(e.buffer.len() - start)
    }
}

} // verus!
