//! The DHCPv4 message: a fixed header, the magic cookie and the options.

use crate::addr::Ipv4Addr;
use crate::decoder::{padded_text_in, take, Decodable, Decoder};
use crate::encoder::{Encodable, Encoder};
use crate::error::{bad_magic, DecodeError, DecodeFault, DecodeResult, EncodeError, EncodeResult};
use crate::v4::code::{byte_of_opcode, opcode_of, Opcode};
use crate::v4::model::OptionModel;
use crate::v4::options::{
    options_encodable, options_valid, options_wire, parse_options, DhcpOptions,
};
use crate::wire::{be16, be32, u16_at, u32_at};
use vstd::prelude::*;
use vstd::utf8::encode_utf8;

verus! {

/// The four bytes that stand between the header and the options.
pub open spec fn magic_cookie() -> Seq<u8> {
    seq![0x63u8, 0x82u8, 0x53u8, 0x63u8]
}

/// `bytes` filled up with NUL to the length `n`.
pub open spec fn padded(bytes: Seq<u8>, n: int) -> Seq<u8> {
    bytes + Seq::new((n - bytes.len()) as nat, |i: int| 0u8)
}

/// A DHCPv4 message, as mathematics.
pub struct MessageModel {
    pub opcode: Opcode,
    pub htype: u8,
    pub hlen: u8,
    pub hops: u8,
    pub xid: u32,
    pub secs: u16,
    pub flags: u16,
    pub ciaddr: Ipv4Addr,
    pub yiaddr: Ipv4Addr,
    pub siaddr: Ipv4Addr,
    pub giaddr: Ipv4Addr,
    pub chaddr: Seq<u8>,
    pub sname: Seq<char>,
    pub file: Seq<char>,
    pub options: Map<u8, OptionModel>,
}

impl MessageModel {
    /// The bytes of the fields that come before the hardware address: 28
    /// bytes.
    pub open spec fn fixed_wire(self) -> Seq<u8> {
        seq![byte_of_opcode(self.opcode), self.htype, self.hlen, self.hops] + be32(self.xid)
            + be16(self.secs) + be16(self.flags) + self.ciaddr.wire() + self.yiaddr.wire()
            + self.siaddr.wire() + self.giaddr.wire()
    }

    /// The bytes of the hardware address, of the two names, each filled up
    /// to its slot, and of the magic cookie.
    pub open spec fn names_wire(self) -> Seq<u8> {
        self.chaddr + padded(encode_utf8(self.sname), 64) + padded(encode_utf8(self.file), 128)
            + magic_cookie()
    }

    /// The bytes of the header and the magic cookie: 240 bytes where the
    /// names fit their slots.
    pub open spec fn header_wire(self) -> Seq<u8> {
        self.fixed_wire() + self.names_wire()
    }

    /// The bytes of the message on the wire.
    pub open spec fn wire(self) -> Seq<u8> {
        self.header_wire() + options_wire(self.options)
    }

    /// Whether every length in the message fits the field that carries it:
    /// the names their slots, and the body of each option its length octet.
    pub open spec fn encodable(self) -> bool {
        &&& encode_utf8(self.sname).len() <= 64
        &&& encode_utf8(self.file).len() <= 128
        &&& options_encodable(self.options)
    }

    /// Whether the message is one that a read can give.
    pub open spec fn valid(self) -> bool {
        &&& opcode_of(byte_of_opcode(self.opcode)) == self.opcode
        &&& self.chaddr.len() == 16
        &&& encode_utf8(self.sname).len() <= 64
        &&& !encode_utf8(self.sname).contains(0u8)
        &&& encode_utf8(self.file).len() <= 128
        &&& !encode_utf8(self.file).contains(0u8)
        &&& options_valid(self.options)
    }
}

/// The message whose header and magic cookie are the 240 bytes `header`,
/// with no options yet.
pub open spec fn parse_header(header: Seq<u8>) -> Result<MessageModel, DecodeFault> {
    match padded_text_in(header.subrange(44, 108)) {
        Err(e) => Err(e),
        Ok(sname) => match padded_text_in(header.subrange(108, 236)) {
            Err(e) => Err(e),
            Ok(file) => if header.subrange(236, 240) != magic_cookie() {
                Err(bad_magic())
            } else {
                Ok(
                    MessageModel {
                        opcode: opcode_of(header[0]),
                        htype: header[1],
                        hlen: header[2],
                        hops: header[3],
                        xid: u32_at(header, 4),
                        secs: u16_at(header, 8),
                        flags: u16_at(header, 10),
                        ciaddr: Ipv4Addr::at(header, 12),
                        yiaddr: Ipv4Addr::at(header, 16),
                        siaddr: Ipv4Addr::at(header, 20),
                        giaddr: Ipv4Addr::at(header, 24),
                        chaddr: header.subrange(28, 44),
                        sname,
                        file,
                        options: Map::empty(),
                    },
                )
            },
        },
    }
}

/// The message that stands at `index` of `bytes`, and the index after it.
///
/// The header and the magic cookie take 240 bytes; the options follow, up
/// to the end mark or the end of the buffer.
pub open spec fn parse_message(bytes: Seq<u8>, index: int) -> Result<
    (MessageModel, int),
    DecodeFault,
> {
    match take(bytes, index, 240) {
        Err(e) => Err(e),
        Ok(header) => match parse_header(header) {
            Err(e) => Err(e),
            Ok(message) => match parse_options(bytes, index + 240, Map::empty()) {
                Err(e) => Err(e),
                Ok((options, next)) => Ok((MessageModel { options, ..message }, next)),
            },
        },
    }
}

/// A buffer whose magic cookie is not `63 82 53 63` is no message.
pub proof fn lemma_bad_magic_fails(bytes: Seq<u8>, index: int)
    requires
        0 <= index,
        index + 240 > bytes.len() || bytes.subrange(index + 236, index + 240) != magic_cookie(),
    ensures
        parse_message(bytes, index) is Err,
{
    if index + 240 <= bytes.len() {
        let header = bytes.subrange(index, index + 240);
        assert(header.subrange(236, 240) =~= bytes.subrange(index + 236, index + 240));
    }
}

/// A DHCPv4 message.
#[derive(Debug, Clone, PartialEq, Eq)]
pub struct Message {
    opcode: Opcode,
    htype: u8,
    hlen: u8,
    hops: u8,
    xid: u32,
    secs: u16,
    flags: u16,
    ciaddr: Ipv4Addr,
    yiaddr: Ipv4Addr,
    siaddr: Ipv4Addr,
    giaddr: Ipv4Addr,
    chaddr: [u8; 16],
    sname: String,
    file: String,
    options: DhcpOptions,
}

impl View for Message {
    type V = MessageModel;

    closed spec fn view(&self) -> MessageModel {
        MessageModel {
            opcode: self.opcode,
            htype: self.htype,
            hlen: self.hlen,
            hops: self.hops,
            xid: self.xid,
            secs: self.secs,
            flags: self.flags,
            ciaddr: self.ciaddr,
            yiaddr: self.yiaddr,
            siaddr: self.siaddr,
            giaddr: self.giaddr,
            chaddr: self.chaddr@,
            sname: self.sname@,
            file: self.file@,
            options: self.options@,
        }
    }
}

impl Message {
    /// The message with these fields.
    pub fn new(
        opcode: Opcode,
        htype: u8,
        hlen: u8,
        hops: u8,
        xid: u32,
        secs: u16,
        flags: u16,
        ciaddr: Ipv4Addr,
        yiaddr: Ipv4Addr,
        siaddr: Ipv4Addr,
        giaddr: Ipv4Addr,
        chaddr: [u8; 16],
        sname: String,
        file: String,
        options: DhcpOptions,
    ) -> (message: Message)
        ensures
            message@ == (MessageModel {
                opcode: opcode,
                htype: htype,
                hlen: hlen,
                hops: hops,
                xid: xid,
                secs: secs,
                flags: flags,
                ciaddr: ciaddr,
                yiaddr: yiaddr,
                siaddr: siaddr,
                giaddr: giaddr,
                chaddr: chaddr@,
                sname: sname@,
                file: file@,
                options: options@,
            }),
    {
        Message {
            opcode,
            htype,
            hlen,
            hops,
            xid,
            secs,
            flags,
            ciaddr,
            yiaddr,
            siaddr,
            giaddr,
            chaddr,
            sname,
            file,
            options,
        }
    }

    /// Whether the message is a request or a reply.
    pub fn opcode(&self) -> (opcode: Opcode)
        ensures
            opcode == self@.opcode,
    {
        self.opcode
    }

    /// The kind of hardware address.
    pub fn htype(&self) -> (htype: u8)
        ensures
            htype == self@.htype,
    {
        self.htype
    }

    /// The length of the hardware address.
    pub fn hlen(&self) -> (hlen: u8)
        ensures
            hlen == self@.hlen,
    {
        self.hlen
    }

    /// How many relay agents the message has passed.
    pub fn hops(&self) -> (hops: u8)
        ensures
            hops == self@.hops,
    {
        self.hops
    }

    /// The transaction id.
    pub fn xid(&self) -> (xid: u32)
        ensures
            xid == self@.xid,
    {
        self.xid
    }

    /// The seconds since the client began to ask.
    pub fn secs(&self) -> (secs: u16)
        ensures
            secs == self@.secs,
    {
        self.secs
    }

    /// The flags.
    pub fn flags(&self) -> (flags: u16)
        ensures
            flags == self@.flags,
    {
        self.flags
    }

    /// The address that the client has.
    pub fn ciaddr(&self) -> (ciaddr: Ipv4Addr)
        ensures
            ciaddr == self@.ciaddr,
    {
        self.ciaddr
    }

    /// The address that the client is given.
    pub fn yiaddr(&self) -> (yiaddr: Ipv4Addr)
        ensures
            yiaddr == self@.yiaddr,
    {
        self.yiaddr
    }

    /// The address of the next server.
    pub fn siaddr(&self) -> (siaddr: Ipv4Addr)
        ensures
            siaddr == self@.siaddr,
    {
        self.siaddr
    }

    /// The address of the relay agent.
    pub fn giaddr(&self) -> (giaddr: Ipv4Addr)
        ensures
            giaddr == self@.giaddr,
    {
        self.giaddr
    }

    /// The hardware address of the client.
    pub fn chaddr(&self) -> (chaddr: &[u8; 16])
        ensures
            chaddr@ == self@.chaddr,
    {
        &self.chaddr
    }

    /// The name of the server.
    pub fn sname(&self) -> (sname: &str)
        ensures
            sname@ == self@.sname,
    {
        self.sname.as_str()
    }

    /// The name of the boot file.
    pub fn file(&self) -> (file: &str)
        ensures
            file@ == self@.file,
    {
        self.file.as_str()
    }

    /// The options.
    pub fn opts(&self) -> (options: &DhcpOptions)
        ensures
            options@ == self@.options,
    {
        &self.options
    }

    /// Puts `options` in place of the options of the message.
    pub fn set_opts(&mut self, options: DhcpOptions)
        ensures
            final(self)@ == (MessageModel { options: options@, ..old(self)@ }),
    {
        self.options = options;
    }

    /// Appends the fields that come before the hardware address.
    fn write_fixed<'a>(&self, e: &mut Encoder<'a>)
        ensures
            *final(final(e).buffer) == *final(old(e).buffer),
            final(e).wrote(old(e), self@.fixed_wire()),
    {
        let _ = e.write_u8(u8::from(self.opcode));
        let _ = e.write_u8(self.htype);
        let _ = e.write_u8(self.hlen);
        let _ = e.write_u8(self.hops);
        let _ = e.write_u32(self.xid);
        let _ = e.write_u16(self.secs);
        let _ = e.write_u16(self.flags);
        let ghost middle = e.buffer@;
        assert(middle =~= old(e).buffer@ + (seq![
            byte_of_opcode(self.opcode),
            self.htype,
            self.hlen,
            self.hops,
        ] + be32(self.xid) + be16(self.secs) + be16(self.flags)));
        let _ = e.write_ip(self.ciaddr);
        let _ = e.write_ip(self.yiaddr);
        let _ = e.write_ip(self.siaddr);
        let _ = e.write_ip(self.giaddr);
        assert(e.buffer@ =~= old(e).buffer@ + self@.fixed_wire());
    }

    /// Appends the hardware address, the two names, each filled up to its
    /// slot, and the magic cookie.
    fn write_names<'a>(&self, e: &mut Encoder<'a>)
        requires
            encode_utf8(self@.sname).len() <= 64,
            encode_utf8(self@.file).len() <= 128,
        ensures
            *final(final(e).buffer) == *final(old(e).buffer),
            final(e).wrote(old(e), self@.names_wire()),
    {
        let _ = e.write(self.chaddr.as_slice());
        let _ = e.write_string(self.sname.as_str());
        let _ = e.write_fill(0, 64 - self.sname.as_str().len());
        let ghost middle = e.buffer@;
        assert(middle =~= old(e).buffer@ + (self@.chaddr + padded(encode_utf8(self@.sname), 64)));
        let _ = e.write_string(self.file.as_str());
        let _ = e.write_fill(0, 128 - self.file.as_str().len());
        let _ = e.write_u8(0x63);
        let _ = e.write_u8(0x82);
        let _ = e.write_u8(0x53);
        let _ = e.write_u8(0x63);
        assert(e.buffer@ =~= middle + (padded(encode_utf8(self@.file), 128) + magic_cookie()));
        assert(e.buffer@ =~= old(e).buffer@ + self@.names_wire());
    }

    /// Reads the header and the magic cookie from the 240 bytes `header`.
    fn decode_header(header: &[u8]) -> (r: DecodeResult<Message>)
        requires
            header@.len() == 240,
        ensures
            match parse_header(header@) {
                Ok(message) => r matches Ok(m) && m@ == message,
                Err(e) => r matches Err(err) && err@ == e,
            },
    {
        assert(header@.subrange(0, 240) =~= header@);
        let mut decoder = Decoder::new(header);
        let opcode = Opcode::from(decoder.read_u8()?);
        let htype: u8 = decoder.read_u8()?;
        let hlen: u8 = decoder.read_u8()?;
        let hops: u8 = decoder.read_u8()?;
        let xid: u32 = decoder.read_u32()?;
        let secs: u16 = decoder.read_u16()?;
        let flags: u16 = decoder.read_u16()?;
        let ciaddr = decoder.read_ip()?;
        let yiaddr = decoder.read_ip()?;
        let siaddr = decoder.read_ip()?;
        let giaddr = decoder.read_ip()?;
        let chaddr: [u8; 16] = decoder.read_array::<16>()?;
        let sname = decoder.read_padded_string(64)?;
        let file = decoder.read_padded_string(128)?;
        let cookie: [u8; 4] = decoder.read_array::<4>()?;
        if cookie[0] != 0x63 || cookie[1] != 0x82 || cookie[2] != 0x53 || cookie[3] != 0x63 {
            assert(header@.subrange(236, 240) != magic_cookie()) by {
                assert(cookie@ == header@.subrange(236, 240));
                assert(magic_cookie()[0] == 0x63 && magic_cookie()[1] == 0x82 && magic_cookie()[2]
                    == 0x53 && magic_cookie()[3] == 0x63);
            }
            return Err(DecodeError::bad_magic());
        }
        assert(header@.subrange(236, 240) =~= magic_cookie());
        let options = DhcpOptions::new();
        Ok(
            Message {
                opcode,
                htype,
                hlen,
                hops,
                xid,
                secs,
                flags,
                ciaddr,
                yiaddr,
                siaddr,
                giaddr,
                chaddr,
                sname,
                file,
                options,
            },
        )
    }
}

impl Decodable for Message {
    open spec fn parse(bytes: Seq<u8>, index: int) -> Result<(MessageModel, int), DecodeFault> {
        parse_message(bytes, index)
    }

    /// Reads the header, checks the magic cookie and reads the options.
    fn decode<'a>(decoder: &mut Decoder<'a>) -> (r: DecodeResult<Message>) {
        let start: usize = decoder.index();
        let header: &[u8] = decoder.read_slice(240)?;
        let mut message = match Message::decode_header(header) {
            Ok(message) => message,
            Err(e) => {
                decoder.rewind(start);
                return Err(e);
            },
        };
        match DhcpOptions::decode(decoder) {
            Ok(options) => {
                message.options = options;
                Ok(message)
            },
            Err(e) => {
                decoder.rewind(start);
                Err(e)
            },
        }
    }
}

impl Encodable for Message {
    open spec fn wire(&self) -> Seq<u8> {
        self@.wire()
    }

    open spec fn encodable(&self) -> bool {
        self@.encodable()
    }

    /// Appends the header with each name filled up to its slot, the magic
    /// cookie and the options.
    fn encode<'a>(&self, e: &mut Encoder<'a>) -> (r: EncodeResult<usize>) {
        if self.sname.as_str().as_bytes().len() > 64 || self.file.as_str().as_bytes().len() > 128 {
            return Err(EncodeError::AddOverflow);
        }
        let mut scratch: Vec<u8> = Vec::new();
        let mut sink = Encoder::new(&mut scratch);
        if self.options.encode(&mut sink).is_err() {
            return Err(EncodeError::AddOverflow);
        }
        let ghost before = e.buffer@;
        let start: usize = e.buffer.len();
        self.write_fixed(e);
        self.write_names(e);
        e.write(scratch.as_slice())?;
        assert(e.buffer@ =~= before + self@.wire());
        Ok(e.buffer.len() - start)
    }
}

} // verus!
