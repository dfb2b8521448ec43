//! What travels over ESP-NOW: outgoing packets, decoding errors and a reader of bytes.
use vstd::prelude::*;

verus! {

/// A packet to send: the bytes, and the hardware address that they go to.
#[derive(Debug)]
pub struct EspNowSendData {
    pub data: Vec<u8>,
    pub address: [u8; 6],
}

/// Why bytes are no device message.
#[derive(Debug)]
pub enum DeviceError {
    /// The bytes end before the message does.
    InvalidMessage,
    /// No device has this identifier.
    UnknownDevice,
    /// Messages of this device are not decoded.
    UnimplementedType,
}

/// Reads bytes one after the other. Its view is the bytes still to be read.
pub struct ByteReader<'a> {
    bytes: &'a [u8],
    position: usize,
}

impl<'a> View for ByteReader<'a> {
    type V = Seq<u8>;

    closed spec fn view(&self) -> Seq<u8> {
        self.bytes@.skip(self.position as int)
    }
}

impl<'a> ByteReader<'a> {
    #[verifier::type_invariant]
    spec fn position_within_bytes(&self) -> bool {
        self.position <= self.bytes@.len()
    }

    /// A reader of all of the bytes.
    pub fn new(bytes: &'a [u8]) -> (reader: Self)
        ensures
            reader@ == bytes@,
    {
        ByteReader { bytes, position: 0 }
    }

    /// The next byte, which stays to be read; `None` at the end.
    pub fn peek(&self) -> (byte: Option<u8>)
        ensures
            byte == (if self@.len() == 0 {
                None
            } else {
                Some(self@[0])
            }),
    {
        proof {
            use_type_invariant(self);
        }
        if self.position < self.bytes.len() {
            Some(self.bytes[self.position])
        } else {
            None
        }
    }

    /// Reads the next byte; `None` at the end.
    pub fn next(&mut self) -> (byte: Option<u8>)
        ensures
            old(self)@.len() == 0 ==> byte is None && final(self)@ == old(self)@,
            old(self)@.len() > 0 ==> byte == Some(old(self)@[0]) && final(self)@ == old(self)@.skip(
                1,
            ),
    {
        proof {
            use_type_invariant(&*self);
        }
        if self.position < self.bytes.len() {
            let byte: u8 = self.bytes[self.position];
            self.position = self.position + 1;
            assert(self@ =~= old(self)@.skip(1));
            Some(byte)
        } else {
            None
        }
    }

    /// Reads two bytes. Where fewer are left, those are read and `None` comes back.
    pub fn next_two(&mut self) -> (pair: Option<(u8, u8)>)
        ensures
            old(self)@.len() < 2 ==> pair is None && final(self)@.len() == 0,
            old(self)@.len() >= 2 ==> pair == Some((old(self)@[0], old(self)@[1])) && final(self)@
                == old(self)@.skip(2),
    {
        match self.next() {
            None => None,
            Some(first) => match self.next() {
                None => None,
                Some(second) => {
                    assert(self@ =~= old(self)@.skip(2));
                    Some((first, second))
                },
            },
        }
    }
}

} // verus!
