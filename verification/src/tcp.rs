//! The segment record and its accessors and mutators.

use vstd::prelude::*;
use crate::address::Ipv4Address;
use crate::model::{Field, FieldValue, TcpView};

verus! {

/// One TCP segment: header fields, option and padding bytes, payload, and the
/// addresses of the two endpoints.
///
/// Every combination of field values is a valid record.
#[derive(Debug)]
pub struct TCP {
    pub source: Ipv4Address,
    pub destination: Ipv4Address,
    pub sequence: u32,
    pub acknowledgment: u32,
    pub data_offset: u8,
    pub reserved: u8,
    pub flags: u16,
    pub window_size: u16,
    pub checksum: u16,
    pub urgent_pointer: u16,
    pub options: Vec<u8>,
    pub padding: Vec<u8>,
    pub data: Vec<u8>,
}

impl View for TCP {
    type V = TcpView;

    open spec fn view(&self) -> TcpView {
        TcpView {
            source: self.source,
            destination: self.destination,
            sequence: self.sequence,
            acknowledgment: self.acknowledgment,
            data_offset: self.data_offset,
            reserved: self.reserved,
            flags: self.flags,
            window_size: self.window_size,
            checksum: self.checksum,
            urgent_pointer: self.urgent_pointer,
            options: self.options@,
            padding: self.padding@,
            data: self.data@,
        }
    }
}

impl TCP {
    /// Builds a record from all of its fields. Each value is stored as given.
    pub fn new(
        source: Ipv4Address,
        destination: Ipv4Address,
        sequence: u32,
        acknowledgment: u32,
        data_offset: u8,
        reserved: u8,
        flags: u16,
        window_size: u16,
        checksum: u16,
        urgent_pointer: u16,
        options: Vec<u8>,
        padding: Vec<u8>,
        data: Vec<u8>,
    ) -> (r: Self)
        ensures
            r@ == (TcpView {
                source,
                destination,
                sequence,
                acknowledgment,
                data_offset,
                reserved,
                flags,
                window_size,
                checksum,
                urgent_pointer,
                options: options@,
                padding: padding@,
                data: data@,
            }),
    {
        TCP {
            source,
            destination,
            sequence,
            acknowledgment,
            data_offset,
            reserved,
            flags,
            window_size,
            checksum,
            urgent_pointer,
            options,
            padding,
            data,
        }
    }

    /// The source address.
    pub fn get_source(&self) -> (r: Ipv4Address)
        ensures
            self@.get(Field::Source) == FieldValue::Address(r),
    {
        self.source
    }

    /// The destination address.
    pub fn get_destination(&self) -> (r: Ipv4Address)
        ensures
            self@.get(Field::Destination) == FieldValue::Address(r),
    {
        self.destination
    }

    /// The sequence number.
    pub fn get_sequence(&self) -> (r: u32)
        ensures
            self@.get(Field::Sequence) == FieldValue::Word32(r),
    {
        self.sequence
    }

    /// The acknowledgment number.
    pub fn get_acknowledgement(&self) -> (r: u32)
        ensures
            self@.get(Field::Acknowledgment) == FieldValue::Word32(r),
    {
        self.acknowledgment
    }

    /// The data offset.
    pub fn get_data_offset(&self) -> (r: u8)
        ensures
            self@.get(Field::DataOffset) == FieldValue::Byte(r),
    {
        self.data_offset
    }

    /// The reserved bits.
    pub fn get_reserved(&self) -> (r: u8)
        ensures
            self@.get(Field::Reserved) == FieldValue::Byte(r),
    {
        self.reserved
    }

    /// The control flags.
    pub fn get_flags(&self) -> (r: u16)
        ensures
            self@.get(Field::Flags) == FieldValue::Word16(r),
    {
        self.flags
    }

    /// The window size.
    pub fn get_window_size(&self) -> (r: u16)
        ensures
            self@.get(Field::WindowSize) == FieldValue::Word16(r),
    {
        self.window_size
    }

    /// The checksum.
    pub fn get_checksum(&self) -> (r: u16)
        ensures
            self@.get(Field::Checksum) == FieldValue::Word16(r),
    {
        self.checksum
    }

    /// The urgent pointer.
    pub fn get_urgent_ponter(&self) -> (r: u16)
        ensures
            self@.get(Field::UrgentPointer) == FieldValue::Word16(r),
    {
        self.urgent_pointer
    }

    /// A copy of the option bytes. The copy is the caller's own: the record keeps its
    /// bytes whatever is done to it.
    pub fn get_options(&self) -> (r: Vec<u8>)
        ensures
            self@.get(Field::Options) == FieldValue::Bytes(r@),
    {
        self.options.clone()
    }

    /// A copy of the padding bytes. The copy is the caller's own: the record keeps its
    /// bytes whatever is done to it.
    pub fn get_padding(&self) -> (r: Vec<u8>)
        ensures
            self@.get(Field::Padding) == FieldValue::Bytes(r@),
    {
        self.padding.clone()
    }

    /// A copy of the payload. The copy is the caller's own: the record keeps its
    /// bytes whatever is done to it.
    pub fn get_data(&self) -> (r: Vec<u8>)
        ensures
            self@.get(Field::Data) == FieldValue::Bytes(r@),
    {
        self.data.clone()
    }

    /// The record with the source address replaced by `source`, every other field kept.
    pub fn set_source(self, source: Ipv4Address) -> (r: Self)
        ensures
            r@ == self@.put(Field::Source, FieldValue::Address(source)),
    {
        TCP { source, ..self }
    }

    /// The record with the destination address replaced by `destination`, every other field kept.
    pub fn set_destination(self, destination: Ipv4Address) -> (r: Self)
        ensures
            r@ == self@.put(Field::Destination, FieldValue::Address(destination)),
    {
        TCP { destination, ..self }
    }

    /// The record with the sequence number replaced by `sequence`, every other field kept.
    pub fn set_sequence(self, sequence: u32) -> (r: Self)
        ensures
            r@ == self@.put(Field::Sequence, FieldValue::Word32(sequence)),
    {
        TCP { sequence, ..self }
    }

    /// The record with the acknowledgment number replaced by `acknowledgment`, every other field kept.
    pub fn set_acknowledgement(self, acknowledgment: u32) -> (r: Self)
        ensures
            r@ == self@.put(Field::Acknowledgment, FieldValue::Word32(acknowledgment)),
    {
        TCP { acknowledgment, ..self }
    }

    /// The record with the data offset replaced by `data_offset`, every other field kept.
    pub fn set_data_offset(self, data_offset: u8) -> (r: Self)
        ensures
            r@ == self@.put(Field::DataOffset, FieldValue::Byte(data_offset)),
    {
        TCP { data_offset, ..self }
    }

    /// The record with the reserved bits replaced by `reserved`, every other field kept.
    pub fn set_reserved(self, reserved: u8) -> (r: Self)
        ensures
            r@ == self@.put(Field::Reserved, FieldValue::Byte(reserved)),
    {
        TCP { reserved, ..self }
    }

    /// The record with the control flags replaced by `flags`, every other field kept.
    pub fn set_flags(self, flags: u16) -> (r: Self)
        ensures
            r@ == self@.put(Field::Flags, FieldValue::Word16(flags)),
    {
        TCP { flags, ..self }
    }

    /// The record with the window size replaced by `window_size`, every other field kept.
    pub fn set_window_size(self, window_size: u16) -> (r: Self)
        ensures
            r@ == self@.put(Field::WindowSize, FieldValue::Word16(window_size)),
    {
        TCP { window_size, ..self }
    }

    /// The record with the checksum replaced by `checksum`, every other field kept.
    pub fn set_checksum(self, checksum: u16) -> (r: Self)
        ensures
            r@ == self@.put(Field::Checksum, FieldValue::Word16(checksum)),
    {
        TCP { checksum, ..self }
    }

    /// The record with the urgent pointer replaced by `urgent_pointer`, every other field kept.
    pub fn set_urgent_ponter(self, urgent_pointer: u16) -> (r: Self)
        ensures
            r@ == self@.put(Field::UrgentPointer, FieldValue::Word16(urgent_pointer)),
    {
        TCP { urgent_pointer, ..self }
    }

    /// The record with the option bytes replaced by `options`, every other field kept.
    pub fn set_options(self, options: Vec<u8>) -> (r: Self)
        ensures
            r@ == self@.put(Field::Options, FieldValue::Bytes(options@)),
    {
        TCP { options, ..self }
    }

    /// The record with the padding bytes replaced by `padding`, every other field kept.
    pub fn set_padding(self, padding: Vec<u8>) -> (r: Self)
        ensures
            r@ == self@.put(Field::Padding, FieldValue::Bytes(padding@)),
    {
        TCP { padding, ..self }
    }

    /// The record with the payload replaced by `data`, every other field kept.
    pub fn set_data(self, data: Vec<u8>) -> (r: Self)
        ensures
            r@ == self@.put(Field::Data, FieldValue::Bytes(data@)),
    {
        TCP { data, ..self }
    }
}

} // verus!
