//! The mathematical value of a segment record.

use vstd::prelude::*;
use crate::address::Ipv4Address;

verus! {

/// What a segment record holds, with each byte string as a sequence.
pub struct TcpView {
    pub source: Ipv4Address,
    pub destination: Ipv4Address,
    pub sequence: u32,
    pub acknowledgment: u32,
    pub data_offset: u8,
    pub reserved: u8,
    pub flags: u16,
    pub window_size: u16,
    pub checksum: u16,
    pub urgent_pointer: u16,
    pub options: Seq<u8>,
    pub padding: Seq<u8>,
    pub data: Seq<u8>,
}

/// The thirteen fields of a segment record.
pub enum Field {
    Source,
    Destination,
    Sequence,
    Acknowledgment,
    DataOffset,
    Reserved,
    Flags,
    WindowSize,
    Checksum,
    UrgentPointer,
    Options,
    Padding,
    Data,
}

/// A value that a field can hold, by the field's type.
pub enum FieldValue {
    Address(Ipv4Address),
    Word32(u32),
    Byte(u8),
    Word16(u16),
    Bytes(Seq<u8>),
}

impl Field {
    /// Whether `v` has the type of this field. Within that type no value is
    /// left out: an address field takes every address, an integer field every
    /// integer of its width, a byte-string field every sequence of bytes.
    pub open spec fn admits(self, v: FieldValue) -> bool {
        match self {
            Field::Source | Field::Destination => v is Address,
            Field::Sequence | Field::Acknowledgment => v is Word32,
            Field::DataOffset | Field::Reserved => v is Byte,
            Field::Flags | Field::WindowSize | Field::Checksum | Field::UrgentPointer => v is Word16,
            Field::Options | Field::Padding | Field::Data => v is Bytes,
        }
    }
}

impl TcpView {
    /// The value held in field `f`.
    pub open spec fn get(self, f: Field) -> FieldValue {
        match f {
            Field::Source => FieldValue::Address(self.source),
            Field::Destination => FieldValue::Address(self.destination),
            Field::Sequence => FieldValue::Word32(self.sequence),
            Field::Acknowledgment => FieldValue::Word32(self.acknowledgment),
            Field::DataOffset => FieldValue::Byte(self.data_offset),
            Field::Reserved => FieldValue::Byte(self.reserved),
            Field::Flags => FieldValue::Word16(self.flags),
            Field::WindowSize => FieldValue::Word16(self.window_size),
            Field::Checksum => FieldValue::Word16(self.checksum),
            Field::UrgentPointer => FieldValue::Word16(self.urgent_pointer),
            Field::Options => FieldValue::Bytes(self.options),
            Field::Padding => FieldValue::Bytes(self.padding),
            Field::Data => FieldValue::Bytes(self.data),
        }
    }

    /// The record that holds `v` in field `f` and is otherwise `self`. A value
    /// of another type than the field's leaves the record as it is.
    pub open spec fn put(self, f: Field, v: FieldValue) -> TcpView {
        match (f, v) {
            (Field::Source, FieldValue::Address(a)) => TcpView { source: a, ..self },
            (Field::Destination, FieldValue::Address(a)) => TcpView { destination: a, ..self },
            (Field::Sequence, FieldValue::Word32(n)) => TcpView { sequence: n, ..self },
            (Field::Acknowledgment, FieldValue::Word32(n)) => TcpView { acknowledgment: n, ..self },
            (Field::DataOffset, FieldValue::Byte(n)) => TcpView { data_offset: n, ..self },
            (Field::Reserved, FieldValue::Byte(n)) => TcpView { reserved: n, ..self },
            (Field::Flags, FieldValue::Word16(n)) => TcpView { flags: n, ..self },
            (Field::WindowSize, FieldValue::Word16(n)) => TcpView { window_size: n, ..self },
            (Field::Checksum, FieldValue::Word16(n)) => TcpView { checksum: n, ..self },
            (Field::UrgentPointer, FieldValue::Word16(n)) => TcpView { urgent_pointer: n, ..self },
            (Field::Options, FieldValue::Bytes(s)) => TcpView { options: s, ..self },
            (Field::Padding, FieldValue::Bytes(s)) => TcpView { padding: s, ..self },
            (Field::Data, FieldValue::Bytes(s)) => TcpView { data: s, ..self },
            _ => self,
        }
    }
}

/// A record built from thirteen values holds each of them in its own field.
pub proof fn lemma_built_record_holds_its_values(
    source: Ipv4Address,
    destination: Ipv4Address,
    sequence: u32,
    acknowledgment: u32,
    data_offset: u8,
    reserved: u8,
    flags: u16,
    window_size: u16,
    checksum: u16,
    urgent_pointer: u16,
    options: Seq<u8>,
    padding: Seq<u8>,
    data: Seq<u8>,
)
    ensures
        ({
            let t = TcpView {
                source,
                destination,
                sequence,
                acknowledgment,
                data_offset,
                reserved,
                flags,
                window_size,
                checksum,
                urgent_pointer,
                options,
                padding,
                data,
            };
            &&& t.get(Field::Source) == FieldValue::Address(source)
            &&& t.get(Field::Destination) == FieldValue::Address(destination)
            &&& t.get(Field::Sequence) == FieldValue::Word32(sequence)
            &&& t.get(Field::Acknowledgment) == FieldValue::Word32(acknowledgment)
            &&& t.get(Field::DataOffset) == FieldValue::Byte(data_offset)
            &&& t.get(Field::Reserved) == FieldValue::Byte(reserved)
            &&& t.get(Field::Flags) == FieldValue::Word16(flags)
            &&& t.get(Field::WindowSize) == FieldValue::Word16(window_size)
            &&& t.get(Field::Checksum) == FieldValue::Word16(checksum)
            &&& t.get(Field::UrgentPointer) == FieldValue::Word16(urgent_pointer)
            &&& t.get(Field::Options) == FieldValue::Bytes(options)
            &&& t.get(Field::Padding) == FieldValue::Bytes(padding)
            &&& t.get(Field::Data) == FieldValue::Bytes(data)
        }),
{
}

/// Putting a value into a field makes that field hold it, and leaves every
/// other field as it was.
pub proof fn lemma_put_changes_one_field(t: TcpView, f: Field, v: FieldValue)
    requires
        f.admits(v),
    ensures
        t.put(f, v).get(f) == v,
        forall|g: Field| g != f ==> #[trigger] t.put(f, v).get(g) == t.get(g),
{
}

/// Two puts into different fields chain: afterwards each field holds the value
/// put into it, and the order of the two puts makes no difference.
pub proof fn lemma_puts_into_two_fields_chain(
    t: TcpView,
    f1: Field,
    v1: FieldValue,
    f2: Field,
    v2: FieldValue,
)
    requires
        f1 != f2,
        f1.admits(v1),
        f2.admits(v2),
    ensures
        t.put(f1, v1).put(f2, v2).get(f1) == v1,
        t.put(f1, v1).put(f2, v2).get(f2) == v2,
        t.put(f1, v1).put(f2, v2) == t.put(f2, v2).put(f1, v1),
{
}

/// A byte-string field takes every sequence of bytes, the empty one among
/// them, and holds it unchanged.
pub proof fn lemma_byte_strings_are_unrestricted(t: TcpView, f: Field, s: Seq<u8>)
    requires
        f == Field::Options || f == Field::Padding || f == Field::Data,
    ensures
        f.admits(FieldValue::Bytes(s)),
        f.admits(FieldValue::Bytes(Seq::empty())),
        t.put(f, FieldValue::Bytes(s)).get(f) == FieldValue::Bytes(s),
        t.put(f, FieldValue::Bytes(Seq::empty())).get(f) == FieldValue::Bytes(Seq::<u8>::empty()),
{
}

/// The integer fields that a wire format would restrict are not restricted
/// here: data offset, reserved bits, flags, checksum and urgent pointer take
/// every integer of their width and hold it unchanged.
pub proof fn lemma_integers_are_unrestricted(
    t: TcpView,
    data_offset: u8,
    reserved: u8,
    flags: u16,
    checksum: u16,
    urgent_pointer: u16,
)
    ensures
        Field::DataOffset.admits(FieldValue::Byte(data_offset)),
        Field::Reserved.admits(FieldValue::Byte(reserved)),
        Field::Flags.admits(FieldValue::Word16(flags)),
        Field::Checksum.admits(FieldValue::Word16(checksum)),
        Field::UrgentPointer.admits(FieldValue::Word16(urgent_pointer)),
        t.put(Field::DataOffset, FieldValue::Byte(data_offset)).data_offset == data_offset,
        t.put(Field::Reserved, FieldValue::Byte(reserved)).reserved == reserved,
        t.put(Field::Flags, FieldValue::Word16(flags)).flags == flags,
        t.put(Field::Checksum, FieldValue::Word16(checksum)).checksum == checksum,
        t.put(Field::UrgentPointer, FieldValue::Word16(urgent_pointer)).urgent_pointer
            == urgent_pointer,
{
}

} // verus!
