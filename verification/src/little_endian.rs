//! Numbers and wide units as little-endian bytes.
use vstd::prelude::*;

verus! {

pub open spec fn le16(value: int) -> Seq<u8> {
    seq![(value % 256) as u8, (value / 256 % 256) as u8]
}

pub open spec fn le32(value: int) -> Seq<u8> {
    seq![
        (value % 256) as u8,
        (value / 256 % 256) as u8,
        (value / 65536 % 256) as u8,
        (value / 16777216 % 256) as u8,
    ]
}

pub open spec fn unit_bytes(units: Seq<u16>) -> Seq<u8>
    decreases units.len(),
{
    if units.len() == 0 {
        Seq::empty()
    } else {
        unit_bytes(units.drop_last()) + le16(units.last() as int)
    }
}

pub proof fn lemma_unit_bytes(units: Seq<u16>)
    ensures
        unit_bytes(units).len() == 2 * units.len(),
        forall|i: int|
            0 <= i < units.len() ==> unit_bytes(units)[2 * i] == (#[trigger] units[i]) as int % 256
                && unit_bytes(units)[2 * i + 1] == units[i] as int / 256,
    decreases units.len(),
{
    if units.len() > 0 {
        let shorter = units.drop_last();
        lemma_unit_bytes(shorter);
        assert forall|i: int| 0 <= i < units.len() implies unit_bytes(units)[2 * i] == (
        #[trigger] units[i]) as int % 256 && unit_bytes(units)[2 * i + 1] == units[i] as int
            / 256 by {
            if i < units.len() - 1 {
                assert(shorter[i] == units[i]);
            }
        }
    }
}

pub proof fn lemma_u16_parts(unit: u16)
    ensures
        unit as int % 256 + 256 * (unit as int / 256) == unit,
{
}

pub proof fn lemma_le32_value(value: int)
    requires
        0 <= value <= 32_768,
    ensures
        le32(value)[0] as int + 256 * le32(value)[1] as int + 65536 * le32(value)[2] as int
            + 16777216 * le32(value)[3] as int == value,
{
    assert(value / 65536 == 0);
    assert(value / 16777216 == 0);
    assert(value / 256 < 256);
}

pub proof fn lemma_le32_injective(a: int, b: int)
    requires
        0 <= a <= 32_768,
        0 <= b <= 32_768,
        le32(a) == le32(b),
    ensures
        a == b,
{
    let x = le32(a);
    let y = le32(b);
    assert(x[0] == y[0] && x[1] == y[1]);
}

pub fn push_le16(bytes: &mut Vec<u8>, value: u16)
    ensures
        final(bytes)@ == old(bytes)@ + le16(value as int),
{
    bytes.push((value % 256) as u8);
    bytes.push((value / 256) as u8);
    assert(bytes@ =~= old(bytes)@ + le16(value as int));
}

pub fn push_le32(bytes: &mut Vec<u8>, value: u32)
    ensures
        final(bytes)@ == old(bytes)@ + le32(value as int),
{
    bytes.push((value % 256) as u8);
    bytes.push((value / 256 % 256) as u8);
    bytes.push((value / 65536 % 256) as u8);
    bytes.push((value / 16777216 % 256) as u8);
    assert(bytes@ =~= old(bytes)@ + le32(value as int));
}

pub fn read_units(bytes: &Vec<u8>, at: usize, length: usize) -> (r: Vec<u16>)
    requires
        at + 2 * length <= bytes@.len(),
    ensures
        r@.len() == length,
        forall|i: int|
            0 <= i < length ==> (#[trigger] r@[i]) as int == bytes@[at + 2 * i] as int + 256
                * bytes@[at + 2 * i + 1] as int,
        bytes@.subrange(at as int, at + 2 * length) == unit_bytes(r@),
{
    let mut units: Vec<u16> = Vec::new();
    let mut index: usize = 0;
    let total: usize = bytes.len();
    assert(bytes@.subrange(at as int, at as int) =~= unit_bytes(units@));
    while index < length
        invariant
            index <= length,
            total == bytes@.len(),
            at + 2 * length <= total,
            units@.len() == index,
            forall|i: int|
                0 <= i < index ==> (#[trigger] units@[i]) as int == bytes@[at + 2 * i] as int + 256
                    * bytes@[at + 2 * i + 1] as int,
            bytes@.subrange(at as int, at + 2 * index) == unit_bytes(units@),
        decreases length - index,
    {
        let low: u16 = bytes[at + 2 * index] as u16;
        let high: u16 = bytes[at + 2 * index + 1] as u16;
        let unit: u16 = low + 256 * high;
        let ghost before = units@;
        units.push(unit);
        assert(units@.drop_last() =~= before);
        assert(le16(unit as int) =~= bytes@.subrange(at + 2 * index, at + 2 * index + 2));
        assert(bytes@.subrange(at as int, at + 2 * (index + 1)) =~= bytes@.subrange(
            at as int,
            at + 2 * index,
        ) + bytes@.subrange(at + 2 * index, at + 2 * index + 2));
        index = index + 1;
    }
    units
}

/// Appends units.
pub fn push_units(bytes: &mut Vec<u8>, units: &Vec<u16>)
    ensures
        final(bytes)@ == old(bytes)@ + unit_bytes(units@),
{
    let ghost start = bytes@;
    let mut index: usize = 0;
    assert(units@.take(0) =~= Seq::empty());
    assert(bytes@ =~= start + unit_bytes(units@.take(0)));
    while index < units.len()
        invariant
            index <= units@.len(),
            bytes@ == start + unit_bytes(units@.take(index as int)),
        decreases units@.len() - index,
    {
        assert(units@.take(index + 1).drop_last() =~= units@.take(index as int));
        push_le16(bytes, units[index]);
        assert(bytes@ =~= start + unit_bytes(units@.take(index + 1)));
        index = index + 1;
    }
    assert(units@.take(index as int) =~= units@);
}

} // verus!
