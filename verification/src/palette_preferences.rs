//! Pinned palette colours: preferences outside artwork and history.
use vstd::prelude::*;
use vstd::string::*;

use crate::decimal::to_decimal;
use crate::document::Rgba;
use crate::file_path::FilePath;

verus! {

pub const CAPACITY: usize = 10;

/// The length of the stored file: a mark of eight bytes and five bytes for
/// each pin.
pub const FILE_BYTES: usize = 58;

/// The pins as they are shown; a slot may be free.
#[derive(Clone, Copy, Debug, PartialEq, Eq)]
pub struct Pins {
    pub slots: [Option<Rgba>; 10],
}

/// The mark at the start of the file.
pub open spec fn magic() -> Seq<u8> {
    seq![78, 89, 67, 79, 76, 82, 48, 49]
}

pub open spec fn pin_bytes(pin: Option<Rgba>) -> Seq<u8> {
    match pin {
        Some(color) => seq![1u8, color.red, color.green, color.blue, color.alpha],
        None => seq![0u8, 0u8, 0u8, 0u8, 0u8],
    }
}

pub open spec fn pins_bytes(pins: Seq<Option<Rgba>>) -> Seq<u8>
    decreases pins.len(),
{
    if pins.len() == 0 {
        Seq::empty()
    } else {
        pins_bytes(pins.drop_last()) + pin_bytes(pins.last())
    }
}

/// The stored form of the pins.
pub open spec fn stored(pins: Seq<Option<Rgba>>) -> Seq<u8> {
    magic() + pins_bytes(pins)
}

/// Pins that may be kept: no colour stands twice, and each can be seen.
pub open spec fn keepable(pins: Seq<Option<Rgba>>) -> bool {
    &&& pins.len() == 10
    &&& forall|i: int|
        0 <= i < pins.len() ==> (#[trigger] pins[i] matches Some(color) ==> color.alpha != 0)
    &&& forall|i: int, j: int|
        0 <= i < j < pins.len() && pins[i] is Some ==> #[trigger] pins[i] != #[trigger] pins[j]
}

proof fn lemma_pins_bytes_len(pins: Seq<Option<Rgba>>)
    ensures
        pins_bytes(pins).len() == 5 * pins.len(),
    decreases pins.len(),
{
    if pins.len() > 0 {
        lemma_pins_bytes_len(pins.drop_last());
    }
}

/// One pin as it stands at a place of the stored bytes.
pub open spec fn pin_at(bytes: Seq<u8>, at: int, pin: Option<Rgba>) -> bool {
    match pin {
        Some(color) => {
            &&& bytes[at] == 1
            &&& bytes[at + 1] == color.red
            &&& bytes[at + 2] == color.green
            &&& bytes[at + 3] == color.blue
            &&& bytes[at + 4] == color.alpha
        },
        None => {
            &&& bytes[at] == 0
            &&& bytes[at + 1] == 0
            &&& bytes[at + 2] == 0
            &&& bytes[at + 3] == 0
            &&& bytes[at + 4] == 0
        },
    }
}

proof fn lemma_pin_at(pins: Seq<Option<Rgba>>, index: int)
    requires
        0 <= index < pins.len(),
    ensures
        pins_bytes(pins).len() == 5 * pins.len(),
        pin_at(pins_bytes(pins), 5 * index, pins[index]),
    decreases pins.len(),
{
    lemma_pins_bytes_len(pins);
    lemma_pins_bytes_len(pins.drop_last());
    if index < pins.len() - 1 {
        lemma_pin_at(pins.drop_last(), index);
        assert(pins.drop_last()[index] == pins[index]);
    }
}

proof fn lemma_stored_pin(pins: Seq<Option<Rgba>>, index: int)
    requires
        0 <= index < pins.len(),
    ensures
        stored(pins).len() == 8 + 5 * pins.len(),
        pin_at(stored(pins), 8 + 5 * index, pins[index]),
{
    lemma_pin_at(pins, index);
}

fn magic_bytes() -> (r: Vec<u8>)
    ensures
        r@ == magic(),
{
    let r: Vec<u8> = vec![78, 89, 67, 79, 76, 82, 48, 49];
    assert(r@ =~= magic());
    r
}

/// The stored form of the pins.
pub fn encode(pins: &Pins) -> (r: Vec<u8>)
    ensures
        r@ == stored(pins.slots@),
        r@.len() == FILE_BYTES,
{
    let mut bytes = magic_bytes();
    let mut index: usize = 0;
    assert(pins.slots@.take(0) =~= Seq::empty());
    assert(bytes@ =~= magic() + pins_bytes(pins.slots@.take(0)));
    while index < CAPACITY
        invariant
            index <= 10,
            bytes@ == magic() + pins_bytes(pins.slots@.take(index as int)),
        decreases 10 - index,
    {
        let ghost before = bytes@;
        assert(pins.slots@.take(index + 1).drop_last() =~= pins.slots@.take(index as int));
        match pins.slots[index] {
            Some(color) => {
                bytes.push(1);
                bytes.push(color.red);
                bytes.push(color.green);
                bytes.push(color.blue);
                bytes.push(color.alpha);
            },
            None => {
                bytes.push(0);
                bytes.push(0);
                bytes.push(0);
                bytes.push(0);
                bytes.push(0);
            },
        }
        assert(bytes@ =~= before + pin_bytes(pins.slots@[index as int]));
        assert(bytes@ =~= magic() + pins_bytes(pins.slots@.take(index + 1)));
        index = index + 1;
    }
    assert(pins.slots@.take(10) =~= pins.slots@);
    proof {
        lemma_pins_bytes_len(pins.slots@);
    }
    bytes
}

fn starts_with_magic(bytes: &Vec<u8>) -> (r: bool)
    requires
        bytes@.len() >= 8,
    ensures
        r == (bytes@.take(8) == magic()),
{
    let magic_mark = magic_bytes();
    let mut index: usize = 0;
    while index < 8
        invariant
            index <= 8,
            bytes@.len() >= 8,
            magic_mark@ == magic(),
            forall|i: int| 0 <= i < index ==> bytes@[i] == magic()[i],
        decreases 8 - index,
    {
        if bytes[index] != magic_mark[index] {
            assert(bytes@.take(8)[index as int] != magic()[index as int]);
            return false;
        }
        index = index + 1;
    }
    assert(bytes@.take(8) =~= magic());
    true
}

fn has_color(slots: &[Option<Rgba>; 10], upto: usize, color: Rgba) -> (r: bool)
    requires
        upto <= 10,
    ensures
        r == exists|i: int| 0 <= i < upto && slots@[i] == Some(color),
{
    let mut index: usize = 0;
    while index < upto
        invariant
            index <= upto <= 10,
            forall|i: int| 0 <= i < index ==> slots@[i] != Some(color),
        decreases upto - index,
    {
        if let Some(other) = slots[index] {
            if other == color {
                assert(slots@[index as int] == Some(color));
                return true;
            }
        }
        index = index + 1;
    }
    false
}

/// Reads stored pins. A file of another length, with another mark or with an
/// invalid pin is refused.
pub fn load(bytes: &Vec<u8>) -> (r: Option<Pins>)
    ensures
        match r {
            Some(pins) => keepable(pins.slots@) && bytes@ == stored(pins.slots@),
            None => forall|pins: Seq<Option<Rgba>>| keepable(pins) ==> bytes@ != #[trigger] stored(
                pins,
            ),
        },
{
    proof {
        assert forall|pins: Seq<Option<Rgba>>| keepable(pins) implies #[trigger] stored(pins).len()
            == 58 && stored(pins).take(8) == magic() by {
            lemma_pins_bytes_len(pins);
            assert(stored(pins).take(8) =~= magic());
        }
    }
    if bytes.len() != FILE_BYTES {
        return None;
    }
    if !starts_with_magic(bytes) {
        return None;
    }
    let mut slots: [Option<Rgba>; 10] = [None; 10];
    let mut index: usize = 0;
    assert(slots@.take(0) =~= Seq::empty());
    assert(bytes@.take(8) =~= magic() + pins_bytes(slots@.take(0)));
    while index < CAPACITY
        invariant
            index <= 10,
            bytes@.len() == 58,
            bytes@.take(8 + 5 * index) == magic() + pins_bytes(slots@.take(index as int)),
            forall|i: int| index <= i < 10 ==> slots@[i] is None,
            forall|i: int|
                0 <= i < index ==> (#[trigger] slots@[i] matches Some(color) ==> color.alpha != 0),
            forall|i: int, j: int|
                0 <= i < j < index && slots@[i] is Some ==> #[trigger] slots@[i]
                    != #[trigger] slots@[j],
        decreases 10 - index,
    {
        let at: usize = 8 + 5 * index;
        let mark: u8 = bytes[at];
        let color = Rgba {
            red: bytes[at + 1],
            green: bytes[at + 2],
            blue: bytes[at + 3],
            alpha: bytes[at + 4],
        };
        let clear = color.red == 0 && color.green == 0 && color.blue == 0 && color.alpha == 0;
        let repeated = has_color(&slots, index, color);
        let ghost before = slots@;
        let pin = if mark == 0 && clear {
            None
        } else if mark == 1 && color.alpha != 0 && !repeated {
            Some(color)
        } else {
            proof {
                assert forall|pins: Seq<Option<Rgba>>| keepable(pins) implies bytes@
                    != #[trigger] stored(pins) by {
                    if bytes@ == stored(pins) {
                        lemma_refused(bytes@, pins, before, index as int);
                    }
                }
            }
            return None;
        };
        slots[index] = pin;
        proof {
            assert(slots@.take(index + 1).drop_last() =~= before.take(index as int));
            assert(slots@.take(index + 1).last() == pin);
            assert(bytes@.subrange(at as int, at + 5) =~= pin_bytes(pin));
            assert(bytes@.take(8 + 5 * (index + 1)) =~= bytes@.take(8 + 5 * index)
                + bytes@.subrange(at as int, at + 5));
            assert(bytes@.take(8 + 5 * (index + 1)) =~= magic() + pins_bytes(
                slots@.take(index + 1),
            ));
        }
        index = index + 1;
    }
    proof {
        assert(slots@.take(10) =~= slots@);
        assert(bytes@.take(58) =~= bytes@);
    }
    Some(Pins { slots })
}

/// Bytes that hold keepable pins hold a valid pin at each place.
proof fn lemma_refused(
    bytes: Seq<u8>,
    pins: Seq<Option<Rgba>>,
    slots: Seq<Option<Rgba>>,
    index: int,
)
    requires
        keepable(pins),
        bytes == stored(pins),
        0 <= index < 10,
        slots.len() == 10,
        bytes.take(8 + 5 * index) == magic() + pins_bytes(slots.take(index)),
    ensures
        ({
            let at = 8 + 5 * index;
            let color = Rgba {
                red: bytes[at + 1],
                green: bytes[at + 2],
                blue: bytes[at + 3],
                alpha: bytes[at + 4],
            };
            ||| bytes[at] == 0 && color.red == 0 && color.green == 0 && color.blue == 0
                && color.alpha == 0
            ||| bytes[at] == 1 && color.alpha != 0 && !(exists|i: int|
                0 <= i < index && slots[i] == Some(color))
        }),
{
    lemma_stored_pin(pins, index);
    let at = 8 + 5 * index;
    let color = Rgba {
        red: bytes[at + 1],
        green: bytes[at + 2],
        blue: bytes[at + 3],
        alpha: bytes[at + 4],
    };
    if exists|i: int| 0 <= i < index && slots[i] == Some(color) {
        let i = choose|i: int| 0 <= i < index && slots[i] == Some(color);
        lemma_earlier_pin(bytes, pins, slots, index, i);
        if pins[index] is Some {
            assert(pins[index] == Some(color));
            assert(pins[i] == pins[index]);
        }
    }
}

/// A pin that was read at an earlier place is the pin that stands there.
proof fn lemma_earlier_pin(
    bytes: Seq<u8>,
    pins: Seq<Option<Rgba>>,
    slots: Seq<Option<Rgba>>,
    index: int,
    i: int,
)
    requires
        pins.len() == 10,
        slots.len() == 10,
        bytes == stored(pins),
        0 <= i < index < 10,
        bytes.take(8 + 5 * index) == magic() + pins_bytes(slots.take(index)),
    ensures
        pins[i] == slots[i],
{
    lemma_stored_pin(pins, i);
    lemma_stored_pin(slots.take(index), i);
    let prefix = bytes.take(8 + 5 * index);
    assert(prefix == stored(slots.take(index)));
    let at = 8 + 5 * i;
    assert(prefix[at] == bytes[at]);
    assert(prefix[at + 1] == bytes[at + 1]);
    assert(prefix[at + 2] == bytes[at + 2]);
    assert(prefix[at + 3] == bytes[at + 3]);
    assert(prefix[at + 4] == bytes[at + 4]);
    assert(slots.take(index)[i] == slots[i]);
}

/// The preferences, with the latest pins that wait to be written.
#[derive(Clone, Copy, Debug, PartialEq, Eq)]
pub struct PalettePreferences {
    pub pending: Option<Pins>,
    pub notice: Option<PaletteNotice>,
    /// A writer runs.
    pub writable: bool,
}

#[derive(Clone, Copy, Debug, PartialEq, Eq, Structural)]
pub enum PaletteNotice {
    NotRead,
    NotWritten,
    NoWriter,
}

impl PaletteNotice {
    pub fn text(self) -> (r: &'static str)
        ensures
            self is NotRead ==> r@
                == "고정색 설정을 읽지 못했습니다. 기존 설정 파일은 보존합니다."@,
            self is NotWritten ==> r@
                == "고정색을 저장하지 못했습니다. 고정 상태를 다시 바꾸면 재시도합니다."@,
            self is NoWriter ==> r@ == "고정색 저장 작업을 시작하지 못했습니다."@,
    {
        match self {
            PaletteNotice::NotRead =>
                "고정색 설정을 읽지 못했습니다. 기존 설정 파일은 보존합니다.",
            PaletteNotice::NotWritten =>
                "고정색을 저장하지 못했습니다. 고정 상태를 다시 바꾸면 재시도합니다.",
            PaletteNotice::NoWriter => "고정색 저장 작업을 시작하지 못했습니다.",
        }
    }
}

/// What was found where the pins are kept.
#[derive(Clone, Copy, Debug, PartialEq, Eq)]
pub enum StoredPins {
    Missing,
    Found(Pins),
    Unreadable,
}

impl PalettePreferences {
    /// Opens the preferences. Pins that could not be read are never written
    /// over. `writer_started` is looked at only where they may be written.
    pub fn open(found: StoredPins, writer_started: bool) -> (r: (Self, Pins))
        ensures
            r.1.slots@ == (match found {
                StoredPins::Found(pins) => pins.slots@,
                _ => Seq::new(10, |i: int| None::<Rgba>),
            }),
            r.0.pending is None,
            r.0.writable == (!(found is Unreadable) && writer_started),
            r.0.notice == (if found is Unreadable {
                Some(PaletteNotice::NotRead)
            } else if !writer_started {
                Some(PaletteNotice::NoWriter)
            } else {
                None
            }),
    {
        let (pins, readable) = match found {
            StoredPins::Missing => (Pins { slots: [None; 10] }, true),
            StoredPins::Found(pins) => (pins, true),
            StoredPins::Unreadable => (Pins { slots: [None; 10] }, false),
        };
        assert(!(found is Found) ==> pins.slots@ =~= Seq::new(10, |i: int| None::<Rgba>));
        let notice = if !readable {
            Some(PaletteNotice::NotRead)
        } else if !writer_started {
            Some(PaletteNotice::NoWriter)
        } else {
            None
        };
        (
            PalettePreferences { pending: None, notice, writable: readable && writer_started },
            pins,
        )
    }

    /// Keeps the latest pins for the writer. Returns whether it is woken.
    pub fn save(&mut self, pins: Pins) -> (wake: bool)
        ensures
            wake == old(self).writable,
            *final(self) == (if wake {
                PalettePreferences { pending: Some(pins), ..*old(self) }
            } else {
                *old(self)
            }),
    {
        if !self.writable {
            return false;
        }
        self.pending = Some(pins);
        true
    }

    /// The pins to write now.
    pub fn take_pending(&mut self) -> (r: Option<Pins>)
        ensures
            r == old(self).pending,
            *final(self) == (PalettePreferences { pending: None, ..*old(self) }),
    {
        let pins = self.pending;
        self.pending = None;
        pins
    }

    pub fn written(&mut self, succeeded: bool)
        ensures
            *final(self) == (PalettePreferences {
                notice: if succeeded { None } else { Some(PaletteNotice::NotWritten) },
                ..*old(self)
            }),
    {
        self.notice = if succeeded {
            None
        } else {
            Some(PaletteNotice::NotWritten)
        };
    }
}

/// The name under which the pins are written before they replace the old ones.
pub fn temporary_name(process: u32, nanos: u128) -> (r: String)
    ensures
        r@ == ".nyatidraw-colors-"@ + crate::decimal::decimal(process as nat) + "-"@
            + crate::decimal::decimal(nanos as nat) + ".tmp"@,
{
    let mut name = ".nyatidraw-colors-".to_owned();
    name.append(to_decimal(process as u128).as_str());
    name.append("-");
    name.append(to_decimal(nanos).as_str());
    name.append(".tmp");
    name
}

pub open spec fn colors_units() -> Seq<u16> {
    seq![99, 111, 108, 111, 114, 115]
}

/// Where the pins are kept: the configured file, else beside the configured
/// layout, else in the application's own directory.
pub fn settings_path(
    configured: Option<FilePath>,
    layout: Option<FilePath>,
    application: Option<FilePath>,
) -> (r: Option<FilePath>)
    ensures
        crate::project_location::optional_path(r) == (if configured is Some {
            crate::project_location::optional_path(configured)
        } else if layout is Some {
            Some(layout->0@.with_extension(colors_units()))
        } else {
            crate::project_location::optional_path(application)
        }),
{
    if let Some(path) = configured {
        return Some(path);
    }
    if let Some(path) = layout {
        let extension: Vec<u16> = vec![99, 111, 108, 111, 114, 115];
        assert(extension@ =~= colors_units());
        return Some(path.with_extension(extension));
    }
    application
}

/// Reading gives back what was written.
pub proof fn pins_round_trip(pins: Seq<Option<Rgba>>, other: Seq<Option<Rgba>>)
    requires
        keepable(pins),
        keepable(other),
        stored(pins) == stored(other),
    ensures
        pins == other,
{
    assert forall|i: int| 0 <= i < 10 implies pins[i] == other[i] by {
        lemma_stored_pin(pins, i);
        lemma_stored_pin(other, i);
    }
    assert(pins =~= other);
}

} // verus!
