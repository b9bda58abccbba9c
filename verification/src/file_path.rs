//! File paths as wide units, split the way the platform splits them.
use vstd::prelude::*;

use crate::windows_path::is_same_path;

verus! {

/// A file path: its directory, and the name's stem and extension where it has
/// a name. One without a name is all directory. The units are those of the platform and need not be valid text.
#[derive(Clone, Debug, PartialEq, Eq)]
pub struct FilePath {
    pub directory: Vec<u16>,
    pub name: Option<FileName>,
}

#[derive(Clone, Debug, PartialEq, Eq)]
pub struct FileName {
    pub stem: Vec<u16>,
    pub extension: Option<Vec<u16>>,
}

/// The mathematical content of a [`FilePath`].
#[verifier::ext_equal]
pub struct PathParts {
    pub directory: Seq<u16>,
    pub name: Option<NameParts>,
}

#[verifier::ext_equal]
pub struct NameParts {
    pub stem: Seq<u16>,
    pub extension: Option<Seq<u16>>,
}

pub open spec fn optional_units(units: Option<Vec<u16>>) -> Option<Seq<u16>> {
    match units {
        Some(units) => Some(units@),
        None => None,
    }
}

impl View for FileName {
    type V = NameParts;

    open spec fn view(&self) -> NameParts {
        NameParts { stem: self.stem@, extension: optional_units(self.extension) }
    }
}

impl View for FilePath {
    type V = PathParts;

    open spec fn view(&self) -> PathParts {
        PathParts {
            directory: self.directory@,
            name: match self.name {
                Some(name) => Some(name@),
                None => None,
            },
        }
    }
}

impl NameParts {
    /// The whole name.
    pub open spec fn units(self) -> Seq<u16> {
        match self.extension {
            Some(extension) => self.stem.push(crate::windows_path::DOT) + extension,
            None => self.stem,
        }
    }
}

impl PathParts {
    /// Both name the same file: their directories have the same parts, and
    /// their names are equal.
    pub open spec fn same(self, other: PathParts) -> bool {
        &&& crate::windows_path::same_path(self.directory, other.directory)
        &&& match (self.name, other.name) {
            (Some(name), Some(other_name)) => name.units() == other_name.units(),
            (None, None) => true,
            _ => false,
        }
    }

    /// The path with another extension. A path without a name stays as it is.
    pub open spec fn with_extension(self, extension: Seq<u16>) -> PathParts {
        match self.name {
            Some(name) => PathParts {
                name: Some(NameParts { extension: Some(extension), ..name }),
                ..self
            },
            None => self,
        }
    }

    pub open spec fn extension(self) -> Option<Seq<u16>> {
        match self.name {
            Some(name) => name.extension,
            None => None,
        }
    }
}

pub fn same_units(a: &Vec<u16>, b: &Vec<u16>) -> (r: bool)
    ensures
        r == (a@ == b@),
{
    if a.len() != b.len() {
        return false;
    }
    let mut index: usize = 0;
    while index < a.len()
        invariant
            index <= a@.len(),
            a@.len() == b@.len(),
            forall|i: int| 0 <= i < index ==> a@[i] == b@[i],
        decreases a@.len() - index,
    {
        if a[index] != b[index] {
            assert(a@[index as int] != b@[index as int]);
            return false;
        }
        index = index + 1;
    }
    assert(a@ =~= b@);
    true
}

pub fn copy_units(units: &Vec<u16>) -> (r: Vec<u16>)
    ensures
        r@ == units@,
{
    let r = units.clone();
    assert(r@ =~= units@);
    r
}

impl FileName {
    /// The whole name.
    pub fn units(&self) -> (r: Vec<u16>)
        ensures
            r@ == self@.units(),
    {
        let mut units = copy_units(&self.stem);
        if let Some(extension) = &self.extension {
            units.push(crate::windows_path::DOT);
            let ghost head = units@;
            let mut index: usize = 0;
            assert(units@ =~= head + extension@.take(0));
            while index < extension.len()
                invariant
                    index <= extension@.len(),
                    units@ == head + extension@.take(index as int),
                decreases extension@.len() - index,
            {
                units.push(extension[index]);
                index = index + 1;
                assert(units@ =~= head + extension@.take(index as int));
            }
            assert(extension@.take(index as int) =~= extension@);
        }
        units
    }
}

impl FilePath {
    pub fn same(&self, other: &FilePath) -> (r: bool)
        ensures
            r == self@.same(other@),
    {
        if !is_same_path(&self.directory, &other.directory) {
            return false;
        }
        match (&self.name, &other.name) {
            (Some(a), Some(b)) => same_units(&a.units(), &b.units()),
            (None, None) => true,
            _ => false,
        }
    }

    pub fn copy(&self) -> (r: FilePath)
        ensures
            r@ == self@,
    {
        let name = match &self.name {
            Some(name) => {
                let extension = match &name.extension {
                    Some(extension) => Some(copy_units(extension)),
                    None => None,
                };
                Some(FileName { stem: copy_units(&name.stem), extension })
            },
            None => None,
        };
        FilePath { directory: copy_units(&self.directory), name }
    }

    pub fn with_extension(&self, extension: Vec<u16>) -> (r: FilePath)
        ensures
            r@ == self@.with_extension(extension@),
    {
        let name = match &self.name {
            Some(name) => Some(
                FileName { stem: copy_units(&name.stem), extension: Some(extension) },
            ),
            None => None,
        };
        FilePath { directory: copy_units(&self.directory), name }
    }
}

/// The lower-case form of an ASCII unit.
pub open spec fn ascii_lower(unit: u16) -> u16 {
    if 65 <= unit <= 90 { (unit + 32) as u16 } else { unit }
}

/// `units` spell `word`, regardless of ASCII case.
pub open spec fn spells(units: Seq<u16>, word: Seq<u16>) -> bool {
    &&& units.len() == word.len()
    &&& forall|i: int| 0 <= i < units.len() ==> ascii_lower(#[trigger] units[i]) == word[i]
}

pub fn spells_word(units: &Vec<u16>, word: &Vec<u16>) -> (r: bool)
    ensures
        r == spells(units@, word@),
{
    if units.len() != word.len() {
        return false;
    }
    let mut index: usize = 0;
    while index < units.len()
        invariant
            index <= units@.len(),
            units@.len() == word@.len(),
            forall|i: int| 0 <= i < index ==> ascii_lower(#[trigger] units@[i]) == word@[i],
        decreases units@.len() - index,
    {
        let unit: u16 = units[index];
        let lower: u16 = if 65 <= unit && unit <= 90 {
            unit + 32
        } else {
            unit
        };
        if lower != word[index] {
            assert(ascii_lower(units@[index as int]) != word@[index as int]);
            return false;
        }
        index = index + 1;
    }
    true
}

pub open spec fn ntdr_units() -> Seq<u16> {
    seq![110, 116, 100, 114]
}

pub open spec fn png_units() -> Seq<u16> {
    seq![112, 110, 103]
}

/// The extension of a project.
pub fn ntdr_extension() -> (r: Vec<u16>)
    ensures
        r@ == ntdr_units(),
{
    let r: Vec<u16> = vec![110, 116, 100, 114];
    assert(r@ =~= ntdr_units());
    r
}

/// The extension of its exported image.
pub fn png_extension() -> (r: Vec<u16>)
    ensures
        r@ == png_units(),
{
    let r: Vec<u16> = vec![112, 110, 103];
    assert(r@ =~= png_units());
    r
}

/// Changing the extension twice is changing it once.
pub proof fn last_extension_wins(path: PathParts, first: Seq<u16>, second: Seq<u16>)
    ensures
        path.with_extension(first).with_extension(second) == path.with_extension(second),
{
}

} // verus!
