//! A parsed tag directory: numbered tags with typed arrays of values, and
//! nested directories.

use vstd::prelude::*;

verus! {

/// The tag of the image's width.
pub const TAG_IMAGE_WIDTH: u16 = 0x0100;

/// The tag of the image's height.
pub const TAG_IMAGE_LENGTH: u16 = 0x0101;

/// The tag of the camera maker's name.
pub const TAG_MAKE: u16 = 0x010f;

/// The tag of the camera model's name.
pub const TAG_MODEL: u16 = 0x0110;

/// The tag of the offset of the pixel data in the file.
pub const TAG_STRIP_OFFSETS: u16 = 0x0111;

/// The tag of Epson's table of white-balance readings.
pub const TAG_EPSON_WB: u16 = 0x0e80;

/// The tag of the mosaic pattern.
pub const TAG_CFA_PATTERN: u16 = 0x828e;

/// The byte order of the values of a tag.
#[derive(Clone, Copy, Debug, PartialEq, Eq, Structural)]
pub enum Endian {
    Big,
    Little,
}

/// The type of the elements of a tag's value.
#[derive(Clone, Copy, Debug, PartialEq, Eq, Structural)]
pub enum TagType {
    /// One byte.
    Byte,
    /// Two bytes.
    Short,
    /// Four bytes.
    Long,
}

impl TagType {
    /// The number of bytes of one element.
    pub open spec fn width_spec(self) -> int {
        match self {
            TagType::Byte => 1,
            TagType::Short => 2,
            TagType::Long => 4,
        }
    }

    /// The number of bytes of one element.
    pub fn width(self) -> (out: usize)
        ensures
            out == self.width_spec(),
    {
        match self {
            TagType::Byte => 1,
            TagType::Short => 2,
            TagType::Long => 4,
        }
    }
}

/// The two bytes at `at` as a big-endian number.
pub fn be_u16(data: &[u8], at: usize) -> (out: u16)
    requires
        at + 1 < data.len(),
    ensures
        out == data[at as int] * 256 + data[at + 1],
{
    let hi: u16 = data[at] as u16;
    let lo: u16 = data[at + 1] as u16;
    hi * 256 + lo
}

/// The value of a tag: an array of elements of one type, as the bytes
/// that the file holds for it.
#[derive(Clone, Debug)]
pub struct TagValue {
    pub typ: TagType,
    pub endian: Endian,
    pub data: Vec<u8>,
}

impl TagValue {
    /// The number of whole elements.
    pub open spec fn count_spec(self) -> int {
        (self.data@.len() as int) / self.typ.width_spec()
    }

    /// Element `idx` as a number.
    pub open spec fn value_spec(self, idx: int) -> int {
        let d = self.data@;
        match self.typ {
            TagType::Byte => d[idx] as int,
            TagType::Short => match self.endian {
                Endian::Big => d[2 * idx] * 256 + d[2 * idx + 1],
                Endian::Little => d[2 * idx] + d[2 * idx + 1] * 256,
            },
            TagType::Long => match self.endian {
                Endian::Big => d[4 * idx] * 0x100_0000 + d[4 * idx + 1] * 0x1_0000 + d[4 * idx + 2]
                    * 0x100 + d[4 * idx + 3],
                Endian::Little => d[4 * idx] + d[4 * idx + 1] * 0x100 + d[4 * idx + 2] * 0x1_0000
                    + d[4 * idx + 3] * 0x100_0000,
            },
        }
    }

    /// The number of whole elements.
    pub fn count(&self) -> (out: usize)
        ensures
            out == self.count_spec(),
    {
        self.data.len() / self.typ.width()
    }

    /// Element `idx` as a number.
    pub fn get_usize(&self, idx: usize) -> (out: usize)
        requires
            idx < self.count_spec(),
        ensures
            out == self.value_spec(idx as int),
    {
        assert(self.data@.len() == self.data.len());
        match self.typ {
            TagType::Byte => self.data[idx] as usize,
            TagType::Short => {
                assert(self.count_spec() == (self.data@.len() as int) / 2);
                let a: u32 = self.data[2 * idx] as u32;
                let b: u32 = self.data[2 * idx + 1] as u32;
                match self.endian {
                    Endian::Big => (a * 256 + b) as usize,
                    Endian::Little => (a + b * 256) as usize,
                }
            },
            TagType::Long => {
                assert(self.count_spec() == (self.data@.len() as int) / 4);
                let a: u32 = self.data[4 * idx] as u32;
                let b: u32 = self.data[4 * idx + 1] as u32;
                let c: u32 = self.data[4 * idx + 2] as u32;
                let d: u32 = self.data[4 * idx + 3] as u32;
                match self.endian {
                    Endian::Big => (a * 0x100_0000 + b * 0x1_0000 + c * 0x100 + d) as usize,
                    Endian::Little => (a + b * 0x100 + c * 0x1_0000 + d * 0x100_0000) as usize,
                }
            },
        }
    }

    /// The bytes of the value.
    pub fn get_data(&self) -> (out: &Vec<u8>)
        ensures
            out@ == self.data@,
    {
        &self.data
    }
}

/// A tag with its value.
#[derive(Clone, Debug)]
pub struct TiffEntry {
    pub tag: u16,
    pub value: TagValue,
}

/// A directory of tags, with the directories nested in it.
#[derive(Debug)]
pub struct TiffIFD {
    pub entries: Vec<TiffEntry>,
    pub sub_ifds: Vec<TiffIFD>,
}

impl Clone for TiffIFD {
    fn clone(&self) -> (out: TiffIFD)
        decreases self,
    {
        let mut sub_ifds: Vec<TiffIFD> = Vec::with_capacity(self.sub_ifds.len());
        let mut i: usize = 0;
        while i < self.sub_ifds.len()
            invariant
                i <= self.sub_ifds.len(),
            decreases self.sub_ifds.len() - i,
        {
            sub_ifds.push(self.sub_ifds[i].clone());
            i = i + 1;
        }
        TiffIFD { entries: self.entries.clone(), sub_ifds }
    }
}

impl TiffIFD {
    /// The value of the first entry for `tag` among the entries from `i`
    /// on, of this directory itself.
    pub open spec fn entry_from(self, tag: u16, i: int) -> Option<TagValue>
        decreases self.entries@.len() - i,
    {
        if 0 <= i < self.entries@.len() {
            if self.entries@[i].tag == tag {
                Some(self.entries@[i].value)
            } else {
                self.entry_from(tag, i + 1)
            }
        } else {
            None
        }
    }

    /// The value of the first entry for `tag` in this directory itself.
    pub open spec fn get_entry_spec(self, tag: u16) -> Option<TagValue> {
        self.entry_from(tag, 0)
    }

    /// The first directory that has an entry for `tag`: this one, or else
    /// the first found in the nested directories, each searched in the
    /// same way, in their order.
    pub open spec fn find_first_ifd_spec(self, tag: u16) -> Option<TiffIFD>
        decreases self, 1int, 0int,
    {
        if self.get_entry_spec(tag) is Some {
            Some(self)
        } else {
            self.find_in_subs(tag, 0)
        }
    }

    /// The first directory that has an entry for `tag` in the nested
    /// directories from `i` on.
    pub open spec fn find_in_subs(self, tag: u16, i: int) -> Option<TiffIFD>
        decreases self, 0int, self.sub_ifds@.len() - i,
    {
        if 0 <= i < self.sub_ifds@.len() {
            match self.sub_ifds@[i].find_first_ifd_spec(tag) {
                Some(d) => Some(d),
                None => self.find_in_subs(tag, i + 1),
            }
        } else {
            None
        }
    }

    /// The value of `tag` in the first directory that has an entry for
    /// it.
    pub open spec fn find_entry_spec(self, tag: u16) -> Option<TagValue> {
        match self.find_first_ifd_spec(tag) {
            Some(d) => d.get_entry_spec(tag),
            None => None,
        }
    }

    /// A directory with the given entries and nested directories.
    pub fn new(entries: Vec<TiffEntry>, sub_ifds: Vec<TiffIFD>) -> (out: TiffIFD)
        ensures
            out.entries == entries,
            out.sub_ifds == sub_ifds,
    {
        TiffIFD { entries, sub_ifds }
    }

    /// The value of the first entry for `tag` in this directory itself.
    pub fn get_entry(&self, tag: u16) -> (out: Option<&TagValue>)
        ensures
            out == match self.get_entry_spec(tag) {
                Some(v) => Some(&v),
                None => None,
            },
    {
        let mut i: usize = 0;
        while i < self.entries.len()
            invariant
                i <= self.entries.len(),
                self.get_entry_spec(tag) == self.entry_from(tag, i as int),
            decreases self.entries.len() - i,
        {
            if self.entries[i].tag == tag {
                return Some(&self.entries[i].value);
            }
            i = i + 1;
        }
        None
    }

    /// The first directory that has an entry for `tag`, this one
    /// included.
    pub fn find_first_ifd(&self, tag: u16) -> (out: Option<&TiffIFD>)
        ensures
            out == match self.find_first_ifd_spec(tag) {
                Some(d) => Some(&d),
                None => None,
            },
        decreases self,
    {
        if self.get_entry(tag).is_some() {
            return Some(self);
        }
        let mut i: usize = 0;
        while i < self.sub_ifds.len()
            invariant
                i <= self.sub_ifds.len(),
                self.get_entry_spec(tag) is None,
                self.find_first_ifd_spec(tag) == self.find_in_subs(tag, i as int),
            decreases self.sub_ifds.len() - i,
        {
            let found = self.sub_ifds[i].find_first_ifd(tag);
            if found.is_some() {
                return found;
            }
            i = i + 1;
        }
        None
    }

    /// The value of `tag` in the first directory that has an entry for
    /// it.
    pub fn find_entry(&self, tag: u16) -> (out: Option<&TagValue>)
        ensures
            out == match self.find_entry_spec(tag) {
                Some(v) => Some(&v),
                None => None,
            },
    {
        match self.find_first_ifd(tag) {
            Some(dir) => dir.get_entry(tag),
            None => None,
        }
    }
}

} // verus!
