//! File manager

use vstd::prelude::*;
use std::collections::BTreeMap;
use crate::haribote::Handle;

verus! {

broadcast use vstd::std_specs::btree::group_btree_axioms, vstd::laws_cmp::group_laws_cmp;

/// Where a seek counts from.
#[derive(Debug, Clone, Copy, PartialEq, Eq, Structural)]
pub enum Whence {
    SeekSet,
    SeekCur,
    SeekEnd,
}

impl Whence {
    /// The origin with number `value`, as the task names them.
    pub fn from_u32(value: u32) -> (r: Option<Self>)
        ensures
            r == (if value == 0 {
                Some(Whence::SeekSet)
            } else if value == 1 {
                Some(Whence::SeekCur)
            } else if value == 2 {
                Some(Whence::SeekEnd)
            } else {
                None::<Whence>
            }),
    {
        match value {
            0 => Some(Whence::SeekSet),
            1 => Some(Whence::SeekCur),
            2 => Some(Whence::SeekEnd),
            _ => None,
        }
    }
}

impl Default for Whence {
    /// From the start.
    fn default() -> (r: Self)
        ensures
            r == Whence::SeekSet,
    {
        Whence::SeekSet
    }
}

/// Where a seek by `offset` from `whence` goes in a file of `len` bytes at
/// position `pos`, before it is clamped.
pub open spec fn seek_target(len: int, pos: int, offset: isize, whence: Whence) -> int {
    match whence {
        Whence::SeekSet => offset as int,
        Whence::SeekCur => pos + offset,
        Whence::SeekEnd => len + offset,
    }
}

/// The position after a seek to `target` in a file of `len` bytes.
pub open spec fn clamp_pos(len: int, target: int) -> int {
    if target < 0 {
        0
    } else if target > len {
        len
    } else {
        target
    }
}

/// How many bytes a read of up to `max_size` bytes at position `pos` of a
/// file of `len` bytes gives.
pub open spec fn read_count(len: int, pos: int, max_size: int) -> int {
    if max_size < len - pos {
        max_size
    } else {
        len - pos
    }
}

/// An open file: its contents and the position of the next read.
pub struct File {
    pub data: Vec<u8>,
    pub pos: isize,
}

impl File {
    /// The position lies in the file, whose size fits in an `isize`.
    pub open spec fn wf(&self) -> bool {
        &&& self.data.len() <= isize::MAX
        &&& 0 <= self.pos <= self.data.len()
    }

    /// A file with contents `data`, read from the start.
    pub fn new(data: Vec<u8>) -> (r: Option<Self>)
        ensures
            match r {
                Some(f) => f.wf() && f.data@ == data@ && f.pos == 0,
                None => data.len() > isize::MAX,
            },
    {
        if data.len() > isize::MAX as usize {
            None
        } else {
            Some(File { data, pos: 0 })
        }
    }

    /// Moves the position to `offset` from `whence`; a position before the
    /// start or past the end is clamped there and gives `None`.
    pub fn seek(&mut self, offset: isize, whence: Whence) -> (r: Option<isize>)
        requires
            old(self).wf(),
        ensures
            final(self).wf(),
            final(self).data == old(self).data,
            ({
                let len = old(self).data.len() as int;
                let target: int = match whence {
                    Whence::SeekSet => offset as int,
                    Whence::SeekCur => old(self).pos + offset,
                    Whence::SeekEnd => len + offset,
                };
                if target < 0 {
                    final(self).pos == 0 && r is None
                } else if target > len {
                    final(self).pos == len && r is None
                } else {
                    final(self).pos == target && r == Some(target as isize)
                }
            }),
    {
        let len = self.data.len() as i128;
        let new_fp: i128 = match whence {
            Whence::SeekSet => offset as i128,
            Whence::SeekCur => self.pos as i128 + offset as i128,
            Whence::SeekEnd => len + offset as i128,
        };
        if new_fp < 0 {
            self.pos = 0;
            None
        } else if new_fp > len {
            self.pos = self.data.len() as isize;
            None
        } else {
            self.pos = new_fp as isize;
            Some(self.pos)
        }
    }

    /// The size of the file, the position, or the position less the size.
    pub fn get_file_size(&self, whence: Whence) -> (r: isize)
        requires
            self.wf(),
        ensures
            r == (match whence {
                Whence::SeekSet => self.data.len() as int,
                Whence::SeekCur => self.pos as int,
                Whence::SeekEnd => self.pos - self.data.len(),
            }),
    {
        match whence {
            Whence::SeekSet => self.data.len() as isize,
            Whence::SeekCur => self.pos,
            Whence::SeekEnd => self.pos - self.data.len() as isize,
        }
    }

    /// Reads up to `max_size` bytes from the position on, and moves past them.
    pub fn read(&mut self, max_size: usize) -> (r: &[u8])
        requires
            old(self).wf(),
        ensures
            final(self).wf(),
            final(self).data == old(self).data,
            ({
                let n = if max_size < old(self).data.len() - old(self).pos {
                    max_size as int
                } else {
                    old(self).data.len() - old(self).pos
                };
                &&& r@ == old(self).data@.subrange(old(self).pos as int, old(self).pos + n)
                &&& final(self).pos == old(self).pos + n
            }),
    {
        let rest = self.data.len() - self.pos as usize;
        let max_size = if max_size < rest { max_size } else { rest };
        let start = self.pos as usize;
        self.pos = self.pos + max_size as isize;
        vstd::slice::slice_subrange(self.data.as_slice(), start, start + max_size)
    }
}

/// A copy of `s`.
fn copy_bytes(s: &[u8]) -> (r: Vec<u8>)
    ensures
        r@ == s@,
{
    let mut v: Vec<u8> = Vec::new();
    let mut i: usize = 0;
    while i < s.len()
        invariant
            i <= s.len(),
            v@ == s@.subrange(0, i as int),
        decreases s.len() - i,
    {
        v.push(s[i]);
        i += 1;
        assert(v@ =~= s@.subrange(0, i as int));
    }
    assert(v@ =~= s@);
    v
}

/// The files that a task has open, by handle.
pub struct FileManager {
    pub files: BTreeMap<u32, File>,
    pub next_handle: u32,
}

impl FileManager {
    /// Every open file is consistent.
    pub open spec fn wf(&self) -> bool {
        forall|h: u32| #[trigger] self.files@.contains_key(h) ==> self.files@[h].wf()
    }

    /// No file open.
    pub fn new() -> (r: Self)
        ensures
            r.wf(),
            r.files@ == Map::<u32, File>::empty(),
            r.next_handle == 1,
    {
        Self { files: BTreeMap::new(), next_handle: 1 }
    }

    /// Opens a file for reading, given its contents (`None` where it was not
    /// found); returns its handle.
    pub fn open_file(&mut self, data: Option<Vec<u8>>) -> (r: Option<Handle>)
        requires
            old(self).wf(),
        ensures
            final(self).wf(),
            match data {
                None => r is None && *final(self) == *old(self),
                Some(d) => d.len() <= isize::MAX ==> {
                    &&& r == Some(Handle(old(self).next_handle))
                    &&& final(self).next_handle == old(self).next_handle.wrapping_add(1)
                    &&& final(self).files@.contains_key(old(self).next_handle)
                    &&& final(self).files@[old(self).next_handle].data@ == d@
                    &&& final(self).files@[old(self).next_handle].pos == 0
                    &&& forall|h: u32| h != old(self).next_handle ==> (#[trigger] final(self).files@.contains_key(h)
                        == old(self).files@.contains_key(h))
                },
            },
    {
        let data = match data {
            Some(d) => d,
            None => return None,
        };
        let file = match File::new(data) {
            Some(f) => f,
            None => return None,
        };
        let handle = Handle(self.next_handle);
        self.next_handle = self.next_handle.wrapping_add(1);
        self.files.insert(handle.0, file);
        Some(handle)
    }

    /// The file with handle `handle`.
    pub fn get(&self, handle: Handle) -> (r: Option<&File>)
        ensures
            match r {
                Some(f) => self.files@.contains_key(handle.0) && *f == self.files@[handle.0],
                None => !self.files@.contains_key(handle.0),
            },
    {
        self.files.get(&handle.0)
    }

    /// Closes the file with handle `handle`; `None` where there is none.
    pub fn close_file(&mut self, handle: Handle) -> (r: Option<()>)
        requires
            old(self).wf(),
        ensures
            final(self).wf(),
            final(self).files@ == old(self).files@.remove(handle.0),
            final(self).next_handle == old(self).next_handle,
            r is Some <==> old(self).files@.contains_key(handle.0),
    {
        match self.files.remove(&handle.0) {
            Some(_) => Some(()),
            None => None,
        }
    }

    /// Moves the position of the file with handle `handle`, as `File::seek` does.
    pub fn seek(&mut self, handle: Handle, offset: isize, whence: Whence) -> (r: Option<isize>)
        requires
            old(self).wf(),
        ensures
            final(self).wf(),
            final(self).next_handle == old(self).next_handle,
            final(self).files@.dom() == old(self).files@.dom(),
            !old(self).files@.contains_key(handle.0) ==> r is None && final(self).files@ == old(self).files@,
            old(self).files@.contains_key(handle.0) ==> ({
                let f = old(self).files@[handle.0];
                let target = seek_target(f.data.len() as int, f.pos as int, offset, whence);
                &&& final(self).files@ == old(self).files@.insert(
                    handle.0,
                    File { data: f.data, pos: clamp_pos(f.data.len() as int, target) as isize },
                )
                &&& r == (if 0 <= target <= f.data.len() { Some(target as isize) } else { None })
            }),
    {
        match self.files.remove(&handle.0) {
            Some(mut file) => {
                let r = file.seek(offset, whence);
                self.files.insert(handle.0, file);
                assert(self.files@.dom() =~= old(self).files@.dom());
                r
            },
            None => None,
        }
    }

    /// Reads up to `max_size` bytes of the file with handle `handle`, as
    /// `File::read` does; `None` where there is no such file.
    pub fn read(&mut self, handle: Handle, max_size: usize) -> (r: Option<Vec<u8>>)
        requires
            old(self).wf(),
        ensures
            final(self).wf(),
            final(self).next_handle == old(self).next_handle,
            final(self).files@.dom() == old(self).files@.dom(),
            !old(self).files@.contains_key(handle.0) ==> r is None && final(self).files@ == old(self).files@,
            !old(self).files@.contains_key(handle.0) ==> r is None,
            old(self).files@.contains_key(handle.0) ==> ({
                let f = old(self).files@[handle.0];
                let n = read_count(f.data.len() as int, f.pos as int, max_size as int);
                &&& r matches Some(v) && v@ == f.data@.subrange(f.pos as int, f.pos + n)
                &&& final(self).files@ == old(self).files@.insert(handle.0, File { data: f.data, pos: (f.pos + n) as isize })
            }),
            r matches Some(v) ==> v.len() <= max_size,
    {
        match self.files.remove(&handle.0) {
            Some(mut file) => {
                let bytes = copy_bytes(file.read(max_size));
                self.files.insert(handle.0, file);
                assert(self.files@.dom() =~= old(self).files@.dom());
                Some(bytes)
            },
            None => None,
        }
    }
}

} // verus!
