//! The byte source underneath the pager: a seekable, readable container
//! of bytes with a single cursor. This store holds its bytes in memory;
//! a caller that reads from a file hands the file's bytes in through
//! `from_bytes` and keeps the file handling to itself.

use vstd::prelude::*;

use crate::result::{SQLiteError, SQLiteResult};

verus! {

/// Where a connection's bytes live.
#[derive(Debug, Clone, Copy, PartialEq, Eq, Structural)]
pub enum SqliteIoMode {
    InMemory,
    File,
}

/// The characters of the in-memory locator `:memory:`.
pub open spec fn is_memory_locator(s: Seq<char>) -> bool {
    s == seq![':', 'm', 'e', 'm', 'o', 'r', 'y', ':']
}

/// True when the locator names the transient in-memory store.
pub fn locator_is_memory(conn_str: &str) -> (r: bool)
    ensures
        r == is_memory_locator(conn_str@),
{
    let n = conn_str.unicode_len();
    if n != 8 {
        assert(conn_str@ != seq![':', 'm', 'e', 'm', 'o', 'r', 'y', ':']);
        return false;
    }
    let r = conn_str.get_char(0) == ':' && conn_str.get_char(1) == 'm' && conn_str.get_char(2)
        == 'e' && conn_str.get_char(3) == 'm' && conn_str.get_char(4) == 'o' && conn_str.get_char(5)
        == 'r' && conn_str.get_char(6) == 'y' && conn_str.get_char(7) == ':';
    proof {
        if r {
            assert(conn_str@ =~= seq![':', 'm', 'e', 'm', 'o', 'r', 'y', ':']);
        }
    }
    r
}

/// A seekable byte container with one cursor. Reads past the end return
/// fewer bytes; seeks past the end are remembered but expose no bytes.
#[derive(Debug)]
pub struct SqliteIo {
    mode: SqliteIoMode,
    data: Vec<u8>,
    pos: u64,
}

impl SqliteIo {
    /// The bytes the store holds.
    pub closed spec fn data_view(&self) -> Seq<u8> {
        self.data@
    }

    /// The cursor position.
    pub closed spec fn spec_pos(&self) -> int {
        self.pos as int
    }

    /// Where the store's bytes live.
    pub closed spec fn spec_mode(&self) -> SqliteIoMode {
        self.mode
    }

    /// The index the next read starts at: the cursor, clamped to the
    /// end of the store.
    pub open spec fn spec_read_start(&self) -> int {
        if self.spec_pos() <= self.data_view().len() {
            self.spec_pos()
        } else {
            self.data_view().len() as int
        }
    }

    /// Opens a byte store for a connection locator. Only the transient
    /// `:memory:` store can be opened here; a file's bytes must be
    /// handed in through `from_bytes` by the caller that read them.
    pub fn open(conn_str: &str) -> (r: SQLiteResult<Self>)
        ensures
            is_memory_locator(conn_str@) ==> (r matches Ok(io) && io.spec_mode()
                == SqliteIoMode::InMemory && io.data_view() == Seq::<u8>::empty() && io.spec_pos()
                == 0),
            !is_memory_locator(conn_str@) ==> r == Err::<Self, _>(SQLiteError::UnsupportedLocator),
    {
        if locator_is_memory(conn_str) {
            Ok(SqliteIo { mode: SqliteIoMode::InMemory, data: Vec::new(), pos: 0 })
        } else {
            Err(SQLiteError::UnsupportedLocator)
        }
    }

    /// Wraps already-loaded bytes as a store, cursor at the start.
    pub fn from_bytes(mode: SqliteIoMode, data: Vec<u8>) -> (r: Self)
        ensures
            r.spec_mode() == mode,
            r.data_view() == data@,
            r.spec_pos() == 0,
    {
        SqliteIo { mode, data, pos: 0 }
    }

    /// True when the store holds no bytes at all.
    pub fn is_empty(&self) -> (r: bool)
        ensures
            r == (self.data_view().len() == 0),
    {
        self.data.len() == 0
    }

    /// The number of bytes the store holds.
    pub fn len(&self) -> (r: usize)
        ensures
            r == self.data_view().len(),
    {
        self.data.len()
    }

    /// Reads up to `n` bytes at the cursor and advances it past them.
    /// Fewer than `n` bytes come back exactly when the store ends
    /// first.
    pub fn read(&mut self, n: usize) -> (r: Vec<u8>)
        ensures
            ({
                let start = old(self).spec_read_start();
                let avail = old(self).data_view().len() - start;
                let take = if n <= avail {
                    n as int
                } else {
                    avail
                };
                &&& r@ == old(self).data_view().subrange(start, start + take)
                &&& final(self).spec_pos() == start + take
                &&& final(self).data_view() == old(self).data_view()
                &&& final(self).spec_mode() == old(self).spec_mode()
            }),
    {
        let len = self.data.len();
        let start: usize = if self.pos <= len as u64 {
            self.pos as usize
        } else {
            len
        };
        let avail = len - start;
        let take: usize = if n <= avail {
            n
        } else {
            avail
        };
        let mut out: Vec<u8> = Vec::new();
        let mut i: usize = 0;
        while i < take
            invariant
                start + take <= self.data@.len(),
                start + take <= usize::MAX,
                i <= take,
                out@ == self.data@.subrange(start as int, start + i),
            decreases take - i,
        {
            out.push(self.data[start + i]);
            proof {
                assert(out@ =~= self.data@.subrange(start as int, start + i + 1));
            }
            i = i + 1;
        }
        self.pos = (start + take) as u64;
        out
    }

    /// Moves the cursor to an absolute byte offset.
    pub fn seek(&mut self, pos: u64) -> (r: SQLiteResult<u64>)
        ensures
            r == Ok::<u64, SQLiteError>(pos),
            final(self).spec_pos() == pos as int,
            final(self).data_view() == old(self).data_view(),
            final(self).spec_mode() == old(self).spec_mode(),
    {
        self.pos = pos;
        Ok(pos)
    }

    /// Moves the cursor back to the start of the store.
    pub fn rewind(&mut self) -> (r: SQLiteResult<()>)
        ensures
            r is Ok,
            final(self).spec_pos() == 0,
            final(self).data_view() == old(self).data_view(),
            final(self).spec_mode() == old(self).spec_mode(),
    {
        self.pos = 0;
        Ok(())
    }

    /// The cursor's current absolute offset.
    pub fn stream_position(&self) -> (r: SQLiteResult<u64>)
        ensures
            r matches Ok(p) && p as int == self.spec_pos(),
    {
        Ok(self.pos)
    }

    /// Releases the store.
    pub fn close(self) -> (r: SQLiteResult<()>)
        ensures
            r is Ok,
    {
        Ok(())
    }

    /// Where the store's bytes live.
    pub fn mode(&self) -> (r: &SqliteIoMode)
        ensures
            r == self.spec_mode(),
    {
        &self.mode
    }
}

impl Default for SqliteIo {
    /// An empty, transient in-memory store: the state a `:memory:`
    /// connection starts from.
    fn default() -> (r: Self)
        ensures
            r.spec_mode() == SqliteIoMode::InMemory,
            r.data_view() == Seq::<u8>::empty(),
            r.spec_pos() == 0,
    {
        SqliteIo { mode: SqliteIoMode::InMemory, data: Vec::new(), pos: 0 }
    }
}

/// Whether the three characters at `i` are the `://` separator of a
/// connection locator.
pub open spec fn sep_at(s: Seq<char>, i: int) -> bool {
    &&& 0 <= i
    &&& i + 3 <= s.len()
    &&& s[i] == ':'
    &&& s[i + 1] == '/'
    &&& s[i + 2] == '/'
}

/// A connection locator of the shape `scheme://path`, split at the
/// first separator.
#[derive(Debug)]
pub struct SqliteUri {
    uri: String,
    path: String,
}

impl SqliteUri {
    /// The whole locator as given.
    pub fn uri(&self) -> (r: &String)
        ensures
            r@ == self.spec_uri(),
    {
        &self.uri
    }

    /// The characters of the whole locator.
    pub closed spec fn spec_uri(&self) -> Seq<char> {
        self.uri@
    }

    /// The path after the first `://` separator.
    pub fn path(&self) -> (r: &String)
        ensures
            r@ == self.spec_path(),
    {
        &self.path
    }

    /// The characters of the path.
    pub closed spec fn spec_path(&self) -> Seq<char> {
        self.path@
    }

    /// Splits a locator at the first `://`. Fails exactly when the
    /// locator holds no separator.
    pub fn parse(uri_str: &str) -> (r: SQLiteResult<Self>)
        ensures
            (r is Ok) == (exists|i: int| sep_at(uri_str@, i)),
            r matches Ok(u) ==> {
                &&& u.spec_uri() == uri_str@
                &&& exists|i: int|
                    {
                        &&& #[trigger] sep_at(uri_str@, i)
                        &&& forall|j: int| 0 <= j < i ==> !sep_at(uri_str@, j)
                        &&& u.spec_path() == uri_str@.subrange(i + 3, uri_str@.len() as int)
                    }
            },
    {
        let n = uri_str.unicode_len();
        if n < 3 {
            assert(forall|i: int| !sep_at(uri_str@, i));
            return Err(SQLiteError::UnsupportedLocator);
        }
        let mut i: usize = 0;
        while i <= n - 3
            invariant
                n == uri_str@.len(),
                3 <= n,
                i <= n - 2,
                forall|j: int| 0 <= j < i ==> !sep_at(uri_str@, j),
            decreases n - i,
        {
            if uri_str.get_char(i) == ':' && uri_str.get_char(i + 1) == '/' && uri_str.get_char(
                i + 2,
            ) == '/' {
                proof {
                    assert(sep_at(uri_str@, i as int));
                }
                let path_str = uri_str.substring_char(i + 3, n);
                return Ok(SqliteUri { uri: uri_str.to_owned(), path: path_str.to_owned() });
            }
            i = i + 1;
        }
        assert(forall|j: int| !sep_at(uri_str@, j)) by {
            assert(forall|j: int| sep_at(uri_str@, j) ==> 0 <= j <= uri_str@.len() - 3);
        }
        Err(SQLiteError::UnsupportedLocator)
    }
}

} // verus!
