//! A verified read path for the SQLite on-disk file format: the
//! 100-byte database header, paged access to an underlying byte store,
//! and b-tree page headers with their cell layout and overflow-spill
//! arithmetic.

use vstd::prelude::*;

pub mod btree;
pub mod bytes;
pub mod header;
pub mod io;
pub mod pager;
pub mod result;
pub mod runtime;

use crate::header::{spec_default_header, spec_header_error, spec_header_of, spec_header_valid,
    SqliteHeader};
use crate::io::{is_memory_locator, SqliteIo, SqliteIoMode};
use crate::pager::{spec_connect_error, spec_connect_ok, spec_connect_page_size, SqlitePager};
use crate::result::{SQLiteError, SQLiteResult};
use crate::runtime::SqliteRuntime;

verus! {

/// A connection: the runtime over one byte store, opened once.
#[derive(Debug)]
pub struct SqliteConnection {
    runtime: SqliteRuntime,
}

impl SqliteConnection {
    /// The bytes of the underlying store.
    pub closed spec fn data_view(&self) -> Seq<u8> {
        self.runtime.data_view()
    }

    /// The header decoded when the connection was opened.
    pub closed spec fn spec_header(&self) -> crate::header::HeaderV {
        self.runtime.spec_header()
    }

    /// The connection's runtime is internally consistent.
    pub open spec fn spec_wf(&self) -> bool {
        self.runtime_view().spec_wf()
    }

    /// The runtime as a whole, for contracts that hand it out.
    pub closed spec fn runtime_view(&self) -> SqliteRuntime {
        self.runtime
    }

    /// Opens a connection over an already-loaded byte store: learns
    /// the page size, then decodes and validates the header of page 1.
    /// An empty store becomes a fresh database with the default
    /// header; any other store must begin with a full, valid page 1.
    pub fn from_io(io: SqliteIo) -> (r: SQLiteResult<Self>)
        ensures
            ({
                let d = io.data_view();
                let ps = spec_connect_page_size(d);
                if !spec_connect_ok(d) {
                    r == Err::<Self, _>(spec_connect_error(d))
                } else if d.len() == 0 {
                    r matches Ok(c) && c.spec_header() == spec_default_header() && c.data_view()
                        == d && c.spec_wf()
                } else if ps > d.len() {
                    r == Err::<Self, _>(SQLiteError::ShortRead)
                } else if spec_header_valid(d) {
                    r matches Ok(c) && c.spec_header() == spec_header_of(d) && c.data_view() == d
                        && c.spec_wf()
                } else {
                    r == Err::<Self, _>(spec_header_error(d))
                }
            }),
    {
        let pager = SqlitePager::connect(io)?;
        let runtime = SqliteRuntime::start(pager)?;
        Ok(SqliteConnection { runtime })
    }

    /// Opens a connection for a locator. Only the transient
    /// `:memory:` store can be opened here: it starts empty, with the
    /// header of a fresh database. A caller with a file reads its
    /// bytes itself and hands them to `from_io`.
    pub fn open(conn_str: &str) -> (r: SQLiteResult<Self>)
        ensures
            is_memory_locator(conn_str@) ==> (r matches Ok(c) && c.spec_header()
                == spec_default_header() && c.data_view() == Seq::<u8>::empty() && c.spec_wf()),
            !is_memory_locator(conn_str@) ==> r == Err::<Self, _>(SQLiteError::UnsupportedLocator),
    {
        let io = SqliteIo::open(conn_str)?;
        SqliteConnection::from_io(io)
    }

    /// Opens a connection over a sample in-memory database: one page
    /// holding the default header followed by zero bytes.
    pub fn open_sample() -> (r: SQLiteResult<Self>)
        ensures
            r matches Ok(c) && c.spec_header() == spec_default_header() && c.spec_wf(),
    {
        let header = SqliteHeader::default();
        let mut data = header.to_bytes();
        let ghost enc = crate::header::spec_encode_header(spec_default_header());
        while data.len() < 4096
            invariant
                100 <= data@.len() <= 4096,
                enc.len() == 100,
                forall|j: int| 0 <= j < 100 ==> data@[j] == enc[j],
            decreases 4096 - data@.len(),
        {
            data.push(0);
        }
        proof {
            crate::header::lemma_header_round_trip(spec_default_header());
            let d = data@;
            assert(d.subrange(0, 16) =~= enc.subrange(0, 16));
            assert(crate::bytes::spec_be_u16(d, 16) == crate::bytes::spec_be_u16(enc, 16));
            if crate::header::fields::reserved_expansion_ok(enc, 72) {
                assert forall|j: int| 72 <= j < 92 implies d[j] == 0 by {
                    assert(enc[j] == 0);
                }
            }
            assert(spec_header_valid(d));
            assert(spec_header_of(d) == spec_header_of(enc));
            assert(spec_header_of(d) == spec_default_header());
            assert(spec_connect_ok(d));
            assert(spec_connect_page_size(d) == 4096);
        }
        let io = SqliteIo::from_bytes(SqliteIoMode::InMemory, data);
        SqliteConnection::from_io(io)
    }

    /// The runtime behind this connection.
    pub fn runtime(&self) -> (r: &SqliteRuntime)
        ensures
            r == self.runtime_view(),
            r.spec_header() == self.spec_header(),
            r.data_view() == self.data_view(),
    {
        &self.runtime
    }

    /// The runtime behind this connection, for reads that move its
    /// cursor.
    pub fn runtime_mut(&mut self) -> (r: &mut SqliteRuntime)
        ensures
            *r == old(self).runtime_view(),
            final(self).runtime_view() == *final(r),
    {
        &mut self.runtime
    }
}

} // verus!
