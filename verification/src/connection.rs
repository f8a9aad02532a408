use vstd::prelude::*;

verus! {

/// The request context under which the operations of the connection with
/// the given index are posted, so that their completions name it.
pub open spec fn request_context(index: u8) -> u128 {
    index as u128
}

/// What the memory window of a connection is bound to: the request context
/// and the part `[start, end)` of the registered pixel buffer.
#[derive(Clone, Copy, Debug, PartialEq, Eq, Structural)]
pub struct BindRequest {
    pub context: u128,
    pub start: usize,
    pub end: usize,
}

/// One write of a connection's part of the pixel buffer to the peer.
///
/// `start..end` is the part of the registered buffer that is sent; it lands
/// at `remote_offset` in the peer's memory window named by `remote_token`.
#[derive(Clone, Copy, Debug, PartialEq, Eq, Structural)]
pub struct WriteRequest {
    pub context: u128,
    pub start: usize,
    pub end: usize,
    pub remote_offset: u64,
    pub remote_token: u32,
}

/// The state of one connection: its index among the client's connections,
/// the title of the window it streams, and the part of the registered pixel
/// buffer (of `region_len` pixels) that belongs to it.
pub struct Connection {
    pub index: u8,
    title: String,
    region_len: usize,
    buffer_range: (usize, usize),
}

impl Connection {
    /// The buffer range lies inside the registered region.
    pub open spec fn wf(&self) -> bool {
        self.spec_buffer_range().0 <= self.spec_buffer_range().1 <= self.spec_region_len()
    }

    pub closed spec fn spec_index(&self) -> u8 {
        self.index
    }

    pub closed spec fn spec_title(&self) -> Seq<char> {
        self.title@
    }

    pub closed spec fn spec_region_len(&self) -> usize {
        self.region_len
    }

    pub closed spec fn spec_buffer_range(&self) -> (usize, usize) {
        self.buffer_range
    }

    /// The bind that a connection asks for when it is set up.
    pub open spec fn spec_bind(&self) -> BindRequest {
        BindRequest {
            context: request_context(self.spec_index()),
            start: self.spec_buffer_range().0,
            end: self.spec_buffer_range().1,
        }
    }

    /// The write that a connection posts, to the memory window `remote_token`.
    pub open spec fn spec_write(&self, remote_token: u32) -> WriteRequest {
        WriteRequest {
            context: request_context(self.spec_index()),
            start: self.spec_buffer_range().0,
            end: self.spec_buffer_range().1,
            remote_offset: 0,
            remote_token,
        }
    }

    /// A connection with the given index and window title that owns the part
    /// `buffer_range.0 .. buffer_range.1` of a registered buffer of
    /// `region_len` pixels. The range must lie inside the buffer.
    pub fn new(index: u8, title: String, region_len: usize, buffer_range: (usize, usize)) -> (c: Self)
        requires
            buffer_range.0 <= buffer_range.1 <= region_len,
        ensures
            c.wf(),
            c.spec_index() == index,
            c.spec_title() == title@,
            c.spec_region_len() == region_len,
            c.spec_buffer_range() == buffer_range,
    {
        Connection { index, title, region_len, buffer_range }
    }

    /// The bind of the connection's memory window: its request context and
    /// its part of the buffer.
    pub fn bind_request(&self) -> (b: BindRequest)
        ensures
            b == self.spec_bind(),
            b.context == self.spec_index() as u128,
            b.start == self.spec_buffer_range().0,
            b.end == self.spec_buffer_range().1,
    {
        BindRequest {
            context: self.index as u128,
            start: self.buffer_range.0,
            end: self.buffer_range.1,
        }
    }

    /// The write of the connection's part of the buffer to the peer's memory
    /// window `remote_token`, at offset 0, under the connection's context.
    pub fn write(&self, remote_token: u32) -> (w: WriteRequest)
        ensures
            w == self.spec_write(remote_token),
            w.context == self.spec_index() as u128,
            w.start == self.spec_buffer_range().0,
            w.end == self.spec_buffer_range().1,
            w.remote_offset == 0,
            w.remote_token == remote_token,
    {
        WriteRequest {
            context: self.index as u128,
            start: self.buffer_range.0,
            end: self.buffer_range.1,
            remote_offset: 0,
            remote_token,
        }
    }

    /// The part of the registered buffer that this connection owns.
    pub fn buffer_range(&self) -> (r: (usize, usize))
        ensures
            r == self.spec_buffer_range(),
    {
        self.buffer_range
    }

    /// The number of pixels of the registered buffer.
    pub fn region_len(&self) -> (n: usize)
        ensures
            n == self.spec_region_len(),
    {
        self.region_len
    }

    /// The title of the window that the connection streams.
    pub fn title(&self) -> (t: &String)
        ensures
            t@ == self.spec_title(),
    {
        &self.title
    }
}

/// Law: a write of a connection posts under the request context that its
/// memory window was bound with and sends exactly the bound part of the buffer.
pub proof fn lemma_write_matches_bind(c: Connection, remote_token: u32)
    ensures
        c.spec_write(remote_token).context == c.spec_bind().context,
        c.spec_write(remote_token).start == c.spec_bind().start,
        c.spec_write(remote_token).end == c.spec_bind().end,
{
}

/// Law: the request context of a connection is its index itself.
pub proof fn lemma_request_context_is_index(index: u8)
    ensures
        request_context(index) == index as u128,
        request_context(index) < 256,
{
}

/// Law: a connection binds its memory window, under its own index as request
/// context, to exactly the range it was created with.
pub proof fn lemma_bind_is_own_range(c: Connection)
    ensures
        c.spec_bind().context == c.spec_index() as u128,
        c.spec_bind().start == c.spec_buffer_range().0,
        c.spec_bind().end == c.spec_buffer_range().1,
        c.wf() ==> c.spec_bind().start <= c.spec_bind().end <= c.spec_region_len(),
{
}

/// Law: a write sends exactly the connection's own range, under its own index
/// as request context, to the start (offset 0) of the memory window it names.
pub proof fn lemma_write_is_own_range_at_start(c: Connection, remote_token: u32)
    ensures
        c.spec_write(remote_token).context == c.spec_index() as u128,
        c.spec_write(remote_token).start == c.spec_buffer_range().0,
        c.spec_write(remote_token).end == c.spec_buffer_range().1,
        c.spec_write(remote_token).remote_offset == 0,
        c.spec_write(remote_token).remote_token == remote_token,
{
}

/// Law: connections with different indices post under different request
/// contexts, so a completion names exactly one connection.
pub proof fn lemma_request_context_injective(i: u8, j: u8)
    requires
        i != j,
    ensures
        request_context(i) != request_context(j),
{
}

} // verus!
