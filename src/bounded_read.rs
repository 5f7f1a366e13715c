use vstd::prelude::*;

use crate::error::FetchError;

verus! {

/// The bytes of a sequence of chunks, concatenated in order.
pub open spec fn concat(chunks: Seq<Seq<u8>>) -> Seq<u8>
    decreases chunks.len(),
{
    if chunks.len() == 0 {
        Seq::empty()
    } else {
        concat(chunks.drop_last()) + chunks.last()
    }
}

/// The contents of a vector of chunks, as mathematical sequences.
pub open spec fn chunk_views(chunks: Seq<Vec<u8>>) -> Seq<Seq<u8>> {
    chunks.map_values(|c: Vec<u8>| c@)
}

/// The peer announced a size larger than the limit.
pub open spec fn declared_too_large(declared: Option<u64>, limit: usize) -> bool {
    declared is Some && declared->0 > limit
}

/// Chunk `k` (counted from 0) is the one after which the running total first
/// goes past `limit`.
pub open spec fn first_overflow(chunks: Seq<Seq<u8>>, limit: usize, k: int) -> bool {
    &&& 0 <= k < chunks.len()
    &&& concat(chunks.take(k)).len() <= limit
    &&& concat(chunks.take(k + 1)).len() > limit
}

/// The state of one bounded read, as seen from outside.
pub struct BudgetView {
    pub limit: nat,
    pub body: Seq<u8>,
    pub aborted: bool,
}

/// Accepts the chunks of one response body while holding their total to a
/// hard limit. Once the limit is passed the reader is aborted: what it held is
/// discarded and no further bytes are accepted.
pub struct SizeBoundedReader {
    limit: usize,
    body: Vec<u8>,
    aborted: bool,
}

impl View for SizeBoundedReader {
    type V = BudgetView;

    closed spec fn view(&self) -> BudgetView {
        BudgetView { limit: self.limit as nat, body: self.body@, aborted: self.aborted }
    }
}

impl SizeBoundedReader {
    /// The consumed bytes never exceed the limit, and an aborted reader holds none.
    pub open spec fn wf(&self) -> bool {
        &&& self@.body.len() <= self@.limit
        &&& self@.aborted ==> self@.body.len() == 0
        &&& self@.limit <= usize::MAX
    }

    /// Starts a bounded read. A declared size above `limit` is refused before
    /// any chunk is looked at; otherwise the buffer is sized to the declared
    /// length when there is one.
    pub fn begin(declared: Option<u64>, limit: usize) -> (r: Result<SizeBoundedReader, FetchError>)
        ensures
            declared_too_large(declared, limit) ==> r == Err::<SizeBoundedReader, FetchError>(
                FetchError::DeclaredSizeExceeded,
            ),
            !declared_too_large(declared, limit) ==> r is Ok && r->Ok_0.wf() && r->Ok_0@ == (
            BudgetView { limit: limit as nat, body: Seq::empty(), aborted: false }),
    {
        match declared {
            Some(n) => {
                if n > limit as u64 {
                    Err(FetchError::DeclaredSizeExceeded)
                } else {
                    let body: Vec<u8> = Vec::with_capacity(n as usize);
                    Ok(SizeBoundedReader { limit, body, aborted: false })
                }
            },
            None => Ok(SizeBoundedReader { limit, body: Vec::new(), aborted: false }),
        }
    }

    /// The limit this reader enforces.
    pub fn limit(&self) -> (r: usize)
        ensures
            r == self@.limit,
    {
        self.limit
    }

    /// The number of bytes accepted so far.
    pub fn consumed(&self) -> (r: usize)
        ensures
            r == self@.body.len(),
    {
        self.body.len()
    }

    /// Whether the limit has been passed.
    pub fn is_aborted(&self) -> (r: bool)
        ensures
            r == self@.aborted,
    {
        self.aborted
    }

    /// Accepts one chunk. If the running total would pass the limit, the
    /// reader aborts, drops everything it held and reports
    /// `ActualSizeExceeded`; an aborted reader refuses every later chunk.
    pub fn push_chunk(&mut self, chunk: &[u8]) -> (r: Result<(), FetchError>)
        requires
            old(self).wf(),
        ensures
            final(self).wf(),
            final(self)@.limit == old(self)@.limit,
            old(self)@.aborted || old(self)@.body.len() + chunk@.len() > old(self)@.limit ==> {
                &&& r == Err::<(), FetchError>(FetchError::ActualSizeExceeded)
                &&& final(self)@.aborted
                &&& final(self)@.body.len() == 0
            },
            !(old(self)@.aborted || old(self)@.body.len() + chunk@.len() > old(self)@.limit) ==> {
                &&& r is Ok
                &&& !final(self)@.aborted
                &&& final(self)@.body == old(self)@.body + chunk@
            },
    {
        if self.aborted || chunk.len() > self.limit - self.body.len() {
            self.aborted = true;
            self.body.clear();
            return Err(FetchError::ActualSizeExceeded);
        }
        let ghost start = self.body@;
        let mut i: usize = 0;
        while i < chunk.len()
            invariant
                i <= chunk@.len(),
                self.body@ == start + chunk@.take(i as int),
                self.limit == old(self).limit,
                !self.aborted,
                start.len() + chunk@.len() <= self.limit,
            decreases chunk@.len() - i,
        {
            self.body.push(chunk[i]);
            i = i + 1;
            assert(self.body@ =~= start + chunk@.take(i as int));
        }
        assert(chunk@.take(i as int) =~= chunk@);
        Ok(())
    }

    /// Ends the read: the accepted bytes, or `ActualSizeExceeded` if the
    /// reader was aborted (a partial body is never handed out).
    pub fn finish(self) -> (r: Result<Vec<u8>, FetchError>)
        ensures
            self@.aborted ==> r == Err::<Vec<u8>, FetchError>(FetchError::ActualSizeExceeded),
            !self@.aborted ==> r is Ok && r->Ok_0@ == self@.body,
    {
        if self.aborted {
            Err(FetchError::ActualSizeExceeded)
        } else {
            Ok(self.body)
        }
    }
}

/// The outcome of reading a whole chunk sequence under a limit.
pub struct BoundedRead {
    /// The body, or why it was refused.
    pub result: Result<Vec<u8>, FetchError>,
    /// How many chunks were taken from the source.
    pub chunks_read: usize,
}

proof fn lemma_concat_take_step(chunks: Seq<Seq<u8>>, k: int)
    requires
        0 <= k < chunks.len(),
    ensures
        concat(chunks.take(k + 1)) == concat(chunks.take(k)) + chunks[k],
{
    assert(chunks.take(k + 1).drop_last() =~= chunks.take(k));
}

proof fn lemma_concat_take_monotone(chunks: Seq<Seq<u8>>, j: int, k: int)
    requires
        0 <= j <= k <= chunks.len(),
    ensures
        concat(chunks.take(j)).len() <= concat(chunks.take(k)).len(),
    decreases k - j,
{
    if j < k {
        lemma_concat_take_step(chunks, k - 1);
        lemma_concat_take_monotone(chunks, j, k - 1);
    }
}

/// What reading `chunks` under `limit` must give: `result` and the number of
/// chunks taken from the source, `chunks_read`.
///
/// A declared size above `limit` is refused before the first chunk is taken.
/// Otherwise the chunks are taken one by one; if the running total first
/// passes `limit` at chunk `k`, the read stops right after taking it and
/// gives `ActualSizeExceeded` with no bytes. Else the whole concatenation is
/// the body.
pub open spec fn bounded_read_post(
    declared: Option<u64>,
    chunks: Seq<Seq<u8>>,
    limit: usize,
    result: Result<Vec<u8>, FetchError>,
    chunks_read: usize,
) -> bool {
    &&& declared_too_large(declared, limit) ==> {
        &&& result == Err::<Vec<u8>, FetchError>(FetchError::DeclaredSizeExceeded)
        &&& chunks_read == 0
    }
    &&& !declared_too_large(declared, limit) && concat(chunks).len() > limit ==> {
        &&& result == Err::<Vec<u8>, FetchError>(FetchError::ActualSizeExceeded)
        &&& first_overflow(chunks, limit, chunks_read - 1)
        &&& forall|k: int| #[trigger] first_overflow(chunks, limit, k) ==> chunks_read == k + 1
    }
    &&& !declared_too_large(declared, limit) && concat(chunks).len() <= limit ==> {
        &&& result is Ok
        &&& result->Ok_0@ == concat(chunks)
        &&& chunks_read == chunks.len()
    }
}

/// The chunk at which the running total first passes the limit is unique.
pub proof fn lemma_first_overflow_unique(chunks: Seq<Seq<u8>>, limit: usize, j: int, k: int)
    requires
        first_overflow(chunks, limit, j),
        first_overflow(chunks, limit, k),
    ensures
        j == k,
{
    if j < k {
        lemma_concat_take_monotone(chunks, j + 1, k);
    } else if k < j {
        lemma_concat_take_monotone(chunks, k + 1, j);
    }
}

/// Reads `chunks` in order through a `SizeBoundedReader`, as
/// `bounded_read_post` describes.
pub fn read_bounded(declared: Option<u64>, chunks: &Vec<Vec<u8>>, limit: usize) -> (r: BoundedRead)
    ensures
        bounded_read_post(declared, chunk_views(chunks@), limit, r.result, r.chunks_read),
{
    let ghost views = chunk_views(chunks@);
    let mut reader = match SizeBoundedReader::begin(declared, limit) {
        Ok(rd) => rd,
        Err(e) => {
            return BoundedRead { result: Err(e), chunks_read: 0 };
        },
    };
    let mut i: usize = 0;
    while i < chunks.len()
        invariant
            i <= chunks@.len(),
            !declared_too_large(declared, limit),
            views == chunk_views(chunks@),
            reader.wf(),
            !reader@.aborted,
            reader@.limit == limit,
            reader@.body == concat(views.take(i as int)),
        decreases chunks@.len() - i,
    {
        proof {
            lemma_concat_take_step(views, i as int);
        }
        let pushed = reader.push_chunk(chunks[i].as_slice());
        i = i + 1;
        if pushed.is_err() {
            proof {
                lemma_concat_take_monotone(views, i as int, views.len() as int);
                assert(views.take(views.len() as int) =~= views);
                assert forall|k: int| #[trigger] first_overflow(views, limit, k) implies i == k + 1 by {
                    lemma_first_overflow_unique(views, limit, i - 1, k);
                }
            }
            return BoundedRead { result: Err(FetchError::ActualSizeExceeded), chunks_read: i };
        }
    }
    assert(views.take(i as int) =~= views);
    BoundedRead { result: reader.finish(), chunks_read: i }
}

} // verus!
