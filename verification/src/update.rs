//! Checking for a new version and reporting the download of one as events.
use vstd::prelude::*;

verus! {

/// What a check for updates found: whether there is a newer version, and if
/// so the running and the offered version.
#[derive(Debug, PartialEq, Eq)]
pub struct UpdateInfo {
    pub needUpdate: bool,
    pub current_version: String,
    pub version: String,
}

impl UpdateInfo {
    /// The report of a check that found `(current_version, version)`, or
    /// nothing: then no update is needed and both versions are empty.
    pub fn from_check(found: Option<(String, String)>) -> (r: UpdateInfo)
        ensures
            match found {
                Some((current, offered)) => r.needUpdate && r.current_version == current
                    && r.version == offered,
                None => !r.needUpdate && r.current_version@ == Seq::<char>::empty()
                    && r.version@ == Seq::<char>::empty(),
            },
    {
        match found {
            Some((current, offered)) => UpdateInfo {
                needUpdate: true,
                current_version: current,
                version: offered,
            },
            None => UpdateInfo {
                needUpdate: false,
                current_version: String::new(),
                version: String::new(),
            },
        }
    }
}

/// What the download of an update reports.
#[derive(Debug, Clone, Copy, PartialEq, Eq, Structural)]
pub enum DownloadEvent {
    /// The first chunk arrived; the total size, when the server gave it.
    Started { content_length: Option<u64> },
    /// A chunk of this many bytes arrived.
    Progress { chunk_length: usize },
    /// The download is complete.
    Finished,
}

/// The events for one chunk: a `Started` event before the first chunk's
/// `Progress`, and `Progress` alone after that.
pub open spec fn chunk_events(started: bool, chunk_length: usize, content_length: Option<u64>) -> Seq<
    DownloadEvent,
> {
    if started {
        seq![DownloadEvent::Progress { chunk_length }]
    } else {
        seq![
            DownloadEvent::Started { content_length },
            DownloadEvent::Progress { chunk_length },
        ]
    }
}

/// The events for a run of chunks, each given as its length and the total
/// size, taken in order from the given state.
pub open spec fn run_events(started: bool, chunks: Seq<(usize, Option<u64>)>) -> Seq<DownloadEvent>
    decreases chunks.len(),
{
    if chunks.len() == 0 {
        seq![]
    } else {
        chunk_events(started, chunks[0].0, chunks[0].1) + run_events(true, chunks.drop_first())
    }
}

/// Tracks a download to report its events, and the chunks it was given.
pub struct DownloadProgress {
    started: bool,
    seen: Ghost<Seq<(usize, Option<u64>)>>,
}

impl DownloadProgress {
    /// A chunk has arrived exactly when some chunk was given.
    #[verifier::type_invariant]
    spec fn started_iff_seen(self) -> bool {
        self.started == (self.seen@.len() > 0)
    }

    /// Whether a chunk has arrived yet.
    pub closed spec fn has_started(&self) -> bool {
        self.started
    }

    /// The chunks given so far, each as its length and the total size, in
    /// order.
    pub closed spec fn chunks(&self) -> Seq<(usize, Option<u64>)> {
        self.seen@
    }

    /// A download before its first chunk.
    pub fn new() -> (r: DownloadProgress)
        ensures
            !r.has_started(),
            r.chunks() == Seq::<(usize, Option<u64>)>::empty(),
    {
        DownloadProgress { started: false, seen: Ghost(Seq::empty()) }
    }

    /// The events for a chunk of `chunk_length` bytes of a download of
    /// `content_length` bytes in all. All the events given since `new` are
    /// those of `run_events` over the chunks given.
    pub fn on_chunk(&mut self, chunk_length: usize, content_length: Option<u64>) -> (r: Vec<
        DownloadEvent,
    >)
        ensures
            r@ == chunk_events(old(self).has_started(), chunk_length, content_length),
            final(self).has_started(),
            final(self).chunks() == old(self).chunks().push((chunk_length, content_length)),
            run_events(false, final(self).chunks()) == run_events(false, old(self).chunks()) + r@,
    {
        proof {
            use_type_invariant(&*self);
            lemma_run_events_push(false, self.seen@, (chunk_length, content_length));
        }
        let mut events: Vec<DownloadEvent> = Vec::new();
        if !self.started {
            events.push(DownloadEvent::Started { content_length });
        }
        events.push(DownloadEvent::Progress { chunk_length });
        let ghost seen = self.seen@.push((chunk_length, content_length));
        *self = DownloadProgress { started: true, seen: Ghost(seen) };
        assert(events@ =~= chunk_events(old(self).has_started(), chunk_length, content_length));
        events
    }

    /// The event for the end of the download.
    pub fn on_finish(&self) -> (r: DownloadEvent)
        ensures
            r == DownloadEvent::Finished,
    {
        DownloadEvent::Finished
    }
}

/// One more chunk adds its own events to those of the run before it.
pub proof fn lemma_run_events_push(
    started: bool,
    chunks: Seq<(usize, Option<u64>)>,
    chunk: (usize, Option<u64>),
)
    ensures
        run_events(started, chunks.push(chunk)) == run_events(started, chunks) + chunk_events(
            started || chunks.len() > 0,
            chunk.0,
            chunk.1,
        ),
    decreases chunks.len(),
{
    if chunks.len() == 0 {
        assert(chunks.push(chunk).drop_first() =~= Seq::<(usize, Option<u64>)>::empty());
        assert(chunks.push(chunk)[0] == chunk);
        assert(run_events(true, Seq::<(usize, Option<u64>)>::empty()) == Seq::<DownloadEvent>::empty());
        assert(run_events(started, chunks) == Seq::<DownloadEvent>::empty());
        assert(run_events(started, chunks.push(chunk)) =~= run_events(started, chunks)
            + chunk_events(started, chunk.0, chunk.1));
    } else {
        let rest = chunks.drop_first();
        lemma_run_events_push(true, rest, chunk);
        assert(chunks.push(chunk).drop_first() =~= rest.push(chunk));
        assert(chunks.push(chunk)[0] == chunks[0]);
        assert(run_events(started, chunks.push(chunk)) =~= run_events(started, chunks)
            + chunk_events(true, chunk.0, chunk.1));
    }
}

/// After the first chunk, each chunk reports its progress and nothing else.
pub proof fn lemma_started_run(chunks: Seq<(usize, Option<u64>)>)
    ensures
        run_events(true, chunks) == chunks.map_values(
            |c: (usize, Option<u64>)| DownloadEvent::Progress { chunk_length: c.0 },
        ),
    decreases chunks.len(),
{
    if chunks.len() > 0 {
        lemma_started_run(chunks.drop_first());
        assert(run_events(true, chunks) =~= chunks.map_values(
            |c: (usize, Option<u64>)| DownloadEvent::Progress { chunk_length: c.0 },
        ));
    } else {
        assert(run_events(true, chunks) =~= chunks.map_values(
            |c: (usize, Option<u64>)| DownloadEvent::Progress { chunk_length: c.0 },
        ));
    }
}

/// A download reports `Started` exactly once, first, with the total size the
/// first chunk gave, and then one `Progress` per chunk in order.
pub proof fn lemma_download_events(chunks: Seq<(usize, Option<u64>)>)
    requires
        chunks.len() > 0,
    ensures
        run_events(false, chunks) == seq![DownloadEvent::Started { content_length: chunks[0].1 }]
            + chunks.map_values(
            |c: (usize, Option<u64>)| DownloadEvent::Progress { chunk_length: c.0 },
        ),
{
    lemma_started_run(chunks.drop_first());
    assert(run_events(false, chunks) =~= seq![
        DownloadEvent::Started { content_length: chunks[0].1 },
    ] + chunks.map_values(
        |c: (usize, Option<u64>)| DownloadEvent::Progress { chunk_length: c.0 },
    ));
}

} // verus!
