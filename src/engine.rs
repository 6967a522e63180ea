//! The atomic prepend, as a state machine.
//!
//! The engine never touches a file itself. It hands its caller one
//! [`Action`] at a time (open, create, write, read, flush, rename, remove)
//! and takes back the [`Event`] that performing it produced. The header and
//! the original bytes go to a temporary sibling of the target, which then
//! replaces the target in a single rename. A [`Disk`] model of what each
//! action does states, and the laws at the end of this module prove, that a
//! successful run leaves the target holding the header followed by its old
//! bytes, that a failed run leaves it as it was, and that a dry run changes
//! nothing at all.
use vstd::prelude::*;
use vstd::utf8::encode_utf8;

use crate::config::Config;
use crate::error::PrependError;
use crate::input::{normalize_text, normalized};
use crate::paths::{temp_path_for, temp_path_of};

verus! {

/// Bytes asked for by each read of the target while copying it.
pub const BUFFER_SIZE: usize = 64 * 1024;

/// Bytes of the target shown by a dry run.
pub const PREVIEW_SIZE: usize = 200;

/// Where a run of the engine stands.
#[derive(Debug, Clone, Copy, PartialEq, Eq)]
pub enum Phase {
    /// The target is to be opened for reading.
    Opening,
    /// The temporary sibling is to be created.
    Creating,
    /// The header is to be written to the temporary file.
    WritingHeader,
    /// The next piece of the target is to be read.
    Reading,
    /// The piece just read is to be written to the temporary file.
    WritingChunk,
    /// The temporary file is to be flushed.
    Flushing,
    /// The temporary file is to replace the target.
    Renaming,
    /// The temporary file is to be removed after a failed rename.
    Cleaning,
    /// The start of the target is to be read for a preview.
    Previewing,
    /// The run is over.
    Finished,
}

/// A file operation that the engine asks its caller to perform.
#[derive(Debug)]
pub enum Action {
    /// Open the file at this path for reading.
    OpenSource(String),
    /// Create, or truncate, the file at this path for writing.
    CreateTemp(String),
    /// Append these bytes to the file that was created.
    Write(Vec<u8>),
    /// Read at most this many bytes from the file that was opened, where
    /// the previous read stopped.
    Read(usize),
    /// Flush what was written to the created file.
    Flush,
    /// Rename the file `from` over the file `to`.
    Rename { from: String, to: String },
    /// Remove the file at this path.
    RemoveTemp(String),
    /// Read at most `limit` bytes from the start of `path`, to show them.
    Preview { path: String, limit: usize },
    /// Nothing is left to do: the run ended with this outcome.
    Finish(Result<(), PrependError>),
}

/// What performing an [`Action`] produced.
#[derive(Debug)]
pub enum Event {
    /// The operation succeeded.
    Done,
    /// A read succeeded with these bytes; none means the end of the file.
    Data(Vec<u8>),
    /// The operation failed, for the reason described.
    Failed(String),
}

/// What a run of the engine holds, as the contracts see it.
pub struct EngineView {
    /// The target path.
    pub target: Seq<char>,
    /// The temporary sibling of the target.
    pub temp: Seq<char>,
    /// The bytes to put in front of the target's.
    pub header: Seq<u8>,
    /// Whether the run only previews.
    pub dry_run: bool,
    /// Where the run stands.
    pub phase: Phase,
    /// The piece read last, while it waits to be written.
    pub chunk: Seq<u8>,
    /// Why the run failed, once it has.
    pub error: Option<PrependError>,
}

/// The engine of one prepend request.
pub struct PrependEngine {
    target: String,
    temp: String,
    header: Vec<u8>,
    dry_run: bool,
    phase: Phase,
    chunk: Vec<u8>,
    error: Option<PrependError>,
}

impl View for PrependEngine {
    type V = EngineView;

    closed spec fn view(&self) -> EngineView {
        EngineView {
            target: self.target@,
            temp: self.temp@,
            header: self.header@,
            dry_run: self.dry_run,
            phase: self.phase,
            chunk: self.chunk@,
            error: self.error,
        }
    }
}

/// The bytes put in front of the target for the text `text`: the text,
/// normalized to end with a line terminator, in UTF-8.
pub open spec fn header_of(text: Seq<char>) -> Seq<u8> {
    encode_utf8(normalized(text))
}

/// Whether `e` is a run that has not taken a step yet.
pub open spec fn started(e: EngineView) -> bool {
    &&& e.phase == (if e.dry_run { Phase::Previewing } else { Phase::Opening })
    &&& e.error is None
}

/// Whether `post` ends a run as `pre` stood, failed for `reason`.
pub open spec fn fails(post: EngineView, reason: String) -> bool {
    post.phase == Phase::Finished && post.error == Some(PrependError::Io(reason))
}

/// Whether `post` is where the engine stands after `pre` got `ev`: a failure
/// ends the run, but for a failed rename, which first removes the temporary
/// file; any other event moves the run on to its next phase.
pub open spec fn next(pre: EngineView, ev: Event, post: EngineView) -> bool {
    &&& post.target == pre.target
    &&& post.temp == pre.temp
    &&& post.header == pre.header
    &&& post.dry_run == pre.dry_run
    &&& match pre.phase {
        Phase::Opening => match ev {
            Event::Failed(m) => fails(post, m),
            _ => post.phase == Phase::Creating && post.error == pre.error,
        },
        Phase::Creating => match ev {
            Event::Failed(m) => fails(post, m),
            _ => post.phase == Phase::WritingHeader && post.error == pre.error,
        },
        Phase::WritingHeader => match ev {
            Event::Failed(m) => fails(post, m),
            _ => post.phase == Phase::Reading && post.error == pre.error,
        },
        Phase::Reading => match ev {
            Event::Failed(m) => fails(post, m),
            Event::Data(c) => if c@.len() == 0 {
                post.phase == Phase::Flushing && post.error == pre.error
            } else {
                post.phase == Phase::WritingChunk && post.chunk == c@ && post.error == pre.error
            },
            Event::Done => post.phase == Phase::Flushing && post.error == pre.error,
        },
        Phase::WritingChunk => match ev {
            Event::Failed(m) => fails(post, m),
            _ => post.phase == Phase::Reading && post.error == pre.error,
        },
        Phase::Flushing => match ev {
            Event::Failed(m) => fails(post, m),
            _ => post.phase == Phase::Renaming && post.error == pre.error,
        },
        Phase::Renaming => match ev {
            Event::Failed(m) => post.phase == Phase::Cleaning && post.error == Some(
                PrependError::Io(m),
            ),
            _ => post.phase == Phase::Finished && post.error == pre.error,
        },
        Phase::Cleaning => post.phase == Phase::Finished && post.error == pre.error,
        Phase::Previewing => post.phase == Phase::Finished && post.error == pre.error,
        Phase::Finished => post.phase == Phase::Finished && post.error == pre.error,
    }
}

/// Whether `a` is the action that the engine asks for where `e` stands.
pub open spec fn emits(e: EngineView, a: Action) -> bool {
    match e.phase {
        Phase::Opening => a matches Action::OpenSource(p) && p@ == e.target,
        Phase::Creating => a matches Action::CreateTemp(p) && p@ == e.temp,
        Phase::WritingHeader => a matches Action::Write(b) && b@ == e.header,
        Phase::Reading => a matches Action::Read(n) && n == BUFFER_SIZE,
        Phase::WritingChunk => a matches Action::Write(b) && b@ == e.chunk,
        Phase::Flushing => a is Flush,
        Phase::Renaming => a matches Action::Rename { from, to } && from@ == e.temp && to@
            == e.target,
        Phase::Cleaning => a matches Action::RemoveTemp(p) && p@ == e.temp,
        Phase::Previewing => a matches Action::Preview { path, limit } && path@ == e.target
            && limit == PREVIEW_SIZE,
        Phase::Finished => a matches Action::Finish(r) && match e.error {
            Some(err) => r == Err::<(), PrependError>(err),
            None => r is Ok,
        },
    }
}

/// Whether `a` may change what is on disk.
pub open spec fn mutates(a: Action) -> bool {
    a is CreateTemp || a is Write || a is Rename || a is RemoveTemp
}

impl PrependEngine {
    /// The engine for `config`, before its first step. The header is the
    /// request's text, normalized to end with a line terminator.
    pub fn new(config: &Config) -> (r: PrependEngine)
        ensures
            started(r@),
            r@.target == config.filename@,
            r@.temp == temp_path_of(config.filename@),
            r@.header == header_of(config.prepend_text@),
            r@.dry_run == config.dry_run,
    {
        let text = normalize_text(config.prepend_text.as_str());
        let header = text.as_str().as_bytes_vec();
        PrependEngine {
            target: config.filename.clone(),
            temp: temp_path_for(config.filename.as_str()),
            header,
            dry_run: config.dry_run,
            phase: if config.dry_run { Phase::Previewing } else { Phase::Opening },
            chunk: Vec::new(),
            error: None,
        }
    }

    /// The phase the run stands in.
    pub fn phase(&self) -> (r: Phase)
        ensures
            r == self@.phase,
    {
        self.phase
    }

    /// The path of the temporary sibling.
    pub fn temp_path(&self) -> (r: &str)
        ensures
            r@ == self@.temp,
    {
        self.temp.as_str()
    }

    /// The action that the engine asks for now.
    pub fn action(&self) -> (a: Action)
        ensures
            emits(self@, a),
    {
        match self.phase {
            Phase::Opening => Action::OpenSource(self.target.clone()),
            Phase::Creating => Action::CreateTemp(self.temp.clone()),
            Phase::WritingHeader => Action::Write(self.header.clone()),
            Phase::Reading => Action::Read(BUFFER_SIZE),
            Phase::WritingChunk => Action::Write(self.chunk.clone()),
            Phase::Flushing => Action::Flush,
            Phase::Renaming => Action::Rename { from: self.temp.clone(), to: self.target.clone() },
            Phase::Cleaning => Action::RemoveTemp(self.temp.clone()),
            Phase::Previewing => Action::Preview { path: self.target.clone(), limit: PREVIEW_SIZE },
            Phase::Finished => match &self.error {
                Some(e) => Action::Finish(Err(e.duplicate())),
                None => Action::Finish(Ok(())),
            },
        }
    }

    /// Takes the event that performing the last action produced, moves the
    /// run on, and returns the action asked for next.
    pub fn step(&mut self, ev: Event) -> (a: Action)
        ensures
            next(old(self)@, ev, final(self)@),
            emits(final(self)@, a),
    {
        match self.phase {
            Phase::Opening | Phase::Creating | Phase::WritingHeader | Phase::WritingChunk
            | Phase::Flushing => {
                match ev {
                    Event::Failed(m) => {
                        self.error = Some(PrependError::Io(m));
                        self.phase = Phase::Finished;
                    },
                    _ => {
                        self.phase = match self.phase {
                            Phase::Opening => Phase::Creating,
                            Phase::Creating => Phase::WritingHeader,
                            Phase::Flushing => Phase::Renaming,
                            _ => Phase::Reading,
                        };
                    },
                }
            },
            Phase::Reading => {
                match ev {
                    Event::Failed(m) => {
                        self.error = Some(PrependError::Io(m));
                        self.phase = Phase::Finished;
                    },
                    Event::Data(c) => {
                        if c.len() == 0 {
                            self.phase = Phase::Flushing;
                        } else {
                            self.chunk = c;
                            self.phase = Phase::WritingChunk;
                        }
                    },
                    Event::Done => {
                        self.phase = Phase::Flushing;
                    },
                }
            },
            Phase::Renaming => {
                match ev {
                    Event::Failed(m) => {
                        self.error = Some(PrependError::Io(m));
                        self.phase = Phase::Cleaning;
                    },
                    _ => {
                        self.phase = Phase::Finished;
                    },
                }
            },
            Phase::Cleaning | Phase::Previewing | Phase::Finished => {
                self.phase = Phase::Finished;
            },
        }
        self.action()
    }
}

/// What the file operations of a run see and change: the target's bytes,
/// the temporary file's bytes once it exists, and how far the target has
/// been read.
pub struct Disk {
    /// The bytes of the target.
    pub target: Seq<u8>,
    /// The bytes of the temporary file, if it exists.
    pub temp: Option<Seq<u8>>,
    /// How many bytes of the target the reads so far returned.
    pub cursor: nat,
}

/// Whether `d2` is what the disk `d` may hold after the action that `e`
/// asks for was performed and produced `ev`. A failed operation leaves the
/// target as it was (a failed rename leaves the disk as it was); a read
/// returns the next bytes of the target, none exactly at its end; a write
/// appends to the temporary file; a successful rename moves the temporary
/// file's bytes to the target. Previews and finished runs touch nothing.
pub open spec fn disk_step(d: Disk, e: EngineView, ev: Event, d2: Disk) -> bool {
    match e.phase {
        Phase::Opening => match ev {
            Event::Failed(_) => d2.target == d.target,
            _ => d2.target == d.target && d2.temp == d.temp && d2.cursor == 0,
        },
        Phase::Creating => match ev {
            Event::Failed(_) => d2.target == d.target,
            _ => d2.target == d.target && d2.temp == Some(Seq::<u8>::empty()) && d2.cursor
                == d.cursor,
        },
        Phase::WritingHeader => match ev {
            Event::Failed(_) => d2.target == d.target,
            _ => d.temp is Some && d2.target == d.target && d2.temp == Some(d.temp->0 + e.header)
                && d2.cursor == d.cursor,
        },
        Phase::Reading => match ev {
            Event::Failed(_) => d2.target == d.target,
            Event::Data(c) => {
                &&& d.cursor + c@.len() <= d.target.len()
                &&& c@ == d.target.subrange(d.cursor as int, d.cursor + c@.len() as int)
                &&& (c@.len() == 0 <==> d.cursor == d.target.len())
                &&& d2.target == d.target && d2.temp == d.temp && d2.cursor == d.cursor + c@.len()
            },
            Event::Done => false,
        },
        Phase::WritingChunk => match ev {
            Event::Failed(_) => d2.target == d.target,
            _ => d.temp is Some && d2.target == d.target && d2.temp == Some(d.temp->0 + e.chunk)
                && d2.cursor == d.cursor,
        },
        Phase::Flushing => match ev {
            Event::Failed(_) => d2.target == d.target,
            _ => d2 == d,
        },
        Phase::Renaming => match ev {
            Event::Failed(_) => d2 == d,
            _ => d.temp is Some && d2.target == d.temp->0 && d2.temp is None,
        },
        Phase::Cleaning => d2.target == d.target,
        Phase::Previewing => d2 == d,
        Phase::Finished => d2 == d,
    }
}

/// Whether `es` are the states of a run, `evs` the events it got and `ds`
/// the disk before and after each step.
pub open spec fn is_run(es: Seq<EngineView>, evs: Seq<Event>, ds: Seq<Disk>) -> bool {
    &&& es.len() == evs.len() + 1
    &&& ds.len() == es.len()
    &&& forall|i: int|
        0 <= i < evs.len() ==> next(#[trigger] es[i], evs[i], es[i + 1]) && disk_step(
            ds[i],
            es[i],
            evs[i],
            ds[i + 1],
        )
}

/// What holds at each point of a run that started on the disk `d0`.
spec fn run_inv(e: EngineView, d: Disk, d0: Disk) -> bool {
    let orig = d0.target;
    let h = e.header;
    if e.dry_run {
        (e.phase == Phase::Previewing || e.phase == Phase::Finished) && e.error is None && d == d0
    } else {
        &&& (e.phase != Phase::Finished && e.phase != Phase::Cleaning ==> e.error is None)
        &&& match e.phase {
            Phase::Opening => d.target == orig,
            Phase::Creating => d.target == orig && d.cursor == 0,
            Phase::WritingHeader => d.target == orig && d.cursor == 0 && d.temp == Some(
                Seq::<u8>::empty(),
            ),
            Phase::Reading => d.target == orig && d.cursor <= orig.len() && d.temp == Some(
                h + orig.subrange(0, d.cursor as int),
            ),
            Phase::WritingChunk => {
                &&& d.target == orig
                &&& e.chunk.len() <= d.cursor <= orig.len()
                &&& d.temp == Some(h + orig.subrange(0, d.cursor - e.chunk.len()))
                &&& e.chunk == orig.subrange(d.cursor - e.chunk.len(), d.cursor as int)
            },
            Phase::Flushing | Phase::Renaming => d.target == orig && d.temp == Some(h + orig),
            Phase::Cleaning => d.target == orig && e.error is Some,
            Phase::Previewing => false,
            Phase::Finished => match e.error {
                Some(_) => d.target == orig,
                None => d.target == h + orig,
            },
        }
    }
}

proof fn lemma_step_inv(e: EngineView, ev: Event, e2: EngineView, d: Disk, d2: Disk, d0: Disk)
    requires
        run_inv(e, d, d0),
        next(e, ev, e2),
        disk_step(d, e, ev, d2),
    ensures
        run_inv(e2, d2, d0),
{
    let orig = d0.target;
    let h = e.header;
    match e.phase {
        Phase::WritingHeader => {
            if !(ev is Failed) {
                assert(orig.subrange(0, 0) =~= Seq::<u8>::empty());
                assert(Seq::<u8>::empty() + h =~= h + orig.subrange(0, 0));
            }
        },
        Phase::Reading => {
            if let Event::Data(c) = ev {
                if c@.len() == 0 {
                    assert(orig.subrange(0, d.cursor as int) =~= orig);
                } else {
                    assert(e2.chunk.len() == c@.len());
                }
            }
        },
        Phase::WritingChunk => {
            if !(ev is Failed) {
                let k = d.cursor - e.chunk.len();
                assert(orig.subrange(0, k) + orig.subrange(k, d.cursor as int) =~= orig.subrange(
                    0,
                    d.cursor as int,
                ));
                assert(h + orig.subrange(0, k) + e.chunk =~= h + orig.subrange(
                    0,
                    d.cursor as int,
                ));
            }
        },
        _ => {},
    }
}

proof fn lemma_run_inv(es: Seq<EngineView>, evs: Seq<Event>, ds: Seq<Disk>, n: int)
    requires
        is_run(es, evs, ds),
        started(es[0]),
        0 <= n < es.len(),
    ensures
        run_inv(es[n], ds[n], ds[0]),
    decreases n,
{
    if n > 0 {
        lemma_run_inv(es, evs, ds, n - 1);
        lemma_step_inv(es[n - 1], evs[n - 1], es[n], ds[n - 1], ds[n], ds[0]);
    }
}

/// A run for the text `text` that ends in success leaves in the target
/// exactly that text, normalized to end with a line terminator, followed by
/// the target's former bytes, whatever those bytes were (none included).
pub proof fn law_content_preserved(
    text: Seq<char>,
    es: Seq<EngineView>,
    evs: Seq<Event>,
    ds: Seq<Disk>,
)
    requires
        is_run(es, evs, ds),
        started(es[0]),
        es[0].header == header_of(text),
        !es[0].dry_run,
        es.last().phase == Phase::Finished,
        es.last().error is None,
    ensures
        ds.last().target == encode_utf8(normalized(text)) + ds[0].target,
{
    lemma_run_inv(es, evs, ds, es.len() - 1);
    lemma_header_kept(es, evs, ds, es.len() - 1);
}

proof fn lemma_header_kept(es: Seq<EngineView>, evs: Seq<Event>, ds: Seq<Disk>, n: int)
    requires
        is_run(es, evs, ds),
        0 <= n < es.len(),
    ensures
        es[n].header == es[0].header,
        es[n].dry_run == es[0].dry_run,
    decreases n,
{
    if n > 0 {
        lemma_header_kept(es, evs, ds, n - 1);
    }
}

/// A run that ends in failure, wherever it failed, leaves the target's
/// bytes as they were before the run.
pub proof fn law_failure_leaves_target(es: Seq<EngineView>, evs: Seq<Event>, ds: Seq<Disk>)
    requires
        is_run(es, evs, ds),
        started(es[0]),
        es.last().phase == Phase::Finished,
        es.last().error is Some,
    ensures
        ds.last().target == ds[0].target,
{
    lemma_run_inv(es, evs, ds, es.len() - 1);
}

/// A dry run never asks for an operation that changes the disk, and every
/// disk of it is the one it started on.
pub proof fn law_dry_run_pure(es: Seq<EngineView>, evs: Seq<Event>, ds: Seq<Disk>)
    requires
        is_run(es, evs, ds),
        started(es[0]),
        es[0].dry_run,
    ensures
        forall|i: int| 0 <= i < ds.len() ==> #[trigger] ds[i] == ds[0],
        forall|i: int, a: Action| 0 <= i < es.len() && #[trigger] emits(es[i], a) ==> !mutates(a),
{
    assert forall|i: int| 0 <= i < ds.len() implies #[trigger] ds[i] == ds[0] by {
        lemma_run_inv(es, evs, ds, i);
        lemma_header_kept(es, evs, ds, i);
    }
    assert forall|i: int, a: Action| 0 <= i < es.len() && #[trigger] emits(es[i], a) implies !mutates(a) by {
        lemma_run_inv(es, evs, ds, i);
        lemma_header_kept(es, evs, ds, i);
    }
}

} // verus!
