use vstd::prelude::*;
use crate::disposition::{file_name_of_part, opt_bytes, part_name};
use crate::error::{ErrorKind, IoFailure, UploadError};
use crate::path::{is_within, CanonicalPath, ResolvedTarget};

verus! {

/// Largest number of bytes a single uploaded file may hold.
pub const MAX_FILE_BYTES: u64 = 0xffff_ffff_ffff_ffff;

/// What the body reader or the filesystem reports to an upload in progress.
#[derive(Debug)]
pub enum Event {
    /// A leaf part begins; it carries the raw value of its `Content-Disposition` header, if any.
    PartStart(Option<Vec<u8>>),
    /// Whether the destination file already exists.
    Exists(bool),
    /// The destination file was created (truncated if it existed).
    Created,
    /// Creating the destination file failed, with the system's message.
    CreateFailed(String),
    /// The next bytes of the current part.
    Chunk(Vec<u8>),
    /// Writing the last chunk failed, with the system's message.
    WriteFailed(String),
    /// The current part has no more bytes.
    PartEnd,
    /// Reading the body failed, with the reader's message.
    BodyFailed(String),
    /// The body has no more parts.
    BodyEnd,
}

pub enum EventModel {
    PartStart(Option<Seq<u8>>),
    Exists(bool),
    Created,
    CreateFailed,
    Chunk(Seq<u8>),
    WriteFailed,
    PartEnd,
    BodyFailed,
    BodyEnd,
}

impl View for Event {
    type V = EventModel;

    open spec fn view(&self) -> EventModel {
        match self {
            Event::PartStart(h) => EventModel::PartStart(opt_bytes(*h)),
            Event::Exists(b) => EventModel::Exists(*b),
            Event::Created => EventModel::Created,
            Event::CreateFailed(_) => EventModel::CreateFailed,
            Event::Chunk(d) => EventModel::Chunk(d@),
            Event::WriteFailed(_) => EventModel::WriteFailed,
            Event::PartEnd => EventModel::PartEnd,
            Event::BodyFailed(_) => EventModel::BodyFailed,
            Event::BodyEnd => EventModel::BodyEnd,
        }
    }
}

/// What the upload asks its driver to do next.
#[derive(Debug)]
pub enum Action {
    /// Find out whether this destination file exists, and report `Exists`.
    CheckExists(CanonicalPath),
    /// Create (or truncate) this destination file, and report `Created` or `CreateFailed`.
    Create(CanonicalPath),
    /// Append these bytes to the destination file, then read on.
    Write(Vec<u8>),
    /// Read on in the body.
    ReadBody,
    /// The request has failed; nothing more is to be read or written.
    Stop(UploadError),
    /// Every part has been stored.
    Done,
}

pub enum ActionModel {
    CheckExists(Seq<Seq<u8>>),
    Create(Seq<Seq<u8>>),
    Write(Seq<u8>),
    ReadBody,
    Stop(ErrorKind),
    Done,
    /// The event does not fit the upload's phase and is not taken.
    Ignore,
}

impl View for Action {
    type V = ActionModel;

    open spec fn view(&self) -> ActionModel {
        match self {
            Action::CheckExists(p) => ActionModel::CheckExists(p@),
            Action::Create(p) => ActionModel::Create(p@),
            Action::Write(d) => ActionModel::Write(d@),
            Action::ReadBody => ActionModel::ReadBody,
            Action::Stop(e) => ActionModel::Stop(e.kind()),
            Action::Done => ActionModel::Done,
        }
    }
}

pub enum PhaseModel {
    Between,
    Checking(Seq<Seq<u8>>),
    Creating(Seq<Seq<u8>>),
    Writing(Seq<Seq<u8>>),
    Failed(ErrorKind),
    Finished,
}

/// A file this upload has stored, with every byte written to it.
pub struct SavedModel {
    pub path: Seq<Seq<u8>>,
    pub data: Seq<u8>,
}

/// The abstract state of an upload.
pub struct SessionModel {
    pub dir: Seq<Seq<u8>>,
    pub overwrite: bool,
    pub phase: PhaseModel,
    /// The bytes written so far to the file of the current part.
    pub current: Seq<u8>,
    pub saved: Seq<SavedModel>,
}

pub open spec fn fail(s: SessionModel, k: ErrorKind) -> (SessionModel, ActionModel) {
    (SessionModel { phase: PhaseModel::Failed(k), ..s }, ActionModel::Stop(k))
}

pub open spec fn ignore(s: SessionModel) -> (SessionModel, ActionModel) {
    (s, ActionModel::Ignore)
}

/// One step of an upload: the state after an event, and the action it calls for.
pub open spec fn next(s: SessionModel, e: EventModel) -> (SessionModel, ActionModel) {
    match s.phase {
        PhaseModel::Between => match e {
            EventModel::PartStart(h) => match part_name(h) {
                Some(f) => (
                    SessionModel { phase: PhaseModel::Checking(s.dir.push(f)), ..s },
                    ActionModel::CheckExists(s.dir.push(f)),
                ),
                None => fail(s, ErrorKind::ParseError),
            },
            EventModel::BodyFailed => fail(s, ErrorKind::TransportError),
            EventModel::BodyEnd => (
                SessionModel { phase: PhaseModel::Finished, ..s },
                ActionModel::Done,
            ),
            _ => ignore(s),
        },
        PhaseModel::Checking(p) => match e {
            EventModel::Exists(b) => if b && !s.overwrite {
                fail(s, ErrorKind::AlreadyExists)
            } else {
                (SessionModel { phase: PhaseModel::Creating(p), ..s }, ActionModel::Create(p))
            },
            _ => ignore(s),
        },
        PhaseModel::Creating(p) => match e {
            EventModel::Created => (
                SessionModel { phase: PhaseModel::Writing(p), current: Seq::empty(), ..s },
                ActionModel::ReadBody,
            ),
            EventModel::CreateFailed => fail(s, ErrorKind::IoError),
            _ => ignore(s),
        },
        PhaseModel::Writing(p) => match e {
            EventModel::Chunk(d) => if s.current.len() + d.len() > MAX_FILE_BYTES {
                fail(s, ErrorKind::IoError)
            } else {
                (SessionModel { current: s.current + d, ..s }, ActionModel::Write(d))
            },
            EventModel::WriteFailed => fail(s, ErrorKind::IoError),
            EventModel::BodyFailed => fail(s, ErrorKind::TransportError),
            EventModel::PartEnd => (
                SessionModel {
                    phase: PhaseModel::Between,
                    current: Seq::empty(),
                    saved: s.saved.push(SavedModel { path: p, data: s.current }),
                    ..s
                },
                ActionModel::ReadBody,
            ),
            _ => ignore(s),
        },
        PhaseModel::Failed(_) => ignore(s),
        PhaseModel::Finished => ignore(s),
    }
}

/// The event is one the upload takes in its present phase: `next` answers
/// every other event with `Ignore` and leaves the state as it was.
pub open spec fn takes(s: SessionModel, e: EventModel) -> bool {
    match s.phase {
        PhaseModel::Between => e is PartStart || e is BodyFailed || e is BodyEnd,
        PhaseModel::Checking(_) => e is Exists,
        PhaseModel::Creating(_) => e is Created || e is CreateFailed,
        PhaseModel::Writing(_) => e is Chunk || e is WriteFailed || e is BodyFailed || e is PartEnd,
        _ => false,
    }
}

/// An event is taken exactly when its step asks for something.
pub proof fn lemma_takes_iff_acts(s: SessionModel, e: EventModel)
    ensures
        takes(s, e) <==> !(next(s, e).1 is Ignore),
{
}

proof fn lemma_child_within(root: Seq<Seq<u8>>, dir: Seq<Seq<u8>>, name: Seq<u8>)
    requires
        is_within(root, dir),
    ensures
        is_within(root, dir.push(name)),
{
    assert(dir.push(name).subrange(0, root.len() as int) =~= dir.subrange(0, root.len() as int));
}

/// A file stored by an upload: where, and how many bytes.
#[derive(Debug)]
pub struct SavedFile {
    pub path: CanonicalPath,
    pub size: u64,
}

#[derive(Debug)]
enum Phase {
    Between,
    Checking(CanonicalPath),
    Creating(CanonicalPath),
    Writing(CanonicalPath, u64),
    Failed(ErrorKind),
    Finished,
}

/// One upload request in progress, from its resolved target to its outcome.
pub struct Session {
    target: ResolvedTarget,
    overwrite: bool,
    phase: Phase,
    saved: Vec<SavedFile>,
    model: Ghost<SessionModel>,
}

impl View for Session {
    type V = SessionModel;

    closed spec fn view(&self) -> SessionModel {
        self.model@
    }
}

impl Session {
    pub closed spec fn wf(&self) -> bool {
        let m = self.model@;
        &&& m.dir == self.target.dir_view()
        &&& is_within(self.target.root_view(), m.dir)
        &&& m.overwrite == self.overwrite
        &&& match m.phase {
            PhaseModel::Checking(p) => is_within(self.target.root_view(), p),
            PhaseModel::Creating(p) => is_within(self.target.root_view(), p),
            PhaseModel::Writing(p) => is_within(self.target.root_view(), p),
            _ => true,
        }
        &&& match self.phase {
            Phase::Between => m.phase is Between,
            Phase::Checking(p) => m.phase == PhaseModel::Checking(p@),
            Phase::Creating(p) => m.phase == PhaseModel::Creating(p@),
            Phase::Writing(p, n) => m.phase == PhaseModel::Writing(p@) && n == m.current.len(),
            Phase::Failed(k) => m.phase == PhaseModel::Failed(k),
            Phase::Finished => m.phase is Finished,
        }
        &&& self.saved@.len() == m.saved.len()
        &&& forall|i: int|
            0 <= i < m.saved.len() ==> #[trigger] self.saved@[i].path@ == m.saved[i].path
                && self.saved@[i].size == m.saved[i].data.len()
    }

    /// The served root the upload's directory lies in.
    pub closed spec fn root_view(&self) -> Seq<Seq<u8>> {
        self.target.root_view()
    }

    /// Starts an upload into a resolved directory, with the given overwrite policy.
    pub fn new(target: ResolvedTarget, overwrite: bool) -> (r: Session)
        ensures
            r.wf(),
            r@ == (SessionModel {
                dir: target.dir_view(),
                overwrite,
                phase: PhaseModel::Between,
                current: Seq::empty(),
                saved: Seq::empty(),
            }),
            r.root_view() == target.root_view(),
    {
        let ghost m = SessionModel {
            dir: target.dir_view(),
            overwrite,
            phase: PhaseModel::Between,
            current: Seq::empty(),
            saved: Seq::empty(),
        };
        let _ = target.dir();
        Session { target, overwrite, phase: Phase::Between, saved: Vec::new(), model: Ghost(m) }
    }

    /// The upload directory, which lies at or below the served root.
    pub fn dir(&self) -> (r: &CanonicalPath)
        requires
            self.wf(),
        ensures
            r@ == self@.dir,
            is_within(self.root_view(), r@),
    {
        self.target.dir()
    }

    /// The files stored so far, in the order of their parts.
    pub fn saved(&self) -> (r: &Vec<SavedFile>)
        requires
            self.wf(),
        ensures
            r@.len() == self@.saved.len(),
            forall|i: int|
                0 <= i < r@.len() ==> #[trigger] r@[i].path@ == self@.saved[i].path && r@[i].size
                    == self@.saved[i].data.len(),
    {
        &self.saved
    }

    /// Whether the upload takes this event in its present phase.
    pub fn takes(&self, e: &Event) -> (r: bool)
        requires
            self.wf(),
        ensures
            r == takes(self@, e@),
    {
        match (&self.phase, e) {
            (Phase::Between, Event::PartStart(_)) => true,
            (Phase::Between, Event::BodyFailed(_)) => true,
            (Phase::Between, Event::BodyEnd) => true,
            (Phase::Checking(_), Event::Exists(_)) => true,
            (Phase::Creating(_), Event::Created) => true,
            (Phase::Creating(_), Event::CreateFailed(_)) => true,
            (Phase::Writing(_, _), Event::Chunk(_)) => true,
            (Phase::Writing(_, _), Event::WriteFailed(_)) => true,
            (Phase::Writing(_, _), Event::BodyFailed(_)) => true,
            (Phase::Writing(_, _), Event::PartEnd) => true,
            _ => false,
        }
    }

    /// Takes one event and says what to do next. Parts are stored strictly in
    /// the order they arrive; the first failure ends the upload.
    pub fn step(&mut self, e: Event) -> (r: Action)
        requires
            old(self).wf(),
            takes(old(self)@, e@),
        ensures
            final(self).wf(),
            final(self)@ == next(old(self)@, e@).0,
            r@ == next(old(self)@, e@).1,
            final(self).root_view() == old(self).root_view(),
            r@ is CheckExists ==> is_within(old(self).root_view(), r@->CheckExists_0),
            r@ is Create ==> is_within(old(self).root_view(), r@->Create_0),
    {
        let ghost res = next(self@, e@);
        let mut phase = Phase::Finished;
        std::mem::swap(&mut phase, &mut self.phase);
        let r = match phase {
            Phase::Between => match e {
                Event::PartStart(h) => match file_name_of_part(&h) {
                    Ok(f) => {
                        let dest = self.target.dir().child(f);
                        proof {
                            lemma_child_within(self.target.root_view(), self.target.dir_view(), f@);
                        }
                        let shown = dest.duplicate();
                        self.phase = Phase::Checking(dest);
                        Action::CheckExists(shown)
                    },
                    Err(err) => {
                        self.phase = Phase::Failed(ErrorKind::ParseError);
                        Action::Stop(err)
                    },
                },
                Event::BodyFailed(msg) => {
                    self.phase = Phase::Failed(ErrorKind::TransportError);
                    Action::Stop(UploadError::TransportError(msg))
                },
                _ => {
                    self.phase = Phase::Finished;
                    Action::Done
                },
            },
            Phase::Checking(p) => {
                let exists = match e {
                    Event::Exists(b) => b,
                    _ => false,
                };
                if exists && !self.overwrite {
                    self.phase = Phase::Failed(ErrorKind::AlreadyExists);
                    Action::Stop(UploadError::AlreadyExists)
                } else {
                    let shown = p.duplicate();
                    self.phase = Phase::Creating(p);
                    Action::Create(shown)
                }
            },
            Phase::Creating(p) => match e {
                Event::CreateFailed(msg) => {
                    self.phase = Phase::Failed(ErrorKind::IoError);
                    Action::Stop(UploadError::IoError(IoFailure { path: p.components, detail: msg }))
                },
                _ => {
                    self.phase = Phase::Writing(p, 0);
                    Action::ReadBody
                },
            },
            Phase::Writing(p, n) => match e {
                Event::Chunk(d) => {
                    if n > MAX_FILE_BYTES - d.len() as u64 {
                        self.phase = Phase::Failed(ErrorKind::IoError);
                        let detail = "file exceeds the largest supported size".to_string();
                        Action::Stop(UploadError::IoError(IoFailure { path: p.components, detail }))
                    } else {
                        self.phase = Phase::Writing(p, n + d.len() as u64);
                        Action::Write(d)
                    }
                },
                Event::WriteFailed(msg) => {
                    self.phase = Phase::Failed(ErrorKind::IoError);
                    Action::Stop(UploadError::IoError(IoFailure { path: p.components, detail: msg }))
                },
                Event::BodyFailed(msg) => {
                    self.phase = Phase::Failed(ErrorKind::TransportError);
                    Action::Stop(UploadError::TransportError(msg))
                },
                _ => {
                    self.saved.push(SavedFile { path: p, size: n });
                    self.phase = Phase::Between;
                    Action::ReadBody
                },
            },
            Phase::Failed(k) => {
                self.phase = Phase::Failed(k);
                Action::Done
            },
            Phase::Finished => Action::Done,
        };
        self.model = Ghost(res.0);
        proof {
            let m = old(self)@;
            assert forall|i: int| 0 <= i < res.0.saved.len() implies #[trigger] self.saved@[i].path@
                == res.0.saved[i].path && self.saved@[i].size == res.0.saved[i].data.len() by {
                if i < m.saved.len() {
                    assert(self.saved@[i] == old(self).saved@[i]);
                    assert(res.0.saved[i] == m.saved[i]);
                } else {
                    assert(m.phase is Writing && e@ is PartEnd);
                    assert(old(self).phase is Writing);
                    assert(res.0.saved[i] == (SavedModel { path: m.phase->Writing_0, data: m.current }));
                }
            }
            assert(self.model@.dir == self.target.dir_view());
            assert(self.model@.overwrite == self.overwrite);
            assert(self.saved@.len() == self.model@.saved.len());
            assert(is_within(self.target.root_view(), self.model@.dir));
            assert(match self.model@.phase {
                PhaseModel::Checking(p) => is_within(self.target.root_view(), p),
                PhaseModel::Creating(p) => is_within(self.target.root_view(), p),
                PhaseModel::Writing(p) => is_within(self.target.root_view(), p),
                _ => true,
            });
            assert(match self.phase {
                Phase::Between => self.model@.phase is Between,
                Phase::Checking(p) => self.model@.phase == PhaseModel::Checking(p@),
                Phase::Creating(p) => self.model@.phase == PhaseModel::Creating(p@),
                Phase::Writing(p, n) => self.model@.phase == PhaseModel::Writing(p@) && n == self.model@.current.len(),
                Phase::Failed(k) => self.model@.phase == PhaseModel::Failed(k),
                Phase::Finished => self.model@.phase is Finished,
            });
        }
        r
    }
}

} // verus!
