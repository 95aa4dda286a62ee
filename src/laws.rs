use vstd::prelude::*;
use crate::disposition::part_name;
use crate::error::ErrorKind;
use crate::path::{is_within, resolution, DirStatus};
use crate::session::{
    next, ActionModel, EventModel, PhaseModel, SavedModel, SessionModel, MAX_FILE_BYTES,
};

verus! {

/// The state an upload reaches through a sequence of events, and the actions
/// it asks for along the way.
pub open spec fn run(s: SessionModel, evs: Seq<EventModel>) -> (SessionModel, Seq<ActionModel>)
    decreases evs.len(),
{
    if evs.len() == 0 {
        (s, Seq::empty())
    } else {
        let first = next(s, evs[0]);
        let rest = run(first.0, evs.drop_first());
        (rest.0, seq![first.1] + rest.1)
    }
}

/// The bytes of a part, chunk after chunk.
pub open spec fn concat(chunks: Seq<Seq<u8>>) -> Seq<u8>
    decreases chunks.len(),
{
    if chunks.len() == 0 {
        Seq::empty()
    } else {
        concat(chunks.drop_last()) + chunks.last()
    }
}

pub open spec fn chunk_events(chunks: Seq<Seq<u8>>) -> Seq<EventModel> {
    chunks.map_values(|c: Seq<u8>| EventModel::Chunk(c))
}

pub open spec fn write_actions(chunks: Seq<Seq<u8>>) -> Seq<ActionModel> {
    chunks.map_values(|c: Seq<u8>| ActionModel::Write(c))
}

/// One leaf part as the driver reports it, when nothing fails: its header, what
/// the existence check says, its chunks, and its end.
pub struct PartModel {
    pub header: Seq<u8>,
    pub exists: bool,
    pub chunks: Seq<Seq<u8>>,
}

pub open spec fn part_events(p: PartModel) -> Seq<EventModel> {
    seq![EventModel::PartStart(Some(p.header)), EventModel::Exists(p.exists), EventModel::Created]
        + chunk_events(p.chunks) + seq![EventModel::PartEnd]
}

pub open spec fn body_events(parts: Seq<PartModel>) -> Seq<EventModel>
    decreases parts.len(),
{
    if parts.len() == 0 {
        Seq::empty()
    } else {
        body_events(parts.drop_last()) + part_events(parts.last())
    }
}

/// The part will be stored: it is named, it may be written, and it fits.
pub open spec fn storable(overwrite: bool, p: PartModel) -> bool {
    &&& part_name(Some(p.header)) is Some
    &&& (p.exists ==> overwrite)
    &&& concat(p.chunks).len() <= MAX_FILE_BYTES
}

pub open spec fn destination(dir: Seq<Seq<u8>>, p: PartModel) -> Seq<Seq<u8>> {
    dir.push(part_name(Some(p.header))->Some_0)
}

pub open spec fn saved_of(dir: Seq<Seq<u8>>, parts: Seq<PartModel>) -> Seq<SavedModel> {
    parts.map_values(|p: PartModel| SavedModel { path: destination(dir, p), data: concat(p.chunks) })
}

pub open spec fn ignored(n: nat) -> Seq<ActionModel> {
    Seq::new(n, |i: int| ActionModel::Ignore)
}

/// Running a single event is one step.
pub proof fn lemma_run_one(s: SessionModel, e: EventModel)
    ensures
        run(s, seq![e]).0 == next(s, e).0,
        run(s, seq![e]).1 == seq![next(s, e).1],
{
    let t = next(s, e).0;
    assert(seq![e].drop_first() =~= Seq::<EventModel>::empty());
    assert(run(t, Seq::<EventModel>::empty()) == (t, Seq::<ActionModel>::empty()));
    assert(seq![next(s, e).1] + Seq::<ActionModel>::empty() =~= seq![next(s, e).1]);
}

/// Running two sequences of events one after the other is running their concatenation.
pub proof fn lemma_run_append(s: SessionModel, a: Seq<EventModel>, b: Seq<EventModel>)
    ensures
        run(s, a + b).0 == run(run(s, a).0, b).0,
        run(s, a + b).1 == run(s, a).1 + run(run(s, a).0, b).1,
    decreases a.len(),
{
    if a.len() == 0 {
        assert(a + b =~= b);
        assert(run(s, a).1 + run(s, b).1 =~= run(s, b).1);
    } else {
        let first = next(s, a[0]);
        assert((a + b).drop_first() =~= a.drop_first() + b);
        lemma_run_append(first.0, a.drop_first(), b);
        assert(run(s, a + b).1 =~= run(s, a).1 + run(run(s, a).0, b).1);
    }
}

/// Once an upload has failed, it takes no further event and asks for nothing.
pub proof fn lemma_failed_stays_failed(s: SessionModel, evs: Seq<EventModel>)
    requires
        s.phase is Failed,
    ensures
        run(s, evs).0 == s,
        run(s, evs).1 == ignored(evs.len()),
    decreases evs.len(),
{
    if evs.len() > 0 {
        lemma_failed_stays_failed(s, evs.drop_first());
    }
    assert(run(s, evs).1 =~= ignored(evs.len()));
}

/// Each chunk of a part is handed on for writing, unchanged and in order, and
/// the file receives exactly their concatenation.
pub proof fn lemma_chunks_written(s: SessionModel, chunks: Seq<Seq<u8>>)
    requires
        s.phase is Writing,
        s.current.len() + concat(chunks).len() <= MAX_FILE_BYTES,
    ensures
        run(s, chunk_events(chunks)).0 == (SessionModel { current: s.current + concat(chunks), ..s }),
        run(s, chunk_events(chunks)).1 == write_actions(chunks),
    decreases chunks.len(),
{
    if chunks.len() == 0 {
        assert(s.current + concat(chunks) =~= s.current);
        assert(run(s, chunk_events(chunks)).1 =~= write_actions(chunks));
    } else {
        let init = chunks.drop_last();
        let c = chunks.last();
        assert(chunk_events(chunks) =~= chunk_events(init) + seq![EventModel::Chunk(c)]);
        lemma_run_append(s, chunk_events(init), seq![EventModel::Chunk(c)]);
        lemma_chunks_written(s, init);
        let mid = SessionModel { current: s.current + concat(init), ..s };
        lemma_run_one(mid, EventModel::Chunk(c));
        assert(s.current + concat(init) + c =~= s.current + concat(chunks));
        assert(write_actions(chunks) =~= write_actions(init) + seq![ActionModel::Write(c)]);
    }
}

/// A part that can be stored is stored whole: its destination is checked,
/// created, written chunk by chunk, and recorded with every byte sent.
pub proof fn lemma_part_stored(s: SessionModel, p: PartModel)
    requires
        s.phase is Between,
        storable(s.overwrite, p),
    ensures
        run(s, part_events(p)).0 == (SessionModel {
            phase: PhaseModel::Between,
            current: Seq::empty(),
            saved: s.saved.push(SavedModel { path: destination(s.dir, p), data: concat(p.chunks) }),
            ..s
        }),
        run(s, part_events(p)).1 == seq![
            ActionModel::CheckExists(destination(s.dir, p)),
            ActionModel::Create(destination(s.dir, p)),
            ActionModel::ReadBody,
        ] + write_actions(p.chunks) + seq![ActionModel::ReadBody],
{
    let dest = destination(s.dir, p);
    let e0 = EventModel::PartStart(Some(p.header));
    let e1 = EventModel::Exists(p.exists);
    let e2 = EventModel::Created;
    let head = seq![e0, e1, e2];
    let s1 = next(s, e0).0;
    let s2 = next(s1, e1).0;
    let s3 = next(s2, e2).0;
    assert(s3 == SessionModel { phase: PhaseModel::Writing(dest), current: Seq::empty(), ..s });
    assert(head =~= seq![e0] + (seq![e1] + seq![e2]));
    lemma_run_append(s, seq![e0], seq![e1] + seq![e2]);
    lemma_run_one(s, e0);
    lemma_run_append(s1, seq![e1], seq![e2]);
    lemma_run_one(s1, e1);
    lemma_run_one(s2, e2);
    assert(run(s, head).0 == s3);
    assert(run(s, head).1 =~= seq![
        ActionModel::CheckExists(dest),
        ActionModel::Create(dest),
        ActionModel::ReadBody,
    ]);
    lemma_run_append(s, head, chunk_events(p.chunks));
    lemma_chunks_written(s3, p.chunks);
    assert(Seq::<u8>::empty() + concat(p.chunks) =~= concat(p.chunks));
    assert(part_events(p) =~= (head + chunk_events(p.chunks)) + seq![EventModel::PartEnd]);
    lemma_run_append(s, head + chunk_events(p.chunks), seq![EventModel::PartEnd]);
    let s4 = run(s, head + chunk_events(p.chunks)).0;
    lemma_run_one(s4, EventModel::PartEnd);
}

/// A destination outside the served root, or one that cannot be resolved, is
/// refused as an invalid path whatever its metadata says; since an upload can
/// only start from a resolved target, nothing is then written.
pub proof fn lemma_outside_root_refused(
    root: Seq<Seq<u8>>,
    candidate: Option<Seq<Seq<u8>>>,
    status: Option<DirStatus>,
)
    requires
        !(candidate is Some && is_within(root, candidate->Some_0)),
    ensures
        resolution(Some(root), candidate, status) == Err::<Seq<Seq<u8>>, ErrorKind>(
            ErrorKind::InvalidPath,
        ),
{
}

/// With overwriting off, a part whose destination already exists fails the
/// upload with `AlreadyExists` before the file is opened: the upload asks for
/// no creation and no write, then or later.
pub proof fn lemma_existing_file_kept(
    s: SessionModel,
    header: Seq<u8>,
    rest: Seq<EventModel>,
)
    requires
        s.phase is Between,
        !s.overwrite,
        part_name(Some(header)) is Some,
    ensures
        run(s, seq![EventModel::PartStart(Some(header)), EventModel::Exists(true)] + rest).0
            == (SessionModel { phase: PhaseModel::Failed(ErrorKind::AlreadyExists), ..s }),
        run(s, seq![EventModel::PartStart(Some(header)), EventModel::Exists(true)] + rest).1
            == seq![
            ActionModel::CheckExists(s.dir.push(part_name(Some(header))->Some_0)),
            ActionModel::Stop(ErrorKind::AlreadyExists),
        ] + ignored(rest.len()),
{
    let e0 = EventModel::PartStart(Some(header));
    let e1 = EventModel::Exists(true);
    let head = seq![e0, e1];
    lemma_run_append(s, head, rest);
    assert(head =~= seq![e0] + seq![e1]);
    lemma_run_append(s, seq![e0], seq![e1]);
    lemma_run_one(s, e0);
    let s1 = next(s, e0).0;
    lemma_run_one(s1, e1);
    let s2 = run(s, head).0;
    assert(s2 == SessionModel { phase: PhaseModel::Failed(ErrorKind::AlreadyExists), ..s });
    lemma_failed_stays_failed(s2, rest);
    assert(run(s, head).1 =~= seq![
        ActionModel::CheckExists(s.dir.push(part_name(Some(header))->Some_0)),
        ActionModel::Stop(ErrorKind::AlreadyExists),
    ]);
}

/// With overwriting on, a part is stored whether or not its destination
/// exists: the file is created afresh and receives exactly the part's bytes.
pub proof fn lemma_overwrite_replaces(s: SessionModel, p: PartModel)
    requires
        s.phase is Between,
        s.overwrite,
        part_name(Some(p.header)) is Some,
        concat(p.chunks).len() <= MAX_FILE_BYTES,
    ensures
        run(s, part_events(p)).0.saved.last() == (SavedModel {
            path: destination(s.dir, p),
            data: concat(p.chunks),
        }),
        run(s, part_events(p)).1 == seq![
            ActionModel::CheckExists(destination(s.dir, p)),
            ActionModel::Create(destination(s.dir, p)),
            ActionModel::ReadBody,
        ] + write_actions(p.chunks) + seq![ActionModel::ReadBody],
{
    lemma_part_stored(s, p);
}

/// A body of storable parts stores one file per part, in order, each in the
/// upload directory under its own name and holding exactly the part's bytes;
/// the end of the body then completes the upload.
pub proof fn lemma_every_part_stored(s: SessionModel, parts: Seq<PartModel>)
    requires
        s.phase is Between,
        forall|i: int| 0 <= i < parts.len() ==> storable(s.overwrite, #[trigger] parts[i]),
    ensures
        run(s, body_events(parts)).0.phase is Between,
        run(s, body_events(parts)).0.dir == s.dir,
        run(s, body_events(parts)).0.overwrite == s.overwrite,
        run(s, body_events(parts)).0.saved == s.saved + saved_of(s.dir, parts),
        run(s, body_events(parts) + seq![EventModel::BodyEnd]).0.phase is Finished,
        run(s, body_events(parts) + seq![EventModel::BodyEnd]).0.saved == s.saved + saved_of(
            s.dir,
            parts,
        ),
        run(s, body_events(parts) + seq![EventModel::BodyEnd]).1.last() == ActionModel::Done,
    decreases parts.len(),
{
    if parts.len() == 0 {
        assert(s.saved + saved_of(s.dir, parts) =~= s.saved);
    } else {
        let init = parts.drop_last();
        let p = parts.last();
        assert forall|i: int| 0 <= i < init.len() implies storable(s.overwrite, #[trigger] init[i]) by {
            assert(init[i] == parts[i]);
        }
        lemma_every_part_stored(s, init);
        lemma_run_append(s, body_events(init), part_events(p));
        let mid = run(s, body_events(init)).0;
        assert(storable(s.overwrite, parts[parts.len() - 1]));
        lemma_part_stored(mid, p);
        assert(saved_of(s.dir, parts) =~= saved_of(s.dir, init).push(
            SavedModel { path: destination(s.dir, p), data: concat(p.chunks) },
        ));
        assert(s.saved + saved_of(s.dir, parts) =~= (s.saved + saved_of(s.dir, init)).push(
            SavedModel { path: destination(s.dir, p), data: concat(p.chunks) },
        ));
    }
    let done = run(s, body_events(parts)).0;
    lemma_run_append(s, body_events(parts), seq![EventModel::BodyEnd]);
    lemma_run_one(done, EventModel::BodyEnd);
}

/// When the second part has no usable file name, the first part's file stays
/// stored, the upload fails with `ParseError`, and no later event is taken.
pub proof fn lemma_unnamed_second_part(
    s: SessionModel,
    first: PartModel,
    second: Option<Seq<u8>>,
    rest: Seq<EventModel>,
)
    requires
        s.phase is Between,
        storable(s.overwrite, first),
        part_name(second) is None,
    ensures
        run(s, part_events(first) + seq![EventModel::PartStart(second)] + rest).0.phase
            == PhaseModel::Failed(ErrorKind::ParseError),
        run(s, part_events(first) + seq![EventModel::PartStart(second)] + rest).0.saved
            == s.saved.push(SavedModel { path: destination(s.dir, first), data: concat(first.chunks) }),
        run(s, part_events(first) + seq![EventModel::PartStart(second)] + rest).1 == run(
            s,
            part_events(first),
        ).1 + seq![ActionModel::Stop(ErrorKind::ParseError)] + ignored(rest.len()),
{
    let a = part_events(first);
    let b = seq![EventModel::PartStart(second)];
    lemma_part_stored(s, first);
    lemma_run_append(s, a + b, rest);
    lemma_run_append(s, a, b);
    let s1 = run(s, a).0;
    lemma_run_one(s1, EventModel::PartStart(second));
    lemma_failed_stays_failed(run(s, a + b).0, rest);
}

} // verus!
