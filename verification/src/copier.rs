//! Copying a directory tree, depth first and failing on the first error.
//! The target directory is created when it is missing; each entry of the
//! source is copied when it is a file and descended into when it is a
//! directory. Nothing is rolled back: after an error the target holds a
//! part of the tree.

use crate::host::{
    Entry, EntryKind, EntryModel, Progress, ProgressModel, Reply, ReplyModel, Request,
    RequestModel,
};
use crate::paths::{join, joined};
use vstd::prelude::*;

verus! {

/// A directory being copied: where it is, where it goes, its entries and
/// how many of them have been taken up.
#[derive(Debug, PartialEq, Eq)]
pub struct Frame {
    pub src: String,
    pub dst: String,
    pub entries: Vec<Entry>,
    pub next: usize,
}

/// The mathematical content of a [`Frame`].
pub struct FrameModel {
    pub src: Seq<char>,
    pub dst: Seq<char>,
    pub entries: Seq<EntryModel>,
    pub next: int,
}

impl View for Frame {
    type V = FrameModel;

    open spec fn view(&self) -> FrameModel {
        FrameModel {
            src: self.src@,
            dst: self.dst@,
            entries: self.entries.deep_view(),
            next: self.next as int,
        }
    }
}

impl DeepView for Frame {
    type V = FrameModel;

    open spec fn deep_view(&self) -> FrameModel {
        self@
    }
}

/// What the copy is waiting for, in its innermost directory.
#[derive(Clone, Copy, Debug, PartialEq, Eq, Structural)]
pub enum CopyStage {
    /// The inspection of the target directory.
    CheckTarget,
    /// The target directory to be created.
    CreateTarget,
    /// The listing of the source directory.
    List,
    /// A file to be copied.
    File,
}

/// Why a copy failed.
#[derive(Debug, PartialEq, Eq)]
pub enum CopyError {
    /// The target directory could not be created.
    CreateDir { path: String, detail: String },
    /// The source directory could not be listed.
    List { path: String, detail: String },
    /// An entry of the source directory could not be read.
    Entry { dir: String },
    /// A file could not be copied.
    File { detail: String },
    /// The host's reply does not answer the request.
    Unexpected,
}

/// The mathematical content of a [`CopyError`].
pub enum CopyErrorModel {
    CreateDir { path: Seq<char>, detail: Seq<char> },
    List { path: Seq<char>, detail: Seq<char> },
    Entry { dir: Seq<char> },
    File { detail: Seq<char> },
    Unexpected,
}

impl View for CopyError {
    type V = CopyErrorModel;

    open spec fn view(&self) -> CopyErrorModel {
        match self {
            CopyError::CreateDir { path, detail } => CopyErrorModel::CreateDir {
                path: path@,
                detail: detail@,
            },
            CopyError::List { path, detail } => CopyErrorModel::List {
                path: path@,
                detail: detail@,
            },
            CopyError::Entry { dir } => CopyErrorModel::Entry { dir: dir@ },
            CopyError::File { detail } => CopyErrorModel::File { detail: detail@ },
            CopyError::Unexpected => CopyErrorModel::Unexpected,
        }
    }
}

/// How a copy ended.
#[derive(Debug, PartialEq, Eq)]
pub enum CopyEnd {
    Done,
    Error(CopyError),
}

/// The mathematical content of a [`CopyEnd`].
pub enum CopyEndModel {
    Done,
    Error(CopyErrorModel),
}

impl View for CopyEnd {
    type V = CopyEndModel;

    open spec fn view(&self) -> CopyEndModel {
        match self {
            CopyEnd::Done => CopyEndModel::Done,
            CopyEnd::Error(error) => CopyEndModel::Error(error@),
        }
    }
}

/// A copy under way: the directories being copied, outermost first.
#[derive(Debug, PartialEq, Eq)]
pub struct Copier {
    pub stack: Vec<Frame>,
    pub stage: CopyStage,
}

/// The mathematical content of a [`Copier`].
pub struct CopierModel {
    pub stack: Seq<FrameModel>,
    pub stage: CopyStage,
}

impl View for Copier {
    type V = CopierModel;

    open spec fn view(&self) -> CopierModel {
        CopierModel { stack: self.stack.deep_view(), stage: self.stage }
    }
}

/// The end of a copy on an error.
pub open spec fn copy_error(error: CopyErrorModel) -> ProgressModel<CopierModel, CopyEndModel> {
    ProgressModel::Finished(CopyEndModel::Error(error))
}

/// A directory that is taken up: nothing is known of its entries yet.
pub open spec fn fresh_frame(src: Seq<char>, dst: Seq<char>) -> FrameModel {
    FrameModel { src, dst, entries: Seq::empty(), next: 0 }
}

/// The first state of a copy and its first request.
pub open spec fn copy_start(src: Seq<char>, dst: Seq<char>) -> (CopierModel, RequestModel) {
    (
        CopierModel { stack: seq![fresh_frame(src, dst)], stage: CopyStage::CheckTarget },
        RequestModel::Inspect(dst),
    )
}

/// The copy goes on with the next entry of the innermost directory, and
/// when that has none left, with the directory around it. With no
/// directory left the copy is done.
pub open spec fn copy_advance(stack: Seq<FrameModel>) -> ProgressModel<CopierModel, CopyEndModel>
    decreases stack.len(),
{
    if stack.len() == 0 {
        ProgressModel::Finished(CopyEndModel::Done)
    } else {
        let frame = stack.last();
        if 0 <= frame.next < frame.entries.len() {
            let entry = frame.entries[frame.next];
            let taken = stack.drop_last().push(FrameModel { next: frame.next + 1, ..frame });
            let from = joined(frame.src, entry.name);
            let to = joined(frame.dst, entry.name);
            match entry.kind {
                EntryKind::Unreadable => copy_error(CopyErrorModel::Entry { dir: frame.src }),
                EntryKind::File => ProgressModel::Next(
                    CopierModel { stack: taken, stage: CopyStage::File },
                    RequestModel::CopyFile { from, to },
                ),
                EntryKind::Directory => ProgressModel::Next(
                    CopierModel {
                        stack: taken.push(fresh_frame(from, to)),
                        stage: CopyStage::CheckTarget,
                    },
                    RequestModel::Inspect(to),
                ),
            }
        } else {
            copy_advance(stack.drop_last())
        }
    }
}

/// One step of a copy.
pub open spec fn copy_step(s: CopierModel, reply: ReplyModel) -> ProgressModel<
    CopierModel,
    CopyEndModel,
> {
    if s.stack.len() == 0 {
        copy_error(CopyErrorModel::Unexpected)
    } else {
        let frame = s.stack.last();
        match s.stage {
            CopyStage::CheckTarget => match reply {
                ReplyModel::Inspected(seen) => if seen.exists {
                    ProgressModel::Next(
                        CopierModel { stage: CopyStage::List, ..s },
                        RequestModel::ListDir(frame.src),
                    )
                } else {
                    ProgressModel::Next(
                        CopierModel { stage: CopyStage::CreateTarget, ..s },
                        RequestModel::CreateDirs(frame.dst),
                    )
                },
                _ => copy_error(CopyErrorModel::Unexpected),
            },
            CopyStage::CreateTarget => match reply {
                ReplyModel::Done => ProgressModel::Next(
                    CopierModel { stage: CopyStage::List, ..s },
                    RequestModel::ListDir(frame.src),
                ),
                ReplyModel::Failed { detail } => copy_error(
                    CopyErrorModel::CreateDir { path: frame.dst, detail },
                ),
                _ => copy_error(CopyErrorModel::Unexpected),
            },
            CopyStage::List => match reply {
                ReplyModel::Listed(entries) => copy_advance(
                    s.stack.drop_last().push(FrameModel { entries, next: 0, ..frame }),
                ),
                ReplyModel::Failed { detail } => copy_error(
                    CopyErrorModel::List { path: frame.src, detail },
                ),
                _ => copy_error(CopyErrorModel::Unexpected),
            },
            CopyStage::File => match reply {
                ReplyModel::Done => copy_advance(s.stack),
                ReplyModel::Failed { detail } => copy_error(CopyErrorModel::File { detail }),
                _ => copy_error(CopyErrorModel::Unexpected),
            },
        }
    }
}

/// The path reached from `base` by going down through `names`.
pub open spec fn descend(base: Seq<char>, names: Seq<Seq<char>>) -> Seq<char>
    decreases names.len(),
{
    if names.len() == 0 {
        base
    } else {
        joined(descend(base, names.drop_last()), names.last())
    }
}

/// Whether two paths lie at the same place below `src` and below `dst`:
/// some sequence of names leads from `src` to the one and from `dst` to
/// the other.
pub open spec fn mirror(from: Seq<char>, to: Seq<char>, src: Seq<char>, dst: Seq<char>) -> bool {
    exists|names: Seq<Seq<char>>|
        from == #[trigger] descend(src, names) && to == descend(dst, names)
}

/// Whether every directory of a copy under way lies at the same place
/// below `src` as its target does below `dst`.
pub open spec fn mirrored(stack: Seq<FrameModel>, src: Seq<char>, dst: Seq<char>) -> bool {
    forall|i: int| 0 <= i < stack.len() ==> mirror(#[trigger] stack[i].src, stack[i].dst, src, dst)
}

/// Whether a request keeps to the mirror: a file is copied, a directory is
/// created and inspected, only at the place below `dst` that the source has
/// below `src`.
pub open spec fn request_mirrors(
    request: RequestModel,
    stack: Seq<FrameModel>,
    src: Seq<char>,
    dst: Seq<char>,
) -> bool {
    match request {
        RequestModel::CopyFile { from, to } => mirror(from, to, src, dst),
        RequestModel::Inspect(path) => stack.len() > 0 && path == stack.last().dst,
        RequestModel::CreateDirs(path) => stack.len() > 0 && path == stack.last().dst,
        RequestModel::ListDir(path) => stack.len() > 0 && path == stack.last().src,
        _ => false,
    }
}

proof fn lemma_mirror_child(
    from: Seq<char>,
    to: Seq<char>,
    name: Seq<char>,
    src: Seq<char>,
    dst: Seq<char>,
)
    requires
        mirror(from, to, src, dst),
    ensures
        mirror(joined(from, name), joined(to, name), src, dst),
{
    let names = choose|names: Seq<Seq<char>>|
        from == #[trigger] descend(src, names) && to == descend(dst, names);
    let longer = names.push(name);
    assert(longer.drop_last() =~= names);
    assert(joined(from, name) == descend(src, longer));
    assert(joined(to, name) == descend(dst, longer));
}

proof fn lemma_advance_mirrors(stack: Seq<FrameModel>, src: Seq<char>, dst: Seq<char>)
    requires
        mirrored(stack, src, dst),
    ensures
        copy_advance(stack) matches ProgressModel::Next(t, request) ==> mirrored(
            t.stack,
            src,
            dst,
        ) && request_mirrors(request, t.stack, src, dst),
    decreases stack.len(),
{
    if stack.len() > 0 {
        let frame = stack.last();
        if 0 <= frame.next < frame.entries.len() {
            let entry = frame.entries[frame.next];
            let taken = stack.drop_last().push(FrameModel { next: frame.next + 1, ..frame });
            assert(mirror(frame.src, frame.dst, src, dst));
            lemma_mirror_child(frame.src, frame.dst, entry.name, src, dst);
            assert forall|i: int| 0 <= i < taken.len() implies mirror(
                #[trigger] taken[i].src,
                taken[i].dst,
                src,
                dst,
            ) by {
                if i < taken.len() - 1 {
                    assert(taken[i] == stack[i]);
                }
            }
            let deeper = taken.push(
                fresh_frame(joined(frame.src, entry.name), joined(frame.dst, entry.name)),
            );
            assert forall|i: int| 0 <= i < deeper.len() implies mirror(
                #[trigger] deeper[i].src,
                deeper[i].dst,
                src,
                dst,
            ) by {
                if i < taken.len() {
                    assert(deeper[i] == taken[i]);
                }
            }
        } else {
            let outer = stack.drop_last();
            assert forall|i: int| 0 <= i < outer.len() implies mirror(
                #[trigger] outer[i].src,
                outer[i].dst,
                src,
                dst,
            ) by {
                assert(outer[i] == stack[i]);
            }
            lemma_advance_mirrors(outer, src, dst);
        }
    }
}

/// A copy begins mirrored.
pub proof fn lemma_copy_start_mirrors(src: Seq<char>, dst: Seq<char>)
    ensures
        mirrored(copy_start(src, dst).0.stack, src, dst),
        request_mirrors(copy_start(src, dst).1, copy_start(src, dst).0.stack, src, dst),
{
    let empty = Seq::<Seq<char>>::empty();
    assert(src == descend(src, empty) && dst == descend(dst, empty));
}

/// Relative paths are kept: in a copy from `src` to `dst`, every step keeps
/// the directories mirrored, and whatever it asks the host to copy, create
/// or list lies at the same place below `dst` as its source does below
/// `src`.
pub proof fn lemma_copy_step_mirrors(
    s: CopierModel,
    reply: ReplyModel,
    src: Seq<char>,
    dst: Seq<char>,
)
    requires
        mirrored(s.stack, src, dst),
    ensures
        copy_step(s, reply) matches ProgressModel::Next(t, request) ==> mirrored(
            t.stack,
            src,
            dst,
        ) && request_mirrors(request, t.stack, src, dst),
{
    if s.stack.len() > 0 {
        let frame = s.stack.last();
        match s.stage {
            CopyStage::List => match reply {
                ReplyModel::Listed(entries) => {
                    let listed = s.stack.drop_last().push(
                        FrameModel { entries, next: 0, ..frame },
                    );
                    assert(mirror(frame.src, frame.dst, src, dst));
                    assert forall|i: int| 0 <= i < listed.len() implies mirror(
                        #[trigger] listed[i].src,
                        listed[i].dst,
                        src,
                        dst,
                    ) by {
                        if i < listed.len() - 1 {
                            assert(listed[i] == s.stack[i]);
                        }
                    }
                    lemma_advance_mirrors(listed, src, dst);
                },
                _ => {},
            },
            CopyStage::File => {
                lemma_advance_mirrors(s.stack, src, dst);
            },
            _ => {},
        }
    }
}

fn advance(frames: Vec<Frame>) -> (next: Progress<Copier, CopyEnd>)
    ensures
        next@ == copy_advance(frames.deep_view()),
{
    let ghost whole = frames.deep_view();
    let mut stack = frames;
    loop
        invariant
            whole == frames.deep_view(),
            copy_advance(whole) == copy_advance(stack.deep_view()),
        decreases stack.len(),
    {
        let ghost here = stack.deep_view();
        let mut frame = match stack.pop() {
            Some(frame) => frame,
            None => {
                return Progress::Finished(CopyEnd::Done);
            },
        };
        assert(stack.deep_view() =~= here.drop_last());
        assert(frame@ == here.last());
        if frame.next < frame.entries.len() {
            let entry = &frame.entries[frame.next];
            assert(entry@ == frame@.entries[frame.next as int]);
            let kind = entry.kind;
            let from = join(frame.src.as_str(), entry.name.as_str());
            let to = join(frame.dst.as_str(), entry.name.as_str());
            let dir = frame.src.clone();
            let ghost model = frame@;
            frame.next = frame.next + 1;
            assert(frame@ == FrameModel { next: model.next + 1, ..model });
            let ghost outer = stack.deep_view();
            stack.push(frame);
            assert(stack.deep_view() =~= outer.push(FrameModel { next: model.next + 1, ..model }));
            match kind {
                EntryKind::Unreadable => {
                    return Progress::Finished(CopyEnd::Error(CopyError::Entry { dir }));
                },
                EntryKind::File => {
                    return Progress::Next(
                        Copier { stack, stage: CopyStage::File },
                        Request::CopyFile { from, to },
                    );
                },
                EntryKind::Directory => {
                    let request = Request::Inspect(to.clone());
                    let ghost taken = stack.deep_view();
                    let entries: Vec<Entry> = Vec::new();
                    assert(entries.deep_view() =~= Seq::<EntryModel>::empty());
                    stack.push(Frame { src: from, dst: to, entries, next: 0 });
                    assert(stack.deep_view() =~= taken.push(fresh_frame(from@, to@)));
                    return Progress::Next(Copier { stack, stage: CopyStage::CheckTarget }, request);
                },
            }
        }
    }
}

impl Copier {
    /// Begins the copy of the tree at `src` to `dst`: the first state and
    /// the first request.
    pub fn start(src: &str, dst: &str) -> (begun: (Copier, Request))
        ensures
            (begun.0@, begun.1@) == copy_start(src@, dst@),
    {
        let entries: Vec<Entry> = Vec::new();
        assert(entries.deep_view() =~= Seq::<EntryModel>::empty());
        let mut stack: Vec<Frame> = Vec::new();
        stack.push(
            Frame { src: String::from_str(src), dst: String::from_str(dst), entries, next: 0 },
        );
        assert(stack.deep_view() =~= seq![fresh_frame(src@, dst@)]);
        (Copier { stack, stage: CopyStage::CheckTarget }, Request::Inspect(String::from_str(dst)))
    }

    /// Takes the host's reply to the last request and answers with the next
    /// request, or with the end of the copy.
    pub fn step(self, reply: Reply) -> (next: Progress<Copier, CopyEnd>)
        ensures
            next@ == copy_step(self@, reply@),
    {
        let Copier { stack, stage } = self;
        let mut stack = stack;
        let n: usize = stack.len();
        if n == 0 {
            return Progress::Finished(CopyEnd::Error(CopyError::Unexpected));
        }
        assert(stack.deep_view().last() == stack@[n - 1]@);
        match stage {
            CopyStage::CheckTarget => match reply {
                Reply::Inspected(seen) => {
                    if seen.exists {
                        let request = Request::ListDir(stack[n - 1].src.clone());
                        Progress::Next(Copier { stack, stage: CopyStage::List }, request)
                    } else {
                        let request = Request::CreateDirs(stack[n - 1].dst.clone());
                        Progress::Next(Copier { stack, stage: CopyStage::CreateTarget }, request)
                    }
                },
                _ => Progress::Finished(CopyEnd::Error(CopyError::Unexpected)),
            },
            CopyStage::CreateTarget => match reply {
                Reply::Done => {
                    let request = Request::ListDir(stack[n - 1].src.clone());
                    Progress::Next(Copier { stack, stage: CopyStage::List }, request)
                },
                Reply::Failed { detail } => Progress::Finished(
                    CopyEnd::Error(
                        CopyError::CreateDir { path: stack[n - 1].dst.clone(), detail },
                    ),
                ),
                _ => Progress::Finished(CopyEnd::Error(CopyError::Unexpected)),
            },
            CopyStage::List => match reply {
                Reply::Listed(entries) => {
                    let ghost whole = stack.deep_view();
                    let frame = match stack.pop() {
                        Some(frame) => frame,
                        None => {
                            return Progress::Finished(CopyEnd::Error(CopyError::Unexpected));
                        },
                    };
                    let ghost outer = stack.deep_view();
                    assert(outer =~= whole.drop_last());
                    let listed = Frame { src: frame.src, dst: frame.dst, entries, next: 0 };
                    stack.push(listed);
                    assert(stack.deep_view() =~= outer.push(
                        FrameModel { entries: entries.deep_view(), next: 0, ..whole.last() },
                    ));
                    advance(stack)
                },
                Reply::Failed { detail } => Progress::Finished(
                    CopyEnd::Error(CopyError::List { path: stack[n - 1].src.clone(), detail }),
                ),
                _ => Progress::Finished(CopyEnd::Error(CopyError::Unexpected)),
            },
            CopyStage::File => match reply {
                Reply::Done => advance(stack),
                Reply::Failed { detail } => Progress::Finished(
                    CopyEnd::Error(CopyError::File { detail }),
                ),
                _ => Progress::Finished(CopyEnd::Error(CopyError::Unexpected)),
            },
        }
    }
}

} // verus!
