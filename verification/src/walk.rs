//! The copy of a whole tree, followed from its first request to its end:
//! against a host that holds a given source tree and carries out every
//! request, the copy asks for each directory and each file of the tree
//! once, in depth-first order and at the mirrored place, and then is done.
//! What the host makes of a request, the bytes it copies among it, is the
//! host's own matter and no part of this.

use crate::copier::{
    copy_advance, copy_start, copy_step, descend, fresh_frame, CopierModel, CopyEndModel,
    CopyStage, FrameModel,
};
use crate::host::{EntryKind, EntryModel, Inspection, ProgressModel, ReplyModel, RequestModel};
use crate::paths::joined;
use vstd::prelude::*;

verus! {

/// What lies at a place in a source tree: a file, or a directory with its
/// named entries in the order the host lists them.
pub enum Node {
    File,
    Dir(Seq<(Seq<char>, Node)>),
}

/// The listing that the host gives of a directory with these entries.
pub open spec fn listing(entries: Seq<(Seq<char>, Node)>) -> Seq<EntryModel> {
    Seq::new(
        entries.len(),
        |i: int|
            EntryModel {
                name: entries[i].0,
                kind: match entries[i].1 {
                    Node::File => EntryKind::File,
                    Node::Dir(_) => EntryKind::Directory,
                },
            },
    )
}

/// What the host sees at a target directory that is there, or is not.
pub open spec fn seen_at(present: bool) -> Inspection {
    Inspection { exists: present, is_dir: present, is_file: false }
}

/// The requests that copy `node` from `from` to `to`; `present` tells of a
/// target directory whether the host has it already. A file is copied. A
/// directory has its target inspected, and created when it is not there,
/// is listed, and has its entries copied in order.
pub open spec fn node_requests(
    from: Seq<char>,
    to: Seq<char>,
    node: Node,
    present: spec_fn(Seq<char>) -> bool,
) -> Seq<RequestModel>
    decreases node, 0nat,
{
    match node {
        Node::File => seq![RequestModel::CopyFile { from, to }],
        Node::Dir(entries) => seq![RequestModel::Inspect(to)] + (if present(to) {
            Seq::empty()
        } else {
            seq![RequestModel::CreateDirs(to)]
        }) + seq![RequestModel::ListDir(from)] + entries_requests(from, to, entries, 0, present),
    }
}

/// The requests that copy the entries from index `first` on of the
/// directory `src` to the directory `dst`.
pub open spec fn entries_requests(
    src: Seq<char>,
    dst: Seq<char>,
    entries: Seq<(Seq<char>, Node)>,
    first: int,
    present: spec_fn(Seq<char>) -> bool,
) -> Seq<RequestModel>
    decreases entries, entries.len() - first,
{
    if 0 <= first < entries.len() {
        node_requests(
            joined(src, entries[first].0),
            joined(dst, entries[first].0),
            entries[first].1,
            present,
        ) + entries_requests(src, dst, entries, first + 1, present)
    } else {
        Seq::empty()
    }
}

/// The replies of a host that holds `node` and carries out every request of
/// its copy to `to`.
pub open spec fn node_replies(to: Seq<char>, node: Node, present: spec_fn(Seq<char>) -> bool) -> Seq<
    ReplyModel,
>
    decreases node, 0nat,
{
    match node {
        Node::File => seq![ReplyModel::Done],
        Node::Dir(entries) => seq![ReplyModel::Inspected(seen_at(present(to)))] + (if present(to) {
            Seq::empty()
        } else {
            seq![ReplyModel::Done]
        }) + seq![ReplyModel::Listed(listing(entries))] + entries_replies(
            to,
            entries,
            0,
            present,
        ),
    }
}

/// The replies of the host to the copy of the entries from index `first`
/// on to the directory `dst`.
pub open spec fn entries_replies(
    dst: Seq<char>,
    entries: Seq<(Seq<char>, Node)>,
    first: int,
    present: spec_fn(Seq<char>) -> bool,
) -> Seq<ReplyModel>
    decreases entries, entries.len() - first,
{
    if 0 <= first < entries.len() {
        node_replies(joined(dst, entries[first].0), entries[first].1, present) + entries_replies(
            dst,
            entries,
            first + 1,
            present,
        )
    } else {
        Seq::empty()
    }
}

/// A copy followed through a sequence of replies: the requests that were
/// answered, and where the copy stands after the last reply. Replies that
/// come after the end of the copy count for nothing.
pub open spec fn copy_run(
    progress: ProgressModel<CopierModel, CopyEndModel>,
    replies: Seq<ReplyModel>,
) -> (Seq<RequestModel>, ProgressModel<CopierModel, CopyEndModel>)
    decreases replies.len(),
{
    match progress {
        ProgressModel::Finished(_) => (Seq::empty(), progress),
        ProgressModel::Next(s, request) => if replies.len() == 0 {
            (Seq::empty(), progress)
        } else {
            let after = copy_run(copy_step(s, replies[0]), replies.drop_first());
            (seq![request] + after.0, after.1)
        },
    }
}

/// A run with `requests` put before the requests it answered.
pub open spec fn after_requests(
    requests: Seq<RequestModel>,
    run: (Seq<RequestModel>, ProgressModel<CopierModel, CopyEndModel>),
) -> (Seq<RequestModel>, ProgressModel<CopierModel, CopyEndModel>) {
    (requests + run.0, run.1)
}

proof fn lemma_run_one(
    s: CopierModel,
    request: RequestModel,
    reply: ReplyModel,
    rest: Seq<ReplyModel>,
)
    ensures
        copy_run(ProgressModel::Next(s, request), seq![reply] + rest) == after_requests(
            seq![request],
            copy_run(copy_step(s, reply), rest),
        ),
{
    let replies = seq![reply] + rest;
    assert(replies[0] == reply);
    assert(replies.drop_first() =~= rest);
}

proof fn lemma_after_requests(
    first: Seq<RequestModel>,
    second: Seq<RequestModel>,
    run: (Seq<RequestModel>, ProgressModel<CopierModel, CopyEndModel>),
)
    ensures
        after_requests(first, after_requests(second, run)) == after_requests(first + second, run),
{
    assert(first + (second + run.0) =~= (first + second) + run.0);
}

/// The copy of the entries from `first` on, with the directories `outer`
/// around them still under way.
proof fn lemma_run_entries(
    outer: Seq<FrameModel>,
    src: Seq<char>,
    dst: Seq<char>,
    entries: Seq<(Seq<char>, Node)>,
    first: int,
    present: spec_fn(Seq<char>) -> bool,
    rest: Seq<ReplyModel>,
)
    requires
        0 <= first <= entries.len(),
    ensures
        copy_run(
            copy_advance(
                outer.push(FrameModel { src, dst, entries: listing(entries), next: first }),
            ),
            entries_replies(dst, entries, first, present) + rest,
        ) == after_requests(
            entries_requests(src, dst, entries, first, present),
            copy_run(copy_advance(outer), rest),
        ),
    decreases entries, entries.len() - first, 0nat,
{
    let frame = FrameModel { src, dst, entries: listing(entries), next: first };
    let stack = outer.push(frame);
    assert(stack.drop_last() =~= outer);
    let end = copy_run(copy_advance(outer), rest);
    if first == entries.len() {
        // No entry is left: the copy goes on with the directories around.
        assert(entries_replies(dst, entries, first, present) + rest =~= rest);
        assert(Seq::<RequestModel>::empty() + end.0 =~= end.0);
    } else {
        let name = entries[first].0;
        let node = entries[first].1;
        let from = joined(src, name);
        let to = joined(dst, name);
        let taken = outer.push(FrameModel { next: first + 1, ..frame });
        let later_replies = entries_replies(dst, entries, first + 1, present);
        let later_requests = entries_requests(src, dst, entries, first + 1, present);
        assert(listing(entries)[first].name == name);
        assert(entries_replies(dst, entries, first, present) + rest =~= node_replies(
            to,
            node,
            present,
        ) + (later_replies + rest));
        lemma_run_entries(outer, src, dst, entries, first + 1, present, rest);
        lemma_after_requests(node_requests(from, to, node, present), later_requests, end);
        match node {
            Node::File => {
                // The file is copied, and the entries after it follow.
                let s = CopierModel { stack: taken, stage: CopyStage::File };
                assert(node_replies(to, node, present) == seq![ReplyModel::Done]);
                lemma_run_one(
                    s,
                    RequestModel::CopyFile { from, to },
                    ReplyModel::Done,
                    later_replies + rest,
                );
            },
            Node::Dir(inner) => {
                // The directory is copied with this one around it, and the
                // entries after it follow.
                lemma_run_dir(taken, from, to, inner, present, later_replies + rest);
            },
        }
    }
}

/// The copy of a directory that has just been taken up, with the
/// directories `outer` around it still under way.
proof fn lemma_run_dir(
    outer: Seq<FrameModel>,
    src: Seq<char>,
    dst: Seq<char>,
    entries: Seq<(Seq<char>, Node)>,
    present: spec_fn(Seq<char>) -> bool,
    rest: Seq<ReplyModel>,
)
    ensures
        copy_run(
            ProgressModel::Next(
                CopierModel {
                    stack: outer.push(fresh_frame(src, dst)),
                    stage: CopyStage::CheckTarget,
                },
                RequestModel::Inspect(dst),
            ),
            node_replies(dst, Node::Dir(entries), present) + rest,
        ) == after_requests(
            node_requests(src, dst, Node::Dir(entries), present),
            copy_run(copy_advance(outer), rest),
        ),
    decreases entries, entries.len() + 1, 0nat,
{
    let stack = outer.push(fresh_frame(src, dst));
    assert(stack.last() == fresh_frame(src, dst));
    assert(stack.drop_last() =~= outer);
    let checking = CopierModel { stack, stage: CopyStage::CheckTarget };
    let creating = CopierModel { stack, stage: CopyStage::CreateTarget };
    let listing_dir = CopierModel { stack, stage: CopyStage::List };
    let inspected = ReplyModel::Inspected(seen_at(present(dst)));
    let listed = ReplyModel::Listed(listing(entries));
    let inner_replies = entries_replies(dst, entries, 0, present);
    let inner_requests = entries_requests(src, dst, entries, 0, present);
    let end = copy_run(copy_advance(outer), rest);
    let all = node_replies(dst, Node::Dir(entries), present) + rest;

    // The entries, once the directory is listed.
    lemma_run_entries(outer, src, dst, entries, 0, present, rest);
    assert(stack.drop_last().push(
        FrameModel { entries: listing(entries), next: 0, ..fresh_frame(src, dst) },
    ) == outer.push(FrameModel { src, dst, entries: listing(entries), next: 0 }));
    lemma_run_one(listing_dir, RequestModel::ListDir(src), listed, inner_replies + rest);
    lemma_after_requests(seq![RequestModel::ListDir(src)], inner_requests, end);
    let from_listing = after_requests(seq![RequestModel::ListDir(src)] + inner_requests, end);
    assert(copy_run(
        ProgressModel::Next(listing_dir, RequestModel::ListDir(src)),
        seq![listed] + (inner_replies + rest),
    ) == from_listing);

    if present(dst) {
        assert(all =~= seq![inspected] + (seq![listed] + (inner_replies + rest)));
        lemma_run_one(
            checking,
            RequestModel::Inspect(dst),
            inspected,
            seq![listed] + (inner_replies + rest),
        );
        lemma_after_requests(
            seq![RequestModel::Inspect(dst)],
            seq![RequestModel::ListDir(src)] + inner_requests,
            end,
        );
        assert(node_requests(src, dst, Node::Dir(entries), present) =~= seq![
            RequestModel::Inspect(dst),
        ] + (seq![RequestModel::ListDir(src)] + inner_requests));
    } else {
        let created = seq![ReplyModel::Done] + (seq![listed] + (inner_replies + rest));
        assert(all =~= seq![inspected] + created);
        lemma_run_one(checking, RequestModel::Inspect(dst), inspected, created);
        lemma_run_one(
            creating,
            RequestModel::CreateDirs(dst),
            ReplyModel::Done,
            seq![listed] + (inner_replies + rest),
        );
        lemma_after_requests(
            seq![RequestModel::CreateDirs(dst)],
            seq![RequestModel::ListDir(src)] + inner_requests,
            end,
        );
        lemma_after_requests(
            seq![RequestModel::Inspect(dst)],
            seq![RequestModel::CreateDirs(dst)] + (seq![RequestModel::ListDir(src)]
                + inner_requests),
            end,
        );
        assert(node_requests(src, dst, Node::Dir(entries), present) =~= seq![
            RequestModel::Inspect(dst),
        ] + (seq![RequestModel::CreateDirs(dst)] + (seq![RequestModel::ListDir(src)]
            + inner_requests)));
    }
}

/// The whole tree is copied: against a host that holds the directory
/// `entries` at `src` and carries out every request, the copy from `src`
/// to `dst` asks exactly for the requests of the tree, each file and each
/// directory once, in depth-first order and at the place below `dst` that
/// it has below `src`, and then it is done.
pub proof fn lemma_copy_reproduces_tree(
    src: Seq<char>,
    dst: Seq<char>,
    entries: Seq<(Seq<char>, Node)>,
    present: spec_fn(Seq<char>) -> bool,
)
    ensures
        copy_run(
            ProgressModel::Next(copy_start(src, dst).0, copy_start(src, dst).1),
            node_replies(dst, Node::Dir(entries), present),
        ) == (
            node_requests(src, dst, Node::Dir(entries), present),
            ProgressModel::<CopierModel, CopyEndModel>::Finished(CopyEndModel::Done),
        ),
{
    let outer = Seq::<FrameModel>::empty();
    let none = Seq::<ReplyModel>::empty();
    let replies = node_replies(dst, Node::Dir(entries), present);
    let requests = node_requests(src, dst, Node::Dir(entries), present);
    lemma_run_dir(outer, src, dst, entries, present, none);
    assert(replies + none =~= replies);
    assert(outer.push(fresh_frame(src, dst)) =~= seq![fresh_frame(src, dst)]);
    assert(requests + Seq::<RequestModel>::empty() =~= requests);
}

/// The files of a tree in depth-first order, each as the names that lead to
/// it from the root; `at` leads to `node`.
pub open spec fn node_files(node: Node, at: Seq<Seq<char>>) -> Seq<Seq<Seq<char>>>
    decreases node, 0nat,
{
    match node {
        Node::File => seq![at],
        Node::Dir(entries) => entries_files(entries, 0, at),
    }
}

/// The files below the entries from index `first` on of the directory that
/// `at` leads to.
pub open spec fn entries_files(
    entries: Seq<(Seq<char>, Node)>,
    first: int,
    at: Seq<Seq<char>>,
) -> Seq<Seq<Seq<char>>>
    decreases entries, entries.len() - first,
{
    if 0 <= first < entries.len() {
        node_files(entries[first].1, at.push(entries[first].0)) + entries_files(
            entries,
            first + 1,
            at,
        )
    } else {
        Seq::empty()
    }
}

/// The file copies among requests, in order: from where, and to where.
pub open spec fn copies(requests: Seq<RequestModel>) -> Seq<(Seq<char>, Seq<char>)>
    decreases requests.len(),
{
    if requests.len() == 0 {
        Seq::empty()
    } else {
        let later = copies(requests.drop_first());
        match requests[0] {
            RequestModel::CopyFile { from, to } => seq![(from, to)] + later,
            _ => later,
        }
    }
}

/// The copy of the file that `names` lead to: from below `src` to the same
/// place below `dst`.
pub open spec fn mirrored_copy(src: Seq<char>, dst: Seq<char>, names: Seq<Seq<char>>) -> (
    Seq<char>,
    Seq<char>,
) {
    (descend(src, names), descend(dst, names))
}

proof fn lemma_copies_add(a: Seq<RequestModel>, b: Seq<RequestModel>)
    ensures
        copies(a + b) == copies(a) + copies(b),
    decreases a.len(),
{
    if a.len() == 0 {
        assert(a + b =~= b);
        assert(copies(a) + copies(b) =~= copies(b));
    } else {
        assert((a + b).drop_first() =~= a.drop_first() + b);
        lemma_copies_add(a.drop_first(), b);
        let later = copies(a.drop_first());
        match a[0] {
            RequestModel::CopyFile { from, to } => {
                assert((seq![(from, to)] + later) + copies(b) =~= seq![(from, to)] + (later
                    + copies(b)));
            },
            _ => {},
        }
    }
}

proof fn lemma_copies_of_one(request: RequestModel)
    ensures
        copies(seq![request]) == match request {
            RequestModel::CopyFile { from, to } => seq![(from, to)],
            _ => Seq::empty(),
        },
{
    let one = seq![request];
    assert(one.drop_first() =~= Seq::<RequestModel>::empty());
    assert(copies(one.drop_first()) =~= Seq::empty());
    match request {
        RequestModel::CopyFile { from, to } => {
            assert(seq![(from, to)] + Seq::<(Seq<char>, Seq<char>)>::empty() =~= seq![(from, to)]);
        },
        _ => {},
    }
}

proof fn lemma_node_copies(
    src: Seq<char>,
    dst: Seq<char>,
    node: Node,
    at: Seq<Seq<char>>,
    present: spec_fn(Seq<char>) -> bool,
)
    ensures
        copies(node_requests(descend(src, at), descend(dst, at), node, present)) == node_files(
            node,
            at,
        ).map_values(|names: Seq<Seq<char>>| mirrored_copy(src, dst, names)),
    decreases node, 1nat,
{
    let from = descend(src, at);
    let to = descend(dst, at);
    let place = |names: Seq<Seq<char>>| mirrored_copy(src, dst, names);
    match node {
        Node::File => {
            lemma_copies_of_one(RequestModel::CopyFile { from, to });
            assert(seq![at].map_values(place) =~= seq![(from, to)]);
        },
        Node::Dir(entries) => {
            let inspect = seq![RequestModel::Inspect(to)];
            let create = if present(to) {
                Seq::<RequestModel>::empty()
            } else {
                seq![RequestModel::CreateDirs(to)]
            };
            let list = seq![RequestModel::ListDir(from)];
            let inner = entries_requests(from, to, entries, 0, present);
            lemma_entries_copies(src, dst, entries, 0, at, present);
            lemma_copies_of_one(RequestModel::Inspect(to));
            lemma_copies_of_one(RequestModel::CreateDirs(to));
            lemma_copies_of_one(RequestModel::ListDir(from));
            lemma_copies_add(inspect + create + list, inner);
            lemma_copies_add(inspect + create, list);
            lemma_copies_add(inspect, create);
            assert(copies(inspect + create + list) =~= Seq::empty());
            assert(Seq::<(Seq<char>, Seq<char>)>::empty() + copies(inner) =~= copies(inner));
        },
    }
}

proof fn lemma_entries_copies(
    src: Seq<char>,
    dst: Seq<char>,
    entries: Seq<(Seq<char>, Node)>,
    first: int,
    at: Seq<Seq<char>>,
    present: spec_fn(Seq<char>) -> bool,
)
    requires
        0 <= first <= entries.len(),
    ensures
        copies(entries_requests(descend(src, at), descend(dst, at), entries, first, present))
            == entries_files(entries, first, at).map_values(
            |names: Seq<Seq<char>>| mirrored_copy(src, dst, names),
        ),
    decreases entries, entries.len() - first, 0nat,
{
    let place = |names: Seq<Seq<char>>| mirrored_copy(src, dst, names);
    if first == entries.len() {
        assert(entries_files(entries, first, at).map_values(place) =~= Seq::empty());
    } else {
        let name = entries[first].0;
        let node = entries[first].1;
        let below = at.push(name);
        assert(below.drop_last() =~= at);
        lemma_node_copies(src, dst, node, below, present);
        lemma_entries_copies(src, dst, entries, first + 1, at, present);
        lemma_copies_add(
            node_requests(descend(src, below), descend(dst, below), node, present),
            entries_requests(descend(src, at), descend(dst, at), entries, first + 1, present),
        );
        assert((node_files(node, below) + entries_files(entries, first + 1, at)).map_values(place)
            =~= node_files(node, below).map_values(place) + entries_files(
            entries,
            first + 1,
            at,
        ).map_values(place));
    }
}

/// Every file is copied once, to its place: the file copies that the copy
/// of a tree from `src` to `dst` asks for are those of the files of the
/// tree, file by file in depth-first order, each from its place below
/// `src` to the same place below `dst`.
pub proof fn lemma_every_file_is_copied_once(
    src: Seq<char>,
    dst: Seq<char>,
    entries: Seq<(Seq<char>, Node)>,
    present: spec_fn(Seq<char>) -> bool,
)
    ensures
        copies(node_requests(src, dst, Node::Dir(entries), present)) == node_files(
            Node::Dir(entries),
            Seq::empty(),
        ).map_values(|names: Seq<Seq<char>>| mirrored_copy(src, dst, names)),
{
    lemma_node_copies(src, dst, Node::Dir(entries), Seq::empty(), present);
}

} // verus!
