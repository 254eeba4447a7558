//! What holds of every run.

use std::path::PathBuf;
use vstd::prelude::*;
use crate::entry::Entry;
use crate::error::UpdateError;
use crate::hooks::Notice;
use crate::paths::joined;
use crate::session::{Phase, Reply, Request, State};

verus! {

/// The run that `state` has become once it has taken in `replies` in turn.
pub open spec fn run(state: State, replies: Seq<Reply>) -> State
    decreases replies.len(),
{
    if replies.len() == 0 {
        state
    } else {
        run(state, replies.drop_last()).next(replies.last()).0
    }
}

/// The notices that `state` gives out while it takes in `replies`, in order.
pub open spec fn notices(state: State, replies: Seq<Reply>) -> Seq<Notice>
    decreases replies.len(),
{
    if replies.len() == 0 {
        Seq::empty()
    } else {
        let before = notices(state, replies.drop_last());
        match run(state, replies.drop_last()).next(replies.last()).1 {
            Some(notice) => before.push(notice),
            None => before,
        }
    }
}

/// The outside work that `state` asks for after each of `replies`, in order.
pub open spec fn requests<'a>(state: State, replies: Seq<Reply>) -> Seq<Request<'a>>
    decreases replies.len(),
{
    if replies.len() == 0 {
        Seq::empty()
    } else {
        requests(state, replies.drop_last()).push(run(state, replies).request())
    }
}

/// How many of `notices` tell of an updated file.
pub open spec fn updates(notices: Seq<Notice>) -> nat {
    notices.filter(|notice: Notice| notice is Updated).len()
}

/// Whether `request` asks for a file to be written.
pub open spec fn writes(request: Request) -> bool {
    request is Create || request is Copy
}

/// Whether `entry` is one that a run works on: a file that is not
/// excluded.
pub open spec fn is_work(entry: Entry) -> bool {
    !entry.is_dir && !entry.excluded()
}

/// Taking in one more reply is one more step.
proof fn lemma_one_more(state: State, replies: Seq<Reply>, reply: Reply)
    ensures
        run(state, replies.push(reply)) == run(state, replies).next(reply).0,
        notices(state, replies.push(reply)) == match run(state, replies).next(reply).1 {
            Some(notice) => notices(state, replies).push(notice),
            None => notices(state, replies),
        },
        requests(state, replies.push(reply)) == requests(state, replies).push(
            run(state, replies).next(reply).0.request(),
        ),
{
    assert(replies.push(reply).drop_last() =~= replies);
}

/// One more notice counts as an update exactly when it tells of one.
proof fn lemma_updates_push(notices: Seq<Notice>, notice: Notice)
    ensures
        updates(notices.push(notice)) == updates(notices) + if notice is Updated {
            1nat
        } else {
            0nat
        },
{
    reveal(Seq::filter);
    assert(notices.push(notice).drop_last() =~= notices);
}

/// The count that a run returns is the number of times it told of an update:
/// however a run goes, its count grows by one with each such notice and not
/// otherwise.
pub proof fn law_count_is_number_of_updates(state: State, replies: Seq<Reply>)
    ensures
        run(state, replies).updated == state.updated + updates(notices(state, replies)),
        state.updated == 0 ==> (run(state, replies).result() matches Some(Ok(count)) ==> count
            == updates(notices(state, replies))),
    decreases replies.len(),
{
    if replies.len() > 0 {
        let before = replies.drop_last();
        law_count_is_number_of_updates(state, before);
        match run(state, before).next(replies.last()).1 {
            Some(notice) => lemma_updates_push(notices(state, before), notice),
            None => {},
        }
    }
}

/// A run that has ended stays as it is, tells nothing more and asks for
/// nothing more.
proof fn lemma_ended_run_stays(state: State, replies: Seq<Reply>)
    requires
        state.phase is Done || state.phase is Failed,
    ensures
        run(state, replies) == state,
        notices(state, replies) == Seq::<Notice>::empty(),
        forall|i: int| 0 <= i < replies.len() ==> requests(state, replies)[i] == Request::Finish,
        requests(state, replies).len() == replies.len(),
    decreases replies.len(),
{
    if replies.len() > 0 {
        lemma_ended_run_stays(state, replies.drop_last());
    }
}

/// The replies after the first `count` of them take the run on from where
/// those have brought it.
proof fn lemma_run_in_two(state: State, replies: Seq<Reply>, count: int)
    requires
        0 <= count <= replies.len(),
    ensures
        run(state, replies) == run(run(state, replies.take(count)), replies.skip(count)),
        notices(state, replies) == notices(state, replies.take(count)) + notices(
            run(state, replies.take(count)),
            replies.skip(count),
        ),
        requests(state, replies) == requests(state, replies.take(count)) + requests(
            run(state, replies.take(count)),
            replies.skip(count),
        ),
    decreases replies.len(),
{
    let head = replies.take(count);
    let tail = replies.skip(count);
    if count == replies.len() {
        assert(head =~= replies);
    } else {
        let before = replies.drop_last();
        lemma_run_in_two(state, before, count);
        assert(before.take(count) =~= head);
        assert(before.skip(count) =~= tail.drop_last());
    }
}

/// Where the source root is not an existing directory, the run fails with
/// `InvalidFrom` whatever else it is told, tells the hooks nothing, and asks
/// for nothing after its look at the source root.
pub proof fn law_invalid_from(from: PathBuf, to: PathBuf, replies: Seq<Reply>)
    requires
        replies.len() >= 1,
        replies[0] == Reply::IsDir(false),
    ensures
        State::initial(from, to).request() == Request::IsDir(&from),
        run(State::initial(from, to), replies).result() == Some(
            Err::<nat, UpdateError>(UpdateError::InvalidFrom),
        ),
        notices(State::initial(from, to), replies) == Seq::<Notice>::empty(),
        requests(State::initial(from, to), replies).len() == replies.len(),
        forall|i: int|
            0 <= i < replies.len() ==> requests(State::initial(from, to), replies)[i]
                == Request::Finish,
{
    let start = State::initial(from, to);
    let head = replies.take(1);
    lemma_one_more(start, Seq::empty(), replies[0]);
    assert(Seq::<Reply>::empty().push(replies[0]) =~= head);
    lemma_run_in_two(start, replies, 1);
    lemma_ended_run_stays(run(start, head), replies.skip(1));
}

/// Where the source root is a directory and the destination root is not an
/// existing directory, the run fails with `InvalidTo` whatever else it is
/// told, tells the hooks nothing, and asks for nothing after its looks at
/// the two roots.
pub proof fn law_invalid_to(from: PathBuf, to: PathBuf, replies: Seq<Reply>)
    requires
        replies.len() >= 2,
        replies[0] == Reply::IsDir(true),
        replies[1] == Reply::IsDir(false),
    ensures
        State::initial(from, to).request() == Request::IsDir(&from),
        run(State::initial(from, to), replies).result() == Some(
            Err::<nat, UpdateError>(UpdateError::InvalidTo),
        ),
        notices(State::initial(from, to), replies) == Seq::<Notice>::empty(),
        requests(State::initial(from, to), replies).len() == replies.len(),
        requests(State::initial(from, to), replies)[0] == Request::IsDir(&to),
        forall|i: int|
            1 <= i < replies.len() ==> requests(State::initial(from, to), replies)[i]
                == Request::Finish,
{
    let start = State::initial(from, to);
    let head = replies.take(2);
    let one = Seq::<Reply>::empty().push(replies[0]);
    lemma_one_more(start, Seq::empty(), replies[0]);
    lemma_one_more(start, one, replies[1]);
    assert(one.push(replies[1]) =~= head);
    lemma_run_in_two(start, replies, 2);
    lemma_ended_run_stays(run(start, head), replies.skip(2));
}

/// A file as large as its counterpart is left alone: the run asks to open the
/// counterpart and to read the two sizes, never to write, tells of the skip
/// once, for that file, and goes on walking with its count unchanged.
pub proof fn law_same_size_is_skipped(state: State, entry: Entry, size: u64)
    requires
        state.phase is Walking,
        is_work(entry),
    ensures
        ({
            let replies = seq![
                Reply::Walked(Some(Ok(entry))),
                Reply::Opened(true),
                Reply::Size(Ok(size)),
                Reply::Size(Ok(size)),
            ];
            &&& run(state, replies) == state
            &&& notices(state, replies) == seq![Notice::Skipped(entry.path)]
            &&& requests(state, replies) == seq![
                Request::Open(&joined(state.from, entry.short_path)),
                Request::SourceSize,
                Request::DestSize(&entry.path),
                Request::NextEntry(&state.to),
            ]
        }),
{
    let r0 = Reply::Walked(Some(Ok(entry)));
    let r1 = Reply::Opened(true);
    let r2 = Reply::Size(Ok(size));
    let none = Seq::<Reply>::empty();
    lemma_one_more(state, none, r0);
    lemma_one_more(state, none.push(r0), r1);
    lemma_one_more(state, none.push(r0).push(r1), r2);
    lemma_one_more(state, none.push(r0).push(r1).push(r2), r2);
    let replies = seq![r0, r1, r2, r2];
    assert(none.push(r0).push(r1).push(r2).push(r2) =~= replies);
}

/// A file whose size differs from its counterpart's is overwritten: after
/// the two sizes the run asks to create the file anew and to copy into it,
/// and once the copy has succeeded it tells of the update once, for that
/// file, counts one more, and goes on walking.
pub proof fn law_other_size_is_updated(
    state: State,
    entry: Entry,
    from_size: u64,
    to_size: u64,
    copied: u64,
)
    requires
        state.phase is Walking,
        is_work(entry),
        from_size != to_size,
    ensures
        ({
            let replies = seq![
                Reply::Walked(Some(Ok(entry))),
                Reply::Opened(true),
                Reply::Size(Ok(from_size)),
                Reply::Size(Ok(to_size)),
                Reply::Created(Ok(())),
                Reply::Copied(Ok(copied)),
            ];
            &&& run(state, replies) == State { updated: state.updated + 1, ..state }
            &&& notices(state, replies) == seq![Notice::Updated(entry.path)]
            &&& requests(state, replies) == seq![
                Request::Open(&joined(state.from, entry.short_path)),
                Request::SourceSize,
                Request::DestSize(&entry.path),
                Request::Create(&entry.path),
                Request::Copy,
                Request::NextEntry(&state.to),
            ]
        }),
{
    let r0 = Reply::Walked(Some(Ok(entry)));
    let r1 = Reply::Opened(true);
    let r2 = Reply::Size(Ok(from_size));
    let r3 = Reply::Size(Ok(to_size));
    let r4 = Reply::Created(Ok(()));
    let r5 = Reply::Copied(Ok(copied));
    let none = Seq::<Reply>::empty();
    lemma_one_more(state, none, r0);
    lemma_one_more(state, none.push(r0), r1);
    lemma_one_more(state, none.push(r0).push(r1), r2);
    lemma_one_more(state, none.push(r0).push(r1).push(r2), r3);
    lemma_one_more(state, none.push(r0).push(r1).push(r2).push(r3), r4);
    lemma_one_more(state, none.push(r0).push(r1).push(r2).push(r3).push(r4), r5);
    let replies = seq![r0, r1, r2, r3, r4, r5];
    assert(none.push(r0).push(r1).push(r2).push(r3).push(r4).push(r5) =~= replies);
}

/// A file whose counterpart cannot be opened is passed over in silence: the
/// run asks for nothing more about it, tells the hooks nothing, and goes on
/// walking with its count unchanged.
pub proof fn law_missing_source_is_ignored(state: State, entry: Entry)
    requires
        state.phase is Walking,
        is_work(entry),
    ensures
        ({
            let replies = seq![Reply::Walked(Some(Ok(entry))), Reply::Opened(false)];
            &&& run(state, replies) == state
            &&& notices(state, replies) == Seq::<Notice>::empty()
            &&& requests(state, replies) == seq![
                Request::Open(&joined(state.from, entry.short_path)),
                Request::NextEntry(&state.to),
            ]
        }),
{
    let r0 = Reply::Walked(Some(Ok(entry)));
    let r1 = Reply::Opened(false);
    let none = Seq::<Reply>::empty();
    lemma_one_more(state, none, r0);
    lemma_one_more(state, none.push(r0), r1);
    let replies = seq![r0, r1];
    assert(none.push(r0).push(r1) =~= replies);
}

/// An entry with a name that starts with a dot anywhere on its way from the
/// destination root, be it its own or that of a directory above it, is not
/// worked on: the run stays as it was, tells the hooks nothing, and asks for
/// the next entry.
pub proof fn law_hidden_entry_is_excluded(state: State, entry: Entry)
    requires
        state.phase is Walking,
        entry.excluded(),
    ensures
        state.next(Reply::Walked(Some(Ok(entry)))) == (state, None::<Notice>),
        state.request() == Request::NextEntry(&state.to),
{
}

/// Once both roots have been found to be directories, nothing that happens
/// to an entry or to the walk makes the run fail: it can only go on, or end
/// with its count.
pub proof fn law_started_run_does_not_fail(state: State, replies: Seq<Reply>)
    requires
        !(state.phase is CheckingFrom),
        !(state.phase is CheckingTo),
        !(state.phase is Failed),
    ensures
        !(run(state, replies).phase is CheckingFrom),
        !(run(state, replies).phase is CheckingTo),
        !(run(state, replies).phase is Failed),
        run(state, replies).from == state.from,
        run(state, replies).to == state.to,
    decreases replies.len(),
{
    if replies.len() > 0 {
        law_started_run_does_not_fail(state, replies.drop_last());
    }
}

/// A run fails only for one of its roots, and then before it has asked for
/// any entry: it has told the hooks nothing and updated nothing.
pub proof fn law_failure_comes_first(
    from: PathBuf,
    to: PathBuf,
    replies: Seq<Reply>,
)
    requires
        run(State::initial(from, to), replies).phase is Failed,
    ensures
        run(State::initial(from, to), replies).phase == Phase::Failed(UpdateError::InvalidFrom)
            || run(State::initial(from, to), replies).phase == Phase::Failed(
            UpdateError::InvalidTo,
        ),
        run(State::initial(from, to), replies).updated == 0,
        notices(State::initial(from, to), replies) == Seq::<Notice>::empty(),
        forall|i: int|
            0 <= i < replies.len() ==> !writes(
                #[trigger] requests(State::initial(from, to), replies)[i],
            ),
{
    lemma_before_start(State::initial(from, to), replies);
}

/// While a run has not started to walk, it has told nothing, counted
/// nothing and asked for nothing to be written.
proof fn lemma_before_start(start: State, replies: Seq<Reply>)
    requires
        start.phase is CheckingFrom,
        start.updated == 0,
    ensures
        requests(start, replies).len() == replies.len(),
        ({
            let end = run(start, replies);
            end.phase is CheckingFrom || end.phase is CheckingTo || end.phase is Failed ==> {
                &&& end.updated == 0
                &&& notices(start, replies) == Seq::<Notice>::empty()
                &&& forall|i: int|
                    0 <= i < replies.len() ==> !writes(#[trigger] requests(start, replies)[i])
                &&& end.phase is Failed ==> end.phase == Phase::Failed(UpdateError::InvalidFrom)
                    || end.phase == Phase::Failed(UpdateError::InvalidTo)
            }
        }),
    decreases replies.len(),
{
    if replies.len() > 0 {
        let before = replies.drop_last();
        lemma_before_start(start, before);
        let middle = run(start, before);
        if !(middle.phase is CheckingFrom || middle.phase is CheckingTo || middle.phase
            is Failed) {
            law_started_run_does_not_fail(middle, seq![replies.last()]);
            lemma_one_more(middle, Seq::empty(), replies.last());
        }
    }
}

/// The file that a run is working on, if it is working on one.
pub open spec fn target(phase: Phase) -> Option<PathBuf> {
    match phase {
        Phase::Opening { to_path, .. } => Some(to_path),
        Phase::SizingSource { to_path, .. } => Some(to_path),
        Phase::SizingDest { to_path, .. } => Some(to_path),
        Phase::Creating { to_path } => Some(to_path),
        Phase::Copying { to_path } => Some(to_path),
        _ => None,
    }
}

/// Whether the walk has handed out, among `replies`, a file at `path` that
/// is neither a directory nor excluded.
pub open spec fn walked(replies: Seq<Reply>, path: PathBuf) -> bool {
    exists|i: int|
        0 <= i < replies.len() && (#[trigger] replies[i] matches Reply::Walked(Some(Ok(entry)))
            && is_work(entry) && entry.path == path)
}

/// A run works only on files that the walk has handed out to it and that are
/// neither directories nor excluded. In particular it never asks to create,
/// or to copy into, a file with a hidden name on its way from the root.
pub proof fn law_only_walked_files_are_worked_on(state: State, replies: Seq<Reply>)
    requires
        target(state.phase) is None,
    ensures
        target(run(state, replies).phase) matches Some(path) ==> walked(replies, path),
        run(state, replies).request() matches Request::Create(path) ==> walked(replies, *path),
        run(state, replies).request() matches Request::DestSize(path) ==> walked(replies, *path),
    decreases replies.len(),
{
    if replies.len() > 0 {
        let before = replies.drop_last();
        law_only_walked_files_are_worked_on(state, before);
        let middle = run(state, before);
        let end = run(state, replies);
        if let Some(path) = target(end.phase) {
            if target(middle.phase) == Some(path) {
                // The file was handed out before, at a place that is still there.
                let i = choose|i: int|
                    0 <= i < before.len() && (#[trigger] before[i] matches Reply::Walked(
                        Some(Ok(entry)),
                    ) && is_work(entry) && entry.path == path);
                assert(replies[i] == before[i]);
            } else {
                // The file was handed out just now.
                assert(replies[replies.len() - 1] == replies.last());
            }
        }
    }
}

} // verus!
