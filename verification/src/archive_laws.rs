//! What holds of the choice of the configuration root and of whole runs
//! of the extractor.

use vstd::prelude::*;
use crate::archive::{
    config_directory, extract_advance, extract_ask, extract_clear, extract_invocation_view,
    extract_start, first_directory_from, removal, ExtractPhaseView, ExtractTurnView,
};
use crate::command::{DirEntryView, RequestView, ResponseView};
use crate::error::InstallErrorView;
use crate::turn::TurnView;

verus! {

/// Entries that are no directories are passed over in the search for the
/// first directory.
pub proof fn lemma_first_directory_skips(list: Seq<DirEntryView>, from: int, to: int)
    requires
        0 <= from <= to <= list.len(),
        forall|j: int| from <= j < to ==> !(#[trigger] list[j]).is_dir,
    ensures
        first_directory_from(list, from) == first_directory_from(list, to),
    decreases to - from,
{
    if from < to {
        lemma_first_directory_skips(list, from + 1, to);
    }
}

/// The first entry, in enumeration order, that is a directory is the
/// configuration root, whatever else the scratch directory holds.
pub proof fn law_first_directory_is_config_root(
    scratch: Seq<char>,
    list: Seq<DirEntryView>,
    first: int,
)
    requires
        0 <= first < list.len(),
        list[first].is_dir,
        forall|j: int| 0 <= j < first ==> !(#[trigger] list[j]).is_dir,
    ensures
        config_directory(scratch, list) == Ok::<Seq<char>, InstallErrorView>(list[first].path),
{
    lemma_first_directory_skips(list, 0, first);
}

/// A scratch directory that holds entries but no directory is itself
/// the configuration root.
pub proof fn law_flat_archive_uses_scratch(scratch: Seq<char>, list: Seq<DirEntryView>)
    requires
        list.len() > 0,
        forall|j: int| 0 <= j < list.len() ==> !(#[trigger] list[j]).is_dir,
    ensures
        config_directory(scratch, list) == Ok::<Seq<char>, InstallErrorView>(scratch),
{
    lemma_first_directory_skips(list, 0, list.len() as int);
}

/// An empty scratch directory has no configuration root.
pub proof fn law_empty_scratch_has_no_config(scratch: Seq<char>, list: Seq<DirEntryView>)
    requires
        list.len() == 0,
    ensures
        config_directory(scratch, list) == Err::<Seq<char>, InstallErrorView>(
            InstallErrorView::NoConfigDirectoryFound,
        ),
{
}

/// A run: the answers are handed in one by one for as long as the
/// component asks. The result holds the requests that were answered and
/// where the component then stands.
pub open spec fn extract_run(turn: ExtractTurnView, answers: Seq<ResponseView>) -> (
    Seq<RequestView>,
    ExtractTurnView,
)
    decreases answers.len(),
{
    match turn {
        TurnView::Ask(machine, request) => if answers.len() > 0 {
            let rest = extract_run(extract_advance(machine, answers[0]), answers.drop_first());
            (seq![request] + rest.0, rest.1)
        } else {
            (Seq::empty(), turn)
        },
        TurnView::Done(_) => (Seq::empty(), turn),
    }
}

/// A run over two batches of answers is the run over the first followed
/// by the run over the second from where the first one ended.
pub proof fn lemma_extract_run_concat(
    turn: ExtractTurnView,
    first: Seq<ResponseView>,
    second: Seq<ResponseView>,
)
    ensures
        extract_run(turn, first + second) == ({
            let head = extract_run(turn, first);
            let tail = extract_run(head.1, second);
            (head.0 + tail.0, tail.1)
        }),
    decreases first.len(),
{
    let head = extract_run(turn, first);
    let tail = extract_run(head.1, second);
    match turn {
        TurnView::Ask(machine, request) => {
            if first.len() > 0 {
                let next = extract_advance(machine, first[0]);
                lemma_extract_run_concat(next, first.drop_first(), second);
                assert((first + second).drop_first() =~= first.drop_first() + second);
                assert((first + second)[0] == first[0]);
                let inner = extract_run(next, first.drop_first());
                assert(head.0 == seq![request] + inner.0);
                assert((seq![request] + inner.0) + tail.0 =~= seq![request] + (inner.0 + tail.0));
            } else {
                assert(first + second =~= second);
                assert(head.0 + tail.0 =~= tail.0);
            }
        },
        TurnView::Done(_) => {
            assert(head.0 + tail.0 =~= Seq::<RequestView>::empty());
        },
    }
}

/// The removals of the old entries from `from` on, one request each.
pub open spec fn removal_requests(old: Seq<DirEntryView>, from: int) -> Seq<RequestView> {
    Seq::new((old.len() - from) as nat, |i: int| removal(old[from + i]))
}

/// As many answers `Done` as asked for.
pub open spec fn done_answers(count: nat) -> Seq<ResponseView> {
    Seq::new(count, |i: int| ResponseView::Done)
}

/// The extractor while the archive tool runs, asking for it to be run.
pub open spec fn extracting_turn(archive: Seq<char>, scratch: Seq<char>) -> ExtractTurnView {
    extract_ask(
        archive,
        scratch,
        ExtractPhaseView::Extracting,
        RequestView::Run(extract_invocation_view(archive, scratch)),
    )
}

/// Where each removal is carried out, every old entry from `from` on is
/// removed, in order, and then the archive tool is run.
pub proof fn law_scratch_is_cleared_before_extraction(
    archive: Seq<char>,
    scratch: Seq<char>,
    old: Seq<DirEntryView>,
    from: int,
)
    requires
        0 <= from <= old.len(),
    ensures
        extract_run(
            extract_clear(archive, scratch, old, from),
            done_answers((old.len() - from) as nat),
        ) == (removal_requests(old, from), extracting_turn(archive, scratch)),
    decreases old.len() - from,
{
    let answers = done_answers((old.len() - from) as nat);
    if from == old.len() {
        assert(removal_requests(old, from) =~= Seq::empty());
    } else {
        law_scratch_is_cleared_before_extraction(archive, scratch, old, from + 1);
        assert(answers[0] == ResponseView::Done);
        assert(answers.drop_first() =~= done_answers((old.len() - from - 1) as nat));
        assert(seq![removal(old[from])] + removal_requests(old, from + 1) =~= removal_requests(
            old,
            from,
        ));
    }
}

/// The answers of an extraction in which every step succeeds: the
/// scratch directory exists and holds `old`, or it does not exist and is
/// created and then holds `old`; each removal is carried out; the tool
/// succeeds, writing `stdout` and `stderr`; and the scratch directory
/// then holds `found`.
pub open spec fn smooth_extraction(
    existed: bool,
    old: Seq<DirEntryView>,
    stdout: Seq<char>,
    stderr: Seq<char>,
    found: Seq<DirEntryView>,
) -> Seq<ResponseView> {
    let opening = if existed {
        seq![ResponseView::Exists(true), ResponseView::Entries(old)]
    } else {
        seq![ResponseView::Exists(false), ResponseView::Done, ResponseView::Entries(old)]
    };
    opening + done_answers(old.len()) + seq![
        ResponseView::Exit { success: true, stdout, stderr },
        ResponseView::Entries(found),
    ]
}

/// The requests of an extraction in which every step succeeds.
pub open spec fn smooth_extraction_requests(
    archive: Seq<char>,
    scratch: Seq<char>,
    existed: bool,
    old: Seq<DirEntryView>,
) -> Seq<RequestView> {
    let opening = if existed {
        seq![RequestView::PathExists(scratch), RequestView::ListDir(scratch)]
    } else {
        seq![
            RequestView::PathExists(scratch),
            RequestView::CreateDirAll(scratch),
            RequestView::ListDir(scratch),
        ]
    };
    opening + removal_requests(old, 0) + seq![
        RequestView::Run(extract_invocation_view(archive, scratch)),
        RequestView::ListDir(scratch),
    ]
}

/// The extractor having finished with `result`.
pub open spec fn extract_done(result: Result<Seq<char>, InstallErrorView>) -> ExtractTurnView {
    TurnView::Done(result)
}

/// An extraction in which every step succeeds makes sure of the scratch
/// directory, removes everything that it held, runs the archive tool,
/// and gives the configuration root among what the scratch directory
/// then holds.
pub proof fn law_smooth_extraction(
    archive: Seq<char>,
    scratch: Seq<char>,
    existed: bool,
    old: Seq<DirEntryView>,
    stdout: Seq<char>,
    stderr: Seq<char>,
    found: Seq<DirEntryView>,
)
    ensures
        extract_run(
            extract_start(archive, scratch),
            smooth_extraction(existed, old, stdout, stderr, found),
        ) == (
            smooth_extraction_requests(archive, scratch, existed, old),
            extract_done(config_directory(scratch, found)),
        ),
{
    let opening = if existed {
        seq![ResponseView::Exists(true), ResponseView::Entries(old)]
    } else {
        seq![ResponseView::Exists(false), ResponseView::Done, ResponseView::Entries(old)]
    };
    let closing = seq![
        ResponseView::Exit { success: true, stdout, stderr },
        ResponseView::Entries(found),
    ];
    let start = extract_start(archive, scratch);
    let cleared = extract_clear(archive, scratch, old, 0);
    let extracting = extracting_turn(archive, scratch);
    let done = extract_done(config_directory(scratch, found));
    // The opening leads to the first removal.
    assert(extract_run(start, opening).1 == cleared && extract_run(start, opening).0 == if existed {
        seq![RequestView::PathExists(scratch), RequestView::ListDir(scratch)]
    } else {
        seq![
            RequestView::PathExists(scratch),
            RequestView::CreateDirAll(scratch),
            RequestView::ListDir(scratch),
        ]
    }) by {
        reveal_with_fuel(extract_run, 5);
        if existed {
            assert(opening.drop_first() =~= seq![ResponseView::Entries(old)]);
            assert(opening.drop_first().drop_first() =~= Seq::<ResponseView>::empty());
            assert(extract_run(start, opening).0 =~= seq![
                RequestView::PathExists(scratch),
                RequestView::ListDir(scratch),
            ]);
        } else {
            assert(opening.drop_first() =~= seq![ResponseView::Done, ResponseView::Entries(old)]);
            assert(opening.drop_first().drop_first() =~= seq![ResponseView::Entries(old)]);
            assert(opening.drop_first().drop_first().drop_first() =~= Seq::<ResponseView>::empty());
            assert(extract_run(start, opening).0 =~= seq![
                RequestView::PathExists(scratch),
                RequestView::CreateDirAll(scratch),
                RequestView::ListDir(scratch),
            ]);
        }
    }
    law_scratch_is_cleared_before_extraction(archive, scratch, old, 0);
    // The closing leads from the tool to the result.
    assert(extract_run(extracting, closing) == (
        seq![
            RequestView::Run(extract_invocation_view(archive, scratch)),
            RequestView::ListDir(scratch),
        ],
        done,
    )) by {
        reveal_with_fuel(extract_run, 4);
        assert(closing.drop_first() =~= seq![ResponseView::Entries(found)]);
        assert(closing.drop_first().drop_first() =~= Seq::<ResponseView>::empty());
        assert(extract_run(extracting, closing).0 =~= seq![
            RequestView::Run(extract_invocation_view(archive, scratch)),
            RequestView::ListDir(scratch),
        ]);
    }
    lemma_extract_run_concat(start, opening, done_answers(old.len()));
    lemma_extract_run_concat(start, opening + done_answers(old.len()), closing);
}

} // verus!
