//! What a launch followed by the window's question delivers.

use crate::reader::{pending_path, MarkerView};
use crate::scanner::{
    first_data_file, is_data_file_name, is_first_data_file, legacy_extension,
    lemma_data_file_name_ending, lemma_first_data_file_is, lemma_first_data_file_none, lowered,
    primary_extension, short_legacy_extension,
};
use crate::store::{marker_after_launch, marker_after_take};
use crate::text::{
    is_white_space, lemma_trim_end_at, lemma_trim_start_at, lemma_trimmed_keeps_last, trimmed,
};
use vstd::prelude::*;

verus! {

/// The text of an argument that names a data file comes back from the
/// marker as it went in, unless it begins with white space: it cannot end
/// with any.
pub proof fn lemma_data_file_name_survives(arg: Seq<char>)
    requires
        is_data_file_name(arg),
        !is_white_space(arg.first()),
    ensures
        trimmed(arg) == arg,
{
    lemma_data_file_name_ending(arg);
    lemma_trim_start_at(arg, 0);
    assert(arg.subrange(0, arg.len() as int) =~= arg);
    lemma_trim_end_at(arg, arg.len() as int);
}

/// After a launch whose arguments name no data file, the window is told
/// that nothing is pending, provided that no path was waiting in the marker
/// before the launch.
pub proof fn lemma_no_data_file_nothing_pending(before: MarkerView, args: Seq<Seq<char>>)
    requires
        forall|j: int| 1 <= j < args.len() ==> !is_data_file_name(#[trigger] args[j]),
        pending_path(before) is None,
    ensures
        pending_path(marker_after_launch(before, args)) is None,
{
    lemma_first_data_file_none(args);
}

/// After a launch with exactly one data file among its arguments, at any
/// place after the executable's name, the window is given that argument in
/// its own spelling, and a second question finds nothing: the first one left
/// no marker. This holds whatever the marker held before, for an argument
/// that does not begin with white space.
pub proof fn lemma_single_data_file_delivered_once(
    before: MarkerView,
    args: Seq<Seq<char>>,
    i: int,
)
    requires
        1 <= i < args.len(),
        is_data_file_name(args[i]),
        forall|j: int| 1 <= j < args.len() && j != i ==> !is_data_file_name(#[trigger] args[j]),
        !is_white_space(args[i].first()),
    ensures
        pending_path(marker_after_launch(before, args)) == Some(args[i]),
        pending_path(marker_after_take(marker_after_launch(before, args))) is None,
{
    lemma_first_data_file_is(args, i);
    lemma_data_file_name_survives(args[i]);
}

/// Asking consumes: whatever the marker held, the question leaves none, so
/// the next question, with no launch in between, finds nothing pending.
pub proof fn lemma_second_question_finds_nothing(before: MarkerView)
    ensures
        pending_path(marker_after_take(before)) is None,
        marker_after_take(marker_after_take(before)) == marker_after_take(before),
{
}

/// Case does not matter to the scan: two arguments that differ only in the
/// case of their ASCII letters both name a data file, or neither does.
pub proof fn lemma_case_insensitive(a: Seq<char>, b: Seq<char>)
    requires
        lowered(a) == lowered(b),
    ensures
        is_data_file_name(a) == is_data_file_name(b),
{
}

/// An argument names a data file whenever it ends with an extension in any
/// mix of upper and lower case.
pub proof fn lemma_extension_in_any_case(stem: Seq<char>, ending: Seq<char>)
    requires
        lowered(ending) == primary_extension() || lowered(ending) == legacy_extension() || lowered(
            ending,
        ) == short_legacy_extension(),
    ensures
        is_data_file_name(stem + ending),
{
    let arg = stem + ending;
    let lower = lowered(arg);
    let tail = lower.subrange(arg.len() - ending.len(), arg.len() as int);
    assert(tail =~= lowered(ending)) by {
        assert forall|k: int| 0 <= k < ending.len() implies tail[k] == lowered(ending)[k] by {
            assert(arg[stem.len() + k] == ending[k]);
        }
    }
}

/// With several data files among the arguments, only the one at the lowest
/// place reaches the marker, and so the window.
pub proof fn lemma_first_data_file_wins(before: MarkerView, args: Seq<Seq<char>>, i: int, j: int)
    requires
        is_first_data_file(args, i),
        i < j < args.len(),
        is_data_file_name(args[j]),
    ensures
        first_data_file(args) == Some(i),
        marker_after_launch(before, args) == MarkerView::Holding(args[i]),
        pending_path(marker_after_launch(before, args)) == Some(trimmed(args[i])),
{
    lemma_first_data_file_is(args, i);
    // What is left of a data file's name after trimming still ends with the
    // extension, so it is not empty.
    lemma_data_file_name_ending(args[i]);
    lemma_trimmed_keeps_last(args[i]);
}

/// The marker holds one path at most, and the last launch to write it wins:
/// a launch that finds a data file leaves that one in the marker, whatever
/// an earlier launch had left there unread.
pub proof fn lemma_last_launch_wins(
    before: MarkerView,
    earlier: Seq<Seq<char>>,
    later: Seq<Seq<char>>,
    i: int,
)
    requires
        is_first_data_file(later, i),
    ensures
        marker_after_launch(marker_after_launch(before, earlier), later) == MarkerView::Holding(
            later[i],
        ),
        marker_after_launch(marker_after_launch(before, earlier), later) == marker_after_launch(
            before,
            later,
        ),
{
    lemma_first_data_file_is(later, i);
}

} // verus!
