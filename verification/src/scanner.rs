//! The launch argument scanner: which argument, if any, names a data file.

use vstd::prelude::*;

verus! {

/// `c` with an ASCII capital letter turned into its small letter. No
/// character outside ASCII has a lower case that is a letter of a data-file
/// extension, so folding the others would decide nothing here.
pub open spec fn ascii_lower(c: char) -> char {
    if 'A' <= c <= 'Z' {
        ((c as u8 + 32) as u8) as char
    } else {
        c
    }
}

/// `s` with every character folded by [`ascii_lower`].
pub open spec fn lowered(s: Seq<char>) -> Seq<char> {
    Seq::new(s.len(), |i: int| ascii_lower(s[i]))
}

/// The primary extension of a data file.
pub open spec fn primary_extension() -> Seq<char> {
    seq!['.', 'h', '5']
}

/// The legacy extension of a data file.
pub open spec fn legacy_extension() -> Seq<char> {
    seq!['.', 'h', 'd', 'f', '5']
}

/// The short form of the legacy extension.
pub open spec fn short_legacy_extension() -> Seq<char> {
    seq!['.', 'h', 'd', 'f']
}

/// Whether `arg`, compared without regard to case, ends with one of the
/// three extensions of a data file.
pub open spec fn is_data_file_name(arg: Seq<char>) -> bool {
    let lower = lowered(arg);
    ||| primary_extension().is_suffix_of(lower)
    ||| legacy_extension().is_suffix_of(lower)
    ||| short_legacy_extension().is_suffix_of(lower)
}

/// The name of a data file has at least three characters, and its last one
/// is a letter or a digit of the extension, in either case.
pub proof fn lemma_data_file_name_ending(arg: Seq<char>)
    requires
        is_data_file_name(arg),
    ensures
        arg.len() >= 3,
        ascii_lower(arg.last()) == '5' || ascii_lower(arg.last()) == 'f',
{
    let lower = lowered(arg);
    let n = arg.len() as int;
    if primary_extension().is_suffix_of(lower) {
        assert(lower.subrange(n - 3, n)[2] == lower[n - 1]);
    } else if legacy_extension().is_suffix_of(lower) {
        assert(lower.subrange(n - 5, n)[4] == lower[n - 1]);
    } else {
        assert(lower.subrange(n - 4, n)[3] == lower[n - 1]);
    }
}

/// Whether `index` is the place of the first argument after the executable's
/// own name that names a data file.
pub open spec fn is_first_data_file(args: Seq<Seq<char>>, index: int) -> bool {
    &&& 1 <= index < args.len()
    &&& is_data_file_name(args[index])
    &&& forall|j: int| 1 <= j < index ==> !is_data_file_name(#[trigger] args[j])
}

/// The place of the argument that a launch hands over, if there is one.
pub open spec fn first_data_file(args: Seq<Seq<char>>) -> Option<int> {
    if exists|i: int| is_first_data_file(args, i) {
        Some(choose|i: int| is_first_data_file(args, i))
    } else {
        None
    }
}

/// At most one place is the first.
pub proof fn lemma_first_data_file_unique(args: Seq<Seq<char>>, i: int, j: int)
    requires
        is_first_data_file(args, i),
        is_first_data_file(args, j),
    ensures
        i == j,
{
}

/// [`first_data_file`] is the place that [`is_first_data_file`] describes.
pub proof fn lemma_first_data_file_is(args: Seq<Seq<char>>, i: int)
    requires
        is_first_data_file(args, i),
    ensures
        first_data_file(args) == Some(i),
{
    let k = choose|k: int| is_first_data_file(args, k);
    lemma_first_data_file_unique(args, i, k);
}

/// Without a data file among the arguments after the first, there is no
/// place to hand over.
pub proof fn lemma_first_data_file_none(args: Seq<Seq<char>>)
    requires
        forall|j: int| 1 <= j < args.len() ==> !is_data_file_name(#[trigger] args[j]),
    ensures
        first_data_file(args) is None,
{
}

/// Folds one character as [`ascii_lower`] does.
fn fold(c: char) -> (r: char)
    ensures
        r == ascii_lower(c),
{
    if 'A' <= c && c <= 'Z' {
        ((c as u8) + 32) as char
    } else {
        c
    }
}

/// Whether `arg`, of `len` characters, ends with `suffix` once folded.
fn ends_with_folded(arg: &str, len: usize, suffix: &str) -> (r: bool)
    requires
        len == arg@.len(),
    ensures
        r == suffix@.is_suffix_of(lowered(arg@)),
{
    let width: usize = suffix.unicode_len();
    if width > len {
        return false;
    }
    let base: usize = len - width;
    let mut k: usize = 0;
    while k < width
        invariant
            k <= width,
            width == suffix@.len(),
            len == arg@.len(),
            base + width == len,
            forall|j: int| 0 <= j < k ==> suffix@[j] == ascii_lower(#[trigger] arg@[base + j]),
        decreases width - k,
    {
        if fold(arg.get_char(base + k)) != suffix.get_char(k) {
            proof {
                let tail = lowered(arg@).subrange(base as int, len as int);
                assert(tail[k as int] == ascii_lower(arg@[base + k]));
            }
            return false;
        }
        k = k + 1;
    }
    proof {
        let tail = lowered(arg@).subrange(base as int, len as int);
        assert forall|j: int| 0 <= j < width implies suffix@[j] == tail[j] by {
            assert(tail[j] == ascii_lower(arg@[base + j]));
        }
        assert(suffix@ =~= tail);
    }
    true
}

/// Decides whether `arg` names a data file: whether it ends, in any mix of
/// upper and lower case, with `.h5`, `.hdf5` or `.hdf`.
pub fn is_data_file(arg: &str) -> (r: bool)
    ensures
        r == is_data_file_name(arg@),
{
    let len: usize = arg.unicode_len();
    proof {
        reveal_strlit(".h5");
        reveal_strlit(".hdf5");
        reveal_strlit(".hdf");
        assert(".h5"@ =~= primary_extension());
        assert(".hdf5"@ =~= legacy_extension());
        assert(".hdf"@ =~= short_legacy_extension());
    }
    ends_with_folded(arg, len, ".h5") || ends_with_folded(arg, len, ".hdf5") || ends_with_folded(
        arg,
        len,
        ".hdf",
    )
}

/// Scans the launch arguments, the executable's own name first, for the
/// first one that names a data file, and gives its place.
pub fn find_data_file(args: &Vec<String>) -> (found: Option<usize>)
    ensures
        match found {
            Some(i) => first_data_file(args.deep_view()) == Some(i as int),
            None => first_data_file(args.deep_view()) is None,
        },
{
    let ghost views = args.deep_view();
    let mut i: usize = 1;
    while i < args.len()
        invariant
            1 <= i,
            views == args.deep_view(),
            forall|j: int| 1 <= j < i && j < views.len() ==> !is_data_file_name(#[trigger] views[j]),
        decreases args.len() - i,
    {
        assert(views[i as int] == args[i as int]@);
        if is_data_file(args[i].as_str()) {
            proof {
                lemma_first_data_file_is(views, i as int);
            }
            return Some(i);
        }
        i = i + 1;
    }
    proof {
        lemma_first_data_file_none(views);
    }
    None
}

} // verus!
