//! Reading the arguments of a chat command, one after the other.
//!
//! The arguments come as the framework's `Args`: the text behind the
//! command's name, cut at the delimiters, with a position in it. How a text
//! is cut and how quotes are taken off is the framework's business: what a
//! read gives is named here, not spelled out. It depends on the argument
//! list alone.
use vstd::prelude::*;
use serenity::framework::standard::Args;

verus! {

/// The framework's list of arguments. Nothing of its inside is used here.
#[verifier::external_type_specification]
#[verifier::external_body]
pub struct ExArgs(Args);

/// What the next argument of `args` reads as when it is read as a whole
/// number: nothing where no argument is left or where it does not read as
/// one.
pub uninterp spec fn next_i32(args: Args) -> Option<i32>;

/// What the next argument of `args` reads as when it is read as a count:
/// nothing where no argument is left or where it does not read as one.
pub uninterp spec fn next_usize(args: Args) -> Option<usize>;

/// The next argument of `args` as text: nothing where no argument is left.
pub uninterp spec fn next_text(args: Args) -> Option<Seq<char>>;

/// The next argument of `args` as text, without the quotes around it:
/// nothing where no argument is left.
pub uninterp spec fn next_quoted_text(args: Args) -> Option<Seq<char>>;

/// What is read as a whole number from `args` once its next argument has
/// been read as text.
pub uninterp spec fn count_after_text(args: Args) -> Option<i32>;

/// What is read as a whole number from `args` once its next argument has
/// been read as text without its quotes.
pub uninterp spec fn count_after_quoted_text(args: Args) -> Option<i32>;

/// What an optional text reads as.
pub open spec fn text_of(text: Option<String>) -> Option<Seq<char>> {
    match text {
        Some(t) => Some(t@),
        None => None,
    }
}

/// `Args::single::<i32>` of the framework: the current argument read as a
/// whole number, if there is one and it reads as such. The result is the
/// one that goes by the name `next_i32`.
#[verifier::external_body]
pub(crate) fn single_i32(args: &mut Args) -> (parsed: Option<i32>)
    ensures
        parsed == next_i32(*old(args)),
{
    args.single::<i32>().ok()
}

/// `Args::single::<usize>` of the framework: the current argument read as a
/// count, if there is one and it reads as such. The result is the one that
/// goes by the name `next_usize`.
#[verifier::external_body]
pub(crate) fn single_usize(args: &mut Args) -> (parsed: Option<usize>)
    ensures
        parsed == next_usize(*old(args)),
{
    args.single::<usize>().ok()
}

/// `Args::single::<String>` of the framework: the current argument as text,
/// if there is one. The result is the one that goes by the name
/// `next_text`; and what a whole number reads as from the list as this call
/// leaves it goes by the name `count_after_text`.
#[verifier::external_body]
pub(crate) fn single_string(args: &mut Args) -> (parsed: Option<String>)
    ensures
        text_of(parsed) == next_text(*old(args)),
        next_i32(*final(args)) == count_after_text(*old(args)),
{
    args.single::<String>().ok()
}

/// `Args::single_quoted::<String>` of the framework: the current argument as
/// text, without the quotes around it, if there is one. The result is the
/// one that goes by the name `next_quoted_text`; and what a whole number
/// reads as from the list as this call leaves it goes by the name
/// `count_after_quoted_text`.
#[verifier::external_body]
pub(crate) fn single_quoted_string(args: &mut Args) -> (parsed: Option<String>)
    ensures
        text_of(parsed) == next_quoted_text(*old(args)),
        next_i32(*final(args)) == count_after_quoted_text(*old(args)),
{
    args.single_quoted::<String>().ok()
}

} // verus!
