//! Where the link goes: the destination as given, completed by the name of
//! the source where the destination leaves the name open.

use crate::errors::{Error, ErrorView};
use crate::path::{
    ends_with_separator, file_name, has_trailing_separator, is_normal_component, join,
    lemma_file_name_after_directory, lemma_file_name_is_normal, lemma_join_is_concatenation,
    lemma_no_file_name, spec_file_name, spec_join, DOT, SEPARATOR,
};
use vstd::prelude::*;
use vstd::slice::slice_to_vec;

verus! {

/// The destination that `dst` stands for when linking to `src`:
/// - an empty `dst` stands for the file name of `src`;
/// - a `dst` that ends in the separator stands for `dst` joined with the file
///   name of `src`;
/// - any other `dst` stands for itself.
///
/// There is none where the file name of `src` is needed and `src` has none.
pub open spec fn spec_expand_destination(src: Seq<u8>, dst: Seq<u8>) -> Option<Seq<u8>> {
    if dst.len() == 0 {
        spec_file_name(src)
    } else if ends_with_separator(dst) {
        match spec_file_name(src) {
            Some(name) => Some(spec_join(dst, name)),
            None => None,
        }
    } else {
        Some(dst)
    }
}

/// Expands `dst` based on `src`.
///
/// The file name of `src` is returned if `dst` is empty. The file name of
/// `src` is appended to `dst` and then returned if `dst` ends with the
/// separator. Otherwise `dst` is returned. Fails with
/// [`Error::NoBasename`] exactly when the file name of `src` is needed and
/// `src` has none.
pub fn expand_destination(src: &[u8], dst: &[u8]) -> (r: Result<Vec<u8>, Error>)
    ensures
        match r {
            Ok(path) => spec_expand_destination(src@, dst@) == Some(path@),
            Err(e) => spec_expand_destination(src@, dst@) is None && e@ == ErrorView::NoBasename(
                src@,
            ),
        },
{
    if dst.len() == 0 {
        match file_name(src) {
            Some(name) => Ok(slice_to_vec(name)),
            None => Err(Error::NoBasename(slice_to_vec(src))),
        }
    } else if has_trailing_separator(dst) {
        match file_name(src) {
            Some(name) => Ok(join(dst, name)),
            None => Err(Error::NoBasename(slice_to_vec(src))),
        }
    } else {
        Ok(slice_to_vec(dst))
    }
}

/// With an empty destination, the link is named after the source: the result
/// is the file name of the source alone, a single component with no
/// directory in front of it.
pub proof fn lemma_empty_destination_is_file_name(src: Seq<u8>)
    requires
        spec_file_name(src) is Some,
    ensures
        spec_expand_destination(src, Seq::empty()) == spec_file_name(src),
        is_normal_component(spec_expand_destination(src, Seq::empty())->0),
{
    lemma_file_name_is_normal(src);
}

/// With a destination that ends in the separator, the result is the
/// destination joined with the file name of the source, which is the
/// destination followed by that name.
pub proof fn lemma_directory_destination_is_joined(src: Seq<u8>, dst: Seq<u8>)
    requires
        ends_with_separator(dst),
        spec_file_name(src) is Some,
    ensures
        spec_expand_destination(src, dst) == Some(spec_join(dst, spec_file_name(src)->0)),
        spec_expand_destination(src, dst) == Some(dst + spec_file_name(src)->0),
{
    lemma_file_name_is_normal(src);
    lemma_join_is_concatenation(dst, spec_file_name(src)->0);
}

/// A non-empty destination that does not end in the separator is kept as it
/// is, whatever the source; expanding the result once more changes nothing.
pub proof fn lemma_plain_destination_is_kept(src: Seq<u8>, dst: Seq<u8>)
    requires
        dst.len() > 0,
        !ends_with_separator(dst),
    ensures
        spec_expand_destination(src, dst) == Some(dst),
        spec_expand_destination(src, spec_expand_destination(src, dst)->0) == Some(dst),
{
}

/// Where the name of the source is needed, that is with a destination that is
/// empty or ends in the separator, a source that is empty, `.`, `..` or the
/// root gives no destination.
pub proof fn lemma_no_basename(src: Seq<u8>, dst: Seq<u8>)
    requires
        src.len() == 0 || src =~= seq![DOT] || src =~= seq![DOT, DOT] || src =~= seq![SEPARATOR],
        dst.len() == 0 || ends_with_separator(dst),
    ensures
        spec_expand_destination(src, dst) is None,
{
    lemma_no_file_name(src);
}

/// A destination that was named after the source has the file name of the
/// source as its own.
pub proof fn lemma_expanded_keeps_file_name(src: Seq<u8>, dst: Seq<u8>)
    requires
        dst.len() == 0 || ends_with_separator(dst),
        spec_expand_destination(src, dst) is Some,
    ensures
        spec_file_name(spec_expand_destination(src, dst)->0) == spec_file_name(src),
{
    let name = spec_file_name(src)->0;
    lemma_file_name_is_normal(src);
    lemma_join_is_concatenation(dst, name);
    lemma_file_name_after_directory(dst, name);
    assert(Seq::<u8>::empty() + name =~= name);
}

/// Expanding is idempotent: an expanded destination stands for itself.
pub proof fn lemma_expand_is_idempotent(src: Seq<u8>, dst: Seq<u8>)
    requires
        spec_expand_destination(src, dst) is Some,
    ensures
        spec_expand_destination(src, spec_expand_destination(src, dst)->0)
            == spec_expand_destination(src, dst),
{
    if dst.len() == 0 || ends_with_separator(dst) {
        let name = spec_file_name(src)->0;
        lemma_file_name_is_normal(src);
        lemma_join_is_concatenation(dst, name);
        let out = spec_expand_destination(src, dst)->0;
        assert(out =~= dst + name);
        assert(out.last() == name.last());
    }
}

} // verus!
