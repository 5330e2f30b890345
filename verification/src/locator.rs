//! Telling a remote torrent reference from a local torrent file.

use vstd::prelude::*;
use crate::text::starts_with;

verus! {

/// A torrent reference as the user gave it, sorted by where the daemon has to
/// look for the torrent.
#[derive(Debug, Clone, PartialEq, Eq)]
pub enum TorrentLocator {
    /// A magnet URI or an HTTPS URL that the daemon fetches itself.
    Remote(String),
    /// The path of a `.torrent` file on this machine.
    LocalFile(String),
}

/// The mathematical value of a [`TorrentLocator`].
pub enum LocatorView {
    Remote(Seq<char>),
    LocalFile(Seq<char>),
}

impl LocatorView {
    /// The text that was classified.
    pub open spec fn target(self) -> Seq<char> {
        match self {
            LocatorView::Remote(text) => text,
            LocatorView::LocalFile(text) => text,
        }
    }
}

impl View for TorrentLocator {
    type V = LocatorView;

    open spec fn view(&self) -> LocatorView {
        match self {
            TorrentLocator::Remote(text) => LocatorView::Remote(text@),
            TorrentLocator::LocalFile(text) => LocatorView::LocalFile(text@),
        }
    }
}

/// An input names a remote torrent when it begins with `magnet:?` or with
/// `https://`.
pub open spec fn is_remote(input: Seq<char>) -> bool {
    "magnet:?"@.is_prefix_of(input) || "https://"@.is_prefix_of(input)
}

/// The locator that an input stands for. Every text has one: whatever is not
/// remote is taken for a path, whether or not a file is there.
pub open spec fn classification(input: Seq<char>) -> LocatorView {
    if is_remote(input) {
        LocatorView::Remote(input)
    } else {
        LocatorView::LocalFile(input)
    }
}

/// Classifying keeps the text as it is, so classifying the text of a locator
/// gives that locator again.
pub proof fn lemma_classification_is_idempotent(input: Seq<char>)
    ensures
        classification(input).target() == input,
        classification(classification(input).target()) == classification(input),
{
}

/// A text is classified as remote exactly when it begins with one of the two
/// prefixes; a text that begins with both would still be remote.
pub proof fn lemma_remote_by_prefix(input: Seq<char>)
    ensures
        "magnet:?"@.is_prefix_of(input) ==> classification(input) == LocatorView::Remote(input),
        "https://"@.is_prefix_of(input) ==> classification(input) == LocatorView::Remote(input),
        !"magnet:?"@.is_prefix_of(input) && !"https://"@.is_prefix_of(input) ==> classification(
            input,
        ) == LocatorView::LocalFile(input),
{
}

/// Classifies `input` as a remote reference or a local file, keeping the text
/// unchanged.
pub fn classify(input: &str) -> (locator: TorrentLocator)
    ensures
        locator@ == classification(input@),
{
    if starts_with(input, "magnet:?") || starts_with(input, "https://") {
        TorrentLocator::Remote(input.to_owned())
    } else {
        TorrentLocator::LocalFile(input.to_owned())
    }
}

} // verus!
