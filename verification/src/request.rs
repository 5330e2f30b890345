//! Building the request that asks the daemon to add torrents.
//!
//! The request itself is a `TorrentAddDescriptor` of the `qbittorrent_rust`
//! crate. That crate keeps its fields to itself, so what a descriptor holds is
//! spoken of through [`descriptor_urls`], [`descriptor_paths`] and
//! [`descriptor_options`].

use vstd::prelude::*;
use qbittorrent_rust::{Torrent, TorrentAddDescriptor, TorrentType};
use crate::failure::{Failure, FailureKind, FailureView};
use crate::locator::{LocatorView, TorrentLocator};

verus! {

/// `qbittorrent_rust::Torrent`: one torrent to add, a URL or a file path.
#[verifier::external_type_specification]
#[verifier::external_body]
pub struct ExTorrent(qbittorrent_rust::Torrent);

/// `qbittorrent_rust::TorrentAddDescriptor`: the torrents of one request to
/// the daemon, with the options that go with them.
#[verifier::external_type_specification]
#[verifier::external_body]
pub struct ExTorrentAddDescriptor(qbittorrent_rust::TorrentAddDescriptor);

/// `qbittorrent_rust::Error`: a failure reported by that crate.
#[verifier::external_type_specification]
#[verifier::external_body]
pub struct ExDaemonError(qbittorrent_rust::Error);

/// What a `Torrent` was made from: a URL, or the path of a torrent file.
pub uninterp spec fn torrent_target(torrent: Torrent) -> LocatorView;

/// The URLs that a descriptor lists, in the order in which they were given.
pub uninterp spec fn descriptor_urls(descriptor: TorrentAddDescriptor) -> Seq<Seq<char>>;

/// The paths of the torrent files that a descriptor lists, in the order in
/// which they were given.
pub uninterp spec fn descriptor_paths(descriptor: TorrentAddDescriptor) -> Seq<Seq<char>>;

/// The options for which a descriptor holds a value of its own, by the names
/// of its fields: the optional fields that are not `None`, and `root_folder`
/// where it is not `unset`.
pub uninterp spec fn descriptor_options(descriptor: TorrentAddDescriptor) -> Set<Seq<char>>;

/// The text in the `message` field of an error.
pub uninterp spec fn error_message(error: qbittorrent_rust::Error) -> Seq<char>;

/// The texts of the remote locators among `locators`, in their order.
pub open spec fn remote_targets(locators: Seq<LocatorView>) -> Seq<Seq<char>> {
    locators.filter_map(
        |l: LocatorView|
            match l {
                LocatorView::Remote(url) => Some(url),
                LocatorView::LocalFile(_) => None,
            },
    )
}

/// The texts of the local files among `locators`, in their order.
pub open spec fn local_targets(locators: Seq<LocatorView>) -> Seq<Seq<char>> {
    locators.filter_map(
        |l: LocatorView|
            match l {
                LocatorView::Remote(_) => None,
                LocatorView::LocalFile(path) => Some(path),
            },
    )
}

/// The text with which a request for no torrent at all is refused.
pub open spec fn no_torrents_text() -> Seq<char> {
    "no torrents were specified."@
}

/// Calls `Torrent::new` with `TorrentType::Url`. The torrent keeps the text
/// as a URL.
#[verifier::external_body]
fn url_torrent(url: &str) -> (torrent: Torrent)
    ensures
        torrent_target(torrent) == LocatorView::Remote(url@),
{
    Torrent::new(TorrentType::Url(url))
}

/// Calls `Torrent::new` with `TorrentType::TorrentFile`. The torrent keeps
/// the text as the path of a file; the file is not opened.
#[verifier::external_body]
fn file_torrent(path: &str) -> (torrent: Torrent)
    ensures
        torrent_target(torrent) == LocatorView::LocalFile(path@),
{
    Torrent::new(TorrentType::TorrentFile(path))
}

/// The torrent that stands for `locator` in a request.
fn new_torrent(locator: &TorrentLocator) -> (torrent: Torrent)
    ensures
        torrent_target(torrent) == locator@,
{
    match locator {
        TorrentLocator::Remote(url) => url_torrent(url.as_str()),
        TorrentLocator::LocalFile(path) => file_torrent(path.as_str()),
    }
}

/// Calls `TorrentAddDescriptor::new`, which makes a builder of the torrents
/// and builds at once. It fails only for an empty list, with the error whose
/// message is [`no_torrents_text`]. Otherwise the descriptor lists the URLs
/// and the file paths of the torrents apart, each in the order given, and
/// since no setter was called, every option is as the builder starts with it.
#[verifier::external_body]
fn new_descriptor(torrents: Vec<Torrent>) -> (built: Result<
    TorrentAddDescriptor,
    qbittorrent_rust::Error,
>)
    ensures
        built is Ok <==> torrents@.len() > 0,
        built matches Ok(descriptor) ==> {
            let targets = torrents@.map_values(|t: Torrent| torrent_target(t));
            &&& descriptor_urls(descriptor) == remote_targets(targets)
            &&& descriptor_paths(descriptor) == local_targets(targets)
            &&& descriptor_options(descriptor) == Set::<Seq<char>>::empty()
        },
        built matches Err(error) ==> error_message(error) == no_torrents_text(),
{
    TorrentAddDescriptor::new(torrents)
}

/// Reads the public field `message` of a `qbittorrent_rust::Error`.
#[verifier::external_body]
fn message_of(error: &qbittorrent_rust::Error) -> (text: String)
    ensures
        text@ == error_message(*error),
{
    error.message.clone()
}

/// A request to add torrents, with the daemon's own defaults for everything
/// else: where to save, which category, whether to start at once.
#[derive(Debug)]
pub struct SubmissionRequest {
    pub descriptor: TorrentAddDescriptor,
}

/// The mathematical value of a [`SubmissionRequest`]: what it asks the daemon
/// to fetch, which local files it sends, and which of the daemon's defaults
/// it overrides.
pub struct RequestView {
    pub urls: Seq<Seq<char>>,
    pub paths: Seq<Seq<char>>,
    pub options: Set<Seq<char>>,
}

impl RequestView {
    /// A request names at least one torrent, and this program overrides none
    /// of the daemon's defaults.
    pub open spec fn well_formed(self) -> bool {
        self.urls.len() + self.paths.len() > 0 && self.options == Set::<Seq<char>>::empty()
    }
}

impl View for SubmissionRequest {
    type V = RequestView;

    open spec fn view(&self) -> RequestView {
        RequestView {
            urls: descriptor_urls(self.descriptor),
            paths: descriptor_paths(self.descriptor),
            options: descriptor_options(self.descriptor),
        }
    }
}

/// The mathematical values of a list of locators.
pub open spec fn locator_views(locators: Seq<TorrentLocator>) -> Seq<LocatorView> {
    locators.map_values(|l: TorrentLocator| l@)
}

/// The request for `locators`: remote ones are listed as URLs, local ones as
/// paths, and every option is left to the daemon. There is no request for an
/// empty list.
pub open spec fn request_for(locators: Seq<LocatorView>) -> Result<RequestView, FailureView> {
    if locators.len() > 0 {
        Ok(
            RequestView {
                urls: remote_targets(locators),
                paths: local_targets(locators),
                options: Set::empty(),
            },
        )
    } else {
        Err(FailureView { kind: FailureKind::Submission, message: no_torrents_text() })
    }
}

/// The request for one locator alone: a remote one is the only URL, a local
/// one the only path.
pub open spec fn single_request(locator: LocatorView) -> RequestView {
    match locator {
        LocatorView::Remote(url) => RequestView {
            urls: seq![url],
            paths: Seq::empty(),
            options: Set::empty(),
        },
        LocatorView::LocalFile(path) => RequestView {
            urls: Seq::empty(),
            paths: seq![path],
            options: Set::empty(),
        },
    }
}

/// Every locator is listed once, as a URL or as a path.
pub proof fn lemma_every_locator_is_listed(locators: Seq<LocatorView>)
    ensures
        remote_targets(locators).len() + local_targets(locators).len() == locators.len(),
    decreases locators.len(),
{
    if locators.len() > 0 {
        lemma_every_locator_is_listed(locators.drop_last());
    }
}

/// A request that could be built is well formed.
pub proof fn lemma_request_is_well_formed(locators: Seq<LocatorView>)
    ensures
        request_for(locators) matches Ok(request) ==> request.well_formed(),
{
    lemma_every_locator_is_listed(locators);
}

/// There is always a request for one locator, and it is [`single_request`].
pub proof fn lemma_request_for_one(locator: LocatorView)
    ensures
        request_for(seq![locator]) == Ok::<RequestView, FailureView>(single_request(locator)),
{
    let one = seq![locator];
    reveal_with_fuel(Seq::filter_map, 2);
    assert(one.drop_last() =~= Seq::<LocatorView>::empty());
    assert(remote_targets(one) =~= single_request(locator).urls);
    assert(local_targets(one) =~= single_request(locator).paths);
}

impl SubmissionRequest {
    /// Builds the request that adds `locators`, with no option set.
    pub fn new(locators: &Vec<TorrentLocator>) -> (built: Result<SubmissionRequest, Failure>)
        ensures
            match built {
                Ok(request) => request_for(locator_views(locators@)) == Ok::<
                    RequestView,
                    FailureView,
                >(request@),
                Err(failure) => request_for(locator_views(locators@)) == Err::<
                    RequestView,
                    FailureView,
                >(failure@),
            },
            built matches Ok(request) ==> request@.well_formed(),
    {
        let mut torrents: Vec<Torrent> = Vec::new();
        let mut at: usize = 0;
        while at < locators.len()
            invariant
                at <= locators.len(),
                torrents@.len() == at,
                forall|k: int|
                    0 <= k < at ==> torrent_target(#[trigger] torrents@[k]) == locators@[k]@,
            decreases locators.len() - at,
        {
            torrents.push(new_torrent(&locators[at]));
            at += 1;
        }
        proof {
            assert(torrents@.map_values(|t: Torrent| torrent_target(t)) =~= locator_views(
                locators@,
            ));
            lemma_request_is_well_formed(locator_views(locators@));
        }
        match new_descriptor(torrents) {
            Ok(descriptor) => Ok(SubmissionRequest { descriptor }),
            Err(error) => Err(
                Failure { kind: FailureKind::Submission, message: message_of(&error) },
            ),
        }
    }
}

} // verus!
