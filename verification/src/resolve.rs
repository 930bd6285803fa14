//! From a chosen label back to the record that carries it.
//!
//! A prompt hands back a bare label. Where several records carry the same
//! label, the first of them in the list is the one meant.

use crate::error::InstallError;
use crate::model::{asset_names, release_tags, Asset, AssetView, Release, ReleaseView};
use crate::text::same_text;
use vstd::prelude::*;
use vstd::string::*;

verus! {

/// A record that is offered for selection under a label.
pub trait Labelled {
    /// The label of the record.
    spec fn label_of(&self) -> Seq<char>;

    /// The label of the record.
    fn label(&self) -> (label: &str)
        ensures
            label@ == self.label_of(),
    ;
}

impl Labelled for Release {
    open spec fn label_of(&self) -> Seq<char> {
        self@.tag_name
    }

    fn label(&self) -> (label: &str) {
        self.tag_name.as_str()
    }
}

impl Labelled for Asset {
    open spec fn label_of(&self) -> Seq<char> {
        self@.name
    }

    fn label(&self) -> (label: &str) {
        self.name.as_str()
    }
}

/// The labels of the records, in order.
pub open spec fn labels_of<T: Labelled>(items: Seq<T>) -> Seq<Seq<char>> {
    Seq::new(items.len(), |i: int| items[i].label_of())
}

/// The first position at or after `start` whose label is `label`.
pub open spec fn first_match_from(labels: Seq<Seq<char>>, label: Seq<char>, start: int) -> Option<
    int,
>
    decreases labels.len() - start,
{
    if start < 0 || start >= labels.len() {
        None
    } else if labels[start] == label {
        Some(start)
    } else {
        first_match_from(labels, label, start + 1)
    }
}

/// The first position whose label is `label`.
pub open spec fn first_match(labels: Seq<Seq<char>>, label: Seq<char>) -> Option<int> {
    first_match_from(labels, label, 0)
}

/// Whether no label occurs twice.
pub open spec fn distinct(labels: Seq<Seq<char>>) -> bool {
    forall|i: int, j: int| 0 <= i < j < labels.len() ==> labels[i] != labels[j]
}

/// The release that a chosen tag stands for.
pub open spec fn resolved_release(releases: Seq<ReleaseView>, tag: Seq<char>) -> Option<
    ReleaseView,
> {
    match first_match(release_tags(releases), tag) {
        Some(i) => Some(releases[i]),
        None => None,
    }
}

/// The asset of `release` that a chosen name stands for.
pub open spec fn resolved_asset(release: ReleaseView, name: Seq<char>) -> Option<AssetView> {
    match first_match(asset_names(release.assets), name) {
        Some(i) => Some(release.assets[i]),
        None => None,
    }
}

/// A search from `start` finds the first label equal to `label` at or after
/// `start`, and finds none only where there is none.
pub proof fn lemma_first_match_from(labels: Seq<Seq<char>>, label: Seq<char>, start: int)
    requires
        0 <= start,
    ensures
        match first_match_from(labels, label, start) {
            Some(i) => {
                &&& start <= i < labels.len()
                &&& labels[i] == label
                &&& forall|j: int| start <= j < i ==> labels[j] != label
            },
            None => forall|j: int| start <= j < labels.len() ==> labels[j] != label,
        },
    decreases labels.len() - start,
{
    if start < labels.len() && labels[start] != label {
        lemma_first_match_from(labels, label, start + 1);
    }
}

/// The search finds the first label equal to `label`, and finds none only
/// where no label equals it.
pub proof fn lemma_first_match(labels: Seq<Seq<char>>, label: Seq<char>)
    ensures
        match first_match(labels, label) {
            Some(i) => {
                &&& 0 <= i < labels.len()
                &&& labels[i] == label
                &&& forall|j: int| 0 <= j < i ==> labels[j] != label
            },
            None => forall|j: int| 0 <= j < labels.len() ==> labels[j] != label,
        },
{
    lemma_first_match_from(labels, label, 0);
}

/// Looking up the label of a record of the list finds a record with that
/// label, at or before the record's own place; where no label occurs twice it
/// finds the record itself.
pub proof fn lemma_member_is_found(labels: Seq<Seq<char>>, i: int)
    requires
        0 <= i < labels.len(),
    ensures
        first_match(labels, labels[i]) matches Some(j) && 0 <= j <= i && labels[j] == labels[i],
        distinct(labels) ==> first_match(labels, labels[i]) == Some(i),
{
    lemma_first_match(labels, labels[i]);
}

/// For every asset of a release, resolving the asset's name within the
/// release gives an asset of that name, listed at or before the asset's own
/// place; where the names within the release are unique, it gives the asset
/// itself.
pub proof fn lemma_asset_resolves(release: ReleaseView, i: int)
    requires
        0 <= i < release.assets.len(),
    ensures
        first_match(asset_names(release.assets), release.assets[i].name) matches Some(j) && {
            &&& 0 <= j <= i
            &&& release.assets[j].name == release.assets[i].name
            &&& resolved_asset(release, release.assets[i].name) == Some(release.assets[j])
        },
        distinct(asset_names(release.assets)) ==> first_match(
            asset_names(release.assets),
            release.assets[i].name,
        ) == Some(i),
{
    lemma_member_is_found(asset_names(release.assets), i);
}

/// For every release of a list, resolving the release's tag within the list
/// gives a release of that tag, listed at or before the release's own place;
/// where the tags are unique, it gives the release itself.
pub proof fn lemma_release_resolves(releases: Seq<ReleaseView>, i: int)
    requires
        0 <= i < releases.len(),
    ensures
        first_match(release_tags(releases), releases[i].tag_name) matches Some(j) && {
            &&& 0 <= j <= i
            &&& releases[j].tag_name == releases[i].tag_name
            &&& resolved_release(releases, releases[i].tag_name) == Some(releases[j])
        },
        distinct(release_tags(releases)) ==> first_match(
            release_tags(releases),
            releases[i].tag_name,
        ) == Some(i),
{
    lemma_member_is_found(release_tags(releases), i);
}

/// The asset that resolving a name gives belongs to the release.
pub proof fn lemma_resolved_asset_belongs(release: ReleaseView, name: Seq<char>)
    ensures
        resolved_asset(release, name) matches Some(found) ==> found.name == name
            && release.assets.contains(found),
{
    lemma_first_match(asset_names(release.assets), name);
}

/// The labels to offer for the records, in order.
pub fn labels<T: Labelled>(items: &Vec<T>) -> (labels: Vec<String>)
    ensures
        labels.deep_view() == labels_of(items@),
{
    let mut labels: Vec<String> = Vec::new();
    let mut i: usize = 0;
    while i < items.len()
        invariant
            i <= items.len(),
            labels.len() == i,
            forall|j: int| 0 <= j < i ==> (#[trigger] labels@[j])@ == items@[j].label_of(),
        decreases items.len() - i,
    {
        labels.push(items[i].label().to_owned());
        i = i + 1;
    }
    labels
}

/// The place of the first record whose label is `label`.
pub fn position<T: Labelled>(items: &Vec<T>, label: &str) -> (found: Option<usize>)
    ensures
        match found {
            Some(i) => first_match(labels_of(items@), label@) == Some(i as int),
            None => first_match(labels_of(items@), label@) is None,
        },
{
    let mut i: usize = 0;
    while i < items.len()
        invariant
            i <= items.len(),
            first_match(labels_of(items@), label@) == first_match_from(
                labels_of(items@),
                label@,
                i as int,
            ),
        decreases items.len() - i,
    {
        if same_text(items[i].label(), label) {
            return Some(i);
        }
        i = i + 1;
    }
    None
}

/// The first record whose label is `label`.
///
/// Fails with [`InstallError::NotFound`] exactly where no record carries the
/// label.
pub fn resolve<'a, T: Labelled>(items: &'a Vec<T>, label: &str) -> (found: Result<
    &'a T,
    InstallError,
>)
    ensures
        match found {
            Ok(item) => first_match(labels_of(items@), label@) matches Some(i) && *item
                == items@[i],
            Err(error) => error == InstallError::NotFound && first_match(
                labels_of(items@),
                label@,
            ) is None,
        },
{
    match position(items, label) {
        Some(i) => {
            proof {
                lemma_first_match(labels_of(items@), label@);
            }
            Ok(&items[i])
        },
        None => Err(InstallError::NotFound),
    }
}

/// The labels of releases are their tags.
pub proof fn lemma_release_labels(releases: Vec<Release>)
    ensures
        labels_of(releases@) == release_tags(releases.deep_view()),
{
    assert(labels_of(releases@) =~= release_tags(releases.deep_view()));
}

/// The labels of assets are their names.
pub proof fn lemma_asset_labels(assets: Vec<Asset>)
    ensures
        labels_of(assets@) == asset_names(assets.deep_view()),
{
    assert(labels_of(assets@) =~= asset_names(assets.deep_view()));
}

/// The first release whose tag is `tag`.
///
/// Fails with [`InstallError::NotFound`] exactly where no release has the tag.
pub fn resolve_release<'a>(releases: &'a Vec<Release>, tag: &str) -> (found: Result<
    &'a Release,
    InstallError,
>)
    ensures
        match found {
            Ok(release) => {
                &&& first_match(release_tags(releases.deep_view()), tag@) matches Some(i)
                &&& *release == releases@[i]
                &&& resolved_release(releases.deep_view(), tag@) == Some(release@)
            },
            Err(error) => error == InstallError::NotFound && resolved_release(
                releases.deep_view(),
                tag@,
            ) is None,
        },
{
    let found = resolve(releases, tag);
    proof {
        lemma_release_labels(*releases);
        lemma_first_match(release_tags(releases.deep_view()), tag@);
    }
    found
}

/// The first asset of `release` whose name is `name`.
///
/// Fails with [`InstallError::NotFound`] exactly where the release has no
/// asset of that name.
pub fn resolve_asset<'a>(release: &'a Release, name: &str) -> (found: Result<
    &'a Asset,
    InstallError,
>)
    ensures
        match found {
            Ok(asset) => {
                &&& first_match(asset_names(release@.assets), name@) matches Some(i)
                &&& *asset == release.assets@[i]
                &&& resolved_asset(release@, name@) == Some(asset@)
            },
            Err(error) => error == InstallError::NotFound && resolved_asset(release@, name@)
                is None,
        },
{
    let found = resolve(&release.assets, name);
    proof {
        lemma_asset_labels(release.assets);
        lemma_first_match(asset_names(release@.assets), name@);
    }
    found
}

} // verus!
