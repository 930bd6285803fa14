//! Releases and their assets, as the hosting service lists them.

use vstd::prelude::*;

verus! {

/// One downloadable file attached to a release.
#[derive(Clone, Debug, PartialEq, Eq)]
pub struct Asset {
    /// The file name, extension included.
    pub name: String,
}

/// One entry in the release history of a repository.
#[derive(Clone, Debug, PartialEq, Eq)]
pub struct Release {
    /// The label that identifies the release within its repository.
    pub tag_name: String,
    /// The files attached to the release, in the order the service lists them.
    pub assets: Vec<Asset>,
}

/// What an [`Asset`] stands for in contracts.
pub struct AssetView {
    /// The file name.
    pub name: Seq<char>,
}

/// What a [`Release`] stands for in contracts.
pub struct ReleaseView {
    /// The tag.
    pub tag_name: Seq<char>,
    /// The assets, in order.
    pub assets: Seq<AssetView>,
}

impl View for Asset {
    type V = AssetView;

    open spec fn view(&self) -> AssetView {
        AssetView { name: self.name@ }
    }
}

impl DeepView for Asset {
    type V = AssetView;

    open spec fn deep_view(&self) -> AssetView {
        self@
    }
}

impl View for Release {
    type V = ReleaseView;

    open spec fn view(&self) -> ReleaseView {
        ReleaseView { tag_name: self.tag_name@, assets: self.assets.deep_view() }
    }
}

impl DeepView for Release {
    type V = ReleaseView;

    open spec fn deep_view(&self) -> ReleaseView {
        self@
    }
}

/// The names of the assets, in order.
pub open spec fn asset_names(assets: Seq<AssetView>) -> Seq<Seq<char>> {
    Seq::new(assets.len(), |i: int| assets[i].name)
}

/// The tags of the releases, in order.
pub open spec fn release_tags(releases: Seq<ReleaseView>) -> Seq<Seq<char>> {
    Seq::new(releases.len(), |i: int| releases[i].tag_name)
}

impl Asset {
    /// An asset with the given file name.
    pub fn new(name: String) -> (asset: Asset)
        ensures
            asset@.name == name@,
    {
        Asset { name }
    }
}

impl Release {
    /// A release with the given tag and assets.
    pub fn new(tag_name: String, assets: Vec<Asset>) -> (release: Release)
        ensures
            release@.tag_name == tag_name@,
            release@.assets == assets.deep_view(),
    {
        Release { tag_name, assets }
    }
}

} // verus!
