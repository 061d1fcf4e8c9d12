//! Releases of the server and the assets attached to them.

use vstd::prelude::*;

verus! {

/// One downloadable file of a release.
#[derive(Clone, Debug, PartialEq, Eq)]
pub struct ReleaseAsset {
    pub name: String,
    pub download_url: String,
}

/// A release as the release index reports it.
#[derive(Clone, Debug, PartialEq, Eq)]
pub struct Release {
    pub version: String,
    pub assets: Vec<ReleaseAsset>,
}

pub struct ReleaseAssetView {
    pub name: Seq<char>,
    pub download_url: Seq<char>,
}

pub struct ReleaseView {
    pub version: Seq<char>,
    pub assets: Seq<ReleaseAssetView>,
}

impl View for ReleaseAsset {
    type V = ReleaseAssetView;

    open spec fn view(&self) -> ReleaseAssetView {
        ReleaseAssetView { name: self.name@, download_url: self.download_url@ }
    }
}

/// The assets of a list, each by its view, in the list's order.
pub open spec fn assets_view(assets: Seq<ReleaseAsset>) -> Seq<ReleaseAssetView> {
    Seq::new(assets.len(), |i: int| assets[i]@)
}

impl View for Release {
    type V = ReleaseView;

    open spec fn view(&self) -> ReleaseView {
        ReleaseView { version: self.version@, assets: assets_view(self.assets@) }
    }
}

/// The download URL of the first asset called `name`, if there is one.
pub open spec fn download_url_of(assets: Seq<ReleaseAssetView>, name: Seq<char>) -> Option<
    Seq<char>,
>
    decreases assets.len(),
{
    if assets.len() == 0 {
        None
    } else if assets[0].name == name {
        Some(assets[0].download_url)
    } else {
        download_url_of(assets.subrange(1, assets.len() as int), name)
    }
}

/// `download_url_of` finds an asset exactly when one bears the name, and
/// then it is the earliest such asset that it reports.
pub proof fn lemma_download_url_of(assets: Seq<ReleaseAssetView>, name: Seq<char>)
    ensures
        download_url_of(assets, name) is None <==> forall|i: int|
            0 <= i < assets.len() ==> (#[trigger] assets[i]).name != name,
        download_url_of(assets, name) matches Some(url) ==> exists|i: int|
            0 <= i < assets.len() && (#[trigger] assets[i]).name == name && assets[i].download_url
                == url && forall|j: int| 0 <= j < i ==> (#[trigger] assets[j]).name != name,
    decreases assets.len(),
{
    if assets.len() == 0 {
    } else if assets[0].name == name {
        assert(assets[0].name == name && assets[0].download_url == download_url_of(
            assets,
            name,
        )->0);
    } else {
        let rest = assets.subrange(1, assets.len() as int);
        lemma_download_url_of(rest, name);
        assert forall|i: int| 0 <= i < rest.len() implies rest[i] == assets[i + 1] by {}
        if download_url_of(rest, name) is None {
            assert forall|i: int| 0 <= i < assets.len() implies (#[trigger] assets[i]).name
                != name by {
                if i > 0 {
                    assert(rest[i - 1].name != name);
                }
            }
        } else {
            let url = download_url_of(rest, name)->0;
            let k = choose|i: int|
                0 <= i < rest.len() && (#[trigger] rest[i]).name == name && rest[i].download_url
                    == url && forall|j: int| 0 <= j < i ==> (#[trigger] rest[j]).name != name;
            assert(assets[k + 1].name == name && assets[k + 1].download_url == url);
            assert forall|j: int| 0 <= j < k + 1 implies (#[trigger] assets[j]).name != name by {
                if j > 0 {
                    assert(rest[j - 1].name != name);
                }
            }
        }
    }
}

impl Release {
    /// Whether the release has any asset at all.
    pub fn has_assets(&self) -> (yes: bool)
        ensures
            yes == (self@.assets.len() > 0),
    {
        self.assets.len() > 0
    }

    /// Looks for the asset called `name` and hands back where to download it.
    pub fn download_url(&self, name: &String) -> (url: Option<String>)
        ensures
            url is Some <==> download_url_of(self@.assets, name@) is Some,
            url matches Some(text) ==> download_url_of(self@.assets, name@) == Some(text@),
    {
        let ghost all = self@.assets;
        let mut i: usize = 0;
        assert(all.subrange(0, all.len() as int) =~= all);
        while i < self.assets.len()
            invariant
                i <= self.assets.len(),
                all == self@.assets,
                all.len() == self.assets.len(),
                download_url_of(all, name@) == download_url_of(
                    all.subrange(i as int, all.len() as int),
                    name@,
                ),
            decreases self.assets.len() - i,
        {
            let ghost tail = all.subrange(i as int, all.len() as int);
            assert(tail[0] == self.assets@[i as int]@);
            if self.assets[i].name == *name {
                return Some(self.assets[i].download_url.clone());
            }
            assert(tail.subrange(1, tail.len() as int) =~= all.subrange(
                i as int + 1,
                all.len() as int,
            ));
            i += 1;
        }
        None
    }
}

} // verus!
