//! Releases of the upstream project and the choice of an asset among them.

use vstd::prelude::*;

verus! {

/// A downloadable file attached to a release.
#[derive(Clone, Debug, PartialEq, Eq)]
pub struct ReleaseAsset {
    pub name: String,
    pub download_url: String,
}

/// A tagged release with its assets, in the order the hosting service
/// lists them.
#[derive(Clone, Debug, PartialEq, Eq)]
pub struct Release {
    pub version: String,
    pub assets: Vec<ReleaseAsset>,
}

/// What a [`ReleaseAsset`] holds.
pub struct AssetModel {
    pub name: Seq<char>,
    pub download_url: Seq<char>,
}

/// What a [`Release`] holds.
pub struct ReleaseModel {
    pub version: Seq<char>,
    pub assets: Seq<AssetModel>,
}

impl View for ReleaseAsset {
    type V = AssetModel;

    open spec fn view(&self) -> AssetModel {
        AssetModel { name: self.name@, download_url: self.download_url@ }
    }
}

impl DeepView for ReleaseAsset {
    type V = AssetModel;

    open spec fn deep_view(&self) -> AssetModel {
        self@
    }
}

impl View for Release {
    type V = ReleaseModel;

    open spec fn view(&self) -> ReleaseModel {
        ReleaseModel { version: self.version@, assets: self.assets.deep_view() }
    }
}

/// The position of the first asset at or after `from` whose name is exactly
/// `name`.
pub open spec fn spec_find_asset_from(assets: Seq<AssetModel>, name: Seq<char>, from: int) -> Option<
    int,
>
    decreases assets.len() - from,
{
    if from < 0 || from >= assets.len() {
        None
    } else if assets[from].name == name {
        Some(from)
    } else {
        spec_find_asset_from(assets, name, from + 1)
    }
}

/// The position of the first asset whose name is exactly `name`.
pub open spec fn spec_find_asset(assets: Seq<AssetModel>, name: Seq<char>) -> Option<int> {
    spec_find_asset_from(assets, name, 0)
}

/// The search finds the first exact match at or after `from`, and fails
/// only where there is none.
pub proof fn lemma_find_asset_from(assets: Seq<AssetModel>, name: Seq<char>, from: int)
    requires
        0 <= from,
    ensures
        match spec_find_asset_from(assets, name, from) {
            Some(i) => {
                &&& from <= i < assets.len()
                &&& assets[i].name == name
                &&& forall|j: int| from <= j < i ==> assets[j].name != name
            },
            None => forall|j: int| from <= j < assets.len() ==> assets[j].name != name,
        },
    decreases assets.len() - from,
{
    if from < assets.len() && assets[from].name != name {
        lemma_find_asset_from(assets, name, from + 1);
    }
}

/// Finds the asset named exactly `name`: the first one, where several carry
/// the name. Nothing is matched loosely.
pub fn find_asset(assets: &Vec<ReleaseAsset>, name: &String) -> (found: Option<usize>)
    ensures
        match found {
            Some(i) => {
                &&& spec_find_asset(assets.deep_view(), name@) == Some(i as int)
                &&& i < assets.len()
                &&& assets[i as int].name@ == name@
                &&& forall|j: int| 0 <= j < i ==> assets[j].name@ != name@
            },
            None => {
                &&& spec_find_asset(assets.deep_view(), name@).is_none()
                &&& forall|j: int| 0 <= j < assets.len() ==> assets[j].name@ != name@
            },
        },
{
    let ghost model = assets.deep_view();
    let mut i: usize = 0;
    while i < assets.len()
        invariant
            i <= assets.len(),
            model == assets.deep_view(),
            spec_find_asset(model, name@) == spec_find_asset_from(model, name@, i as int),
            forall|j: int| 0 <= j < i ==> assets[j].name@ != name@,
        decreases assets.len() - i,
    {
        assert(model[i as int].name == assets[i as int].name@);
        if assets[i].name == *name {
            return Some(i);
        }
        i += 1;
    }
    None
}

} // verus!
