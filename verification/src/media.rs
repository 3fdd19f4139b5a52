//! Where the media files of assets live.
use crate::domain::Asset;
use crate::outside::{path_has_prefix, path_starts_with};
use crate::text::{owned, starts_with_seq, starts_with_str};
use vstd::prelude::*;

verus! {

/// The media files under one root directory.
pub struct MediaStore {
    root: String,
}

/// What deleting an asset's files comes to: the files to remove, in order
/// (each only if it exists), and whether the deletion then stops, refused,
/// before the asset's directory is removed.
#[derive(Clone, Debug, PartialEq, Eq)]
pub struct RemovalPlan {
    pub files: Vec<String>,
    pub blocked: bool,
}

/// The view of a removal plan: the files' paths, and whether it is refused.
pub open spec fn plan_view(p: RemovalPlan) -> (Seq<Seq<char>>, bool) {
    (p.files@.map_values(|f: String| f@), p.blocked)
}

/// The plan for the paths `paths` of an asset under root `root`: paths that
/// start with "mock://" are skipped; the first path outside the root stops
/// the plan, refused; every other path is removed.
pub open spec fn removal_spec(root: Seq<char>, paths: Seq<Seq<char>>) -> (Seq<Seq<char>>, bool)
    decreases paths.len(),
{
    if paths.len() == 0 {
        (Seq::empty(), false)
    } else {
        let p = paths[0];
        let rest = removal_spec(root, paths.drop_first());
        if starts_with_seq(p, "mock://"@) {
            rest
        } else if !path_starts_with(p, root) {
            (Seq::empty(), true)
        } else {
            (seq![p] + rest.0, rest.1)
        }
    }
}

/// The paths of an asset's files: its local path, then its thumbnail's.
pub open spec fn asset_paths(asset: Asset) -> Seq<Seq<char>> {
    match asset.thumbnail_path {
        Some(t) => seq![asset.local_path@, t@],
        None => seq![asset.local_path@],
    }
}

/// Checks that an asset's path names a local file, not a mock location.
pub fn check_local_file(local_path: &str) -> (r: Result<(), String>)
    ensures
        starts_with_seq(local_path@, "mock://"@) ==> (r matches Err(e) && e@
            == "ASSET_NOT_LOCAL: asset has no local file"@),
        !starts_with_seq(local_path@, "mock://"@) ==> r is Ok,
{
    if starts_with_str(local_path, "mock://") {
        Err(owned("ASSET_NOT_LOCAL: asset has no local file"))
    } else {
        Ok(())
    }
}

impl MediaStore {
    /// The root directory.
    pub closed spec fn root_path(&self) -> Seq<char> {
        self.root@
    }

    /// The media under `root`.
    pub fn at(root: String) -> (r: Self)
        ensures
            r.root_path() == root@,
    {
        MediaStore { root }
    }

    /// The root directory.
    pub fn root(&self) -> (r: &str)
        ensures
            r@ == self.root_path(),
    {
        self.root.as_str()
    }

    /// Whether `path` lies under the root directory, comparing whole path
    /// components.
    pub fn is_under_root(&self, path: &str) -> (r: bool)
        ensures
            r == path_starts_with(path@, self.root_path()),
    {
        path_has_prefix(path, self.root.as_str())
    }

    /// Checks that an asset's file may be exported: it must be a local file
    /// under the root directory.
    pub fn check_exportable(&self, local_path: &str) -> (r: Result<(), String>)
        ensures
            starts_with_seq(local_path@, "mock://"@) ==> (r matches Err(e) && e@
                == "ASSET_NOT_LOCAL: asset has no local file"@),
            !starts_with_seq(local_path@, "mock://"@) && !path_starts_with(local_path@, self.root_path())
                ==> (r matches Err(e) && e@ == "ASSET_EXPORT_BLOCKED: path is outside the asset store"@),
            !starts_with_seq(local_path@, "mock://"@) && path_starts_with(local_path@, self.root_path())
                ==> r is Ok,
    {
        check_local_file(local_path)?;
        if !self.is_under_root(local_path) {
            return Err(owned("ASSET_EXPORT_BLOCKED: path is outside the asset store"));
        }
        Ok(())
    }

    /// The plan for deleting an asset's files.
    pub fn removal_plan(&self, asset: &Asset) -> (r: RemovalPlan)
        ensures
            plan_view(r) == removal_spec(self.root_path(), asset_paths(*asset)),
    {
        proof {
            reveal_with_fuel(removal_spec, 3);
        }
        let mut files: Vec<String> = Vec::new();
        let local = asset.local_path.as_str();
        if !starts_with_str(local, "mock://") {
            if !self.is_under_root(local) {
                let r = RemovalPlan { files: Vec::new(), blocked: true };
                assert(plan_view(r).0 =~= Seq::<Seq<char>>::empty());
                return r;
            }
            files.push(owned(local));
        }
        let ghost first = files@.map_values(|f: String| f@);
        match &asset.thumbnail_path {
            Some(t) => {
                let thumb = t.as_str();
                if !starts_with_str(thumb, "mock://") {
                    if !self.is_under_root(thumb) {
                        let r = RemovalPlan { files, blocked: true };
                        proof {
                            let paths = asset_paths(*asset);
                            assert(paths.drop_first().drop_first() =~= Seq::<Seq<char>>::empty());
                            assert(paths.drop_first() =~= seq![t@]);
                            assert(plan_view(r).0 =~= removal_spec(self.root_path(), paths).0);
                        }
                        return r;
                    }
                    files.push(owned(thumb));
                }
                proof {
                    let paths = asset_paths(*asset);
                    assert(paths.drop_first().drop_first() =~= Seq::<Seq<char>>::empty());
                    assert(paths.drop_first() =~= seq![t@]);
                }
            },
            None => {
                proof {
                    let paths = asset_paths(*asset);
                    assert(paths.drop_first() =~= Seq::<Seq<char>>::empty());
                }
            },
        }
        let r = RemovalPlan { files, blocked: false };
        proof {
            let paths = asset_paths(*asset);
            assert(plan_view(r).0 =~= removal_spec(self.root_path(), paths).0);
        }
        r
    }
}

} // verus!
