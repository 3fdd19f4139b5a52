use lingjing::assets::AssetStore;
use lingjing::domain::Asset;
use lingjing::media::{check_local_file, MediaStore, RemovalPlan};
use lingjing::secrets::SecretStore;

#[test]
fn secrets_read_back_and_forget() {
    let mut store = SecretStore::default();
    assert_eq!(store.get("system-keychain:a"), Ok(None));
    store.set("system-keychain:a".into(), "sk-1".into()).unwrap();
    assert_eq!(store.get("system-keychain:a"), Ok(Some("sk-1".into())));
    store.set("system-keychain:a".into(), "sk-2".into()).unwrap();
    assert_eq!(store.get("system-keychain:a"), Ok(Some("sk-2".into())));
    store.remove("system-keychain:a").unwrap();
    assert_eq!(store.get("system-keychain:a"), Ok(None));
    assert_eq!(store.remove("missing"), Ok(()));
}

fn asset(local: &str, thumb: Option<&str>) -> Asset {
    Asset {
        id: "asset-1".into(),
        job_id: None,
        kind: "image".into(),
        mime_type: "image/png".into(),
        local_path: local.into(),
        thumbnail_path: thumb.map(str::to_string),
        size_bytes: 8,
        favorite: false,
        created_at: "2026-01-01T00:00:00Z".into(),
    }
}

#[test]
fn media_paths_are_checked_by_component() {
    let store = MediaStore::at("/data/assets".into());
    assert_eq!(store.root(), "/data/assets");
    assert!(store.is_under_root("/data/assets/originals/a/original.png"));
    assert!(store.is_under_root("/data/assets"));
    assert!(!store.is_under_root("/data/assets-old/x.png"));
    assert!(!store.is_under_root("/etc/passwd"));
}

#[test]
fn removal_plans_skip_mock_and_stop_outside_root() {
    let store = MediaStore::at("/data/assets".into());
    assert_eq!(
        store.removal_plan(&asset("/data/assets/o/a.png", Some("/data/assets/t/a.png"))),
        RemovalPlan { files: vec!["/data/assets/o/a.png".into(), "/data/assets/t/a.png".into()], blocked: false }
    );
    assert_eq!(
        store.removal_plan(&asset("mock://a", None)),
        RemovalPlan { files: vec![], blocked: false }
    );
    assert_eq!(
        store.removal_plan(&asset("/data/assets/o/a.png", Some("/tmp/t.png"))),
        RemovalPlan { files: vec!["/data/assets/o/a.png".into()], blocked: true }
    );
    assert_eq!(
        store.removal_plan(&asset("/tmp/a.png", Some("/data/assets/t/a.png"))),
        RemovalPlan { files: vec![], blocked: true }
    );
}

#[test]
fn a_new_asset_store_lists_nothing() {
    assert!(AssetStore::default().list().is_empty());
}

#[test]
fn asset_store_keeps_one_asset_per_id() {
    let mut b = asset("/data/assets/b.png", None);
    b.id = "asset-2".into();
    let mut later = asset("/data/assets/a2.png", None);
    later.size_bytes = 9;
    let mut store = AssetStore::from_assets(vec![asset("/data/assets/a.png", None), b.clone(), later.clone()]);
    let mut listed = store.list();
    listed.sort_by(|x, y| x.id.cmp(&y.id));
    assert_eq!(listed, vec![later.clone(), b.clone()]);
    let toggled = store.toggle_favorite("asset-1").unwrap();
    assert!(toggled.favorite);
    assert_eq!(Asset { favorite: false, ..toggled }, later);
    assert!(store.toggle_favorite("missing").is_none());
    store.delete("asset-1");
    assert_eq!(store.list(), vec![b.clone()]);
    let mut changed = b.clone();
    changed.favorite = true;
    store.upsert(changed.clone());
    assert_eq!(store.list(), vec![changed]);
}

#[test]
fn exports_need_a_local_file_under_the_root() {
    let store = MediaStore::at("/data/assets".into());
    assert_eq!(store.check_exportable("mock://x"), Err("ASSET_NOT_LOCAL: asset has no local file".into()));
    assert_eq!(
        store.check_exportable("/home/x.png"),
        Err("ASSET_EXPORT_BLOCKED: path is outside the asset store".into())
    );
    assert_eq!(store.check_exportable("/data/assets/o/x.png"), Ok(()));
}

#[test]
fn toggling_a_favorite_twice_restores_the_asset() {
    let untouched = asset("/data/assets/a.png", None);
    let mut store = AssetStore::from_assets(vec![untouched.clone()]);
    store.toggle_favorite("asset-1").unwrap();
    let back = store.toggle_favorite("asset-1").unwrap();
    assert_eq!(back, untouched);
    assert_eq!(store.list(), vec![untouched]);
}

#[test]
fn mock_locations_are_not_local_files() {
    assert_eq!(check_local_file("mock://image/1"), Err("ASSET_NOT_LOCAL: asset has no local file".into()));
    assert_eq!(check_local_file("/data/assets/a.png"), Ok(()));
}

#[test]
fn assets_are_found_by_id() {
    let stored = asset("/data/assets/a.png", None);
    let store = AssetStore::from_assets(vec![stored.clone()]);
    assert_eq!(store.find("asset-1"), Some(stored));
    assert_eq!(store.find("asset-9"), None);
}
