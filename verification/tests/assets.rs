//! Device art: finding it in the registry, loading it, and keeping the cache.

use std::sync::Arc;

use openlogi_desktop::device::{DeviceKind, DeviceModelInfo, DeviceTransports};
use openlogi_desktop::services::assets::images::{
    first_existing, read_png_dimensions, resolve_depot_renders, DepotRenders, DepotResources,
    PngError,
};
use openlogi_desktop::services::assets::load::{
    load_files, DepotOnDisk, PictureFile, ReadMetadata, StandaloneOnDisk,
};
use openlogi_desktop::services::assets::metadata::{
    Assignment, GlowGeometry, ImageEntry, Metadata, Origin, Point, ResolvedAsset,
};
use openlogi_desktop::services::assets::sync::{
    baseline_fetches, forced_sync, model_key, named_variants, should_run, source_for_sync, source_segment,
    sync_target, variant_fetches, AssetSource, AssetSourcePreference, AssetTarget,
};
use openlogi_desktop::services::assets::{
    cache_size_bytes, cleanup_legacy_glow_pngs, clear_cache, resolve_in_index,
    shared_depot_for_pid, AssetResolver, CacheEntry, CacheRemoval, DeviceEntry, Index,
};
use openlogi_desktop::table::Table;

fn entry(model_id: &str, model_ids: &[&str], name: &str, kind: &str, files: &[&str]) -> DeviceEntry {
    DeviceEntry {
        model_id: model_id.to_string(),
        model_ids: model_ids.iter().map(|id| id.to_string()).collect(),
        display_name: name.to_string(),
        kind: kind.to_string(),
        asset_path: "v1/devices/".to_string(),
        files: files.iter().map(|file| file.to_string()).collect(),
    }
}

fn index_of(entries: Vec<(&str, DeviceEntry)>) -> Index {
    let mut devices = Table::new();
    for (depot, entry) in entries {
        devices.insert(depot, entry);
    }
    Index { devices }
}

fn model(transports: DeviceTransports, id: u16, extended_model_id: u8) -> DeviceModelInfo {
    DeviceModelInfo {
        entity_count: 0,
        transports,
        model_id_1: id,
        model_id_2: 0,
        model_id_3: 0,
        extended_model_id,
    }
}

fn no_transports() -> DeviceTransports {
    DeviceTransports { usb: false, equad: false, btle: false, bluetooth: false }
}

fn btle_3s_model() -> DeviceModelInfo {
    model(DeviceTransports { btle: true, ..no_transports() }, 0xb034, 0x01)
}

fn g502_spectrum_model() -> DeviceModelInfo {
    model(DeviceTransports { usb: true, ..no_transports() }, 0xc332, 0)
}

fn mx_master_3s_index() -> Index {
    index_of(vec![(
        "mx_master_3s",
        entry("2b043", &["2b043", "2b034"], "MX Master 3S", "mouse", &[]),
    )])
}

fn legacy_mx_master_3s_index() -> Index {
    index_of(vec![("mx_master_3s", entry("2b043", &[], "MX Master 3S", "mouse", &[]))])
}

fn g502_core_entry() -> DeviceEntry {
    entry("c07d", &["c07d"], "G502", "MOUSE", &[])
}

fn depot(index: &Index, at: Option<usize>) -> Option<String> {
    at.map(|at| index.devices.entry(at).0.to_string())
}

fn secondary_pid() {
    let index = mx_master_3s_index();
    let hit = resolve_in_index(&index, &btle_3s_model(), None, None);
    assert_eq!(depot(&index, hit).as_deref(), Some("mx_master_3s"));
}

fn legacy_miss() {
    let index = legacy_mx_master_3s_index();
    assert!(resolve_in_index(&index, &btle_3s_model(), None, None).is_none());
}

fn codename_bridge() {
    let index = legacy_mx_master_3s_index();
    let hit = resolve_in_index(&index, &btle_3s_model(), Some("MX Master 3S"), None);
    assert_eq!(depot(&index, hit).as_deref(), Some("mx_master_3s"));
}

#[test]
fn assets_secondary_pid_resolves_btle_3s_without_codename() {
    secondary_pid();
}

#[test]
fn tests_secondary_pid_resolves_btle_3s_without_codename() {
    secondary_pid();
}

#[test]
fn assets_legacy_index_misses_btle_3s_by_pid() {
    legacy_miss();
}

#[test]
fn tests_legacy_index_misses_btle_3s_by_pid() {
    legacy_miss();
}

#[test]
fn assets_codename_bridges_btle_3s_on_legacy_index() {
    codename_bridge();
}

#[test]
fn tests_codename_bridges_btle_3s_on_legacy_index() {
    codename_bridge();
}

#[test]
fn spectrum_pid_resolves_g502_core_depot() {
    let index = index_of(vec![("g502_core", g502_core_entry())]);
    let hit = resolve_in_index(&index, &g502_spectrum_model(), None, None);
    assert_eq!(depot(&index, hit).as_deref(), Some("g502_core"));
}

#[test]
fn spectrum_pid_does_not_need_the_usb_product_string() {
    let index = index_of(vec![("g502_core", g502_core_entry())]);
    assert!(
        resolve_in_index(
            &index,
            &g502_spectrum_model(),
            Some("Tunable RGB Gaming Mouse G502"),
            None
        )
        .is_some()
    );
    let no_alias = index_of(vec![(
        "g502_wireless",
        entry("407f", &["407f"], "G502 Lightspeed", "MOUSE", &[]),
    )]);
    assert!(
        resolve_in_index(&no_alias, &g502_spectrum_model(), None, None).is_none(),
        "c332 must not land on a different G502 depot"
    );
}

fn names(list: &[&str]) -> Vec<String> {
    list.iter().map(|name| name.to_string()).collect()
}

fn png_header(width: u32, height: u32) -> Vec<u8> {
    let mut bytes = vec![0x89, b'P', b'N', b'G', 0x0d, 0x0a, 0x1a, 0x0a];
    bytes.extend_from_slice(&13u32.to_be_bytes());
    bytes.extend_from_slice(b"IHDR");
    bytes.extend_from_slice(&width.to_be_bytes());
    bytes.extend_from_slice(&height.to_be_bytes());
    bytes
}

fn size_of(width: u32, height: u32) -> Option<(u32, u32)> {
    read_png_dimensions(&png_header(width, height)).ok()
}

fn tier(dir: &str, renders: Option<DepotRenders>, metadata: Option<Metadata>, png: Option<(u32, u32)>) -> DepotOnDisk {
    let metadata = metadata.map(|metadata| ReadMetadata { metadata, origin: None });
    DepotOnDisk { safe: true, dir: dir.to_string(), renders, metadata, png, mask: None }
}

fn image(key: &str, origin: (u32, u32), assignments: Vec<Assignment>) -> ImageEntry {
    ImageEntry {
        key: key.to_string(),
        origin: Origin { width: origin.0, height: origin.1 },
        assignments,
    }
}

fn assignment(slot_name: &str, slot_id: &str, x: i32, y: i32) -> Assignment {
    Assignment {
        slot_name: slot_name.to_string(),
        slot_id: slot_id.to_string(),
        marker: Point { x, y },
    }
}

fn assignments(asset: &ResolvedAsset) -> usize {
    asset.metadata.images.iter().map(|image| image.assignments.len()).sum()
}

#[test]
fn spectrum_load_picks_named_variant_art_and_metadata() {
    let index = index_of(vec![("g502_core", g502_core_entry())]);
    let at = resolve_in_index(&index, &g502_spectrum_model(), None, None)
        .expect("Spectrum should resolve against the Core depot");
    let resources = DepotResources {
        image_metadata: Some("spectrum_metadata.json".into()),
        device_buttons_image: None,
        device_image: Some("front_spectrum.png".into()),
        device_camera_image: None,
        device_side: Some("side_spectrum.png".into()),
    };
    let existing = names(&[
        "spectrum_metadata.json",
        "core_metadata.json",
        "front_spectrum.png",
        "side_spectrum.png",
        "front_core.png",
    ]);
    let renders = resolve_depot_renders(&resources, &existing, &existing);
    assert_eq!(
        renders.as_ref().map(|renders| renders.meta_name.as_str()),
        Some("spectrum_metadata.json")
    );
    let metadata = Metadata {
        images: vec![
            image("device_image", (10, 20), Vec::new()),
            image(
                "device_side",
                (8, 20),
                vec![assignment("", "g502_spectrum_g4_m1", 1_000, 1_000)],
            ),
        ],
    };
    assert_eq!(index.devices.entry(at).0, "g502_core");
    let asset = resolver(index).resolve(
        &g502_spectrum_model(),
        None,
        None,
        Some(DeviceKind::Mouse),
        vec![tier("/cache/g502_core/", renders, Some(metadata), size_of(10, 20))],
    )
    .expect("Spectrum should resolve against the Core depot");
    assert_eq!(asset.display_name, "G502");
    assert_eq!(asset.image_path, "/cache/g502_core/front_spectrum.png");
    assert_eq!(asset.side_image_path.as_deref(), Some("/cache/g502_core/side_spectrum.png"));
    assert_eq!(asset.metadata.images[0].key, "device_image", "Spectrum metadata, not Core");
    assert_eq!(assignments(&asset), 1);
}

fn old_schema() {
    let resources = DepotResources {
        image_metadata: None,
        device_buttons_image: None,
        device_image: None,
        device_camera_image: None,
        device_side: None,
    };
    let existing = names(&["metadata.json", "front.png"]);
    let renders = resolve_depot_renders(&resources, &existing, &existing);
    let metadata = Metadata {
        images: vec![
            image("device_image", (100, 200), Vec::new()),
            image(
                "device_buttons_image",
                (100, 200),
                vec![assignment("SLOT_NAME_MIDDLE_BUTTON", "", 50_000, 50_000)],
            ),
        ],
    };
    let asset = load_files(
        "mx_vertical",
        &entry("eb020", &[], "MX Vertical", "MOUSE", &[]),
        Some(DeviceKind::Mouse),
        vec![tier("/cache/mx_vertical/", renders, Some(metadata), size_of(100, 200))],
    )
    .expect("old-schema depot should resolve");
    assert_eq!(asset.image_path, "/cache/mx_vertical/front.png");
    assert_eq!((asset.png_width, asset.png_height), (100, 200));
    assert_eq!(assignments(&asset), 1);
}

#[test]
fn assets_resolves_old_schema_depot_on_disk() {
    old_schema();
}

#[test]
fn tests_resolves_old_schema_depot_on_disk() {
    old_schema();
}

fn litra(files: &[&str]) -> DeviceEntry {
    entry("8c900", &[], "Litra Glow", "ILLUMINATION_LIGHT", files)
}

fn resolver(index: Index) -> AssetResolver {
    AssetResolver::new(None, "/cache".to_string(), Some(index))
}

fn standalone(dir: &str, manifest_image: Option<&str>, files: Vec<(&str, Option<(u32, u32)>)>) -> StandaloneOnDisk {
    StandaloneOnDisk {
        safe: true,
        dir: dir.to_string(),
        manifest_image: manifest_image.map(str::to_string),
        files: files
            .into_iter()
            .map(|(name, size)| PictureFile { name: name.to_string(), size })
            .collect(),
    }
}

fn load_model(index: Index, id: &str, tiers: &Vec<StandaloneOnDisk>) -> Option<ResolvedAsset> {
    resolver(index).resolve_registry_model(id, Some(DeviceKind::Light), tiers)
}

fn standalone_model() {
    let asset = load_model(
        index_of(vec![("litra_glow", litra(&[]))]),
        "8c900",
        &vec![standalone("/cache/litra_glow/", Some("front.png"), vec![("front.png", size_of(396, 396))])],
    )
    .expect("standalone registry model should resolve");
    assert_eq!(asset.display_name, "Litra Glow");
    assert_eq!(asset.kind, Some(DeviceKind::Light));
    assert_eq!(asset.image_path, "/cache/litra_glow/front.png");
    assert_eq!((asset.png_width, asset.png_height), (396, 396));
}

#[test]
fn assets_resolves_standalone_registry_model_without_synthetic_hidpp_info() {
    standalone_model();
}

#[test]
fn tests_resolves_standalone_registry_model_without_synthetic_hidpp_info() {
    standalone_model();
}

fn depots_do_not_cross() {
    let index = || {
        index_of(vec![
            ("litra_glow", litra(&[])),
            ("litra_beam", entry("8c901", &[], "Litra Beam", "ILLUMINATION_LIGHT", &[])),
        ])
    };
    let glow = vec![standalone("/cache/litra_glow/", None, Vec::new())];
    assert!(load_model(index(), "8c900", &glow).is_none());
    let beam = vec![standalone(
        "/cache/litra_beam/",
        Some("front.png"),
        vec![("front.png", size_of(120, 240))],
    )];
    assert_eq!(
        load_model(index(), "8c901", &beam).expect("beam should resolve").display_name,
        "Litra Beam"
    );
}

#[test]
fn assets_standalone_registry_lookup_does_not_cross_model_depots() {
    depots_do_not_cross();
}

#[test]
fn tests_standalone_registry_lookup_does_not_cross_model_depots() {
    depots_do_not_cross();
}

fn unsafe_name() {
    let tiers = vec![standalone("/cache/litra_glow/", Some("../front.png"), Vec::new())];
    assert!(load_model(index_of(vec![("litra_glow", litra(&["front.png"]))]), "8c900", &tiers).is_none());
}

#[test]
fn assets_unsafe_standalone_manifest_filename_is_rejected() {
    unsafe_name();
}

#[test]
fn tests_unsafe_standalone_manifest_filename_is_rejected() {
    unsafe_name();
}

fn first_root() {
    let tiers = vec![
        standalone("/bundle/litra_glow/", None, vec![("front.png", size_of(10, 10))]),
        standalone("/cache/litra_glow/", None, vec![("front.png", size_of(20, 20))]),
    ];
    let asset = load_model(index_of(vec![("litra_glow", litra(&["front.png"]))]), "8c900", &tiers)
        .expect("bundle asset should resolve");
    assert_eq!((asset.png_width, asset.png_height), (10, 10));
    assert_eq!(asset.image_path, "/bundle/litra_glow/front.png");
}

#[test]
fn assets_standalone_resolution_prefers_the_first_read_root() {
    first_root();
}

#[test]
fn tests_standalone_resolution_prefers_the_first_read_root() {
    first_root();
}

fn cleanup() {
    let doomed = cleanup_legacy_glow_pngs(&names(&[
        "glow-ff9500.png",
        "glow-af52de.png.tmp",
        "front.png",
        "metadata.json",
    ]));
    assert_eq!(doomed, ["glow-ff9500.png", "glow-af52de.png.tmp"]);
}

#[test]
fn assets_cleanup_removes_only_legacy_glow_pngs() {
    cleanup();
}

#[test]
fn tests_cleanup_removes_only_legacy_glow_pngs() {
    cleanup();
}

#[test]
fn automatic_preference_races_the_built_in_sources() {
    assert!(source_for_sync(AssetSourcePreference::Automatic, None).is_none());
}

#[test]
fn openlogi_preference_uses_the_official_source() {
    assert!(matches!(
        source_for_sync(AssetSourcePreference::OpenLogi, None),
        Some(AssetSource::Production)
    ));
}

#[test]
fn fastly_preference_uses_the_shard_aware_jsdelivr_source() {
    assert!(matches!(
        source_for_sync(AssetSourcePreference::Fastly, None),
        Some(AssetSource::JsDelivr)
    ));
}

#[test]
fn environment_override_takes_precedence_over_the_saved_source() {
    match source_for_sync(AssetSourcePreference::Cloudflare, Some("https://assets.example.test")) {
        Some(AssetSource::Override(base)) => assert_eq!(base, "https://assets.example.test"),
        other => panic!("unexpected {other:?}"),
    }
}

#[test]
fn standalone_target_key_is_model_scoped_not_physical() {
    assert_eq!(
        model_key(&AssetTarget::Standalone { registry_model_id: "8c900".into() }),
        "standalone:model:8c900"
    );
}

#[test]
fn hidpp_target_keys_spell_all_ids() {
    let target = AssetTarget::Hidpp { model: btle_3s_model(), codename: Some("MX".into()) };
    assert_eq!(model_key(&target), "hidpp:01:b034:0000:0000:MX");
}

#[test]
fn a_forced_depot_comes_first() {
    let index = index_of(vec![
        ("g502_core", g502_core_entry()),
        ("mx_master_3s", entry("2b043", &[], "MX Master 3S", "mouse", &[])),
    ]);
    let hit = resolve_in_index(&index, &g502_spectrum_model(), None, Some("mx_master_3s"));
    assert_eq!(depot(&index, hit).as_deref(), Some("mx_master_3s"));
    let missing = resolve_in_index(&index, &g502_spectrum_model(), None, Some("absent"));
    assert_eq!(depot(&index, missing).as_deref(), Some("g502_core"));
    let forced = forced_sync(&index, Some("mx_master_3s")).expect("a listed depot");
    assert_eq!(depot(&index, Some(forced.at)).as_deref(), Some("mx_master_3s"));
    assert!(forced_sync(&index, Some("absent")).is_none());
    assert!(forced_sync(&index, None).is_none());
}

#[test]
fn later_revisions_share_a_depot() {
    assert_eq!(shared_depot_for_pid(0xc332), Some("g502_core"));
    assert_eq!(shared_depot_for_pid(0xc08b), Some("g502_core"));
    assert_eq!(shared_depot_for_pid(0xb034), None);
}

#[test]
fn targets_carry_what_tells_their_variants_apart() {
    let index = mx_master_3s_index();
    let hidpp = AssetTarget::Hidpp { model: btle_3s_model(), codename: None };
    let sync = sync_target(&index, &hidpp, None).expect("a listed model");
    assert_eq!(sync.extended_model_id, 1);
    assert_eq!(sync.product_ids, (0xb034, 0, 0));
    let unknown = AssetTarget::Standalone { registry_model_id: "8c900".into() };
    assert!(sync_target(&index, &unknown, None).is_none());
}

#[test]
fn the_sync_runs_unless_it_is_not_needed() {
    assert!(!should_run(Some("off"), true, false));
    assert!(should_run(Some("1"), false, true));
    assert!(should_run(None, true, true));
    assert!(should_run(None, false, false));
    assert!(!should_run(Some("perhaps"), false, true));
}

#[test]
fn sources_have_names_of_their_own() {
    assert_eq!(source_segment(AssetSourcePreference::Automatic), "automatic");
    assert_eq!(source_segment(AssetSourcePreference::Cloudflare), "cloudflare");
}

#[test]
fn only_files_of_the_registry_are_fetched() {
    let registry = names(&["glow.json", "front.png", "front_red.png"]);
    let baseline = baseline_fetches(
        &names(&["glow.json", "metadata.json", "front.png"]),
        &Some("side.png".to_string()),
        &registry,
    );
    let fetched: Vec<(&str, bool)> =
        baseline.iter().map(|fetch| (fetch.name.as_str(), fetch.required)).collect();
    assert_eq!(fetched, [("glow.json", true), ("front.png", true)]);
    let mut resources = DepotResources {
        image_metadata: None,
        device_buttons_image: None,
        device_image: Some("front.png".to_string()),
        device_camera_image: None,
        device_side: Some("front_red.png".to_string()),
    };
    let variants = variant_fetches(&resources, &registry);
    assert_eq!(variants.len(), 1);
    assert_eq!(variants[0].name, "front_red.png");
    assert!(!variants[0].required);

    resources.image_metadata = Some("red.json".to_string());
    resources.device_buttons_image = Some("side_red.png".to_string());
    resources.device_image = Some("hero_red.png".to_string());
    resources.device_camera_image = Some("camera_red.png".to_string());
    let looked_up: Vec<Option<String>> = named_variants(&resources);
    let order = ["hero_red.png", "side_red.png", "front_red.png", "camera_red.png", "red.json"];
    assert_eq!(looked_up.iter().flatten().collect::<Vec<_>>(), order);
    let fetched = variant_fetches(&resources, &names(&order));
    assert_eq!(fetched.iter().map(|fetch| fetch.name.as_str()).collect::<Vec<_>>(), order);
}

#[test]
fn sizes_are_read_off_a_picture() {
    assert_eq!(read_png_dimensions(&png_header(640, 70_000)), Ok((640, 70_000)));
    assert_eq!(read_png_dimensions(&vec![0x89, b'P']), Err(PngError::UnexpectedEnd));
    let mut wrong = png_header(1, 1);
    wrong[1] = b'Q';
    assert_eq!(read_png_dimensions(&wrong), Err(PngError::MissingSignature));
    let mut wrong = png_header(1, 1);
    wrong[13] = b'X';
    assert_eq!(read_png_dimensions(&wrong), Err(PngError::MissingHeaderChunk));
}

#[test]
fn the_first_file_that_exists_is_taken() {
    assert_eq!(
        first_existing(&names(&["a", "b", "c"]), &names(&["c", "b"])).as_deref(),
        Some("b")
    );
    assert!(first_existing(&names(&["a"]), &names(&["c"])).is_none());
}

#[test]
fn a_bundle_hides_the_cache() {
    let bundled = AssetResolver::new(Some("/bundle".into()), "/cache".into(), None);
    assert_eq!(bundled.read_roots, ["/bundle", "/cache"]);
    assert_eq!(bundled.cache_root(), "/cache");
    assert!(bundled.has_bundle_root() && !bundled.index_loaded());
    assert_eq!(bundled.index_entry_count(), None);
    assert!(bundled.resolve(&btle_3s_model(), None, None, None, Vec::new()).is_none());
    let known = resolver(mx_master_3s_index());
    assert_eq!(known.index_entry_count(), Some(1));
    assert_eq!(known.find_model(&btle_3s_model(), None, None), Some(0));
    assert!(known.resolve(&btle_3s_model(), None, None, None, Vec::new()).is_none());

    let renders = |name: &str| {
        Some(DepotRenders {
            meta_name: "metadata.json".into(),
            image_name: name.into(),
            image: name.into(),
            hero_image: None,
            side_image: None,
        })
    };
    let mut outside = tier("/else/", renders("bad.png"), None, None);
    outside.safe = false;
    let mut keyboard = tier("/bundle/k/", renders("front.png"), None, None);
    keyboard.metadata =
        Some(ReadMetadata { metadata: Metadata { images: Vec::new() }, origin: Some((30, 40)) });
    let gaps = GlowGeometry { aspect: 3_000_000, segments: Vec::new() };
    keyboard.mask = Some(Arc::new(gaps));
    let asset = load_files(
        "k",
        &litra(&[]),
        Some(DeviceKind::Keyboard),
        vec![outside, keyboard, tier("/cache/k/", renders("front.png"), None, Some((1, 1)))],
    )
    .expect("the bundle holds enough");
    assert_eq!(asset.image_path, "/bundle/k/front.png");
    assert_eq!((asset.png_width, asset.png_height), (30, 40));
    assert_eq!(asset.glow.map(|gaps| gaps.aspect), Some(3_000_000));
    assert!(asset.metadata.images.is_empty());
    assert!(load_files("k", &litra(&[]), None, vec![tier("/bundle/k/", None, None, None)]).is_none());
}

#[test]
fn only_files_count_toward_the_cache() {
    let entries = vec![
        CacheEntry { is_file: true, bytes: Some(10) },
        CacheEntry { is_file: false, bytes: Some(4096) },
        CacheEntry { is_file: true, bytes: None },
        CacheEntry { is_file: true, bytes: Some(5) },
    ];
    assert_eq!(cache_size_bytes(&entries), 15);
    assert!(clear_cache(CacheRemoval::Missing) && clear_cache(CacheRemoval::Removed));
    assert!(!clear_cache(CacheRemoval::Failed));
}
