use control_plane::pvwatcher::{
    delete_parsed, our_driver, CsiVolumeSource, Failure, GcAction, Presence, PvGarbageCollector,
    VolumeManifest, BOLT_PLUGIN, MAYASTOR_PLUGIN,
};

const ONES: u128 = 0x11111111_1111_1111_1111_111111111111;

fn released(driver: &str, handle: &str) -> VolumeManifest {
    VolumeManifest {
        name: Some("pvc-11111111-1111-1111-1111-111111111111".to_string()),
        deletion_timestamp: Some(1_700_000_000),
        csi: Some(CsiVolumeSource {
            driver: driver.to_string(),
            volume_handle: handle.to_string(),
        }),
        reclaim_policy: Some("Retain".to_string()),
        phase: Some("Released".to_string()),
    }
}

fn bound(driver: &str, handle: &str) -> VolumeManifest {
    VolumeManifest {
        name: Some("pvc-11111111-1111-1111-1111-111111111111".to_string()),
        deletion_timestamp: None,
        csi: Some(CsiVolumeSource {
            driver: driver.to_string(),
            volume_handle: handle.to_string(),
        }),
        reclaim_policy: Some("Delete".to_string()),
        phase: Some("Bound".to_string()),
    }
}

/// Runs one manifest through the collector against a cluster that holds the
/// manifests named in `cluster`, and returns the volumes it asked to delete.
fn run_live(pv: &VolumeManifest, cluster: &[&str]) -> Vec<u128> {
    let mut deleted = Vec::new();
    let mut action = PvGarbageCollector::process_object(pv);
    if let GcAction::Lookup { name } = &action {
        let presence = if cluster.contains(&name.as_str()) {
            Presence::Present
        } else {
            Presence::Absent
        };
        action = PvGarbageCollector::resolve_lookup(pv, presence);
    }
    if let GcAction::Delete { volume } = action {
        deleted.push(volume);
    }
    deleted
}

#[test]
fn orphan_in_inventory_is_deleted_once_at_startup() {
    let inventory = [ONES];
    let cluster: Vec<String> = Vec::new();
    let observed: Vec<(u128, Presence)> = inventory
        .iter()
        .map(|volume| {
            let name = PvGarbageCollector::manifest_name(*volume);
            assert_eq!(name, "pvc-11111111-1111-1111-1111-111111111111");
            let presence =
                if cluster.contains(&name) { Presence::Present } else { Presence::Absent };
            (*volume, presence)
        })
        .collect();
    assert_eq!(PvGarbageCollector::handle_missed_events(&observed), vec![ONES]);
    assert_eq!(
        PvGarbageCollector::missed_event(ONES, Presence::Absent),
        GcAction::Delete { volume: ONES }
    );
}

#[test]
fn startup_pass_deletes_exactly_the_orphans() {
    let observed = vec![
        (1u128, Presence::Present),
        (2u128, Presence::Absent),
        (3u128, Presence::Unknown),
        (4u128, Presence::Absent),
        (5u128, Presence::Present),
    ];
    assert_eq!(PvGarbageCollector::handle_missed_events(&observed), vec![2u128, 4u128]);
    assert_eq!(PvGarbageCollector::handle_missed_events(&Vec::new()), Vec::<u128>::new());
    assert_eq!(PvGarbageCollector::missed_event(1, Presence::Present), GcAction::Keep);
    assert_eq!(
        PvGarbageCollector::missed_event(3, Presence::Unknown),
        GcAction::Skip(Failure::RemoteCallFailure)
    );
}

#[test]
fn retained_and_released_manifest_is_deleted_once() {
    let pv = released("io.openebs.csi-mayastor", "11111111-1111-1111-1111-111111111111");
    assert_eq!(PvGarbageCollector::process_object(&pv), GcAction::Delete { volume: ONES });
    assert_eq!(run_live(&pv, &[]), vec![ONES]);
    assert_eq!(run_live(&pv, &["pvc-11111111-1111-1111-1111-111111111111"]), vec![ONES]);
}

#[test]
fn second_plugin_name_is_ours_too() {
    let pv = released("com.datacore.bolt", "11111111-1111-1111-1111-111111111111");
    assert_eq!(PvGarbageCollector::process_object(&pv), GcAction::Delete { volume: ONES });
    assert!(our_driver(&MAYASTOR_PLUGIN.to_string()));
    assert!(our_driver(&BOLT_PLUGIN.to_string()));
    assert!(!our_driver(&"io.openebs.csi-mayastor ".to_string()));
    assert!(!our_driver(&"IO.OPENEBS.CSI-MAYASTOR".to_string()));
    assert!(!our_driver(&String::new()));
}

#[test]
fn foreign_driver_is_ignored() {
    let pv = released("other.csi.driver", "11111111-1111-1111-1111-111111111111");
    assert_eq!(PvGarbageCollector::process_object(&pv), GcAction::Keep);
    assert_eq!(run_live(&pv, &[]), Vec::<u128>::new());
    let pv = bound("other.csi.driver", "11111111-1111-1111-1111-111111111111");
    assert_eq!(PvGarbageCollector::process_object(&pv), GcAction::Keep);
    assert_eq!(PvGarbageCollector::resolve_lookup(&pv, Presence::Absent), GcAction::Keep);
    assert_eq!(run_live(&pv, &[]), Vec::<u128>::new());
}

#[test]
fn manifest_without_csi_part_is_ignored() {
    let mut pv = released("io.openebs.csi-mayastor", "11111111-1111-1111-1111-111111111111");
    pv.csi = None;
    assert_eq!(PvGarbageCollector::process_object(&pv), GcAction::Keep);
    assert_eq!(PvGarbageCollector::resolve_lookup(&pv, Presence::Absent), GcAction::Keep);
}

#[test]
fn bound_and_present_manifest_is_kept() {
    let pv = bound("io.openebs.csi-mayastor", "11111111-1111-1111-1111-111111111111");
    assert_eq!(
        PvGarbageCollector::process_object(&pv),
        GcAction::Lookup { name: "pvc-11111111-1111-1111-1111-111111111111".to_string() }
    );
    assert_eq!(PvGarbageCollector::resolve_lookup(&pv, Presence::Present), GcAction::Keep);
    assert_eq!(
        run_live(&pv, &["pvc-11111111-1111-1111-1111-111111111111"]),
        Vec::<u128>::new()
    );
}

#[test]
fn bound_and_absent_manifest_is_an_orphan() {
    let pv = bound("io.openebs.csi-mayastor", "11111111-1111-1111-1111-111111111111");
    assert_eq!(
        PvGarbageCollector::resolve_lookup(&pv, Presence::Absent),
        GcAction::Delete { volume: ONES }
    );
    assert_eq!(run_live(&pv, &[]), vec![ONES]);
}

#[test]
fn failed_lookup_is_skipped() {
    let pv = bound("io.openebs.csi-mayastor", "11111111-1111-1111-1111-111111111111");
    assert_eq!(
        PvGarbageCollector::resolve_lookup(&pv, Presence::Unknown),
        GcAction::Skip(Failure::RemoteCallFailure)
    );
}

#[test]
fn bound_manifest_without_name_is_skipped() {
    let mut pv = bound("io.openebs.csi-mayastor", "11111111-1111-1111-1111-111111111111");
    pv.name = None;
    assert_eq!(
        PvGarbageCollector::process_object(&pv),
        GcAction::Skip(Failure::IncompleteManifest)
    );
    assert_eq!(
        PvGarbageCollector::resolve_lookup(&pv, Presence::Absent),
        GcAction::Skip(Failure::IncompleteManifest)
    );
}

#[test]
fn deletion_candidate_that_is_not_retained_and_released_is_kept() {
    let mut pv = released("io.openebs.csi-mayastor", "11111111-1111-1111-1111-111111111111");
    pv.reclaim_policy = Some("Delete".to_string());
    assert_eq!(PvGarbageCollector::process_object(&pv), GcAction::Keep);
    let mut pv = released("io.openebs.csi-mayastor", "11111111-1111-1111-1111-111111111111");
    pv.reclaim_policy = None;
    assert_eq!(PvGarbageCollector::process_object(&pv), GcAction::Keep);
    let mut pv = released("io.openebs.csi-mayastor", "11111111-1111-1111-1111-111111111111");
    pv.phase = Some("Failed".to_string());
    assert_eq!(PvGarbageCollector::process_object(&pv), GcAction::Keep);
    let mut pv = released("io.openebs.csi-mayastor", "11111111-1111-1111-1111-111111111111");
    pv.phase = None;
    assert_eq!(PvGarbageCollector::process_object(&pv), GcAction::Keep);
    let mut pv = released("io.openebs.csi-mayastor", "11111111-1111-1111-1111-111111111111");
    pv.phase = Some("Bound".to_string());
    assert_eq!(PvGarbageCollector::process_object(&pv), GcAction::Keep);
    assert_eq!(PvGarbageCollector::resolve_lookup(&pv, Presence::Absent), GcAction::Keep);
}

#[test]
fn manifest_that_is_neither_deleted_nor_bound_is_kept() {
    let mut pv = bound("io.openebs.csi-mayastor", "11111111-1111-1111-1111-111111111111");
    pv.phase = Some("Released".to_string());
    pv.reclaim_policy = Some("Retain".to_string());
    assert_eq!(PvGarbageCollector::process_object(&pv), GcAction::Keep);
    pv.phase = Some("Available".to_string());
    assert_eq!(PvGarbageCollector::process_object(&pv), GcAction::Keep);
    pv.phase = None;
    assert_eq!(PvGarbageCollector::process_object(&pv), GcAction::Keep);
}

#[test]
fn malformed_handle_is_skipped_and_never_deleted() {
    for handle in ["", "not-a-uuid", "11111111-1111-1111-1111-11111111111", "pvc-11111111"] {
        let pv = released("io.openebs.csi-mayastor", handle);
        assert_eq!(
            PvGarbageCollector::process_object(&pv),
            GcAction::Skip(Failure::MalformedIdentifier)
        );
        assert_eq!(run_live(&pv, &[]), Vec::<u128>::new());
        let pv = bound("io.openebs.csi-mayastor", handle);
        assert_eq!(
            PvGarbageCollector::resolve_lookup(&pv, Presence::Absent),
            GcAction::Skip(Failure::MalformedIdentifier)
        );
        assert_eq!(run_live(&pv, &[]), Vec::<u128>::new());
        assert_eq!(
            PvGarbageCollector::delete_volume(handle),
            GcAction::Skip(Failure::MalformedIdentifier)
        );
    }
}

#[test]
fn volume_handle_is_read_as_a_uuid() {
    assert_eq!(
        PvGarbageCollector::delete_volume("11111111-1111-1111-1111-111111111111"),
        GcAction::Delete { volume: ONES }
    );
    assert_eq!(
        PvGarbageCollector::delete_volume("00000000-0000-0000-0000-0000000000ff"),
        GcAction::Delete { volume: 255 }
    );
    assert_eq!(
        PvGarbageCollector::delete_volume("0123456789ABCDEF0123456789abcdef"),
        GcAction::Delete { volume: 0x0123456789abcdef0123456789abcdef }
    );
    assert_eq!(delete_parsed(Some(7)), GcAction::Delete { volume: 7 });
    assert_eq!(delete_parsed(None), GcAction::Skip(Failure::MalformedIdentifier));
}

#[test]
fn manifest_name_is_prefix_and_hyphenated_uuid() {
    assert_eq!(
        PvGarbageCollector::manifest_name(ONES),
        "pvc-11111111-1111-1111-1111-111111111111"
    );
    assert_eq!(PvGarbageCollector::manifest_name(0), "pvc-00000000-0000-0000-0000-000000000000");
    assert_eq!(
        PvGarbageCollector::manifest_name(0x0123456789ABCDEF_FEDCBA9876543210),
        "pvc-01234567-89ab-cdef-fedc-ba9876543210"
    );
    assert_eq!(
        PvGarbageCollector::manifest_name(u128::MAX),
        "pvc-ffffffff-ffff-ffff-ffff-ffffffffffff"
    );
}

#[test]
fn name_and_handle_of_a_volume_agree() {
    let volume = 0x9f3b6c1e_52a4_4d7e_8c0b_1a2b3c4d5e6f_u128;
    let name = PvGarbageCollector::manifest_name(volume);
    let handle = name.strip_prefix("pvc-").unwrap();
    assert_eq!(PvGarbageCollector::delete_volume(handle), GcAction::Delete { volume });
}

#[test]
fn second_delete_of_a_volume_is_no_fatal_error() {
    let mut inventory = vec![ONES];
    let mut delete = |volume: u128| -> bool {
        let before = inventory.len();
        inventory.retain(|held| *held != volume);
        inventory.len() < before
    };
    let from_startup = PvGarbageCollector::handle_missed_events(&vec![(ONES, Presence::Absent)]);
    let pv = released("io.openebs.csi-mayastor", "11111111-1111-1111-1111-111111111111");
    let from_watch = run_live(&pv, &[]);
    assert_eq!(from_startup, from_watch);
    let first = PvGarbageCollector::delete_outcome(delete(from_startup[0]));
    let second = PvGarbageCollector::delete_outcome(delete(from_watch[0]));
    assert_eq!(first, None);
    assert_eq!(second, Some(Failure::RemoteCallFailure));
    assert!(!second.unwrap().is_fatal());
    assert!(inventory.is_empty());
}

#[test]
fn only_a_broken_watch_is_fatal() {
    assert!(Failure::WatchStreamFailure.is_fatal());
    assert!(!Failure::RemoteCallFailure.is_fatal());
    assert!(!Failure::MalformedIdentifier.is_fatal());
    assert!(!Failure::IncompleteManifest.is_fatal());
}
