use firmware_state::changelog::{ChangelogContent, ChangelogEntry};
use firmware_state::component::ComponentMap;
use firmware_state::entity::{Entities, Entity};
use firmware_state::firmware::{
    FirmwareInfo, FwupdDevice, FwupdRelease, FwupdSignal, System76Changelog,
    System76ChangelogVersion, System76Digest,
};
use firmware_state::state::{
    CompletionEffect, DeviceRow, FirmwareRequest, Revealer, RowKind, State, UpdateAction,
    HIDE_ROW_DELAY_SECS,
};

fn info(name: &str, current: &str, latest: Option<&str>) -> FirmwareInfo {
    FirmwareInfo {
        name: name.to_owned(),
        current: current.to_owned(),
        latest: latest.map(|l| l.to_owned()),
    }
}

fn release(version: &str, description: &str) -> FwupdRelease {
    FwupdRelease { version: version.to_owned(), description: description.to_owned() }
}

fn digest(value: &str) -> System76Digest {
    System76Digest { value: value.to_owned() }
}

fn fwupd_signal(needs_reboot: bool, upgradeable: bool, latest: Option<&str>, releases: Vec<FwupdRelease>) -> FwupdSignal {
    FwupdSignal {
        info: info("dock", "1.0", latest),
        device: FwupdDevice { device_id: "dev-1".to_owned(), needs_reboot },
        upgradeable,
        releases,
    }
}

fn vendor_changelog() -> System76Changelog {
    System76Changelog {
        versions: vec![
            System76ChangelogVersion { bios: "2021-02".to_owned(), description: Some("fixes".to_owned()) },
            System76ChangelogVersion { bios: "2021-01".to_owned(), description: None },
        ],
    }
}

fn row(state: &State, e: Entity) -> &DeviceRow {
    state.components.device_rows.get(e).expect("row")
}

#[test]
fn entities_are_issued_in_order_and_tagged_once() {
    let mut entities = Entities::new();
    let a = entities.create();
    let b = entities.create();
    assert_eq!(a.index, 0);
    assert_eq!(b.index, 1);
    assert!(!entities.is_system(a));
    entities.associate_system(a);
    entities.associate_system(a);
    assert!(entities.is_system(a));
    assert!(!entities.is_system(b));
    assert!(!entities.is_system(Entity { index: 7 }));
    assert!(!entities.contains(Entity { index: 2 }));
    assert_eq!(entities.len(), 2);
}

#[test]
fn component_map_overwrites_and_reports_absence() {
    let mut map: ComponentMap<u32> = ComponentMap::new();
    let e = Entity { index: 3 };
    assert_eq!(map.get(e), None);
    map.insert(e, 5);
    map.insert(e, 9);
    assert_eq!(map.get(e), Some(&9));
    assert_eq!(map.get(Entity { index: 0 }), None);
    assert_eq!(map.get(Entity { index: 10 }), None);
    assert!(map.contains(e));
    if let Some(v) = map.get_mut(e) {
        *v = 11;
    }
    assert_eq!(map.get(e), Some(&11));
}

#[test]
fn fwupd_upgradeable_device_opens_dialog_with_its_release() {
    let mut state = State::new(true);
    let e = state.fwupd(fwupd_signal(false, true, Some("2.0.1"), vec![release("2.0.1", "new")]));
    assert!(state.devices_shown);
    assert_eq!(state.components.latest.get(e).map(|l| l.as_str()), Some("2.0.1"));
    let r = row(&state, e);
    assert!(r.upgrade_connected);
    assert!(r.upgrade_visible);
    assert_eq!(r.kind, RowKind::Device);
    match state.update(e) {
        UpdateAction::FwupdDialog(d) => {
            assert_eq!(d.entity, e);
            assert_eq!(d.releases, vec![release("2.0.1", "new")]);
            assert_eq!(d.latest, "2.0.1");
            assert!(d.has_battery);
            assert!(!d.needs_reboot);
            assert_eq!(d.device.device_id, "dev-1");
            match d.accept() {
                Some(FirmwareRequest::Fwupd { entity, release: r, .. }) => {
                    assert_eq!(entity, e);
                    assert_eq!(r.version, "2.0.1");
                }
                other => panic!("unexpected request {:?}", other),
            }
        }
        other => panic!("unexpected action {:?}", other),
    }
}

#[test]
fn controller_with_current_latest_is_not_upgradeable() {
    let mut state = State::new(false);
    let e = state.thelio_io(info("io", "1.4", Some("1.4")), Some(digest("D")));
    let r = row(&state, e);
    assert!(!r.upgrade_visible);
    assert!(!r.upgrade_connected);
    assert_eq!(state.components.latest.get(e), None);
    assert_eq!(state.update(e), UpdateAction::NotUpgradeable);
    assert!(!row(&state, e).waiting);
}

#[test]
fn system_device_completion_reboots_then_hides_once() {
    let mut state = State::new(false);
    let e = state.system76_system(info("bios", "2.0", Some("3.0")), Some((digest("D"), vendor_changelog())));
    let effects = state.device_updated(e, "3.0".to_owned());
    let r = row(&state, e);
    assert_eq!(r.label, "3.0");
    assert_eq!(r.progress_percent, 100);
    assert_eq!(
        effects,
        vec![
            CompletionEffect::DeactivateProgress(e),
            CompletionEffect::Reboot,
            CompletionEffect::HideRow { entity: e, delay_secs: HIDE_ROW_DELAY_SECS },
        ]
    );
    let hides = effects.iter().filter(|f| matches!(f, CompletionEffect::HideRow { .. })).count();
    assert_eq!(hides, 1);
    assert_eq!(HIDE_ROW_DELAY_SECS, 1);
}

#[test]
fn device_completion_without_reboot() {
    let mut state = State::new(false);
    let e = state.thelio_io(info("io", "1.0", Some("1.1")), Some(digest("D")));
    let effects = state.device_updated(e, "1.1".to_owned());
    assert_eq!(
        effects,
        vec![
            CompletionEffect::DeactivateProgress(e),
            CompletionEffect::HideRow { entity: e, delay_secs: 1 },
        ]
    );
    assert_eq!(row(&state, e).label, "1.1");
    assert_eq!(row(&state, e).progress_percent, 100);
}

#[test]
fn completion_of_unknown_entity_does_nothing() {
    let mut state = State::new(false);
    assert!(state.device_updated(Entity { index: 4 }, "1.0".to_owned()).is_empty());
    assert!(!state.devices_shown);
}

#[test]
fn system_tag_persists_through_later_events() {
    let mut state = State::new(false);
    let e = state.fwupd(fwupd_signal(true, true, Some("2.0"), vec![release("2.0", "x")]));
    assert!(state.entities.is_system(e));
    assert_eq!(row(&state, e).kind, RowKind::System);
    let other = state.thelio_io(info("io", "1.0", Some("1.1")), Some(digest("D")));
    state.reveal_changelog(e);
    state.update(e);
    state.update(other);
    state.device_updated(other, "1.1".to_owned());
    assert!(state.entities.is_system(e));
    assert!(!state.entities.is_system(other));
}

#[test]
fn update_without_latest_is_a_no_op() {
    let mut state = State::new(false);
    let e = state.fwupd(fwupd_signal(false, true, None, vec![release("2.0", "x")]));
    assert!(!row(&state, e).upgrade_visible);
    assert!(state.components.fwupd.get(e).is_none());
    assert_eq!(state.update(e), UpdateAction::NotUpgradeable);
    assert_eq!(state.update(Entity { index: 9 }), UpdateAction::NotUpgradeable);
}

#[test]
fn reveal_toggles_and_keeps_generated_content() {
    let mut state = State::new(false);
    let releases = vec![release("1.0", "old"), release("2.0", "new")];
    let e = state.fwupd(fwupd_signal(false, true, Some("2.0"), releases));
    assert!(state.reveal_changelog(e));
    let first = row(&state, e).revealer.clone();
    assert!(first.shown);
    let expected = ChangelogContent::Entries(vec![
        ChangelogEntry { version: "2.0".to_owned(), description: "new".to_owned() },
        ChangelogEntry { version: "1.0".to_owned(), description: "old".to_owned() },
    ]);
    assert_eq!(first.content, Some(expected.clone()));
    assert!(!state.reveal_changelog(e));
    assert_eq!(row(&state, e).revealer, Revealer { shown: false, content: Some(expected.clone()) });
    assert!(state.reveal_changelog(e));
    assert_eq!(row(&state, e).revealer, Revealer { shown: true, content: Some(expected) });
}

#[test]
fn reveal_vendor_changelog_in_stored_order() {
    let mut state = State::new(false);
    let e = state.system76_system(info("bios", "1", Some("2")), Some((digest("D"), vendor_changelog())));
    assert!(state.reveal_changelog(e));
    let expected = ChangelogContent::Entries(vec![
        ChangelogEntry { version: "2021-02".to_owned(), description: "fixes".to_owned() },
        ChangelogEntry { version: "2021-01".to_owned(), description: "N/A".to_owned() },
    ]);
    assert_eq!(row(&state, e).revealer.content, Some(expected));
}

#[test]
fn reveal_without_payload_shows_placeholder() {
    let mut state = State::new(false);
    let e = state.thelio_io(info("io", "1.0", None), None);
    assert!(state.reveal_changelog(e));
    assert_eq!(row(&state, e).revealer.content, Some(ChangelogContent::Unavailable));
}

#[test]
fn vendor_system_firmware_takes_precedence_over_controller() {
    let mut state = State::new(true);
    let e = state.system76_system(info("bios", "1", Some("2")), Some((digest("S"), vendor_changelog())));
    state.components.thelio.insert(e, digest("T"));
    match state.update(e) {
        UpdateAction::System76Dialog(d) => {
            assert_eq!(d.entity, e);
            assert_eq!(d.digest, digest("S"));
            assert_eq!(d.changelog, vendor_changelog());
            assert_eq!(d.latest, "2");
            assert!(d.has_battery);
            assert_eq!(
                d.accept(),
                FirmwareRequest::System76 { entity: e, digest: digest("S"), latest: "2".to_owned() }
            );
        }
        other => panic!("unexpected action {:?}", other),
    }
    assert!(!row(&state, e).waiting);
}

#[test]
fn controller_update_flashes_at_once() {
    let mut state = State::new(false);
    let e = state.thelio_io(info("io", "1.0", Some("1.1")), Some(digest("D")));
    let r = row(&state, e);
    assert!(r.upgrade_visible);
    assert!(r.upgrade_connected);
    assert_eq!(r.label, "1.0");
    assert_eq!(
        state.update(e),
        UpdateAction::Flash(FirmwareRequest::ThelioIo { entity: e, digest: digest("D") })
    );
    assert!(row(&state, e).waiting);
}

#[test]
fn system_firmware_without_download_is_unavailable() {
    let mut state = State::new(false);
    let e = state.system76_system(info("bios", "1", Some("2")), None);
    assert!(state.entities.is_system(e));
    assert!(row(&state, e).upgrade_visible);
    assert_eq!(state.update(e), UpdateAction::Unavailable);
}

#[test]
fn system_firmware_up_to_date_keeps_changelog() {
    let mut state = State::new(false);
    let e = state.system76_system(info("bios", "2", Some("2")), Some((digest("D"), vendor_changelog())));
    assert!(!row(&state, e).upgrade_visible);
    assert!(state.components.system76.get(e).is_some());
    assert_eq!(state.update(e), UpdateAction::NotUpgradeable);
}

#[test]
fn fwupd_dialog_without_releases_requests_nothing() {
    let mut state = State::new(false);
    let e = state.fwupd(fwupd_signal(true, true, Some("2.0"), vec![]));
    match state.update(e) {
        UpdateAction::FwupdDialog(d) => {
            assert!(d.needs_reboot);
            assert_eq!(d.accept(), None);
        }
        other => panic!("unexpected action {:?}", other),
    }
}

#[test]
fn fwupd_not_upgradeable_records_latest_without_button() {
    let mut state = State::new(false);
    let e = state.fwupd(fwupd_signal(false, false, Some("2.0"), vec![release("2.0", "x")]));
    assert!(!row(&state, e).upgrade_visible);
    assert_eq!(state.components.latest.get(e).map(|l| l.as_str()), Some("2.0"));
}

#[test]
fn create_device_registers_row() {
    let mut state = State::new(false);
    let fresh = DeviceRow {
        kind: RowKind::Device,
        name: "n".to_owned(),
        label: "1".to_owned(),
        upgrade_visible: false,
        upgrade_connected: false,
        waiting: false,
        progress_percent: 0,
        revealer: Revealer { shown: false, content: None },
    };
    let e = state.create_device(fresh.clone());
    assert_eq!(e.index, 0);
    assert_eq!(row(&state, e), &fresh);
    assert!(state.devices_shown);
    assert!(!state.entities.is_system(e));
}
