use vstd::prelude::*;
use crate::changelog::{
    releases_changelog, system76_changelog, release_log, system76_log, ChangelogContent,
};
use crate::component::ComponentMap;
use crate::entity::{Entities, Entity};
use crate::firmware::{
    duplicate_releases, FirmwareInfo, FwupdDevice, FwupdRelease, FwupdSignal, System76Changelog,
    System76Digest,
};

verus! {

/// How long a row stays on screen at 100% before it is hidden, in seconds.
pub const HIDE_ROW_DELAY_SECS: u32 = 1;

/// Which list a device's row belongs to.
#[derive(Clone, Copy, Debug, PartialEq, Eq, Structural)]
pub enum RowKind {
    /// A system-level device, whose update needs a reboot.
    System,
    Device,
}

/// The revealable changelog area of a row.
#[derive(Clone, Debug, PartialEq, Eq)]
pub struct Revealer {
    pub shown: bool,
    /// Generated on the first reveal, then kept.
    pub content: Option<ChangelogContent>,
}

/// What the presentation layer shows for one device.
#[derive(Clone, Debug, PartialEq, Eq)]
pub struct DeviceRow {
    pub kind: RowKind,
    pub name: String,
    /// The version text of the row.
    pub label: String,
    /// The upgrade button is on screen.
    pub upgrade_visible: bool,
    /// Clicking the upgrade button raises an update request for the entity.
    pub upgrade_connected: bool,
    /// The upgrade button has been exchanged for a progress bar.
    pub waiting: bool,
    pub progress_percent: u8,
    pub revealer: Revealer,
}

impl DeviceRow {
    /// The row of a device as it is first shown.
    pub open spec fn fresh(kind: RowKind, name: String, current: String, upgradeable: bool) -> DeviceRow {
        DeviceRow {
            kind,
            name,
            label: current,
            upgrade_visible: upgradeable,
            upgrade_connected: upgradeable,
            waiting: false,
            progress_percent: 0,
            revealer: Revealer { shown: false, content: None },
        }
    }

    fn new(kind: RowKind, name: String, current: String, upgradeable: bool) -> (r: DeviceRow)
        ensures
            r == DeviceRow::fresh(kind, name, current, upgradeable),
    {
        DeviceRow {
            kind,
            name,
            label: current,
            upgrade_visible: upgradeable,
            upgrade_connected: upgradeable,
            waiting: false,
            progress_percent: 0,
            revealer: Revealer { shown: false, content: None },
        }
    }

    /// The row after a successful update to `version`.
    pub open spec fn completed(self, version: String) -> DeviceRow {
        DeviceRow { label: version, progress_percent: 100, ..self }
    }

    /// The row with its upgrade button exchanged for a progress bar.
    pub open spec fn switched_to_waiting(self) -> DeviceRow {
        DeviceRow { waiting: true, ..self }
    }

    /// The row with its changelog area shown or hidden and holding `content`.
    pub open spec fn with_revealer(self, shown: bool, content: Option<ChangelogContent>) -> DeviceRow {
        DeviceRow { revealer: Revealer { shown, content }, ..self }
    }
}

/// What the generic update daemon reported of a device.
#[derive(Clone, Debug, PartialEq, Eq)]
pub struct FwupdPayload {
    pub device: FwupdDevice,
    pub releases: Vec<FwupdRelease>,
}

/// What the vendor system-firmware source reported of a device.
#[derive(Clone, Debug, PartialEq, Eq)]
pub struct System76Payload {
    pub digest: System76Digest,
    pub changelog: System76Changelog,
}

/// Components are optional pieces of data that are assigned to entities.
pub struct Components {
    pub device_rows: ComponentMap<DeviceRow>,
    /// The latest version of a device; present when an update is known.
    pub latest: ComponentMap<String>,
    pub fwupd: ComponentMap<FwupdPayload>,
    pub system76: ComponentMap<System76Payload>,
    /// The digest of an embedded-controller (Thelio I/O) image.
    pub thelio: ComponentMap<System76Digest>,
}

/// All device state, and the rules by which events change it.
pub struct State {
    pub components: Components,
    pub entities: Entities,
    /// The machine ran on battery when the state was made.
    pub has_battery: bool,
    /// The device list has been brought on screen.
    pub devices_shown: bool,
}

/// A request for the background worker to flash a device.
#[derive(Clone, Debug, PartialEq, Eq)]
pub enum FirmwareRequest {
    /// Flash `release` onto a device of the generic update daemon.
    Fwupd { entity: Entity, device: FwupdDevice, release: FwupdRelease },
    /// Flash the system firmware identified by `digest`, of version `latest`.
    System76 { entity: Entity, digest: System76Digest, latest: String },
    /// Flash an embedded controller with the image identified by `digest`.
    ThelioIo { entity: Entity, digest: System76Digest },
}

/// The confirmation asked of the user before a generic-daemon update.
#[derive(Clone, Debug, PartialEq, Eq)]
pub struct FwupdDialog {
    pub entity: Entity,
    pub device: FwupdDevice,
    pub releases: Vec<FwupdRelease>,
    pub latest: String,
    pub has_battery: bool,
    /// The update takes effect only after a reboot.
    pub needs_reboot: bool,
}

/// The confirmation asked of the user before a vendor system-firmware update.
#[derive(Clone, Debug, PartialEq, Eq)]
pub struct System76Dialog {
    pub entity: Entity,
    pub digest: System76Digest,
    pub changelog: System76Changelog,
    pub latest: String,
    pub has_battery: bool,
}

impl FwupdDialog {
    /// The request sent when the user confirms: the newest release, which is
    /// the last one; `None` when there is no release to flash.
    pub fn accept(&self) -> (r: Option<FirmwareRequest>)
        ensures
            self.releases@.len() == 0 ==> r is None,
            self.releases@.len() > 0 ==> r == Some(
                FirmwareRequest::Fwupd {
                    entity: self.entity,
                    device: self.device,
                    release: self.releases@.last(),
                },
            ),
    {
        let n = self.releases.len();
        if n == 0 {
            return None;
        }
        Some(
            FirmwareRequest::Fwupd {
                entity: self.entity,
                device: self.device.duplicate(),
                release: self.releases[n - 1].duplicate(),
            },
        )
    }
}

impl System76Dialog {
    /// The request sent when the user confirms.
    pub fn accept(&self) -> (r: FirmwareRequest)
        ensures
            r == (FirmwareRequest::System76 {
                entity: self.entity,
                digest: self.digest,
                latest: self.latest,
            }),
    {
        FirmwareRequest::System76 {
            entity: self.entity,
            digest: self.digest.duplicate(),
            latest: self.latest.clone(),
        }
    }
}

/// What an update request for an entity leads to.
#[derive(Clone, Debug, PartialEq, Eq)]
pub enum UpdateAction {
    /// The entity has no known update: a caller error, and nothing happens.
    NotUpgradeable,
    /// An update is known but no backend data to perform it was recorded.
    Unavailable,
    FwupdDialog(FwupdDialog),
    System76Dialog(System76Dialog),
    /// No confirmation: the row's progress bar is to be activated and the
    /// request sent to the worker at once.
    Flash(FirmwareRequest),
}

/// What follows a successful update, in the order it is to happen.
#[derive(Clone, Copy, Debug, PartialEq, Eq, Structural)]
pub enum CompletionEffect {
    DeactivateProgress(Entity),
    Reboot,
    /// Hide the entity's row once `delay_secs` seconds have passed.
    HideRow { entity: Entity, delay_secs: u32 },
}

/// A device is upgradeable when its latest version is known and differs
/// from the one it runs.
pub open spec fn info_upgradeable(info: FirmwareInfo) -> bool {
    info.latest matches Some(l) && l@ != info.current@
}

impl State {
    /// Every component belongs to a registered entity, every entity has a
    /// row, and no entity holds more than one backend payload.
    pub open spec fn wf(&self) -> bool {
        &&& forall|e: Entity| #[trigger] self.components.device_rows@.contains_key(e) <==> self.entities.has(e)
        &&& forall|e: Entity| #[trigger] self.components.latest@.contains_key(e) ==> self.entities.has(e)
        &&& forall|e: Entity| #[trigger] self.components.fwupd@.contains_key(e) ==> self.entities.has(e)
            && !self.components.system76@.contains_key(e) && !self.components.thelio@.contains_key(e)
        &&& forall|e: Entity| #[trigger] self.components.system76@.contains_key(e) ==> self.entities.has(e)
            && !self.components.thelio@.contains_key(e)
        &&& forall|e: Entity| #[trigger] self.components.thelio@.contains_key(e) ==> self.entities.has(e)
    }

    /// The changelog that a first reveal of `e` shows: the daemon's releases
    /// most recent first, else the vendor changelog, else none.
    pub open spec fn changelog_of(&self, e: Entity) -> Option<Seq<(Seq<char>, Seq<char>)>> {
        if self.components.fwupd@.contains_key(e) {
            Some(release_log(self.components.fwupd@[e].releases@))
        } else if self.components.system76@.contains_key(e) {
            Some(system76_log(self.components.system76@[e].changelog.versions@))
        } else {
            None
        }
    }

    /// `after` is `self` with only the rows replaced by `rows`.
    pub open spec fn rows_replaced(&self, after: State, rows: Map<Entity, DeviceRow>) -> bool {
        &&& after.components.device_rows@ == rows
        &&& after.components.latest == self.components.latest
        &&& after.components.fwupd == self.components.fwupd
        &&& after.components.system76 == self.components.system76
        &&& after.components.thelio == self.components.thelio
        &&& after.entities == self.entities
        &&& after.has_battery == self.has_battery
        &&& after.devices_shown == self.devices_shown
    }

    /// `after` follows from `self` by a reveal of `e` that reported `shown`:
    /// the changelog area toggles, and its content is generated on the first
    /// reveal only and kept from then on.
    pub open spec fn reveal_post(&self, e: Entity, after: State, shown: bool) -> bool {
        let row = self.components.device_rows@[e];
        let content = after.components.device_rows@[e].revealer.content;
        &&& shown == !row.revealer.shown
        &&& self.rows_replaced(after, self.components.device_rows@.insert(e, row.with_revealer(shown, content)))
        &&& (row.revealer.content is Some || row.revealer.shown) ==> content == row.revealer.content
        &&& (row.revealer.content is None && !row.revealer.shown) ==> (content matches Some(c) && c@ == self.changelog_of(e))
    }

    pub fn new(has_battery: bool) -> (r: State)
        ensures
            r.entities@ == Seq::<bool>::empty(),
            r.components.device_rows@ == Map::<Entity, DeviceRow>::empty(),
            r.components.latest@ == Map::<Entity, String>::empty(),
            r.components.fwupd@ == Map::<Entity, FwupdPayload>::empty(),
            r.components.system76@ == Map::<Entity, System76Payload>::empty(),
            r.components.thelio@ == Map::<Entity, System76Digest>::empty(),
            r.has_battery == has_battery,
            !r.devices_shown,
            r.wf(),
    {
        State {
            components: Components {
                device_rows: ComponentMap::new(),
                latest: ComponentMap::new(),
                fwupd: ComponentMap::new(),
                system76: ComponentMap::new(),
                thelio: ComponentMap::new(),
            },
            entities: Entities::new(),
            has_battery,
            devices_shown: false,
        }
    }

    /// Registers a new device with its row, and brings the device list on screen.
    pub fn create_device(&mut self, row: DeviceRow) -> (e: Entity)
        requires
            old(self).entities@.len() < usize::MAX,
        ensures
            e.index == old(self).entities@.len(),
            final(self).entities@ == old(self).entities@.push(false),
            final(self).components.device_rows@ == old(self).components.device_rows@.insert(e, row),
            final(self).components.latest == old(self).components.latest,
            final(self).components.fwupd == old(self).components.fwupd,
            final(self).components.system76 == old(self).components.system76,
            final(self).components.thelio == old(self).components.thelio,
            final(self).has_battery == old(self).has_battery,
            final(self).devices_shown,
            old(self).entities.kept_in(&final(self).entities),
            old(self).wf() ==> final(self).wf(),
    {
        let e = self.entities.create();
        self.components.device_rows.insert(e, row);
        self.devices_shown = true;
        e
    }

    /// A device found by the generic update daemon. Its latest version and
    /// payload are recorded when the daemon knows a latest version; the
    /// upgrade button is offered when, in addition, the daemon says it is
    /// upgradeable. A device that needs a reboot is a system device.
    pub fn fwupd(&mut self, signal: FwupdSignal) -> (e: Entity)
        requires
            old(self).entities@.len() < usize::MAX,
        ensures
            e.index == old(self).entities@.len(),
            final(self).entities@ == old(self).entities@.push(signal.device.needs_reboot),
            final(self).components.device_rows@ == old(self).components.device_rows@.insert(
                e,
                DeviceRow::fresh(
                    if signal.device.needs_reboot { RowKind::System } else { RowKind::Device },
                    signal.info.name,
                    signal.info.current,
                    signal.info.latest is Some && signal.upgradeable,
                ),
            ),
            signal.info.latest matches Some(l) ==> final(self).components.latest@
                == old(self).components.latest@.insert(e, l),
            signal.info.latest is Some ==> final(self).components.fwupd@
                == old(self).components.fwupd@.insert(
                e,
                FwupdPayload { device: signal.device, releases: signal.releases },
            ),
            signal.info.latest is None ==> final(self).components.latest == old(self).components.latest
                && final(self).components.fwupd == old(self).components.fwupd,
            final(self).components.system76 == old(self).components.system76,
            final(self).components.thelio == old(self).components.thelio,
            final(self).has_battery == old(self).has_battery,
            final(self).devices_shown,
            old(self).entities.kept_in(&final(self).entities),
            old(self).wf() ==> final(self).wf(),
    {
        let FwupdSignal { info, device, upgradeable, releases } = signal;
        let FirmwareInfo { name, current, latest } = info;
        let needs_reboot = device.needs_reboot;
        let kind = if needs_reboot { RowKind::System } else { RowKind::Device };
        let row = DeviceRow::new(kind, name, current, latest.is_some() && upgradeable);
        let e = self.create_device(row);
        if needs_reboot {
            self.entities.associate_system(e);
        }
        assert(self.entities@ =~= old(self).entities@.push(needs_reboot));
        if let Some(latest) = latest {
            self.components.latest.insert(e, latest);
            self.components.fwupd.insert(e, FwupdPayload { device, releases });
        }
        e
    }

    /// System firmware found by the vendor source; always a system device.
    /// When the latest version is known, the downloaded digest and changelog
    /// are recorded, and the latest version too where it differs from the
    /// current one, which is when the upgrade button is offered.
    pub fn system76_system(
        &mut self,
        info: FirmwareInfo,
        downloaded: Option<(System76Digest, System76Changelog)>,
    ) -> (e: Entity)
        requires
            old(self).entities@.len() < usize::MAX,
        ensures
            e.index == old(self).entities@.len(),
            final(self).entities@ == old(self).entities@.push(true),
            final(self).components.device_rows@ == old(self).components.device_rows@.insert(
                e,
                DeviceRow::fresh(RowKind::System, info.name, info.current, info_upgradeable(info)),
            ),
            info_upgradeable(info) ==> final(self).components.latest@
                == old(self).components.latest@.insert(e, info.latest->Some_0),
            !info_upgradeable(info) ==> final(self).components.latest == old(self).components.latest,
            (info.latest is Some && downloaded is Some) ==> final(self).components.system76@
                == old(self).components.system76@.insert(
                e,
                System76Payload { digest: downloaded->Some_0.0, changelog: downloaded->Some_0.1 },
            ),
            (info.latest is None || downloaded is None) ==> final(self).components.system76
                == old(self).components.system76,
            final(self).components.fwupd == old(self).components.fwupd,
            final(self).components.thelio == old(self).components.thelio,
            final(self).has_battery == old(self).has_battery,
            final(self).devices_shown,
            old(self).entities.kept_in(&final(self).entities),
            old(self).wf() ==> final(self).wf(),
    {
        let FirmwareInfo { name, current, latest } = info;
        let upgradeable = match &latest {
            Some(l) => !(*l == current),
            None => false,
        };
        let row = DeviceRow::new(RowKind::System, name, current, upgradeable);
        let e = self.create_device(row);
        self.entities.associate_system(e);
        assert(self.entities@ =~= old(self).entities@.push(true));
        if let Some(latest) = latest {
            if upgradeable {
                self.components.latest.insert(e, latest);
            }
            if let Some((digest, changelog)) = downloaded {
                self.components.system76.insert(e, System76Payload { digest, changelog });
            }
        }
        e
    }

    /// An embedded-controller (Thelio I/O) board found by the vendor source.
    /// With a digest and a latest version that differs from the current one,
    /// both are recorded and the upgrade button is offered; otherwise the
    /// device is only shown.
    pub fn thelio_io(&mut self, info: FirmwareInfo, digest: Option<System76Digest>) -> (e: Entity)
        requires
            old(self).entities@.len() < usize::MAX,
        ensures
            e.index == old(self).entities@.len(),
            final(self).entities@ == old(self).entities@.push(false),
            final(self).components.device_rows@ == old(self).components.device_rows@.insert(
                e,
                DeviceRow::fresh(
                    RowKind::Device,
                    info.name,
                    info.current,
                    digest is Some && info_upgradeable(info),
                ),
            ),
            (digest is Some && info_upgradeable(info)) ==> final(self).components.latest@
                == old(self).components.latest@.insert(e, info.latest->Some_0)
                && final(self).components.thelio@ == old(self).components.thelio@.insert(
                e,
                digest->Some_0,
            ),
            !(digest is Some && info_upgradeable(info)) ==> final(self).components.latest
                == old(self).components.latest && final(self).components.thelio
                == old(self).components.thelio,
            final(self).components.fwupd == old(self).components.fwupd,
            final(self).components.system76 == old(self).components.system76,
            final(self).has_battery == old(self).has_battery,
            final(self).devices_shown,
            old(self).entities.kept_in(&final(self).entities),
            old(self).wf() ==> final(self).wf(),
    {
        let FirmwareInfo { name, current, latest } = info;
        let upgradeable = match (&digest, &latest) {
            (Some(_), Some(l)) => !(*l == current),
            _ => false,
        };
        let row = DeviceRow::new(RowKind::Device, name, current, upgradeable);
        let e = self.create_device(row);
        if upgradeable {
            if let (Some(digest), Some(latest)) = (digest, latest) {
                self.components.latest.insert(e, latest);
                self.components.thelio.insert(e, digest);
            }
        }
        e
    }

    /// Generates the changelog content of `e`.
    fn changelog(&self, e: Entity) -> (r: ChangelogContent)
        ensures
            r@ == self.changelog_of(e),
    {
        match self.components.fwupd.get(e) {
            Some(payload) => releases_changelog(&payload.releases),
            None => match self.components.system76.get(e) {
                Some(payload) => system76_changelog(&payload.changelog.versions),
                None => ChangelogContent::Unavailable,
            },
        }
    }

    /// Shows the changelog of `e` if it is hidden, or hides it if it is
    /// shown, generating its content on the first reveal only. Returns
    /// whether the changelog is now shown.
    pub fn reveal_changelog(&mut self, e: Entity) -> (shown: bool)
        requires
            old(self).components.device_rows@.contains_key(e),
        ensures
            old(self).reveal_post(e, *final(self), shown),
            old(self).entities.kept_in(&final(self).entities),
            old(self).wf() ==> final(self).wf(),
    {
        let (was_shown, has_content) = match self.components.device_rows.get(e) {
            Some(row) => (row.revealer.shown, row.revealer.content.is_some()),
            None => (false, false),
        };
        let generated = if !was_shown && !has_content {
            Some(self.changelog(e))
        } else {
            None
        };
        let shown = !was_shown;
        match self.components.device_rows.get_mut(e) {
            Some(row) => {
                row.revealer.shown = shown;
                if generated.is_some() {
                    row.revealer.content = generated;
                }
            },
            None => {},
        }
        shown
    }

    /// Acts on a request to update `e`: asks for confirmation of a
    /// generic-daemon or vendor system-firmware update, in that order of
    /// precedence, or else flashes an embedded controller at once.
    pub fn update(&mut self, e: Entity) -> (r: UpdateAction)
        ensures
            !old(self).components.latest@.contains_key(e) ==> r == UpdateAction::NotUpgradeable
                && *final(self) == *old(self),
            (old(self).components.latest@.contains_key(e)
                && old(self).components.fwupd@.contains_key(e)) ==> (*final(self) == *old(self)
                && (r matches UpdateAction::FwupdDialog(d) && d.entity == e
                && d.device == old(self).components.fwupd@[e].device
                && d.releases@ == old(self).components.fwupd@[e].releases@
                && d.latest == old(self).components.latest@[e]
                && d.has_battery == old(self).has_battery
                && d.needs_reboot == old(self).entities.tagged(e))),
            (old(self).components.latest@.contains_key(e)
                && !old(self).components.fwupd@.contains_key(e)
                && old(self).components.system76@.contains_key(e)) ==> (*final(self) == *old(self)
                && (r matches UpdateAction::System76Dialog(d) && d.entity == e
                && d.digest == old(self).components.system76@[e].digest
                && d.changelog.versions@ == old(self).components.system76@[e].changelog.versions@
                && d.latest == old(self).components.latest@[e]
                && d.has_battery == old(self).has_battery)),
            (old(self).components.latest@.contains_key(e)
                && !old(self).components.fwupd@.contains_key(e)
                && !old(self).components.system76@.contains_key(e)
                && old(self).components.thelio@.contains_key(e)) ==> r == UpdateAction::Flash(
                FirmwareRequest::ThelioIo { entity: e, digest: old(self).components.thelio@[e] },
            ) && old(self).rows_replaced(
                *final(self),
                if old(self).components.device_rows@.contains_key(e) {
                    old(self).components.device_rows@.insert(
                        e,
                        old(self).components.device_rows@[e].switched_to_waiting(),
                    )
                } else {
                    old(self).components.device_rows@
                },
            ),
            (old(self).components.latest@.contains_key(e)
                && !old(self).components.fwupd@.contains_key(e)
                && !old(self).components.system76@.contains_key(e)
                && !old(self).components.thelio@.contains_key(e)) ==> r == UpdateAction::Unavailable
                && *final(self) == *old(self),
            old(self).entities.kept_in(&final(self).entities),
            old(self).wf() ==> final(self).wf(),
    {
        let latest = match self.components.latest.get(e) {
            Some(latest) => latest.clone(),
            None => return UpdateAction::NotUpgradeable,
        };
        if let Some(payload) = self.components.fwupd.get(e) {
            return UpdateAction::FwupdDialog(
                FwupdDialog {
                    entity: e,
                    device: payload.device.duplicate(),
                    releases: duplicate_releases(&payload.releases),
                    latest,
                    has_battery: self.has_battery,
                    needs_reboot: self.entities.is_system(e),
                },
            );
        }
        if let Some(payload) = self.components.system76.get(e) {
            return UpdateAction::System76Dialog(
                System76Dialog {
                    entity: e,
                    digest: payload.digest.duplicate(),
                    changelog: payload.changelog.duplicate(),
                    latest,
                    has_battery: self.has_battery,
                },
            );
        }
        let digest = match self.components.thelio.get(e) {
            Some(digest) => digest.duplicate(),
            None => return UpdateAction::Unavailable,
        };
        if let Some(row) = self.components.device_rows.get_mut(e) {
            row.waiting = true;
        }
        UpdateAction::Flash(FirmwareRequest::ThelioIo { entity: e, digest })
    }

    /// Records a successful update of `e` to `latest`: the row shows 100%
    /// and the new version, and the effects that follow are returned in
    /// order: the progress bar is deactivated, a system device reboots the
    /// machine, and the row is hidden after a delay. Nothing happens for an
    /// entity without a row.
    pub fn device_updated(&mut self, e: Entity, latest: String) -> (r: Vec<CompletionEffect>)
        ensures
            !old(self).components.device_rows@.contains_key(e) ==> r@.len() == 0
                && *final(self) == *old(self),
            old(self).components.device_rows@.contains_key(e) ==> old(self).rows_replaced(
                *final(self),
                old(self).components.device_rows@.insert(
                    e,
                    old(self).components.device_rows@[e].completed(latest),
                ),
            ) && r@ == if old(self).entities.tagged(e) {
                seq![
                    CompletionEffect::DeactivateProgress(e),
                    CompletionEffect::Reboot,
                    CompletionEffect::HideRow { entity: e, delay_secs: HIDE_ROW_DELAY_SECS },
                ]
            } else {
                seq![
                    CompletionEffect::DeactivateProgress(e),
                    CompletionEffect::HideRow { entity: e, delay_secs: HIDE_ROW_DELAY_SECS },
                ]
            },
            old(self).entities.kept_in(&final(self).entities),
            old(self).wf() ==> final(self).wf(),
    {
        let mut effects: Vec<CompletionEffect> = Vec::new();
        if !self.components.device_rows.contains(e) {
            return effects;
        }
        match self.components.device_rows.get_mut(e) {
            Some(row) => {
                row.progress_percent = 100;
                row.label = latest;
            },
            None => return effects,
        }
        effects.push(CompletionEffect::DeactivateProgress(e));
        if self.entities.is_system(e) {
            effects.push(CompletionEffect::Reboot);
        }
        effects.push(CompletionEffect::HideRow { entity: e, delay_secs: HIDE_ROW_DELAY_SECS });
        effects
    }
}

/// Revealing a hidden changelog twice in a row shows it and then hides it,
/// and the content generated by the first reveal is the content kept by the
/// second.
pub proof fn lemma_reveal_twice(
    s0: State,
    s1: State,
    s2: State,
    e: Entity,
    first: bool,
    second: bool,
)
    requires
        s0.components.device_rows@.contains_key(e),
        !s0.components.device_rows@[e].revealer.shown,
        s0.reveal_post(e, s1, first),
        s1.reveal_post(e, s2, second),
    ensures
        first,
        !second,
        s1.components.device_rows@[e].revealer.content is Some,
        s2.components.device_rows@[e].revealer.content == s1.components.device_rows@[e].revealer.content,
        s0.components.device_rows@[e].revealer.content is None ==> s1.components.device_rows@[
            e
        ].revealer.content->Some_0@ == s0.changelog_of(e),
{
    assert(s1.components.device_rows@.contains_key(e));
}

} // verus!
