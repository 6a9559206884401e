use vstd::prelude::*;

verus! {

/// What a backend reports of a device's firmware.
#[derive(Clone, Debug, PartialEq, Eq)]
pub struct FirmwareInfo {
    pub name: String,
    pub current: String,
    /// The newest version known for the device, if any is known.
    pub latest: Option<String>,
}

/// The descriptor of a device found by the generic update daemon.
#[derive(Clone, Debug, PartialEq, Eq)]
pub struct FwupdDevice {
    pub device_id: String,
    /// Flashing this device takes effect only after a reboot.
    pub needs_reboot: bool,
}

/// One release that the generic update daemon offers for a device.
#[derive(Clone, Debug, PartialEq, Eq)]
pub struct FwupdRelease {
    pub version: String,
    pub description: String,
}

/// Discovery of a device by the generic update daemon. The releases come
/// in ascending order of version, the newest last.
#[derive(Clone, Debug, PartialEq, Eq)]
pub struct FwupdSignal {
    pub info: FirmwareInfo,
    pub device: FwupdDevice,
    pub upgradeable: bool,
    pub releases: Vec<FwupdRelease>,
}

/// The content digest that identifies a vendor firmware image.
#[derive(Clone, Debug, PartialEq, Eq)]
pub struct System76Digest {
    pub value: String,
}

/// One entry of a vendor system-firmware changelog.
#[derive(Clone, Debug, PartialEq, Eq)]
pub struct System76ChangelogVersion {
    pub bios: String,
    pub description: Option<String>,
}

/// A vendor system-firmware changelog, in the order the vendor lists it.
#[derive(Clone, Debug, PartialEq, Eq)]
pub struct System76Changelog {
    pub versions: Vec<System76ChangelogVersion>,
}

// A derived `clone` carries no fact about its result, so the copies that the
// contracts speak of are made field by field below.

impl FwupdDevice {
    pub fn duplicate(&self) -> (r: FwupdDevice)
        ensures
            r == *self,
    {
        FwupdDevice { device_id: self.device_id.clone(), needs_reboot: self.needs_reboot }
    }
}

impl FwupdRelease {
    pub fn duplicate(&self) -> (r: FwupdRelease)
        ensures
            r == *self,
    {
        FwupdRelease { version: self.version.clone(), description: self.description.clone() }
    }
}

/// An element-by-element copy of a list of releases.
pub fn duplicate_releases(releases: &Vec<FwupdRelease>) -> (r: Vec<FwupdRelease>)
    ensures
        r@ == releases@,
{
    let mut r: Vec<FwupdRelease> = Vec::new();
    let mut i: usize = 0;
    while i < releases.len()
        invariant
            i <= releases@.len(),
            r@ == releases@.subrange(0, i as int),
        decreases releases@.len() - i,
    {
        r.push(releases[i].duplicate());
        i = i + 1;
        assert(r@ =~= releases@.subrange(0, i as int));
    }
    assert(releases@.subrange(0, i as int) =~= releases@);
    r
}

impl System76Digest {
    pub fn duplicate(&self) -> (r: System76Digest)
        ensures
            r == *self,
    {
        System76Digest { value: self.value.clone() }
    }
}

impl System76ChangelogVersion {
    pub fn duplicate(&self) -> (r: System76ChangelogVersion)
        ensures
            r == *self,
    {
        let description = match &self.description {
            Some(d) => Some(d.clone()),
            None => None,
        };
        System76ChangelogVersion { bios: self.bios.clone(), description }
    }
}

impl System76Changelog {
    pub fn duplicate(&self) -> (r: System76Changelog)
        ensures
            r.versions@ == self.versions@,
    {
        let mut versions: Vec<System76ChangelogVersion> = Vec::new();
        let mut i: usize = 0;
        while i < self.versions.len()
            invariant
                i <= self.versions@.len(),
                versions@ == self.versions@.subrange(0, i as int),
            decreases self.versions@.len() - i,
        {
            versions.push(self.versions[i].duplicate());
            i = i + 1;
            assert(versions@ =~= self.versions@.subrange(0, i as int));
        }
        assert(self.versions@.subrange(0, i as int) =~= self.versions@);
        System76Changelog { versions }
    }
}

} // verus!
