use vstd::prelude::*;
use crate::firmware::{FwupdRelease, System76ChangelogVersion};

verus! {

/// One line of a displayed changelog: a version and what it changed.
#[derive(Clone, Debug, PartialEq, Eq)]
pub struct ChangelogEntry {
    pub version: String,
    pub description: String,
}

impl ChangelogEntry {
    pub open spec fn view(&self) -> (Seq<char>, Seq<char>) {
        (self.version@, self.description@)
    }
}

/// The content shown when a device's changelog is revealed.
#[derive(Clone, Debug, PartialEq, Eq)]
pub enum ChangelogContent {
    Entries(Vec<ChangelogEntry>),
    /// The placeholder for a device that has no changelog.
    Unavailable,
}

impl ChangelogContent {
    /// The entries as (version, description) pairs; `None` for the placeholder.
    pub open spec fn view(&self) -> Option<Seq<(Seq<char>, Seq<char>)>> {
        match self {
            ChangelogContent::Entries(v) => Some(v@.map_values(|x: ChangelogEntry| x@)),
            ChangelogContent::Unavailable => None,
        }
    }
}

/// The text shown for a vendor changelog entry that has no description.
pub open spec fn missing_description() -> Seq<char> {
    seq!['N', '/', 'A']
}

/// Releases of the generic daemon, listed most recent first.
pub open spec fn release_log(releases: Seq<FwupdRelease>) -> Seq<(Seq<char>, Seq<char>)> {
    Seq::new(
        releases.len(),
        |i: int|
            (
                releases[releases.len() - 1 - i].version@,
                releases[releases.len() - 1 - i].description@,
            ),
    )
}

/// A vendor changelog, listed in its stored order.
pub open spec fn system76_log(versions: Seq<System76ChangelogVersion>) -> Seq<(Seq<char>, Seq<char>)> {
    Seq::new(
        versions.len(),
        |i: int|
            (
                versions[i].bios@,
                match versions[i].description {
                    Some(d) => d@,
                    None => missing_description(),
                },
            ),
    )
}

/// Builds the changelog of a generic-daemon device, most recent release first.
pub fn releases_changelog(releases: &Vec<FwupdRelease>) -> (r: ChangelogContent)
    ensures
        r@ == Some(release_log(releases@)),
{
    let mut entries: Vec<ChangelogEntry> = Vec::new();
    let mut i: usize = releases.len();
    while i > 0
        invariant
            i <= releases@.len(),
            entries@.len() == releases@.len() - i,
            forall|j: int| 0 <= j < entries@.len() ==> #[trigger] entries@[j]@ == release_log(releases@)[j],
        decreases i,
    {
        i = i - 1;
        let release = &releases[i];
        entries.push(ChangelogEntry { version: release.version.clone(), description: release.description.clone() });
    }
    let r = ChangelogContent::Entries(entries);
    assert(entries@.map_values(|x: ChangelogEntry| x@) =~= release_log(releases@));
    r
}

/// Builds the changelog of a vendor system-firmware device, in stored order.
pub fn system76_changelog(versions: &Vec<System76ChangelogVersion>) -> (r: ChangelogContent)
    ensures
        r@ == Some(system76_log(versions@)),
{
    let mut entries: Vec<ChangelogEntry> = Vec::new();
    let mut i: usize = 0;
    while i < versions.len()
        invariant
            i <= versions@.len(),
            entries@.len() == i,
            forall|j: int| 0 <= j < i ==> #[trigger] entries@[j]@ == system76_log(versions@)[j],
        decreases versions@.len() - i,
    {
        let version = &versions[i];
        let description = match &version.description {
            Some(d) => d.clone(),
            None => {
                let placeholder = "N/A".to_owned();
                proof {
                    reveal_strlit("N/A");
                }
                placeholder
            },
        };
        entries.push(ChangelogEntry { version: version.bios.clone(), description });
        i = i + 1;
    }
    let r = ChangelogContent::Entries(entries);
    assert(entries@.map_values(|x: ChangelogEntry| x@) =~= system76_log(versions@));
    r
}

} // verus!
