//! Decisions of the persistent-volume garbage collector.
//!
//! The collector deletes volumes of the orchestrator whose manifest in the
//! cluster is gone or has been released. Everything here is a decision: a
//! function from what was observed to the next action. The caller performs the
//! action (a query of the cluster, a call of the storage control client) and
//! comes back with what it saw. Nothing is remembered between two evaluations.

use vstd::prelude::*;
use vstd::string::StringExecFns;
use crate::text::optional_text;
use crate::uuid_text::{
    hyphenated, lemma_hyphenated_injective, parse_str, to_hyphenated, uuid_parse_str,
};

verus! {

/// Driver name of the orchestrator's CSI plugin.
pub const MAYASTOR_PLUGIN: &'static str = "io.openebs.csi-mayastor";

/// Second driver name under which the orchestrator's CSI plugin is known.
pub const BOLT_PLUGIN: &'static str = "com.datacore.bolt";

/// The reclaim policy under which a released manifest is kept in the cluster.
pub const RETAIN: &'static str = "Retain";

/// The phase of a manifest whose claim is gone.
pub const RELEASED: &'static str = "Released";

/// The phase of a manifest that is bound to a claim.
pub const BOUND: &'static str = "Bound";

/// What the name of a volume's manifest starts with.
pub const MANIFEST_PREFIX: &'static str = "pvc-";

/// The persistent-volume garbage collector. It holds no state: each touched
/// manifest and each volume of the inventory is evaluated from scratch.
#[derive(Debug, Clone, Copy, Default)]
pub struct PvGarbageCollector {}

/// The CSI part of a manifest.
#[derive(Debug, Clone, PartialEq, Eq)]
pub struct CsiVolumeSource {
    /// Name of the driver that provisioned the volume.
    pub driver: String,
    /// The driver's own identifier of the volume.
    pub volume_handle: String,
}

/// What the collector reads of a volume manifest of the cluster. A field that
/// the cluster did not fill is `None`.
#[derive(Debug, Clone, PartialEq, Eq)]
pub struct VolumeManifest {
    /// Name of the manifest object.
    pub name: Option<String>,
    /// When the manifest was marked for deletion, in seconds since the epoch.
    pub deletion_timestamp: Option<i64>,
    /// The CSI part, present when a CSI driver provisioned the volume.
    pub csi: Option<CsiVolumeSource>,
    /// What happens to the volume when its claim is released.
    pub reclaim_policy: Option<String>,
    /// The observed phase.
    pub phase: Option<String>,
}

/// Whether a manifest of a given name exists in the cluster.
#[derive(Debug, Clone, Copy, PartialEq, Eq)]
pub enum Presence {
    /// The cluster holds the manifest.
    Present,
    /// The cluster holds no manifest of that name.
    Absent,
    /// The query itself failed.
    Unknown,
}

/// Why an evaluation ended without a decision, or why the collector stops.
#[derive(Debug, Clone, Copy, PartialEq, Eq)]
pub enum Failure {
    /// The volume handle of the manifest is no UUID.
    MalformedIdentifier,
    /// The manifest lacks a field that the evaluation needs.
    IncompleteManifest,
    /// A call to the cluster or to the storage control client failed.
    RemoteCallFailure,
    /// The watch on the cluster's manifests broke.
    WatchStreamFailure,
}

/// What the collector asks for next.
#[derive(Debug, Clone, PartialEq, Eq)]
pub enum GcAction {
    /// Nothing: cluster and inventory agree, or the manifest is not ours.
    Keep,
    /// Ask the cluster whether a manifest of this name exists, and hand the
    /// answer to [`PvGarbageCollector::resolve_lookup`].
    Lookup { name: String },
    /// Delete the volume with this UUID through the storage control client.
    Delete { volume: u128 },
    /// Leave the object alone until it is next evaluated.
    Skip(Failure),
}

/// The CSI part of a manifest, as texts.
pub struct CsiVolumeSourceView {
    pub driver: Seq<char>,
    pub volume_handle: Seq<char>,
}

/// A manifest, as texts: what the decisions are stated over.
pub struct VolumeManifestView {
    pub name: Option<Seq<char>>,
    pub deletion_timestamp: Option<i64>,
    pub csi: Option<CsiVolumeSourceView>,
    pub reclaim_policy: Option<Seq<char>>,
    pub phase: Option<Seq<char>>,
}

/// An action, with the name of a lookup as a text.
pub enum GcActionView {
    Keep,
    Lookup { name: Seq<char> },
    Delete { volume: u128 },
    Skip(Failure),
}

impl View for CsiVolumeSource {
    type V = CsiVolumeSourceView;

    open spec fn view(&self) -> CsiVolumeSourceView {
        CsiVolumeSourceView { driver: self.driver@, volume_handle: self.volume_handle@ }
    }
}

impl View for VolumeManifest {
    type V = VolumeManifestView;

    open spec fn view(&self) -> VolumeManifestView {
        VolumeManifestView {
            name: optional_text(self.name),
            deletion_timestamp: self.deletion_timestamp,
            csi: match self.csi {
                Some(csi) => Some(csi@),
                None => None,
            },
            reclaim_policy: optional_text(self.reclaim_policy),
            phase: optional_text(self.phase),
        }
    }
}

impl View for GcAction {
    type V = GcActionView;

    open spec fn view(&self) -> GcActionView {
        match *self {
            GcAction::Keep => GcActionView::Keep,
            GcAction::Lookup { name } => GcActionView::Lookup { name: name@ },
            GcAction::Delete { volume } => GcActionView::Delete { volume },
            GcAction::Skip(failure) => GcActionView::Skip(failure),
        }
    }
}

/// Whether a driver name is one of the orchestrator's own.
pub open spec fn is_our_driver(driver: Seq<char>) -> bool {
    driver == MAYASTOR_PLUGIN@ || driver == BOLT_PLUGIN@
}

impl VolumeManifestView {
    /// The manifest was provisioned by the orchestrator's own CSI plugin.
    pub open spec fn ours(self) -> bool {
        self.csi matches Some(csi) && is_our_driver(csi.driver)
    }

    /// The manifest is ours and marked for deletion.
    pub open spec fn deletion_candidate(self) -> bool {
        self.deletion_timestamp is Some && self.ours()
    }

    /// The claim is gone and the manifest is only kept for inspection.
    pub open spec fn retained_and_released(self) -> bool {
        self.reclaim_policy == Some(RETAIN@) && self.phase == Some(RELEASED@)
    }

    /// The manifest is bound to a claim.
    pub open spec fn bound(self) -> bool {
        self.phase == Some(BOUND@)
    }
}

/// The action for a volume handle, given what parsing it as a UUID gave.
pub open spec fn delete_action(parsed: Option<u128>) -> GcActionView {
    match parsed {
        Some(volume) => GcActionView::Delete { volume },
        None => GcActionView::Skip(Failure::MalformedIdentifier),
    }
}

/// The action for a touched manifest.
///
/// A manifest of another driver is kept. One of ours that is marked for
/// deletion has its volume deleted if it is retained and released, and is
/// kept otherwise. One of ours that is not marked for deletion and is bound
/// is looked up by its name.
pub open spec fn evaluate(pv: VolumeManifestView) -> GcActionView {
    if !pv.ours() {
        GcActionView::Keep
    } else if pv.deletion_candidate() {
        if pv.retained_and_released() {
            delete_action(uuid_parse_str(pv.csi->0.volume_handle))
        } else {
            GcActionView::Keep
        }
    } else if pv.bound() {
        match pv.name {
            Some(name) => GcActionView::Lookup { name },
            None => GcActionView::Skip(Failure::IncompleteManifest),
        }
    } else {
        GcActionView::Keep
    }
}

/// The action for a manifest once the cluster has answered the lookup that
/// its evaluation asked for. Where the evaluation asked for none, it stands.
pub open spec fn resolve(pv: VolumeManifestView, presence: Presence) -> GcActionView {
    if evaluate(pv) is Lookup {
        match presence {
            Presence::Present => GcActionView::Keep,
            Presence::Absent => delete_action(uuid_parse_str(pv.csi->0.volume_handle)),
            Presence::Unknown => GcActionView::Skip(Failure::RemoteCallFailure),
        }
    } else {
        evaluate(pv)
    }
}

/// The name of the manifest that the cluster holds for a volume.
pub open spec fn manifest_name_of(volume: u128) -> Seq<char> {
    MANIFEST_PREFIX@ + hyphenated(volume)
}

/// The action for a volume of the inventory, given whether the cluster holds
/// its manifest.
pub open spec fn missed_event_action(volume: u128, presence: Presence) -> GcActionView {
    match presence {
        Presence::Absent => GcActionView::Delete { volume },
        Presence::Present => GcActionView::Keep,
        Presence::Unknown => GcActionView::Skip(Failure::RemoteCallFailure),
    }
}

/// The volume of an inventory entry, if the entry is an orphan: a volume
/// whose manifest the cluster does not hold.
pub open spec fn orphan(entry: (u128, Presence)) -> Option<u128> {
    if entry.1 == Presence::Absent {
        Some(entry.0)
    } else {
        None
    }
}

/// The orphans of an inventory, in the order of the inventory.
pub open spec fn orphans(observed: Seq<(u128, Presence)>) -> Seq<u128> {
    observed.filter_map(|entry: (u128, Presence)| orphan(entry))
}

/// What the collector makes of the storage control client's answer to a
/// deletion.
pub open spec fn delete_failure(deleted: bool) -> Option<Failure> {
    if deleted {
        None
    } else {
        Some(Failure::RemoteCallFailure)
    }
}

fn is_text(value: &Option<String>, text: &str) -> (same: bool)
    ensures
        same == (optional_text(*value) == Some(text@)),
{
    match value {
        Some(found) => *found == String::from_str(text),
        None => false,
    }
}

/// Whether a driver name is one of the orchestrator's own, by exact match.
pub fn our_driver(driver: &String) -> (ours: bool)
    ensures
        ours == is_our_driver(driver@),
{
    *driver == String::from_str(MAYASTOR_PLUGIN) || *driver == String::from_str(BOLT_PLUGIN)
}

/// The action for a volume handle that has been parsed: the deletion of the
/// volume, or a skip where the handle was no UUID.
pub fn delete_parsed(parsed: Option<u128>) -> (action: GcAction)
    ensures
        action@ == delete_action(parsed),
{
    match parsed {
        Some(volume) => GcAction::Delete { volume },
        None => GcAction::Skip(Failure::MalformedIdentifier),
    }
}

impl PvGarbageCollector {
    /// Reads a volume handle as a UUID and asks for the deletion of that
    /// volume. A handle that is no UUID is skipped.
    pub fn delete_volume(vol_handle: &str) -> (action: GcAction)
        ensures
            action@ == delete_action(uuid_parse_str(vol_handle@)),
    {
        let parsed = match parse_str(vol_handle) {
            Ok(volume) => Some(volume),
            Err(_) => None,
        };
        delete_parsed(parsed)
    }

    /// Evaluates a manifest that the watch has delivered.
    pub fn process_object(pv: &VolumeManifest) -> (action: GcAction)
        ensures
            action@ == evaluate(pv@),
    {
        let csi = match &pv.csi {
            Some(csi) => csi,
            None => {
                return GcAction::Keep;
            },
        };
        if !our_driver(&csi.driver) {
            return GcAction::Keep;
        }
        if pv.deletion_timestamp.is_some() {
            if is_text(&pv.reclaim_policy, RETAIN) && is_text(&pv.phase, RELEASED) {
                Self::delete_volume(csi.volume_handle.as_str())
            } else {
                GcAction::Keep
            }
        } else if is_text(&pv.phase, BOUND) {
            match &pv.name {
                Some(name) => GcAction::Lookup { name: name.clone() },
                None => GcAction::Skip(Failure::IncompleteManifest),
            }
        } else {
            GcAction::Keep
        }
    }

    /// Continues the evaluation of a manifest with the cluster's answer to
    /// the lookup that [`PvGarbageCollector::process_object`] asked for.
    pub fn resolve_lookup(pv: &VolumeManifest, presence: Presence) -> (action: GcAction)
        ensures
            action@ == resolve(pv@, presence),
    {
        let first = Self::process_object(pv);
        let asked = match &first {
            GcAction::Lookup { name: _ } => true,
            _ => false,
        };
        if !asked {
            return first;
        }
        match presence {
            Presence::Present => GcAction::Keep,
            Presence::Absent => {
                let csi = pv.csi.as_ref().unwrap();
                Self::delete_volume(csi.volume_handle.as_str())
            },
            Presence::Unknown => GcAction::Skip(Failure::RemoteCallFailure),
        }
    }

    /// The name under which the cluster holds the manifest of a volume: the
    /// prefix `pvc-`, then the UUID in its hyphenated form.
    pub fn manifest_name(volume: u128) -> (name: String)
        ensures
            name@ == manifest_name_of(volume),
    {
        let id = to_hyphenated(volume);
        String::from_str(MANIFEST_PREFIX).concat(id.as_str())
    }

    /// Decides on one volume of the inventory, given whether the cluster
    /// holds the manifest named by [`PvGarbageCollector::manifest_name`]: a
    /// volume without a manifest is an orphan and is deleted.
    pub fn missed_event(volume: u128, presence: Presence) -> (action: GcAction)
        ensures
            action@ == missed_event_action(volume, presence),
    {
        match presence {
            Presence::Absent => GcAction::Delete { volume },
            Presence::Present => GcAction::Keep,
            Presence::Unknown => GcAction::Skip(Failure::RemoteCallFailure),
        }
    }

    /// The startup pass over the inventory, which makes up for what the
    /// watch missed while the collector was down. Each entry is a volume
    /// with the cluster's answer on its manifest. The result lists the
    /// volumes to delete: the orphans, in the order of the inventory.
    pub fn handle_missed_events(observed: &Vec<(u128, Presence)>) -> (deletions: Vec<u128>)
        ensures
            deletions@ == orphans(observed@),
    {
        let mut deletions: Vec<u128> = Vec::new();
        let mut index: usize = 0;
        while index < observed.len()
            invariant
                index <= observed.len(),
                deletions@ == orphans(observed@.take(index as int)),
            decreases observed.len() - index,
        {
            let (volume, presence) = observed[index];
            proof {
                observed@.lemma_filter_map_take_succ(
                    |entry: (u128, Presence)| orphan(entry),
                    index as int,
                );
            }
            match Self::missed_event(volume, presence) {
                GcAction::Delete { volume: orphaned } => {
                    deletions.push(orphaned);
                },
                _ => {},
            }
            index += 1;
        }
        assert(observed@.take(index as int) == observed@);
        deletions
    }

    /// What the collector makes of the storage control client's answer to a
    /// deletion: a refusal is a failed remote call, which is not retried.
    pub fn delete_outcome(deleted: bool) -> (failure: Option<Failure>)
        ensures
            failure == delete_failure(deleted),
    {
        if deleted {
            None
        } else {
            Some(Failure::RemoteCallFailure)
        }
    }
}

impl Failure {
    /// Only a broken watch stops the collector.
    pub open spec fn fatal(self) -> bool {
        self is WatchStreamFailure
    }

    /// Whether the collector has to stop on this failure, so that its owner
    /// can restart it. Every other failure is logged and left to the next
    /// evaluation of the object.
    pub fn is_fatal(&self) -> (fatal: bool)
        ensures
            fatal == self.fatal(),
    {
        match self {
            Failure::WatchStreamFailure => true,
            _ => false,
        }
    }
}

/// Two volumes have the same manifest name only if they are the same volume:
/// a lookup by name never answers for another volume.
pub proof fn lemma_manifest_name_injective(volume: u128, other: u128)
    requires
        manifest_name_of(volume) == manifest_name_of(other),
    ensures
        volume == other,
{
    let prefix = MANIFEST_PREFIX@.len() as int;
    assert(hyphenated(volume) =~= manifest_name_of(volume).subrange(prefix, prefix + 36));
    assert(hyphenated(other) =~= manifest_name_of(other).subrange(prefix, prefix + 36));
    lemma_hyphenated_injective(volume, other);
}

/// A deletion is only ever asked for a volume of ours, under the UUID that
/// its manifest's volume handle holds, and only where the manifest is marked
/// for deletion, retained and released, or where it is bound and the cluster
/// no longer holds it.
pub proof fn lemma_deletion_is_justified(pv: VolumeManifestView, presence: Presence, volume: u128)
    ensures
        evaluate(pv) == (GcActionView::Delete { volume }) ==> {
            &&& pv.ours()
            &&& uuid_parse_str(pv.csi->0.volume_handle) == Some(volume)
            &&& pv.deletion_candidate()
            &&& pv.retained_and_released()
        },
        resolve(pv, presence) == (GcActionView::Delete { volume }) ==> {
            &&& pv.ours()
            &&& uuid_parse_str(pv.csi->0.volume_handle) == Some(volume)
            &&& {
                ||| pv.deletion_candidate() && pv.retained_and_released()
                ||| pv.deletion_timestamp is None && pv.bound() && presence == Presence::Absent
            }
        },
{
}

/// One answer of the cluster settles a manifest: after it no further lookup
/// is asked for.
pub proof fn lemma_resolve_is_final(pv: VolumeManifestView, presence: Presence)
    ensures
        !(resolve(pv, presence) is Lookup),
{
}

/// A manifest of another driver is never acted upon, whatever else it holds
/// and whatever the cluster answers.
pub proof fn lemma_foreign_manifest_kept(pv: VolumeManifestView, presence: Presence)
    requires
        !pv.ours(),
    ensures
        evaluate(pv) == GcActionView::Keep,
        resolve(pv, presence) == GcActionView::Keep,
{
}

/// A bound manifest that the cluster still holds leads to no deletion.
pub proof fn lemma_present_manifest_kept(pv: VolumeManifestView)
    requires
        evaluate(pv) is Lookup,
    ensures
        resolve(pv, Presence::Present) == GcActionView::Keep,
{
}

/// A manifest whose volume handle is no UUID never leads to a deletion.
pub proof fn lemma_malformed_handle_never_deleted(pv: VolumeManifestView, presence: Presence)
    requires
        pv.csi matches Some(csi) && uuid_parse_str(csi.volume_handle) is None,
    ensures
        !(evaluate(pv) is Delete),
        !(resolve(pv, presence) is Delete),
{
}

/// Whatever the storage control client answers to a deletion, the collector
/// goes on: a deletion that fails, as one of a volume that is already gone
/// may, is no reason to stop.
pub proof fn lemma_delete_never_fatal(deleted: bool)
    ensures
        delete_failure(deleted) matches Some(failure) ==> !failure.fatal(),
{
}

/// The startup pass asks for the deletion of a volume as often as the
/// inventory lists it without a manifest: once for an orphan that is listed
/// once, never for a volume whose manifest is there.
pub proof fn lemma_orphans_deleted_once(observed: Seq<(u128, Presence)>, volume: u128)
    ensures
        orphans(observed).to_multiset().count(volume) == observed.to_multiset().count(
            (volume, Presence::Absent),
        ),
    decreases observed.len(),
{
    if observed.len() == 0 {
        assert(observed =~= Seq::<(u128, Presence)>::empty());
        Seq::<u128>::empty().to_multiset_ensures();
        Seq::<(u128, Presence)>::empty().to_multiset_ensures();
    } else {
        let rest = observed.drop_last();
        let last = observed.last();
        lemma_orphans_deleted_once(rest, volume);
        assert(observed =~= rest.push(last));
        rest.to_multiset_ensures();
        orphans(rest).to_multiset_ensures();
        if let Some(found) = orphan(last) {
            assert(orphans(observed) =~= orphans(rest).push(found));
        }
    }
}

} // verus!
