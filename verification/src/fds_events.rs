//! Famicom Disk System drive events: which are editable, and whether a
//! timeline of them is consistent.
use vstd::prelude::*;

use crate::identity::{FirmwareModel, IdentityModel, TasFirmwareIdentity, TasProjectIdentity};
use crate::replay::{MediaEvent, MediaEventModel, ReplayEvent, ReplayEventModel, events_view};
use crate::text::{hex, push_hex, push_str, str_eq, string_eq};

verus! {

/// Firmware id of the Famicom Disk System BIOS.
pub open spec fn spec_fds_bios_id() -> Seq<char> {
    "nintendo.fds.bios"@
}

/// Media slot id of the Famicom Disk System drive.
pub open spec fn spec_fds_slot_id() -> Seq<char> {
    "fds.drive0"@
}

/// A drive change the editor can author.
#[derive(Clone, Copy, Debug, PartialEq, Eq, Structural)]
pub enum FdsMediaMutation {
    SetWriteProtected { write_protected: bool },
    Eject,
    Insert { side: u8, write_protected: bool },
}

/// Whether the identity is a NES project that declares the external FDS BIOS.
pub open spec fn spec_can_author_fds_events(identity: IdentityModel) -> bool {
    identity.system == "nes"@ && exists|k: int|
        0 <= k < identity.firmware.len() && match #[trigger] identity.firmware[k] {
            FirmwareModel::External { firmware_id, .. } => firmware_id == spec_fds_bios_id(),
            _ => false,
        }
}

pub fn can_author_fds_events(identity: &TasProjectIdentity) -> (r: bool)
    ensures
        r == spec_can_author_fds_events(identity@),
{
    if !str_eq(identity.system.as_str(), "nes") {
        return false;
    }
    let mut i: usize = 0;
    while i < identity.firmware.len()
        invariant
            0 <= i <= identity.firmware@.len(),
            identity@.system == "nes"@,
            forall|k: int|
                0 <= k < i ==> !(match #[trigger] identity@.firmware[k] {
                    FirmwareModel::External { firmware_id, .. } => firmware_id
                        == spec_fds_bios_id(),
                    _ => false,
                }),
        decreases identity.firmware@.len() - i,
    {
        match &identity.firmware[i] {
            TasFirmwareIdentity::External { firmware_id, .. } => {
                if str_eq(firmware_id.as_str(), "nintendo.fds.bios") {
                    proof {
                        assert(identity@.firmware[i as int] == identity.firmware@[i as int]@);
                        assert(match identity@.firmware[i as int] {
                            FirmwareModel::External { firmware_id, .. } => firmware_id
                                == spec_fds_bios_id(),
                            _ => false,
                        });
                    }
                    return true;
                }
            },
            _ => {},
        }
        proof {
            assert(identity@.firmware[i as int] == identity.firmware@[i as int]@);
        }
        i += 1;
    }
    false
}

/// The media id of the project's own disk.
pub open spec fn spec_project_media_id(identity: IdentityModel) -> Seq<char> {
    "media:"@ + hex(identity.effective_media_digest.0 as nat, 16)
}

pub fn project_media_id(identity: &TasProjectIdentity) -> (r: String)
    ensures
        r@ == spec_project_media_id(identity@),
{
    let mut s = String::new();
    push_str(&mut s, "media:");
    push_hex(&mut s, identity.effective_media_digest.0, 16);
    proof {
        assert(s@ =~= spec_project_media_id(identity@));
    }
    s
}

pub open spec fn spec_media_event(frame: u64, mutation: FdsMediaMutation, media_id: Seq<char>) -> ReplayEventModel {
    ReplayEventModel::Media {
        frame,
        sequence: 0,
        event: match mutation {
            FdsMediaMutation::SetWriteProtected { write_protected } =>
                MediaEventModel::SetWriteProtected { slot: spec_fds_slot_id(), write_protected },
            FdsMediaMutation::Eject => MediaEventModel::Eject { slot: spec_fds_slot_id() },
            FdsMediaMutation::Insert { side, write_protected } => MediaEventModel::Insert {
                slot: spec_fds_slot_id(),
                media_id,
                side: Some(side),
                write_protected,
            },
        },
    }
}

/// The drive event a mutation records at `frame`.
pub fn media_event(frame: u64, mutation: FdsMediaMutation, project_media_id: String) -> (r: ReplayEvent)
    ensures
        r@ == spec_media_event(frame, mutation, project_media_id@),
{
    let slot = "fds.drive0".to_owned();
    let event = match mutation {
        FdsMediaMutation::SetWriteProtected { write_protected } => MediaEvent::SetWriteProtected {
            slot,
            write_protected,
        },
        FdsMediaMutation::Eject => MediaEvent::Eject { slot },
        FdsMediaMutation::Insert { side, write_protected } => MediaEvent::Insert {
            slot,
            media_id: project_media_id,
            side: Some(side),
            write_protected,
        },
    };
    ReplayEvent::Media { frame, sequence: 0, event }
}

/// Whether the editor may change or copy an event: FDS side selections and
/// first-sequence drive events on the project's own disk.
pub open spec fn spec_is_editable_event(event: ReplayEventModel, media_id: Seq<char>) -> bool {
    match event {
        ReplayEventModel::FdsDiskSide { .. } => true,
        ReplayEventModel::Media { sequence, event, .. } => sequence == 0 && match event {
            MediaEventModel::SetWriteProtected { slot, .. } => slot == spec_fds_slot_id(),
            MediaEventModel::Eject { slot } => slot == spec_fds_slot_id(),
            MediaEventModel::Insert { slot, media_id: m, side, .. } => slot == spec_fds_slot_id()
                && m == media_id && side is Some,
        },
        _ => false,
    }
}

pub fn is_editable_event(event: &ReplayEvent, project_media_id: &String) -> (r: bool)
    ensures
        r == spec_is_editable_event(event@, project_media_id@),
{
    match event {
        ReplayEvent::FdsDiskSide { .. } => true,
        ReplayEvent::Media { sequence, event, .. } => {
            if *sequence != 0 {
                return false;
            }
            match event {
                MediaEvent::SetWriteProtected { slot, .. } => str_eq(slot.as_str(), "fds.drive0"),
                MediaEvent::Eject { slot } => str_eq(slot.as_str(), "fds.drive0"),
                MediaEvent::Insert { slot, media_id, side, .. } => str_eq(
                    slot.as_str(),
                    "fds.drive0",
                ) && string_eq(media_id, project_media_id) && side.is_some(),
            }
        },
        _ => false,
    }
}

/// State of the drive while a timeline is checked: the last editable
/// boundary and whether the project disk is inserted; `None` once the
/// timeline is inconsistent.
pub open spec fn timeline_state(
    events: Seq<ReplayEventModel>,
    frame_count: u64,
    media_id: Seq<char>,
) -> Option<(Option<u64>, bool)>
    decreases events.len(),
{
    if events.len() == 0 {
        Some((None, true))
    } else {
        match timeline_state(events.drop_last(), frame_count, media_id) {
            None => None,
            Some((previous, inserted)) => {
                let e = events.last();
                if !spec_is_editable_event(e, media_id) {
                    Some((previous, inserted))
                } else if e.frame() >= frame_count || (previous is Some && previous->0 >= e.frame()) {
                    None
                } else {
                    match e {
                        ReplayEventModel::FdsDiskSide { .. } => if inserted {
                            Some((Some(e.frame()), inserted))
                        } else {
                            None
                        },
                        ReplayEventModel::Media { event, .. } => match event {
                            MediaEventModel::SetWriteProtected { .. } => if inserted {
                                Some((Some(e.frame()), inserted))
                            } else {
                                None
                            },
                            MediaEventModel::Eject { .. } => if inserted {
                                Some((Some(e.frame()), false))
                            } else {
                                None
                            },
                            MediaEventModel::Insert { .. } => if inserted {
                                None
                            } else {
                                Some((Some(e.frame()), true))
                            },
                        },
                        _ => Some((previous, inserted)),
                    }
                }
            },
        }
    }
}

/// Why a drive timeline is inconsistent.
#[derive(Clone, Copy, Debug, PartialEq, Eq, Structural)]
pub enum TasTimelineError {
    /// Drive events must lie before the end and at distinct, increasing boundaries.
    BoundaryOrder,
    /// A side or protection change needs the project disk inserted.
    MediaNotInserted,
    /// The drive is already empty.
    AlreadyEjected,
    /// The project disk is already inserted.
    AlreadyInserted,
}

/// The rule a drive event breaks when the drive was in state
/// `(previous, inserted)` before it.
pub open spec fn step_error(e: ReplayEventModel, previous: Option<u64>, inserted: bool, frame_count: u64) -> TasTimelineError {
    if e.frame() >= frame_count || (previous is Some && previous->0 >= e.frame()) {
        TasTimelineError::BoundaryOrder
    } else {
        match e {
            ReplayEventModel::Media { event: MediaEventModel::Eject { .. }, .. } => TasTimelineError::AlreadyEjected,
            ReplayEventModel::Media { event: MediaEventModel::Insert { .. }, .. } => TasTimelineError::AlreadyInserted,
            _ => TasTimelineError::MediaNotInserted,
        }
    }
}

/// The rule broken by the first drive event that makes a timeline
/// inconsistent.
pub open spec fn timeline_error(events: Seq<ReplayEventModel>, frame_count: u64, media_id: Seq<char>) -> TasTimelineError
    decreases events.len(),
{
    if events.len() == 0 {
        TasTimelineError::BoundaryOrder
    } else {
        match timeline_state(events.drop_last(), frame_count, media_id) {
            None => timeline_error(events.drop_last(), frame_count, media_id),
            Some((previous, inserted)) => step_error(events.last(), previous, inserted, frame_count),
        }
    }
}

/// Checks the editable drive events of a branch: each lies before the
/// branch end at a later boundary than the one before, side and protection
/// changes happen with the disk inserted, and ejects and inserts alternate
/// starting from an inserted disk.
pub fn validate_timeline(events: &Vec<ReplayEvent>, frame_count: u64, project_media_id: &String) -> (r: Result<(), TasTimelineError>)
    ensures
        r is Ok <==> timeline_state(events_view(events@), frame_count, project_media_id@) is Some,
        r is Err ==> r->Err_0 == timeline_error(events_view(events@), frame_count, project_media_id@),
{
    let ghost all = events_view(events@);
    let mut previous: Option<u64> = None;
    let mut inserted = true;
    let mut i: usize = 0;
    while i < events.len()
        invariant
            0 <= i <= events@.len(),
            all == events_view(events@),
            timeline_state(all.take(i as int), frame_count, project_media_id@) == Some((previous, inserted)),
        decreases events@.len() - i,
    {
        let event = &events[i];
        proof {
            assert(all.take(i + 1).drop_last() =~= all.take(i as int));
            assert(all.take(i + 1).last() == event@);
        }
        if is_editable_event(event, project_media_id) {
            let frame = event.frame();
            let out_of_order = match previous {
                Some(p) => p >= frame,
                None => false,
            };
            if frame >= frame_count || out_of_order {
                proof {
                    lemma_timeline_stuck(all, i as int + 1, frame_count, project_media_id@);
                }
                return Err(TasTimelineError::BoundaryOrder);
            }
            match event {
                ReplayEvent::FdsDiskSide { .. } => {
                    if !inserted {
                        proof {
                            lemma_timeline_stuck(all, i as int + 1, frame_count, project_media_id@);
                        }
                        return Err(TasTimelineError::MediaNotInserted);
                    }
                },
                ReplayEvent::Media { event: media, .. } => match media {
                    MediaEvent::SetWriteProtected { .. } => {
                        if !inserted {
                            proof {
                                lemma_timeline_stuck(all, i as int + 1, frame_count, project_media_id@);
                            }
                            return Err(TasTimelineError::MediaNotInserted);
                        }
                    },
                    MediaEvent::Eject { .. } => {
                        if !inserted {
                            proof {
                                lemma_timeline_stuck(all, i as int + 1, frame_count, project_media_id@);
                            }
                            return Err(TasTimelineError::AlreadyEjected);
                        }
                        inserted = false;
                    },
                    MediaEvent::Insert { .. } => {
                        if inserted {
                            proof {
                                lemma_timeline_stuck(all, i as int + 1, frame_count, project_media_id@);
                            }
                            return Err(TasTimelineError::AlreadyInserted);
                        }
                        inserted = true;
                    },
                },
                _ => {},
            }
            previous = Some(frame);
        }
        i += 1;
    }
    proof {
        assert(all.take(events@.len() as int) =~= all);
    }
    Ok(())
}

/// Once a prefix of a timeline is inconsistent, so is every longer prefix.
proof fn lemma_timeline_stuck(all: Seq<ReplayEventModel>, n: int, frame_count: u64, media_id: Seq<char>)
    requires
        0 <= n <= all.len(),
        timeline_state(all.take(n), frame_count, media_id) is None,
    ensures
        timeline_state(all, frame_count, media_id) is None,
        timeline_error(all, frame_count, media_id) == timeline_error(all.take(n), frame_count, media_id),
    decreases all.len() - n,
{
    if n < all.len() {
        assert(all.take(n + 1).drop_last() =~= all.take(n));
        lemma_timeline_stuck(all, n + 1, frame_count, media_id);
    } else {
        assert(all.take(n) =~= all);
    }
}

/// A timeline with no events is consistent, with the project disk in the
/// drive.
pub proof fn law_empty_timeline_has_the_disk_inserted(frame_count: u64, media_id: Seq<char>)
    ensures
        timeline_state(Seq::empty(), frame_count, media_id) == Some((None::<u64>, true)),
        disk_in_drive(Seq::empty(), media_id),
{
}

/// Once a timeline is inconsistent, no events appended after it make it
/// consistent again, and the broken rule it reports stays the first one.
pub proof fn law_inconsistency_is_final(
    events: Seq<ReplayEventModel>,
    more: Seq<ReplayEventModel>,
    frame_count: u64,
    media_id: Seq<char>,
)
    requires
        timeline_state(events, frame_count, media_id) is None,
    ensures
        timeline_state(events + more, frame_count, media_id) is None,
        timeline_error(events + more, frame_count, media_id) == timeline_error(events, frame_count, media_id),
{
    let all = events + more;
    assert(all.take(events.len() as int) =~= events);
    lemma_timeline_stuck(all, events.len() as int, frame_count, media_id);
}

/// Events that are not drive events never make a timeline inconsistent.
pub proof fn law_non_drive_events_are_ignored(
    events: Seq<ReplayEventModel>,
    e: ReplayEventModel,
    frame_count: u64,
    media_id: Seq<char>,
)
    requires
        !spec_is_editable_event(e, media_id),
    ensures
        timeline_state(events.push(e), frame_count, media_id) == timeline_state(events, frame_count, media_id),
{
    assert(events.push(e).drop_last() =~= events);
}

/// An editable event that takes the project disk out of the drive.
pub open spec fn is_drive_eject(e: ReplayEventModel, media_id: Seq<char>) -> bool {
    spec_is_editable_event(e, media_id) && e matches ReplayEventModel::Media { event: MediaEventModel::Eject { .. }, .. }
}

/// An editable event that puts the project disk into the drive.
pub open spec fn is_drive_insert(e: ReplayEventModel, media_id: Seq<char>) -> bool {
    spec_is_editable_event(e, media_id) && e matches ReplayEventModel::Media { event: MediaEventModel::Insert { .. }, .. }
}

/// An editable event that acts on the disk in the drive: a side selection
/// or a change of write protection.
pub open spec fn needs_disk_in_drive(e: ReplayEventModel, media_id: Seq<char>) -> bool {
    spec_is_editable_event(e, media_id) && (e is FdsDiskSide || e matches ReplayEventModel::Media {
        event: MediaEventModel::SetWriteProtected { .. },
        ..
    })
}

/// After an eject and before the next insert, a checked prefix is either
/// already inconsistent or has the drive empty.
proof fn lemma_drive_empty_after_eject(
    events: Seq<ReplayEventModel>,
    j: int,
    n: int,
    frame_count: u64,
    media_id: Seq<char>,
)
    requires
        0 <= j < n <= events.len(),
        is_drive_eject(events[j], media_id),
        forall|l: int| j < l < n ==> !is_drive_insert(#[trigger] events[l], media_id),
    ensures
        timeline_state(events.take(n), frame_count, media_id) matches Some((_, inserted)) ==> !inserted,
    decreases n - j,
{
    assert(events.take(n).drop_last() =~= events.take(n - 1));
    assert(events.take(n).last() == events[n - 1]);
    if n > j + 1 {
        lemma_drive_empty_after_eject(events, j, n - 1, frame_count, media_id);
    }
}

/// A drive timeline in which a side selection or a write-protection change
/// comes after an eject, with no insert between them, is inconsistent: the
/// disk is not in the drive at that point.
pub proof fn law_disk_events_need_an_inserted_disk(
    events: Seq<ReplayEventModel>,
    j: int,
    k: int,
    frame_count: u64,
    media_id: Seq<char>,
)
    requires
        0 <= j < k < events.len(),
        is_drive_eject(events[j], media_id),
        needs_disk_in_drive(events[k], media_id),
        forall|l: int| j < l < k ==> !is_drive_insert(#[trigger] events[l], media_id),
    ensures
        timeline_state(events, frame_count, media_id) is None,
{
    lemma_drive_empty_after_eject(events, j, k, frame_count, media_id);
    assert(events.take(k + 1).drop_last() =~= events.take(k));
    assert(events.take(k + 1).last() == events[k]);
    lemma_timeline_stuck(events, k + 1, frame_count, media_id);
}

/// Whether the project disk is in the drive after `events`: it starts
/// inserted, an eject takes it out and an insert puts it back.
pub open spec fn disk_in_drive(events: Seq<ReplayEventModel>, media_id: Seq<char>) -> bool
    decreases events.len(),
{
    if events.len() == 0 {
        true
    } else if is_drive_eject(events.last(), media_id) {
        false
    } else if is_drive_insert(events.last(), media_id) {
        true
    } else {
        disk_in_drive(events.drop_last(), media_id)
    }
}

/// Whether every drive event of `events` lies before boundary `frame`.
pub open spec fn drive_events_before(events: Seq<ReplayEventModel>, media_id: Seq<char>, frame: u64) -> bool {
    forall|k: int| 0 <= k < events.len() && spec_is_editable_event(#[trigger] events[k], media_id) ==> events[k].frame() < frame
}

/// What a consistent checked timeline remembers: whether the disk is in the
/// drive, and the boundary of its last drive event, which no earlier drive
/// event passes.
proof fn lemma_timeline_state_meaning(events: Seq<ReplayEventModel>, frame_count: u64, media_id: Seq<char>)
    ensures
        timeline_state(events, frame_count, media_id) matches Some((last, inserted)) ==> {
            &&& inserted == disk_in_drive(events, media_id)
            &&& forall|k: int|
                0 <= k < events.len() && spec_is_editable_event(#[trigger] events[k], media_id)
                    ==> last is Some && events[k].frame() <= last->0
        },
    decreases events.len(),
{
    if events.len() > 0 {
        let rest = events.drop_last();
        lemma_timeline_state_meaning(rest, frame_count, media_id);
        assert forall|k: int| 0 <= k < rest.len() implies #[trigger] events[k] == rest[k] by {}
    }
}

/// A drive event appended at a later boundary than every drive event before
/// it, and before the branch end, keeps a consistent timeline consistent
/// exactly when the drive is ready for it: an insert needs the drive empty,
/// every other drive event needs the disk in the drive.
pub proof fn law_timeline_accepts_ready_drive_events(
    events: Seq<ReplayEventModel>,
    e: ReplayEventModel,
    frame_count: u64,
    media_id: Seq<char>,
)
    requires
        timeline_state(events, frame_count, media_id) is Some,
        spec_is_editable_event(e, media_id),
        e.frame() < frame_count,
        drive_events_before(events, media_id, e.frame()),
    ensures
        timeline_state(events.push(e), frame_count, media_id) is Some <==> (if is_drive_insert(e, media_id) {
            !disk_in_drive(events, media_id)
        } else {
            disk_in_drive(events, media_id)
        }),
        timeline_state(events.push(e), frame_count, media_id) is None ==> timeline_error(
            events.push(e),
            frame_count,
            media_id,
        ) == (if is_drive_insert(e, media_id) {
            TasTimelineError::AlreadyInserted
        } else if is_drive_eject(e, media_id) {
            TasTimelineError::AlreadyEjected
        } else {
            TasTimelineError::MediaNotInserted
        }),
{
    lemma_timeline_state_meaning(events, frame_count, media_id);
    assert(events.push(e).drop_last() =~= events);
    assert(events.push(e).last() == e);
    let (last, inserted) = timeline_state(events, frame_count, media_id)->Some_0;
    if last is Some {
        let p = last->0;
        assert(p < e.frame()) by {
            lemma_last_drive_event_present(events, frame_count, media_id);
        }
    }
}

/// The boundary a consistent checked timeline remembers is that of one of
/// its drive events.
proof fn lemma_last_drive_event_present(events: Seq<ReplayEventModel>, frame_count: u64, media_id: Seq<char>)
    ensures
        timeline_state(events, frame_count, media_id) matches Some((Some(p), _)) ==> exists|k: int|
            0 <= k < events.len() && spec_is_editable_event(#[trigger] events[k], media_id) && events[k].frame() == p,
    decreases events.len(),
{
    if events.len() > 0 {
        let rest = events.drop_last();
        lemma_last_drive_event_present(rest, frame_count, media_id);
        let st = timeline_state(events, frame_count, media_id);
        if st is Some && st->Some_0.0 is Some {
            let p = st->Some_0.0->Some_0;
            if spec_is_editable_event(events.last(), media_id) {
                assert(spec_is_editable_event(events[events.len() - 1], media_id));
            } else {
                let k = choose|k: int|
                    0 <= k < rest.len() && spec_is_editable_event(#[trigger] rest[k], media_id) && rest[k].frame() == p;
                assert(events[k] == rest[k]);
            }
        }
    }
}

/// A drive event at or past the branch end, or at a boundary no later than
/// a drive event already in the timeline, makes the timeline inconsistent.
pub proof fn law_timeline_keeps_boundary_order(
    events: Seq<ReplayEventModel>,
    e: ReplayEventModel,
    frame_count: u64,
    media_id: Seq<char>,
)
    requires
        spec_is_editable_event(e, media_id),
        e.frame() >= frame_count || !drive_events_before(events, media_id, e.frame()),
    ensures
        timeline_state(events.push(e), frame_count, media_id) is None,
        timeline_state(events, frame_count, media_id) is Some ==> timeline_error(events.push(e), frame_count, media_id)
            == TasTimelineError::BoundaryOrder,
{
    lemma_timeline_state_meaning(events, frame_count, media_id);
    assert(events.push(e).drop_last() =~= events);
    assert(events.push(e).last() == e);
}

/// A kind of drive event the form edits.
#[derive(Clone, Copy, Debug, PartialEq, Eq, Structural)]
pub enum FdsDraftKind {
    SelectSide,
    SetWriteProtected,
    Eject,
    Insert,
}

/// The drive-event form: a new event, or an edit of an existing one.
#[derive(Debug)]
pub struct FdsDraft {
    pub canonical_index: Option<usize>,
    pub expected_event: Option<ReplayEvent>,
    pub frame: u64,
    pub kind: FdsDraftKind,
    pub side: u8,
    pub write_protected: bool,
}

impl FdsDraft {
    /// An empty form at `frame`.
    pub fn new(frame: u64) -> (r: Self)
        ensures
            r.canonical_index is None,
            r.expected_event is None,
            r.frame == frame,
            r.kind == FdsDraftKind::SelectSide,
            r.side == 0,
            !r.write_protected,
    {
        FdsDraft {
            canonical_index: None,
            expected_event: None,
            frame,
            kind: FdsDraftKind::SelectSide,
            side: 0,
            write_protected: false,
        }
    }

    /// The media change the form describes; a side selection is no media change.
    pub fn mutation(&self) -> (r: Option<FdsMediaMutation>)
        ensures
            r == match self.kind {
                FdsDraftKind::SelectSide => None,
                FdsDraftKind::SetWriteProtected => Some(
                    FdsMediaMutation::SetWriteProtected { write_protected: self.write_protected },
                ),
                FdsDraftKind::Eject => Some(FdsMediaMutation::Eject),
                FdsDraftKind::Insert => Some(
                    FdsMediaMutation::Insert { side: self.side, write_protected: self.write_protected },
                ),
            },
    {
        match self.kind {
            FdsDraftKind::SelectSide => None,
            FdsDraftKind::SetWriteProtected => Some(
                FdsMediaMutation::SetWriteProtected { write_protected: self.write_protected },
            ),
            FdsDraftKind::Eject => Some(FdsMediaMutation::Eject),
            FdsDraftKind::Insert => Some(
                FdsMediaMutation::Insert { side: self.side, write_protected: self.write_protected },
            ),
        }
    }

    /// The form editing an existing drive event, if the form can edit it.
    pub fn from_event(canonical_index: usize, event: ReplayEvent) -> (r: Option<Self>)
        ensures
            r is Some <==> (event@ is FdsDiskSide || (event@ is Media && match event@->Media_event {
                MediaEventModel::Insert { side, .. } => side is Some,
                _ => true,
            })),
            r matches Some(d) ==> d.canonical_index == Some(canonical_index) && d.frame
                == event@.frame() && d.expected_event is Some && d.expected_event->0@ == event@,
    {
        let (frame, kind, side, write_protected) = match &event {
            ReplayEvent::FdsDiskSide { frame, side } => (*frame, FdsDraftKind::SelectSide, *side, false),
            ReplayEvent::Media { frame, event: media, .. } => match media {
                MediaEvent::SetWriteProtected { write_protected, .. } => (
                    *frame,
                    FdsDraftKind::SetWriteProtected,
                    0,
                    *write_protected,
                ),
                MediaEvent::Eject { .. } => (*frame, FdsDraftKind::Eject, 0, false),
                MediaEvent::Insert { side, write_protected, .. } => match side {
                    Some(s) => (*frame, FdsDraftKind::Insert, *s, *write_protected),
                    None => {
                        return None;
                    },
                },
            },
            _ => {
                return None;
            },
        };
        Some(
            FdsDraft {
                canonical_index: Some(canonical_index),
                expected_event: Some(event),
                frame,
                kind,
                side,
                write_protected,
            },
        )
    }
}

/// The project state and branch the drive-event form was opened for.
#[derive(Clone, Debug, PartialEq, Eq)]
pub struct TasEventEditorContext {
    pub project_digest: crate::input::TasDigest,
    pub branch_id: String,
}

/// The drive-event form and the project state it belongs to.
#[derive(Debug)]
pub struct TasEventEditorState {
    pub context: Option<TasEventEditorContext>,
    pub draft: FdsDraft,
}

/// Whether `c` names the session's project state and selected branch.
pub open spec fn event_context_current(c: Option<TasEventEditorContext>, s: crate::session::SessionModel) -> bool {
    c is Some && c.unwrap().project_digest == crate::input::TasDigest(s.current.project.edit_generation)
        && c.unwrap().branch_id@ == s.branch().id
}

impl TasEventEditorState {
    /// An empty form at boundary 0, for no project state.
    pub fn new() -> (r: Self)
        ensures
            r.context is None,
            r.draft.canonical_index is None && r.draft.expected_event is None && r.draft.frame == 0
                && r.draft.kind == FdsDraftKind::SelectSide && r.draft.side == 0 && !r.draft.write_protected,
    {
        TasEventEditorState { context: None, draft: FdsDraft::new(0) }
    }

    /// Forgets the form and its project state.
    pub fn clear(&mut self)
        ensures
            final(self).context is None,
            final(self).draft.canonical_index is None && final(self).draft.frame == 0
                && final(self).draft.kind == FdsDraftKind::SelectSide,
    {
        self.context = None;
        self.draft = FdsDraft::new(0);
    }

    /// Keeps the form while the project state and branch stay; otherwise
    /// starts an empty form at the cursor for the new state.
    pub fn sync_context(&mut self, session: &crate::session::TasEditorSession)
        requires
            session@.wf(),
        ensures
            event_context_current(final(self).context, session@),
            event_context_current(old(self).context, session@) ==> final(self).context == old(self).context
                && final(self).draft.frame == old(self).draft.frame
                && final(self).draft.canonical_index == old(self).draft.canonical_index
                && final(self).draft.kind == old(self).draft.kind,
            !event_context_current(old(self).context, session@) ==> final(self).draft.canonical_index is None
                && final(self).draft.frame == session@.cursor()
                && final(self).draft.kind == FdsDraftKind::SelectSide,
    {
        let digest = session.project_content_digest();
        let same = match &self.context {
            Some(c) => c.project_digest == digest && str_eq(c.branch_id.as_str(), session.selected_branch_id()),
            None => false,
        };
        if same {
            return;
        }
        self.draft = FdsDraft::new(session.cursor());
        self.context = Some(TasEventEditorContext {
            project_digest: digest,
            branch_id: crate::text::string_of(session.selected_branch_id()),
        });
    }
}

} // verus!
