//! The flash pipeline controller: a one-directional state machine that
//! sequences the job's phases, decides the next external-tool action from
//! plain inputs (device presence, tool success, measured byte counts), and
//! emits the job's ordered progress events. Every fatal condition becomes
//! exactly one terminal error event; the device guard's verdict is consulted
//! at each step boundary before any destructive action.

use vstd::prelude::*;
use vstd::string::StringExecFns;
use crate::estimate::extract_fraction;
use crate::estimate::spec_extract_fraction;
use crate::estimate::spec_min;
use crate::estimate::spec_split_fraction;
use crate::estimate::spec_sync_fraction;
use crate::estimate::split_fraction;
use crate::estimate::sync_fraction;
use crate::estimate::DEFAULT_PAYLOAD_BYTES;
use crate::estimate::FLUSH_DONE_BYTES;
use crate::estimate::NEAR_DONE_FRACTION;
use crate::estimate::SPLIT_CHUNK_MIB;
use crate::estimate::START_FRACTION;
use crate::events::ev_fraction;
use crate::events::ev_is_terminal;
use crate::events::ev_is_update;
use crate::events::offered_update;
use crate::events::pushed_error;
use crate::events::pushed_finished;
use crate::events::pushed_update;
use crate::events::EventStream;
use crate::events::ProgressEvent;
use crate::naming::partition_device;
use crate::naming::spec_partition_device;
use crate::payload::detect_payload;
use crate::payload::payload_extension;
use crate::payload::payload_file_name;
use crate::payload::payload_path;
use crate::payload::spec_detect;
use crate::payload::spec_extension;
use crate::payload::spec_payload_file;
use crate::payload::spec_payload_path;
use crate::payload::PayloadKind;
use crate::text::push_decimal;
use crate::text::spec_decimal;

verus! {

/// The phases of a job, in the order they are visited. `Done` and `Failed`
/// are terminal; no phase is revisited within a job.
#[derive(Clone, Copy, Debug, PartialEq, Eq, Structural)]
pub enum Phase {
    Detect,
    Prepare,
    Wipe,
    Format,
    Mount,
    Extract,
    Split,
    Finalize,
    Done,
    Failed,
}

/// The position of a phase in the pipeline's fixed order; both terminal
/// phases rank last. Every transition strictly increases the rank, so no
/// phase is revisited.
pub open spec fn phase_rank(p: Phase) -> int {
    match p {
        Phase::Detect => 0,
        Phase::Prepare => 1,
        Phase::Wipe => 2,
        Phase::Format => 3,
        Phase::Mount => 4,
        Phase::Extract => 5,
        Phase::Split => 6,
        Phase::Finalize => 7,
        Phase::Done => 8,
        Phase::Failed => 8,
    }
}

/// Whether a phase ends the job.
pub open spec fn phase_is_terminal(p: Phase) -> bool {
    p is Done || p is Failed
}

/// The next piece of external work the controller asks for. The surrounding
/// program performs it and reports the outcome back.
#[derive(Clone, Debug, PartialEq, Eq)]
pub enum Action {
    /// List the image's contents.
    ListImage,
    /// Best-effort unmount of any existing mounts of the drive's partitions.
    UnmountStale,
    /// Flush buffers, erase signatures, create one GPT partition, re-read
    /// the partition table and wait the settle delay.
    WipeAndPartition,
    /// Create a FAT32 filesystem on the named partition.
    FormatPartition { partition: String },
    /// Mount the named partition read-write and the image read-only at the
    /// job's two ephemeral mountpoints.
    MountTargets { partition: String },
    /// Copy the image tree to the target, excluding the named payload file.
    ExtractImage { exclude_file: String },
    /// Split the payload at `source` into parts of `chunk_mib` MiB under
    /// `destination`.
    SplitPayload { source: String, destination: String, chunk_mib: u64 },
    /// Sync the filesystems and lazily unmount both mountpoints.
    SyncAndUnmount,
}

/// The payload's full path under the image-side mountpoint.
pub open spec fn spec_split_source(iso_mount: Seq<char>, k: PayloadKind) -> Seq<char> {
    iso_mount + "/"@ + spec_payload_path(k)
}

/// Where the split parts are written: the target's `sources` directory,
/// under the extension the detected payload fixed.
pub open spec fn spec_split_destination(usb_mount: Seq<char>, k: PayloadKind) -> Seq<char> {
    usb_mount + "/sources/install."@ + spec_extension(k)
}

/// The status line reported when a job begins its destructive work.
pub open spec fn spec_start_message(drive: Seq<char>) -> Seq<char> {
    "Formatting drive "@ + drive + "..."@
}

/// The status line of the bulk-copy phase.
pub open spec fn spec_extract_progress_message() -> Seq<char> {
    "Extracting boot files..."@
}

/// The status line of the split phase, with written and total MiB.
pub open spec fn spec_split_message(done_mb: nat, total_mb: nat) -> Seq<char> {
    "Splitting install.wim: "@ + spec_decimal(done_mb) + " / "@ + spec_decimal(total_mb)
        + " MB"@
}

/// The status line of the final flush, with the backlog left in MiB.
pub open spec fn spec_flush_message(mb_left: nat) -> Seq<char> {
    "Flushing cache: "@ + spec_decimal(mb_left) + " MB left"@
}

/// The status line shown while the last writes settle, with a turning
/// spinner.
pub open spec fn spec_spinner_message(idx: int) -> Seq<char> {
    if idx == 1 {
        "Finishing writes... \\"@
    } else if idx == 2 {
        "Finishing writes... |"@
    } else if idx == 3 {
        "Finishing writes... /"@
    } else {
        "Finishing writes... -"@
    }
}

/// The error reported when the listing shows no recognized payload.
pub open spec fn spec_invalid_image_message() -> Seq<char> {
    "Invalid ISO: install.wim/esd not found"@
}

/// The error reported when the drive vanishes before formatting.
pub open spec fn spec_disconnected_before_format_message() -> Seq<char> {
    "Drive disconnected before formatting"@
}

/// The error reported when formatting fails.
pub open spec fn spec_format_failed_message() -> Seq<char> {
    "Formatting failed. Drive may have been removed."@
}

/// The error reported when the target cannot be mounted.
pub open spec fn spec_mount_failed_message() -> Seq<char> {
    "Failed to mount USB drive."@
}

/// The error reported when the drive vanishes between mounting and
/// extraction.
pub open spec fn spec_disconnected_before_extract_message() -> Seq<char> {
    "Drive disconnected before extraction."@
}

/// The error reported when extraction fails or the drive vanishes during
/// it.
pub open spec fn spec_extract_failed_message() -> Seq<char> {
    "Drive removed or 7z error during extraction."@
}

/// The error reported when the split fails or the drive vanishes during it.
pub open spec fn spec_split_failed_message() -> Seq<char> {
    "Drive removed or wimlib error during split."@
}

/// The error reported when the final sync or unmount fails.
pub open spec fn spec_sync_failed_message() -> Seq<char> {
    "Sync failed. Drive was likely unplugged."@
}

/// The error reported when the drive vanishes during the final flush.
pub open spec fn spec_disconnected_during_sync_message() -> Seq<char> {
    "Drive disconnected during final sync."@
}

/// Builds the start-of-work status line for a drive.
fn start_message(drive: &str) -> (r: String)
    ensures
        r@ == spec_start_message(drive@),
{
    let mut s = String::new();
    s.append("Formatting drive ");
    s.append(drive);
    s.append("...");
    proof {
        assert(s@ =~= spec_start_message(drive@));
    }
    s
}

/// Builds the split-phase status line.
fn split_message(done_mb: u64, total_mb: u64) -> (r: String)
    ensures
        r@ == spec_split_message(done_mb as nat, total_mb as nat),
{
    let mut s = String::new();
    s.append("Splitting install.wim: ");
    push_decimal(&mut s, done_mb);
    s.append(" / ");
    push_decimal(&mut s, total_mb);
    s.append(" MB");
    proof {
        assert(s@ =~= spec_split_message(done_mb as nat, total_mb as nat));
    }
    s
}

/// Builds the final-flush status line.
fn flush_message(mb_left: u64) -> (r: String)
    ensures
        r@ == spec_flush_message(mb_left as nat),
{
    let mut s = String::new();
    s.append("Flushing cache: ");
    push_decimal(&mut s, mb_left);
    s.append(" MB left");
    proof {
        assert(s@ =~= spec_flush_message(mb_left as nat));
    }
    s
}

/// Builds the settle status line for a spinner position.
fn spinner_message(idx: u64) -> (r: String)
    ensures
        r@ == spec_spinner_message(idx as int),
{
    if idx == 1 {
        String::from_str("Finishing writes... \\")
    } else if idx == 2 {
        String::from_str("Finishing writes... |")
    } else if idx == 3 {
        String::from_str("Finishing writes... /")
    } else {
        String::from_str("Finishing writes... -")
    }
}

/// The drive path and the two ephemeral mountpoints never change over a
/// job's lifetime.
pub open spec fn job_fixed(pre: Controller, post: Controller) -> bool {
    &&& post.spec_drive() == pre.spec_drive()
    &&& post.spec_usb_mount() == pre.spec_usb_mount()
    &&& post.spec_iso_mount() == pre.spec_iso_mount()
}

/// The controller of one flashing job: the current phase, the job's fixed
/// paths, the detected payload, the estimator's bookkeeping and the event
/// stream.
pub struct Controller {
    drive: String,
    usb_mount: String,
    iso_mount: String,
    phase: Phase,
    payload: Option<PayloadKind>,
    payload_bytes: u64,
    baseline_bytes: u64,
    initial_dirty: u64,
    spin_idx: u64,
    stream: EventStream,
}

impl Controller {
    /// The drive's device path.
    pub closed spec fn spec_drive(&self) -> Seq<char> {
        self.drive@
    }

    /// The target-side ephemeral mountpoint.
    pub closed spec fn spec_usb_mount(&self) -> Seq<char> {
        self.usb_mount@
    }

    /// The image-side ephemeral mountpoint.
    pub closed spec fn spec_iso_mount(&self) -> Seq<char> {
        self.iso_mount@
    }

    /// The current phase.
    pub closed spec fn spec_phase(&self) -> Phase {
        self.phase
    }

    /// The payload detection's result, fixed once per job.
    pub closed spec fn spec_payload(&self) -> Option<PayloadKind> {
        self.payload
    }

    /// The payload's measured size in bytes.
    pub closed spec fn spec_payload_bytes(&self) -> u64 {
        self.payload_bytes
    }

    /// The on-disk byte count the bulk copy ended at; split progress is
    /// measured above it.
    pub closed spec fn spec_baseline(&self) -> u64 {
        self.baseline_bytes
    }

    /// The writeback backlog the final flush started with.
    pub closed spec fn spec_initial_dirty(&self) -> u64 {
        self.initial_dirty
    }

    /// The spinner position of the settle status line.
    pub closed spec fn spec_spin(&self) -> u64 {
        self.spin_idx
    }

    /// The job's event stream.
    pub closed spec fn stream(&self) -> EventStream {
        self.stream
    }

    /// The events emitted so far.
    pub open spec fn log(&self) -> Seq<ProgressEvent> {
        self.stream().log()
    }

    /// Well-formedness: the stream is well-formed and is terminated exactly
    /// when the job is in a terminal phase; a job that has passed detection
    /// and not failed has a payload; the sizes later phases divide by are
    /// positive.
    pub open spec fn inv(&self) -> bool {
        &&& self.stream().inv()
        &&& (self.stream().spec_terminated() <==> phase_is_terminal(self.spec_phase()))
        &&& (self.spec_phase() is Detect ==> self.log().len() == 0
            && self.stream().spec_last_fraction() == 0)
        &&& (1 <= phase_rank(self.spec_phase()) && !(self.spec_phase() is Failed)
            ==> self.spec_payload() is Some)
        &&& (self.spec_phase() is Extract || self.spec_phase() is Split || self.spec_phase()
            is Finalize ==> self.spec_payload_bytes() >= 1)
        &&& (self.spec_phase() is Finalize ==> self.spec_initial_dirty() >= 1)
        &&& self.spec_spin() < 4
    }

    /// A fresh job for a drive, with its two ephemeral mountpoints, waiting
    /// to inspect the image listing.
    pub fn new(drive: String, usb_mount: String, iso_mount: String) -> (r: Controller)
        ensures
            r.inv(),
            r.spec_phase() is Detect,
            r.log().len() == 0,
            r.spec_payload() is None,
            r.spec_drive() == drive@,
            r.spec_usb_mount() == usb_mount@,
            r.spec_iso_mount() == iso_mount@,
    {
        Controller {
            drive,
            usb_mount,
            iso_mount,
            phase: Phase::Detect,
            payload: None,
            payload_bytes: 0,
            baseline_bytes: 0,
            initial_dirty: 0,
            spin_idx: 0,
            stream: EventStream::new(),
        }
    }

    /// The external work the current phase asks for: none once the job has
    /// ended, and otherwise exactly the tool invocation of the phase, with
    /// the partition name, the exclusion and the split paths all derived
    /// from the job's fixed data.
    pub fn next_action(&self) -> (r: Option<Action>)
        requires
            self.inv(),
        ensures
            self.spec_phase() is Detect ==> r == Some(Action::ListImage),
            self.spec_phase() is Prepare ==> r == Some(Action::UnmountStale),
            self.spec_phase() is Wipe ==> r == Some(Action::WipeAndPartition),
            self.spec_phase() is Format ==> (r matches Some(a) && a matches
                Action::FormatPartition { partition } && partition@ == spec_partition_device(
                self.spec_drive(),
            )),
            self.spec_phase() is Mount ==> (r matches Some(a) && a matches Action::MountTargets {
                partition,
            } && partition@ == spec_partition_device(self.spec_drive())),
            self.spec_phase() is Extract ==> (r matches Some(a) && a matches
                Action::ExtractImage { exclude_file } && exclude_file@ == spec_payload_file(
                self.spec_payload()->Some_0,
            )),
            self.spec_phase() is Split ==> (r matches Some(a) && a matches Action::SplitPayload {
                source,
                destination,
                chunk_mib,
            } && source@ == spec_split_source(self.spec_iso_mount(), self.spec_payload()->Some_0)
                && destination@ == spec_split_destination(
                self.spec_usb_mount(),
                self.spec_payload()->Some_0,
            ) && chunk_mib == SPLIT_CHUNK_MIB),
            self.spec_phase() is Finalize ==> r == Some(Action::SyncAndUnmount),
            phase_is_terminal(self.spec_phase()) ==> r is None,
    {
        match self.phase {
            Phase::Detect => Some(Action::ListImage),
            Phase::Prepare => Some(Action::UnmountStale),
            Phase::Wipe => Some(Action::WipeAndPartition),
            Phase::Format => Some(
                Action::FormatPartition { partition: partition_device(self.drive.as_str()) },
            ),
            Phase::Mount => Some(
                Action::MountTargets { partition: partition_device(self.drive.as_str()) },
            ),
            Phase::Extract => {
                let k = self.payload.unwrap();
                Some(
                    Action::ExtractImage {
                        exclude_file: String::from_str(payload_file_name(k)),
                    },
                )
            },
            Phase::Split => {
                let k = self.payload.unwrap();
                let mut source = String::new();
                source.append(self.iso_mount.as_str());
                source.append("/");
                source.append(payload_path(k));
                let mut destination = String::new();
                destination.append(self.usb_mount.as_str());
                destination.append("/sources/install.");
                destination.append(payload_extension(k));
                proof {
                    assert(source@ =~= spec_split_source(
                        self.spec_iso_mount(),
                        self.spec_payload()->Some_0,
                    ));
                    assert(destination@ =~= spec_split_destination(
                        self.spec_usb_mount(),
                        self.spec_payload()->Some_0,
                    ));
                }
                Some(
                    Action::SplitPayload { source, destination, chunk_mib: SPLIT_CHUNK_MIB },
                )
            },
            Phase::Finalize => Some(Action::SyncAndUnmount),
            Phase::Done => None,
            Phase::Failed => None,
        }
    }

    /// Consumes the image listing. A recognized payload fixes the job's
    /// choice and opens the destructive phases with the start status line;
    /// no listing or no recognized payload fails the job before any
    /// destructive step.
    pub fn on_listing(&mut self, listing: Option<&str>)
        requires
            old(self).inv(),
            old(self).spec_phase() is Detect,
        ensures
            final(self).inv(),
            phase_rank(final(self).spec_phase()) > phase_rank(old(self).spec_phase()),
            job_fixed(*old(self), *final(self)),
            (match listing {
                Some(l) => spec_detect(l@),
                None => None::<PayloadKind>,
            }) matches Some(k) ==> {
                &&& final(self).spec_phase() is Prepare
                &&& final(self).spec_payload() == Some(k)
                &&& pushed_update(
                    old(self).log(),
                    final(self).log(),
                    spec_start_message(old(self).spec_drive()),
                    START_FRACTION,
                )
            },
            (match listing {
                Some(l) => spec_detect(l@),
                None => None::<PayloadKind>,
            }) is None ==> final(self).spec_phase() is Failed && pushed_error(
                old(self).log(),
                final(self).log(),
                spec_invalid_image_message(),
            ),
    {
        let detected = match listing {
            Some(l) => detect_payload(l),
            None => None,
        };
        match detected {
            Some(k) => {
                self.payload = Some(k);
                self.phase = Phase::Prepare;
                let msg = start_message(self.drive.as_str());
                self.stream.update(msg, START_FRACTION);
            },
            None => {
                self.phase = Phase::Failed;
                self.stream.fail(String::from_str("Invalid ISO: install.wim/esd not found"));
            },
        }
    }

    /// Consumes the stale-unmount step's boundary check. The unmount itself
    /// is best-effort and cannot fail the job; only an absent drive does.
    pub fn on_prepared(&mut self, device_present: bool)
        requires
            old(self).inv(),
            old(self).spec_phase() is Prepare,
        ensures
            final(self).inv(),
            phase_rank(final(self).spec_phase()) > phase_rank(old(self).spec_phase()),
            job_fixed(*old(self), *final(self)),
            final(self).spec_payload() == old(self).spec_payload(),
            device_present ==> final(self).spec_phase() is Wipe && final(self).stream() == old(self).stream(),
            !device_present ==> final(self).spec_phase() is Failed && pushed_error(
                old(self).log(),
                final(self).log(),
                spec_disconnected_before_format_message(),
            ),
    {
        if device_present {
            self.phase = Phase::Wipe;
        } else {
            self.phase = Phase::Failed;
            self.stream.fail(String::from_str("Drive disconnected before formatting"));
        }
    }

    /// Consumes the wipe-and-partition step's boundary check. The guard runs
    /// immediately before the format phase: an absent drive fails the job
    /// here and no format action is ever handed out for it.
    pub fn on_wiped(&mut self, device_present: bool)
        requires
            old(self).inv(),
            old(self).spec_phase() is Wipe,
        ensures
            final(self).inv(),
            phase_rank(final(self).spec_phase()) > phase_rank(old(self).spec_phase()),
            job_fixed(*old(self), *final(self)),
            final(self).spec_payload() == old(self).spec_payload(),
            device_present ==> final(self).spec_phase() is Format && final(self).stream() == old(self).stream(),
            !device_present ==> final(self).spec_phase() is Failed && pushed_error(
                old(self).log(),
                final(self).log(),
                spec_disconnected_before_format_message(),
            ),
    {
        if device_present {
            self.phase = Phase::Format;
        } else {
            self.phase = Phase::Failed;
            self.stream.fail(String::from_str("Drive disconnected before formatting"));
        }
    }

    /// Consumes the format step's outcome. A failed format is fatal and
    /// reported verbatim.
    pub fn on_formatted(&mut self, success: bool)
        requires
            old(self).inv(),
            old(self).spec_phase() is Format,
        ensures
            final(self).inv(),
            phase_rank(final(self).spec_phase()) > phase_rank(old(self).spec_phase()),
            job_fixed(*old(self), *final(self)),
            final(self).spec_payload() == old(self).spec_payload(),
            success ==> final(self).spec_phase() is Mount && final(self).stream() == old(self).stream(),
            !success ==> final(self).spec_phase() is Failed && pushed_error(
                old(self).log(),
                final(self).log(),
                spec_format_failed_message(),
            ),
    {
        if success {
            self.phase = Phase::Mount;
        } else {
            self.phase = Phase::Failed;
            self.stream.fail(
                String::from_str("Formatting failed. Drive may have been removed."),
            );
        }
    }

    /// Consumes the mount step's outcome, the boundary check before
    /// extraction, and the payload's measured size (the fallback size stands
    /// in when it could not be measured). A failed mount is fatal; a drive
    /// absent here fails the job before extraction starts.
    pub fn on_mounted(&mut self, success: bool, device_present: bool, payload_size: Option<u64>)
        requires
            old(self).inv(),
            old(self).spec_phase() is Mount,
        ensures
            final(self).inv(),
            phase_rank(final(self).spec_phase()) > phase_rank(old(self).spec_phase()),
            job_fixed(*old(self), *final(self)),
            final(self).spec_payload() == old(self).spec_payload(),
            !success ==> final(self).spec_phase() is Failed && pushed_error(
                old(self).log(),
                final(self).log(),
                spec_mount_failed_message(),
            ),
            success && !device_present ==> final(self).spec_phase() is Failed && pushed_error(
                old(self).log(),
                final(self).log(),
                spec_disconnected_before_extract_message(),
            ),
            success && device_present ==> {
                &&& final(self).spec_phase() is Extract
                &&& final(self).stream() == old(self).stream()
                &&& final(self).spec_payload_bytes() == (match payload_size {
                    Some(b) => if b >= 1 { b } else { 1u64 },
                    None => DEFAULT_PAYLOAD_BYTES,
                })
                &&& final(self).spec_baseline() == 0
            },
    {
        if !success {
            self.phase = Phase::Failed;
            self.stream.fail(String::from_str("Failed to mount USB drive."));
        } else if !device_present {
            self.phase = Phase::Failed;
            self.stream.fail(String::from_str("Drive disconnected before extraction."));
        } else {
            self.payload_bytes = match payload_size {
                Some(b) => if b >= 1 {
                    b
                } else {
                    1
                },
                None => DEFAULT_PAYLOAD_BYTES,
            };
            self.baseline_bytes = 0;
            self.phase = Phase::Extract;
        }
    }

    /// Consumes one estimator sample: the bytes occupying the target
    /// mountpoint and the writeback backlog. Samples count only during the
    /// bulk-copy and split phases and only while the drive is present;
    /// otherwise the sample is dropped silently. During the bulk copy the
    /// backlog is subtracted so only committed bytes count, and the reading
    /// becomes the split phase's baseline; during the split, growth above
    /// the baseline is measured against the payload size. The derived
    /// fraction is offered to the stream, which records it only if it does not regress.
    pub fn sample(&mut self, disk_bytes: u64, dirty_bytes: u64, device_present: bool)
        requires
            old(self).inv(),
        ensures
            final(self).inv(),
            job_fixed(*old(self), *final(self)),
            final(self).spec_phase() == old(self).spec_phase(),
            final(self).spec_payload() == old(self).spec_payload(),
            final(self).spec_payload_bytes() == old(self).spec_payload_bytes(),
            final(self).spec_initial_dirty() == old(self).spec_initial_dirty(),
            !device_present || !(old(self).spec_phase() is Extract || old(self).spec_phase()
                is Split) ==> final(self).stream() == old(self).stream() && final(self).spec_baseline() == old(self).spec_baseline(),
            device_present && old(self).spec_phase() is Extract ==> {
                &&& offered_update(
                    old(self).stream(),
                    final(self).stream(),
                    spec_extract_progress_message(),
                    spec_extract_fraction(
                        (disk_bytes - spec_min(dirty_bytes as int, disk_bytes as int)) as nat,
                    ) as u32,
                )
                &&& final(self).spec_baseline() == disk_bytes
            },
            device_present && old(self).spec_phase() is Split ==> {
                let done = (disk_bytes - spec_min(
                    old(self).spec_baseline() as int,
                    disk_bytes as int,
                )) as nat;
                &&& offered_update(
                    old(self).stream(),
                    final(self).stream(),
                    spec_split_message(
                        done / 0x100000,
                        old(self).spec_payload_bytes() as nat / 0x100000,
                    ),
                    spec_split_fraction(done, old(self).spec_payload_bytes() as nat) as u32,
                )
                &&& final(self).spec_baseline() == old(self).spec_baseline()
            },
    {
        if !device_present {
            return ;
        }
        match self.phase {
            Phase::Extract => {
                let committed: u64 = if dirty_bytes < disk_bytes {
                    disk_bytes - dirty_bytes
                } else {
                    0
                };
                let f = extract_fraction(committed);
                self.stream.update(String::from_str("Extracting boot files..."), f);
                self.baseline_bytes = disk_bytes;
            },
            Phase::Split => {
                let done: u64 = if self.baseline_bytes < disk_bytes {
                    disk_bytes - self.baseline_bytes
                } else {
                    0
                };
                let f = split_fraction(done, self.payload_bytes);
                let msg = split_message(done / 0x100000, self.payload_bytes / 0x100000);
                self.stream.update(msg, f);
            },
            _ => {},
        }
    }

    /// Consumes the bulk-copy step's outcome together with its boundary
    /// check; either a tool failure or an absent drive ends the job.
    pub fn on_extracted(&mut self, success: bool, device_present: bool)
        requires
            old(self).inv(),
            old(self).spec_phase() is Extract,
        ensures
            final(self).inv(),
            phase_rank(final(self).spec_phase()) > phase_rank(old(self).spec_phase()),
            job_fixed(*old(self), *final(self)),
            final(self).spec_payload() == old(self).spec_payload(),
            final(self).spec_payload_bytes() == old(self).spec_payload_bytes(),
            final(self).spec_baseline() == old(self).spec_baseline(),
            success && device_present ==> final(self).spec_phase() is Split && final(self).stream() == old(self).stream(),
            !(success && device_present) ==> final(self).spec_phase() is Failed && pushed_error(
                old(self).log(),
                final(self).log(),
                spec_extract_failed_message(),
            ),
    {
        if success && device_present {
            self.phase = Phase::Split;
        } else {
            self.phase = Phase::Failed;
            self.stream.fail(
                String::from_str("Drive removed or 7z error during extraction."),
            );
        }
    }

    /// Consumes the split step's outcome together with its boundary check
    /// and the writeback backlog the final flush starts from; either a tool
    /// failure or an absent drive ends the job.
    pub fn on_split(&mut self, success: bool, device_present: bool, dirty_bytes: u64)
        requires
            old(self).inv(),
            old(self).spec_phase() is Split,
        ensures
            final(self).inv(),
            phase_rank(final(self).spec_phase()) > phase_rank(old(self).spec_phase()),
            job_fixed(*old(self), *final(self)),
            final(self).spec_payload() == old(self).spec_payload(),
            success && device_present ==> {
                &&& final(self).spec_phase() is Finalize
                &&& final(self).stream() == old(self).stream()
                &&& final(self).spec_initial_dirty() == (if dirty_bytes >= 1 {
                    dirty_bytes
                } else {
                    1u64
                })
            },
            !(success && device_present) ==> final(self).spec_phase() is Failed && pushed_error(
                old(self).log(),
                final(self).log(),
                spec_split_failed_message(),
            ),
    {
        if success && device_present {
            self.initial_dirty = if dirty_bytes >= 1 {
                dirty_bytes
            } else {
                1
            };
            self.phase = Phase::Finalize;
        } else {
            self.phase = Phase::Failed;
            self.stream.fail(
                String::from_str("Drive removed or wimlib error during split."),
            );
        }
    }

    /// Consumes one poll of the final flush: whether the sync-and-unmount
    /// work has finished or failed, the boundary check, and the current
    /// writeback backlog. A failure or an absent drive ends the job with the
    /// matching error; completion ends it with the one `Finished` event;
    /// otherwise a settle or flush status line is offered to the stream.
    pub fn on_sync_poll(
        &mut self,
        unmount_done: bool,
        unmount_failed: bool,
        device_present: bool,
        dirty_bytes: u64,
    )
        requires
            old(self).inv(),
            old(self).spec_phase() is Finalize,
        ensures
            final(self).inv(),
            phase_rank(final(self).spec_phase()) >= phase_rank(old(self).spec_phase()),
            job_fixed(*old(self), *final(self)),
            final(self).spec_payload() == old(self).spec_payload(),
            unmount_failed ==> final(self).spec_phase() is Failed && pushed_error(
                old(self).log(),
                final(self).log(),
                spec_sync_failed_message(),
            ),
            !unmount_failed && unmount_done ==> final(self).spec_phase() is Done
                && pushed_finished(old(self).log(), final(self).log()),
            !unmount_failed && !unmount_done && !device_present ==> final(self).spec_phase()
                is Failed && pushed_error(
                old(self).log(),
                final(self).log(),
                spec_disconnected_during_sync_message(),
            ),
            !unmount_failed && !unmount_done && device_present ==> {
                &&& final(self).spec_phase() is Finalize
                &&& (dirty_bytes <= FLUSH_DONE_BYTES ==> {
                    &&& final(self).spec_spin() == (old(self).spec_spin() + 1) % 4
                    &&& offered_update(
                        old(self).stream(),
                        final(self).stream(),
                        spec_spinner_message(((old(self).spec_spin() + 1) % 4) as int),
                        NEAR_DONE_FRACTION,
                    )
                })
                &&& (dirty_bytes > FLUSH_DONE_BYTES ==> {
                    &&& final(self).spec_spin() == old(self).spec_spin()
                    &&& offered_update(
                        old(self).stream(),
                        final(self).stream(),
                        spec_flush_message(dirty_bytes as nat / 0x100000),
                        spec_sync_fraction(
                            dirty_bytes as nat,
                            old(self).spec_initial_dirty() as nat,
                        ) as u32,
                    )
                })
            },
    {
        if unmount_failed {
            self.phase = Phase::Failed;
            self.stream.fail(String::from_str("Sync failed. Drive was likely unplugged."));
        } else if unmount_done {
            self.phase = Phase::Done;
            self.stream.finish();
        } else if !device_present {
            self.phase = Phase::Failed;
            self.stream.fail(String::from_str("Drive disconnected during final sync."));
        } else if dirty_bytes <= FLUSH_DONE_BYTES {
            self.spin_idx = (self.spin_idx + 1) % 4;
            let msg = spinner_message(self.spin_idx);
            self.stream.update(msg, NEAR_DONE_FRACTION);
        } else {
            let f = sync_fraction(dirty_bytes, self.initial_dirty);
            let msg = flush_message(dirty_bytes / 0x100000);
            self.stream.update(msg, f);
        }
    }

    /// The current phase.
    pub fn phase(&self) -> (p: Phase)
        ensures
            p == self.spec_phase(),
    {
        self.phase
    }

    /// Whether the job has ended.
    pub fn is_ended(&self) -> (b: bool)
        ensures
            b == phase_is_terminal(self.spec_phase()),
    {
        match self.phase {
            Phase::Done => true,
            Phase::Failed => true,
            _ => false,
        }
    }

    /// How many events the job has emitted.
    pub fn event_count(&self) -> (n: usize)
        ensures
            n == self.log().len(),
    {
        self.stream.len()
    }

    /// The event at position `i` of the job's stream.
    pub fn event_at(&self, i: usize) -> (e: &ProgressEvent)
        requires
            i < self.log().len(),
        ensures
            *e == self.log()[i as int],
    {
        self.stream.get(i)
    }

    /// Monotonic progress: within one job, the fractions of any two update
    /// events never decrease along the stream.
    pub proof fn lemma_job_updates_monotonic(&self, i: int, j: int)
        requires
            self.inv(),
            0 <= i <= j < self.log().len(),
            ev_is_update(self.log()[i]),
            ev_is_update(self.log()[j]),
        ensures
            ev_fraction(self.log()[i]) <= ev_fraction(self.log()[j]),
    {
        self.stream().lemma_updates_monotonic(i, j);
    }

    /// Exactly one terminal event: a completed run's stream holds one
    /// `Finished` or `Error`, and it is the last element.
    pub proof fn lemma_completed_run_single_terminal(&self)
        requires
            self.inv(),
            phase_is_terminal(self.spec_phase()),
        ensures
            self.log().len() > 0,
            ev_is_terminal(self.log().last()),
            forall|i: int|
                0 <= i < self.log().len() - 1 ==> !ev_is_terminal(#[trigger] self.log()[i]),
    {
        self.stream().lemma_single_terminal();
    }
}

} // verus!
