//! The NVIDIA digital-vibrance session.
//!
//! Setting the vibrance (and the read-only driver probe) is a conversation with
//! the driver: load the NVAPI library, resolve its query entry point,
//! initialise, find the display, read the vibrance range, map the user's level
//! into that range, set it. The application performs each call; this module
//! decides, from each reply, what is asked next and how the session ends.

use vstd::prelude::*;

use crate::text::{decimal, format_i32};


verus! {

/// NVAPI interface id of `NvAPI_Initialize`.
pub const NVAPI_INITIALIZE: u32 = 0x0150E828;

/// NVAPI interface id of `NvAPI_EnumNvidiaDisplayHandle`.
pub const NVAPI_ENUM_DISPLAY_HANDLE: u32 = 0x9ABDD40D;

/// NVAPI interface id of `NvAPI_GetDVCInfo`.
pub const NVAPI_GET_DVC_INFO: u32 = 0x4085DE45;

/// NVAPI interface id of `NvAPI_SetDVCLevel`.
pub const NVAPI_SET_DVC_LEVEL: u32 = 0x172409B4;

/// Version tag of the DVC info record: its size (16 bytes) with version 1 in
/// the high half.
pub const NV_DISPLAY_DVC_INFO_VER: u32 = 0x0001_0010;

/// What the driver reports of the display's digital vibrance control.
#[derive(Clone, Copy, Debug, PartialEq, Eq)]
pub struct DvcInfo {
    pub current_level: i32,
    pub min_level: i32,
    pub max_level: i32,
}

/// What the session is for: setting the vibrance to a user level (0..=100,
/// 50 by default), or only probing the driver.
#[derive(Clone, Copy, Debug, PartialEq, Eq)]
pub enum NvProgram {
    Apply { level: i32 },
    Probe,
}

/// The NVAPI library files, in the order they are tried.
#[derive(Clone, Copy, Debug, PartialEq, Eq)]
pub enum NvLibrary {
    Nvapi64,
    Nvapi32,
}

/// How a session ended.
#[derive(Clone, Copy, Debug, PartialEq, Eq)]
pub enum NvOutcome {
    DriverMissing,
    QueryInterfaceMissing,
    InitializeFailed(i32),
    EnumDisplayFailed(i32),
    DvcInfoFailed(i32),
    SetLevelFailed { status: i32, info: DvcInfo },
    LevelSet { level: i32, info: DvcInfo },
    Probed(DvcInfo),
}

/// Where a session stands: which reply it waits for.
#[derive(Clone, Copy, Debug, PartialEq, Eq)]
pub enum NvStage {
    LoadingPrimary,
    LoadingFallback,
    FindingQueryInterface,
    Initializing,
    EnumeratingDisplays,
    ReadingDvcInfo,
    MappingLevel { info: DvcInfo },
    SettingLevel { info: DvcInfo, level: i32 },
    Finished(NvOutcome),
}

/// A reply from the application, after it performed the last action.
#[derive(Clone, Copy, Debug, PartialEq, Eq)]
pub enum NvEvent {
    /// Whether the library file could be loaded.
    LibraryLoaded(bool),
    /// Whether the library exports its query entry point.
    QueryInterfaceFound(bool),
    /// The status returned by `Initialize`, `EnumDisplayHandle` or `SetDvcLevel`.
    Status(i32),
    /// The status and the record returned by `GetDvcInfo`.
    DvcInfoRead { status: i32, info: DvcInfo },
    /// The driver level that the user level maps to.
    LevelMapped(i32),
}

/// What the application is asked to do next.
#[derive(Clone, Copy, Debug, PartialEq, Eq)]
pub enum NvAction {
    /// Load this library file.
    Load(NvLibrary),
    /// Resolve the library's query entry point.
    ResolveQueryInterface,
    /// Call `NvAPI_Initialize`.
    Initialize,
    /// Call `NvAPI_EnumNvidiaDisplayHandle` for the first display.
    EnumerateDisplays,
    /// Call `NvAPI_GetDVCInfo` on that display.
    ReadDvcInfo,
    /// Map the user level (0..=100) into the driver range of `info`.
    MapLevel { level: i32, info: DvcInfo },
    /// Call `NvAPI_SetDVCLevel` with this level.
    SetLevel(i32),
    /// The session is over.
    Finish(NvOutcome),
}

/// A vibrance session: its program and where it stands.
#[derive(Clone, Copy, Debug, PartialEq, Eq)]
pub struct NvSession {
    pub program: NvProgram,
    pub stage: NvStage,
}

/// `target` raised to `lo`, then lowered to `hi`.
pub open spec fn clamped(target: i32, lo: i32, hi: i32) -> i32 {
    let raised = if target >= lo {
        target
    } else {
        lo
    };
    if raised <= hi {
        raised
    } else {
        hi
    }
}

/// Bounds a driver level by the range the driver reported: raised to
/// `min_level`, then lowered to `max_level`.
pub fn clamp_level(target: i32, min_level: i32, max_level: i32) -> (level: i32)
    ensures
        level == clamped(target, min_level, max_level),
{
    let raised = if target >= min_level {
        target
    } else {
        min_level
    };
    if raised <= max_level {
        raised
    } else {
        max_level
    }
}

/// The user level of a program (none for a probe).
pub open spec fn program_level(program: NvProgram) -> i32 {
    match program {
        NvProgram::Apply { level } => level,
        NvProgram::Probe => 0,
    }
}

/// The action that a stage waits on.
pub open spec fn pending(program: NvProgram, stage: NvStage) -> NvAction {
    match stage {
        NvStage::LoadingPrimary => NvAction::Load(NvLibrary::Nvapi64),
        NvStage::LoadingFallback => NvAction::Load(NvLibrary::Nvapi32),
        NvStage::FindingQueryInterface => NvAction::ResolveQueryInterface,
        NvStage::Initializing => NvAction::Initialize,
        NvStage::EnumeratingDisplays => NvAction::EnumerateDisplays,
        NvStage::ReadingDvcInfo => NvAction::ReadDvcInfo,
        NvStage::MappingLevel { info } => NvAction::MapLevel { level: program_level(program), info },
        NvStage::SettingLevel { info, level } => NvAction::SetLevel(level),
        NvStage::Finished(outcome) => NvAction::Finish(outcome),
    }
}

/// The stage after a reply. A reply that does not answer the stage's
/// pending action leaves the stage as it is, and a finished session stays
/// finished.
pub open spec fn next_stage(program: NvProgram, stage: NvStage, event: NvEvent) -> NvStage {
    match (stage, event) {
        (NvStage::LoadingPrimary, NvEvent::LibraryLoaded(loaded)) => {
            if loaded {
                NvStage::FindingQueryInterface
            } else if program is Apply {
                NvStage::LoadingFallback
            } else {
                NvStage::Finished(NvOutcome::DriverMissing)
            }
        },
        (NvStage::LoadingFallback, NvEvent::LibraryLoaded(loaded)) => {
            if loaded {
                NvStage::FindingQueryInterface
            } else {
                NvStage::Finished(NvOutcome::DriverMissing)
            }
        },
        (NvStage::FindingQueryInterface, NvEvent::QueryInterfaceFound(found)) => {
            if found {
                NvStage::Initializing
            } else {
                NvStage::Finished(NvOutcome::QueryInterfaceMissing)
            }
        },
        (NvStage::Initializing, NvEvent::Status(status)) => {
            if status == 0 {
                NvStage::EnumeratingDisplays
            } else {
                NvStage::Finished(NvOutcome::InitializeFailed(status))
            }
        },
        (NvStage::EnumeratingDisplays, NvEvent::Status(status)) => {
            if status == 0 {
                NvStage::ReadingDvcInfo
            } else {
                NvStage::Finished(NvOutcome::EnumDisplayFailed(status))
            }
        },
        (NvStage::ReadingDvcInfo, NvEvent::DvcInfoRead { status, info }) => {
            if status != 0 {
                NvStage::Finished(NvOutcome::DvcInfoFailed(status))
            } else if program is Apply {
                NvStage::MappingLevel { info }
            } else {
                NvStage::Finished(NvOutcome::Probed(info))
            }
        },
        (NvStage::MappingLevel { info }, NvEvent::LevelMapped(target)) => NvStage::SettingLevel {
            info,
            level: clamped(target, info.min_level, info.max_level),
        },
        (NvStage::SettingLevel { info, level }, NvEvent::Status(status)) => {
            if status == 0 {
                NvStage::Finished(NvOutcome::LevelSet { level, info })
            } else {
                NvStage::Finished(NvOutcome::SetLevelFailed { status, info })
            }
        },
        _ => stage,
    }
}

impl NvSession {
    /// A new session, about to load the 64-bit NVAPI library.
    pub fn new(program: NvProgram) -> (session: NvSession)
        ensures
            session.program == program,
            session.stage == NvStage::LoadingPrimary,
    {
        NvSession { program, stage: NvStage::LoadingPrimary }
    }

    /// The action the session waits on.
    pub fn pending_action(&self) -> (action: NvAction)
        ensures
            action == pending(self.program, self.stage),
    {
        match self.stage {
            NvStage::LoadingPrimary => NvAction::Load(NvLibrary::Nvapi64),
            NvStage::LoadingFallback => NvAction::Load(NvLibrary::Nvapi32),
            NvStage::FindingQueryInterface => NvAction::ResolveQueryInterface,
            NvStage::Initializing => NvAction::Initialize,
            NvStage::EnumeratingDisplays => NvAction::EnumerateDisplays,
            NvStage::ReadingDvcInfo => NvAction::ReadDvcInfo,
            NvStage::MappingLevel { info } => {
                let level = match self.program {
                    NvProgram::Apply { level } => level,
                    NvProgram::Probe => 0,
                };
                NvAction::MapLevel { level, info }
            },
            NvStage::SettingLevel { info, level } => NvAction::SetLevel(level),
            NvStage::Finished(outcome) => NvAction::Finish(outcome),
        }
    }

    /// Takes the application's reply to the pending action, moves on and
    /// returns the next action.
    pub fn step(&mut self, event: NvEvent) -> (action: NvAction)
        ensures
            final(self).program == old(self).program,
            final(self).stage == next_stage(old(self).program, old(self).stage, event),
            action == pending(final(self).program, final(self).stage),
    {
        let next = match (self.stage, event) {
            (NvStage::LoadingPrimary, NvEvent::LibraryLoaded(loaded)) => {
                if loaded {
                    NvStage::FindingQueryInterface
                } else if matches!(self.program, NvProgram::Apply { .. }) {
                    NvStage::LoadingFallback
                } else {
                    NvStage::Finished(NvOutcome::DriverMissing)
                }
            },
            (NvStage::LoadingFallback, NvEvent::LibraryLoaded(loaded)) => {
                if loaded {
                    NvStage::FindingQueryInterface
                } else {
                    NvStage::Finished(NvOutcome::DriverMissing)
                }
            },
            (NvStage::FindingQueryInterface, NvEvent::QueryInterfaceFound(found)) => {
                if found {
                    NvStage::Initializing
                } else {
                    NvStage::Finished(NvOutcome::QueryInterfaceMissing)
                }
            },
            (NvStage::Initializing, NvEvent::Status(status)) => {
                if status == 0 {
                    NvStage::EnumeratingDisplays
                } else {
                    NvStage::Finished(NvOutcome::InitializeFailed(status))
                }
            },
            (NvStage::EnumeratingDisplays, NvEvent::Status(status)) => {
                if status == 0 {
                    NvStage::ReadingDvcInfo
                } else {
                    NvStage::Finished(NvOutcome::EnumDisplayFailed(status))
                }
            },
            (NvStage::ReadingDvcInfo, NvEvent::DvcInfoRead { status, info }) => {
                if status != 0 {
                    NvStage::Finished(NvOutcome::DvcInfoFailed(status))
                } else if matches!(self.program, NvProgram::Apply { .. }) {
                    NvStage::MappingLevel { info }
                } else {
                    NvStage::Finished(NvOutcome::Probed(info))
                }
            },
            (NvStage::MappingLevel { info }, NvEvent::LevelMapped(target)) => {
                let level = clamp_level(target, info.min_level, info.max_level);
                NvStage::SettingLevel { info, level }
            },
            (NvStage::SettingLevel { info, level }, NvEvent::Status(status)) => {
                if status == 0 {
                    NvStage::Finished(NvOutcome::LevelSet { level, info })
                } else {
                    NvStage::Finished(NvOutcome::SetLevelFailed { status, info })
                }
            },
            _ => self.stage,
        };
        self.stage = next;
        self.pending_action()
    }
}

/// The file name of an NVAPI library.
pub fn library_file(library: NvLibrary) -> (name: &'static str)
    ensures
        library is Nvapi64 ==> name@ == "nvapi64.dll"@,
        library is Nvapi32 ==> name@ == "nvapi.dll"@,
{
    match library {
        NvLibrary::Nvapi64 => "nvapi64.dll",
        NvLibrary::Nvapi32 => "nvapi.dll",
    }
}

/// The text that describes the driver's vibrance range.
pub open spec fn dvc_info_text(info: DvcInfo) -> Seq<char> {
    "DVC range: "@ + decimal(info.min_level as int) + " to "@ + decimal(info.max_level as int)
        + " (current: "@ + decimal(info.current_level as int) + ")"@
}

/// What the user is told at the end of a session: the success text or the
/// error text. A probe words the missing-driver, missing-entry-point,
/// display and DVC-read failures as the driver diagnostic does.
pub open spec fn outcome_text(program: NvProgram, outcome: NvOutcome) -> Result<Seq<char>, Seq<char>> {
    let probe = program is Probe;
    match outcome {
        NvOutcome::DriverMissing => Err(
            if probe {
                "nvapi64.dll not found"@
            } else {
                "NVIDIA driver not found (nvapi64.dll / nvapi.dll)"@
            },
        ),
        NvOutcome::QueryInterfaceMissing => Err(
            if probe {
                "nvapi_QueryInterface not found"@
            } else {
                "Failed to find nvapi_QueryInterface"@
            },
        ),
        NvOutcome::InitializeFailed(status) => Err(
            "NvAPI_Initialize failed (status: "@ + decimal(status as int) + ")"@,
        ),
        NvOutcome::EnumDisplayFailed(status) => Err(
            (if probe {
                "NvAPI_EnumDisplayHandle failed (status: "@
            } else {
                "NvAPI_EnumNvidiaDisplayHandle failed (status: "@
            }) + decimal(status as int) + ")"@,
        ),
        NvOutcome::DvcInfoFailed(status) => Err(
            (if probe {
                "NvAPI_GetDVCInfoEx failed (status: "@
            } else {
                "NvAPI_GetDVCInfo failed (status: "@
            }) + decimal(status as int) + ")"@,
        ),
        NvOutcome::SetLevelFailed { status, info } => Err(
            "NvAPI_SetDVCLevel failed (status: "@ + decimal(status as int) + "). "@
                + dvc_info_text(info),
        ),
        NvOutcome::LevelSet { level, info } => Ok(
            "Digital Vibrance set to "@ + decimal(level as int) + " ("@ + dvc_info_text(info)
                + ")"@,
        ),
        NvOutcome::Probed(info) => Ok(
            "NVAPI OK! DVC: current="@ + decimal(info.current_level as int) + ", min="@
                + decimal(info.min_level as int) + ", max="@ + decimal(info.max_level as int),
        ),
    }
}

/// The texts of a message result.
pub open spec fn message_view(message: Result<String, String>) -> Result<Seq<char>, Seq<char>> {
    match message {
        Ok(text) => Ok(text@),
        Err(text) => Err(text@),
    }
}

fn append_i32(text: &mut String, x: i32)
    ensures
        final(text)@ == old(text)@ + decimal(x as int),
{
    let digits = format_i32(x);
    text.append(digits.as_str());
}

fn append_dvc_info(text: &mut String, info: DvcInfo)
    ensures
        final(text)@ == old(text)@ + dvc_info_text(info),
{
    let ghost start = text@;
    text.append("DVC range: ");
    append_i32(text, info.min_level);
    text.append(" to ");
    append_i32(text, info.max_level);
    text.append(" (current: ");
    append_i32(text, info.current_level);
    text.append(")");
    assert(text@ =~= start + dvc_info_text(info));
}

fn status_message(prefix: &str, status: i32) -> (text: String)
    ensures
        text@ == prefix@ + decimal(status as int) + ")"@,
{
    let mut text = String::from_str(prefix);
    append_i32(&mut text, status);
    text.append(")");
    text
}

/// The message the user is shown at the end of a session.
pub fn outcome_message(program: NvProgram, outcome: NvOutcome) -> (message: Result<String, String>)
    ensures
        message_view(message) == outcome_text(program, outcome),
{
    let probe = matches!(program, NvProgram::Probe);
    match outcome {
        NvOutcome::DriverMissing => {
            if probe {
                Err(String::from_str("nvapi64.dll not found"))
            } else {
                Err(String::from_str("NVIDIA driver not found (nvapi64.dll / nvapi.dll)"))
            }
        },
        NvOutcome::QueryInterfaceMissing => {
            if probe {
                Err(String::from_str("nvapi_QueryInterface not found"))
            } else {
                Err(String::from_str("Failed to find nvapi_QueryInterface"))
            }
        },
        NvOutcome::InitializeFailed(status) => {
            Err(status_message("NvAPI_Initialize failed (status: ", status))
        },
        NvOutcome::EnumDisplayFailed(status) => {
            if probe {
                Err(status_message("NvAPI_EnumDisplayHandle failed (status: ", status))
            } else {
                Err(status_message("NvAPI_EnumNvidiaDisplayHandle failed (status: ", status))
            }
        },
        NvOutcome::DvcInfoFailed(status) => {
            if probe {
                Err(status_message("NvAPI_GetDVCInfoEx failed (status: ", status))
            } else {
                Err(status_message("NvAPI_GetDVCInfo failed (status: ", status))
            }
        },
        NvOutcome::SetLevelFailed { status, info } => {
            let mut text = String::from_str("NvAPI_SetDVCLevel failed (status: ");
            append_i32(&mut text, status);
            text.append("). ");
            append_dvc_info(&mut text, info);
            Err(text)
        },
        NvOutcome::LevelSet { level, info } => {
            let mut text = String::from_str("Digital Vibrance set to ");
            append_i32(&mut text, level);
            text.append(" (");
            append_dvc_info(&mut text, info);
            text.append(")");
            Ok(text)
        },
        NvOutcome::Probed(info) => {
            let mut text = String::from_str("NVAPI OK! DVC: current=");
            append_i32(&mut text, info.current_level);
            text.append(", min=");
            append_i32(&mut text, info.min_level);
            text.append(", max=");
            append_i32(&mut text, info.max_level);
            Ok(text)
        },
    }
}

/// Whether a stage asks the application to change the driver's vibrance.
pub open spec fn writes_driver(stage: NvStage) -> bool {
    stage is MappingLevel || stage is SettingLevel
}

/// A level about to be set lies below the driver's maximum, and above its
/// minimum whenever the reported range is not empty.
pub open spec fn level_within_range(stage: NvStage) -> bool {
    match stage {
        NvStage::SettingLevel { info, level } => {
            &&& level <= info.max_level
            &&& info.min_level <= info.max_level ==> info.min_level <= level
        },
        _ => true,
    }
}

/// How many replies a stage is at most from the end of the session.
pub open spec fn stages_left(stage: NvStage) -> nat {
    match stage {
        NvStage::LoadingPrimary => 8,
        NvStage::LoadingFallback => 7,
        NvStage::FindingQueryInterface => 6,
        NvStage::Initializing => 5,
        NvStage::EnumeratingDisplays => 4,
        NvStage::ReadingDvcInfo => 3,
        NvStage::MappingLevel { .. } => 2,
        NvStage::SettingLevel { .. } => 1,
        NvStage::Finished(_) => 0,
    }
}

/// Bounding a level: within a non-empty range the result lies in the range,
/// a level already in the range is kept, the result never exceeds the
/// maximum, and bounding twice is bounding once.
pub proof fn lemma_clamp_level(target: i32, lo: i32, hi: i32)
    ensures
        clamped(target, lo, hi) <= hi,
        lo <= hi ==> lo <= clamped(target, lo, hi),
        lo <= target <= hi ==> clamped(target, lo, hi) == target,
        clamped(clamped(target, lo, hi), lo, hi) == clamped(target, lo, hi),
{
}

/// A probe never changes the driver: it starts in a stage that does not
/// write, every reply keeps it in such a stage, and it is never asked to map
/// or set a level.
pub proof fn lemma_probe_never_writes(stage: NvStage, event: NvEvent)
    requires
        !writes_driver(stage),
    ensures
        !writes_driver(NvStage::LoadingPrimary),
        !writes_driver(next_stage(NvProgram::Probe, stage, event)),
        !(pending(NvProgram::Probe, next_stage(NvProgram::Probe, stage, event)) is MapLevel),
        !(pending(NvProgram::Probe, next_stage(NvProgram::Probe, stage, event)) is SetLevel),
{
}

/// The level handed to the driver always respects the range the driver
/// reported: the property holds at the start and every reply keeps it, so
/// every `SetLevel` the session asks for is within range.
pub proof fn lemma_set_level_within_range(program: NvProgram, stage: NvStage, event: NvEvent)
    requires
        level_within_range(stage),
    ensures
        level_within_range(NvStage::LoadingPrimary),
        level_within_range(next_stage(program, stage, event)),
        pending(program, next_stage(program, stage, event)) matches NvAction::SetLevel(level)
            ==> (next_stage(program, stage, event) matches NvStage::SettingLevel { info, level: l }
            && l == level && level <= info.max_level && (info.min_level <= info.max_level
            ==> info.min_level <= level)),
{
    match (stage, event) {
        (NvStage::MappingLevel { info }, NvEvent::LevelMapped(target)) => {
            lemma_clamp_level(target, info.min_level, info.max_level);
        },
        _ => {},
    }
}

/// Every reply either leaves the stage as it is or brings the session
/// closer to its end; so at most eight answered actions finish a session.
pub proof fn lemma_session_progresses(program: NvProgram, stage: NvStage, event: NvEvent)
    ensures
        next_stage(program, stage, event) == stage || stages_left(next_stage(program, stage, event))
            < stages_left(stage),
        stages_left(stage) == 0 <==> stage is Finished,
{
}

/// A finished session stays finished with the same outcome, whatever it is
/// told, and keeps reporting that outcome.
pub proof fn lemma_finished_is_final(program: NvProgram, outcome: NvOutcome, event: NvEvent)
    ensures
        next_stage(program, NvStage::Finished(outcome), event) == NvStage::Finished(outcome),
        pending(program, NvStage::Finished(outcome)) == NvAction::Finish(outcome),
{
}

/// The 32-bit library is tried only by a session that sets the vibrance,
/// and only right after the 64-bit library failed to load.
pub proof fn lemma_fallback_after_primary_missing(program: NvProgram, stage: NvStage, event: NvEvent)
    requires
        next_stage(program, stage, event) is LoadingFallback,
    ensures
        stage is LoadingFallback || (stage is LoadingPrimary && event == NvEvent::LibraryLoaded(
            false,
        ) && program is Apply),
{
}

/// A non-zero driver status ends the session at once, with a failure that
/// carries that status.
pub proof fn lemma_failed_status_ends_session(
    program: NvProgram,
    stage: NvStage,
    status: i32,
    info: DvcInfo,
)
    requires
        status != 0,
    ensures
        stage is Initializing ==> next_stage(program, stage, NvEvent::Status(status))
            == NvStage::Finished(NvOutcome::InitializeFailed(status)),
        stage is EnumeratingDisplays ==> next_stage(program, stage, NvEvent::Status(status))
            == NvStage::Finished(NvOutcome::EnumDisplayFailed(status)),
        stage is ReadingDvcInfo ==> next_stage(
            program,
            stage,
            NvEvent::DvcInfoRead { status, info },
        ) == NvStage::Finished(NvOutcome::DvcInfoFailed(status)),
        stage matches NvStage::SettingLevel { info: reported, level } ==> next_stage(
            program,
            stage,
            NvEvent::Status(status),
        ) == NvStage::Finished(NvOutcome::SetLevelFailed { status, info: reported }),
{
}

/// Every outcome of a session is reported to the user: as a success exactly
/// when the level was set or the probe read the driver.
pub proof fn lemma_outcome_success(program: NvProgram, outcome: NvOutcome)
    ensures
        outcome_text(program, outcome) is Ok <==> (outcome is LevelSet || outcome is Probed),
{
}

/// When the session maps the level, it hands over the user's level exactly as
/// the program gave it, together with the range the driver reported.
pub proof fn lemma_map_level_uses_user_level(level: i32, info: DvcInfo)
    ensures
        pending(NvProgram::Apply { level }, (NvStage::MappingLevel { info })) == (NvAction::MapLevel {
            level,
            info,
        }),
        next_stage(
            NvProgram::Apply { level },
            NvStage::ReadingDvcInfo,
            (NvEvent::DvcInfoRead { status: 0, info }),
        ) == (NvStage::MappingLevel { info }),
{
}

/// The level set is the mapped target bounded by the driver's range and by
/// nothing else: a target inside the range is set unchanged, one below it
/// is raised to the minimum, one above it lowered to the maximum (an empty
/// range gives its maximum). The current level plays no part: any other
/// current level gives the same level.
pub proof fn lemma_set_level_is_bounded_target(
    program: NvProgram,
    info: DvcInfo,
    target: i32,
    current: i32,
)
    ensures
        next_stage(program, (NvStage::MappingLevel { info }), NvEvent::LevelMapped(target))
            matches NvStage::SettingLevel { info: kept, level } && kept == info && ({
            let lo = info.min_level;
            let hi = info.max_level;
            &&& lo <= target <= hi ==> level == target
            &&& target < lo && lo <= hi ==> level == lo
            &&& target > hi ==> level == hi
            &&& lo > hi ==> level == hi
        }),
        next_stage(
            program,
            (NvStage::MappingLevel {
                info: DvcInfo {
                    current_level: current,
                    min_level: info.min_level,
                    max_level: info.max_level,
                },
            }),
            NvEvent::LevelMapped(target),
        ) matches NvStage::SettingLevel { level, .. } && next_stage(
            program,
            (NvStage::MappingLevel { info }),
            NvEvent::LevelMapped(target),
        ) matches NvStage::SettingLevel { level: l2, .. } && level == l2,
{
}

/// A zero status moves the session on: from initialising to finding the
/// display, from there to reading the range, and from setting a level to
/// success with exactly that level and range.
pub proof fn lemma_zero_status_moves_on(program: NvProgram, info: DvcInfo, level: i32)
    ensures
        next_stage(program, NvStage::Initializing, NvEvent::Status(0))
            == NvStage::EnumeratingDisplays,
        next_stage(program, NvStage::EnumeratingDisplays, NvEvent::Status(0))
            == NvStage::ReadingDvcInfo,
        next_stage(program, (NvStage::SettingLevel { info, level }), NvEvent::Status(0))
            == NvStage::Finished(NvOutcome::LevelSet { level, info }),
        pending(program, (NvStage::SettingLevel { info, level })) == NvAction::SetLevel(level),
{
}

/// A probe that reads the range with a zero status ends in success with the
/// record exactly as read; a read failure is reported only for a non-zero
/// status, and carries that status.
pub proof fn lemma_probe_reports_what_it_read(
    program: NvProgram,
    stage: NvStage,
    event: NvEvent,
    info: DvcInfo,
    status: i32,
)
    ensures
        next_stage(
            NvProgram::Probe,
            NvStage::ReadingDvcInfo,
            (NvEvent::DvcInfoRead { status: 0, info }),
        ) == NvStage::Finished(NvOutcome::Probed(info)),
        !(stage is Finished) && next_stage(program, stage, event) == NvStage::Finished(
            NvOutcome::DvcInfoFailed(status),
        ) ==> (event matches NvEvent::DvcInfoRead { status: s, .. } && s == status && status != 0
            && stage is ReadingDvcInfo),
{
}

/// A session that sets the vibrance, answered with success all the way,
/// sets the driver to the bounded target and ends with that level and the
/// range as read.
pub proof fn lemma_successful_apply_run(level: i32, info: DvcInfo, target: i32)
    requires
        info.min_level <= target <= info.max_level,
    ensures
        ({
            let p = (NvProgram::Apply { level });
            let s1 = next_stage(p, NvStage::LoadingPrimary, NvEvent::LibraryLoaded(true));
            let s2 = next_stage(p, s1, NvEvent::QueryInterfaceFound(true));
            let s3 = next_stage(p, s2, NvEvent::Status(0));
            let s4 = next_stage(p, s3, NvEvent::Status(0));
            let s5 = next_stage(p, s4, (NvEvent::DvcInfoRead { status: 0, info }));
            let s6 = next_stage(p, s5, NvEvent::LevelMapped(target));
            let s7 = next_stage(p, s6, NvEvent::Status(0));
            &&& pending(p, s5) == (NvAction::MapLevel { level, info })
            &&& pending(p, s6) == NvAction::SetLevel(target)
            &&& s7 == NvStage::Finished(NvOutcome::LevelSet { level: target, info })
        }),
{
}

/// The success message names the level that was set and the range as read.
pub proof fn lemma_level_set_message(program: NvProgram, level: i32, info: DvcInfo)
    ensures
        outcome_text(program, (NvOutcome::LevelSet { level, info })) == Ok::<Seq<char>, Seq<char>>(
            "Digital Vibrance set to "@ + decimal(level as int) + " ("@ + "DVC range: "@ + decimal(
                info.min_level as int,
            ) + " to "@ + decimal(info.max_level as int) + " (current: "@ + decimal(
                info.current_level as int,
            ) + ")"@ + ")"@,
        ),
        outcome_text(program, (NvOutcome::SetLevelFailed { status: level, info })) == Err::<
            Seq<char>,
            Seq<char>,
        >(
            "NvAPI_SetDVCLevel failed (status: "@ + decimal(level as int) + "). "@ + "DVC range: "@
                + decimal(info.min_level as int) + " to "@ + decimal(info.max_level as int)
                + " (current: "@ + decimal(info.current_level as int) + ")"@,
        ),
{
    let a = "Digital Vibrance set to "@ + decimal(level as int) + " ("@;
    let b = "DVC range: "@ + decimal(info.min_level as int) + " to "@ + decimal(
        info.max_level as int,
    ) + " (current: "@ + decimal(info.current_level as int) + ")"@;
    assert(a + b + ")"@ =~= "Digital Vibrance set to "@ + decimal(level as int) + " ("@
        + "DVC range: "@ + decimal(info.min_level as int) + " to "@ + decimal(
        info.max_level as int,
    ) + " (current: "@ + decimal(info.current_level as int) + ")"@ + ")"@);
    let c = "NvAPI_SetDVCLevel failed (status: "@ + decimal(level as int) + "). "@;
    assert(c + b =~= "NvAPI_SetDVCLevel failed (status: "@ + decimal(level as int) + "). "@
        + "DVC range: "@ + decimal(info.min_level as int) + " to "@ + decimal(
        info.max_level as int,
    ) + " (current: "@ + decimal(info.current_level as int) + ")"@);
}

/// The probe message prints each field of the record as read.
pub proof fn lemma_probe_message(program: NvProgram, info: DvcInfo)
    ensures
        outcome_text(program, NvOutcome::Probed(info)) == Ok::<Seq<char>, Seq<char>>(
            "NVAPI OK! DVC: current="@ + decimal(info.current_level as int) + ", min="@ + decimal(
                info.min_level as int,
            ) + ", max="@ + decimal(info.max_level as int),
        ),
{
}

/// The failure messages name the failing call and its status.
pub proof fn lemma_failure_messages(status: i32, level: i32)
    ensures
        outcome_text(NvProgram::Apply { level }, NvOutcome::InitializeFailed(status)) == Err::<
            Seq<char>,
            Seq<char>,
        >("NvAPI_Initialize failed (status: "@ + decimal(status as int) + ")"@),
        outcome_text(NvProgram::Probe, NvOutcome::InitializeFailed(status)) == Err::<
            Seq<char>,
            Seq<char>,
        >("NvAPI_Initialize failed (status: "@ + decimal(status as int) + ")"@),
        outcome_text(NvProgram::Apply { level }, NvOutcome::EnumDisplayFailed(status)) == Err::<
            Seq<char>,
            Seq<char>,
        >("NvAPI_EnumNvidiaDisplayHandle failed (status: "@ + decimal(status as int) + ")"@),
        outcome_text(NvProgram::Probe, NvOutcome::EnumDisplayFailed(status)) == Err::<
            Seq<char>,
            Seq<char>,
        >("NvAPI_EnumDisplayHandle failed (status: "@ + decimal(status as int) + ")"@),
        outcome_text(NvProgram::Apply { level }, NvOutcome::DvcInfoFailed(status)) == Err::<
            Seq<char>,
            Seq<char>,
        >("NvAPI_GetDVCInfo failed (status: "@ + decimal(status as int) + ")"@),
        outcome_text(NvProgram::Probe, NvOutcome::DvcInfoFailed(status)) == Err::<
            Seq<char>,
            Seq<char>,
        >("NvAPI_GetDVCInfoEx failed (status: "@ + decimal(status as int) + ")"@),
        outcome_text(NvProgram::Apply { level }, NvOutcome::DriverMissing) == Err::<
            Seq<char>,
            Seq<char>,
        >("NVIDIA driver not found (nvapi64.dll / nvapi.dll)"@),
        outcome_text(NvProgram::Probe, NvOutcome::DriverMissing) == Err::<Seq<char>, Seq<char>>(
            "nvapi64.dll not found"@,
        ),
        outcome_text(NvProgram::Apply { level }, NvOutcome::QueryInterfaceMissing) == Err::<
            Seq<char>,
            Seq<char>,
        >("Failed to find nvapi_QueryInterface"@),
        outcome_text(NvProgram::Probe, NvOutcome::QueryInterfaceMissing) == Err::<
            Seq<char>,
            Seq<char>,
        >("nvapi_QueryInterface not found"@),
{
}

/// Each stage waits on its own call: the 64-bit library first, the 32-bit
/// one on fallback, then the query entry point, initialisation, the display,
/// the range, and a finished session reports its outcome.
pub proof fn lemma_stage_actions(program: NvProgram, outcome: NvOutcome)
    ensures
        pending(program, NvStage::LoadingPrimary) == NvAction::Load(NvLibrary::Nvapi64),
        pending(program, NvStage::LoadingFallback) == NvAction::Load(NvLibrary::Nvapi32),
        pending(program, NvStage::FindingQueryInterface) == NvAction::ResolveQueryInterface,
        pending(program, NvStage::Initializing) == NvAction::Initialize,
        pending(program, NvStage::EnumeratingDisplays) == NvAction::EnumerateDisplays,
        pending(program, NvStage::ReadingDvcInfo) == NvAction::ReadDvcInfo,
        pending(program, NvStage::Finished(outcome)) == NvAction::Finish(outcome),
{
}

/// Loading: a loaded library leads to its query entry point; the 64-bit
/// library missing sends a vibrance session to the 32-bit one and ends a
/// probe; the 32-bit one missing too ends the session; a missing entry
/// point ends it, a found one leads to initialisation.
pub proof fn lemma_library_loading(level: i32)
    ensures
        forall|p: NvProgram|
            #![trigger next_stage(p, NvStage::LoadingPrimary, NvEvent::LibraryLoaded(true))]
            next_stage(p, NvStage::LoadingPrimary, NvEvent::LibraryLoaded(true))
                == NvStage::FindingQueryInterface && next_stage(
                p,
                NvStage::LoadingFallback,
                NvEvent::LibraryLoaded(true),
            ) == NvStage::FindingQueryInterface && next_stage(
                p,
                NvStage::LoadingFallback,
                NvEvent::LibraryLoaded(false),
            ) == NvStage::Finished(NvOutcome::DriverMissing) && next_stage(
                p,
                NvStage::FindingQueryInterface,
                NvEvent::QueryInterfaceFound(true),
            ) == NvStage::Initializing && next_stage(
                p,
                NvStage::FindingQueryInterface,
                NvEvent::QueryInterfaceFound(false),
            ) == NvStage::Finished(NvOutcome::QueryInterfaceMissing),
        next_stage(NvProgram::Apply { level }, NvStage::LoadingPrimary, NvEvent::LibraryLoaded(false))
            == NvStage::LoadingFallback,
        next_stage(NvProgram::Probe, NvStage::LoadingPrimary, NvEvent::LibraryLoaded(false))
            == NvStage::Finished(NvOutcome::DriverMissing),
{
}

} // verus!
