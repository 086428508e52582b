use irodori::vibrance::{
    clamp_level, library_file, outcome_message, DvcInfo, NvAction, NvEvent, NvLibrary, NvOutcome,
    NvProgram, NvSession, NvStage, NV_DISPLAY_DVC_INFO_VER,
};

const INFO: DvcInfo = DvcInfo { current_level: 0, min_level: 0, max_level: 63 };

fn ready_session(program: NvProgram) -> NvSession {
    let mut session = NvSession::new(program);
    assert_eq!(session.pending_action(), NvAction::Load(NvLibrary::Nvapi64));
    assert_eq!(session.step(NvEvent::LibraryLoaded(true)), NvAction::ResolveQueryInterface);
    assert_eq!(session.step(NvEvent::QueryInterfaceFound(true)), NvAction::Initialize);
    assert_eq!(session.step(NvEvent::Status(0)), NvAction::EnumerateDisplays);
    assert_eq!(session.step(NvEvent::Status(0)), NvAction::ReadDvcInfo);
    session
}

#[test]
fn clamp_level_bounds_by_the_range() {
    assert_eq!(clamp_level(31, 0, 63), 31);
    assert_eq!(clamp_level(-4, 0, 63), 0);
    assert_eq!(clamp_level(80, 0, 63), 63);
    assert_eq!(clamp_level(0, 0, 63), 0);
    assert_eq!(clamp_level(63, 0, 63), 63);
    // an empty range gives its maximum, as `max(min).min(max)` does
    assert_eq!(clamp_level(5, 10, 3), 3);
    assert_eq!(clamp_level(i32::MIN, i32::MIN, i32::MAX), i32::MIN);
    for t in -100..100 {
        assert_eq!(clamp_level(t, -20, 40), t.max(-20).min(40));
        let once = clamp_level(t, -20, 40);
        assert_eq!(clamp_level(once, -20, 40), once);
    }
}

#[test]
fn dvc_info_version_is_size_and_version() {
    assert_eq!(NV_DISPLAY_DVC_INFO_VER, 16 | (1 << 16));
}

#[test]
fn library_files() {
    assert_eq!(library_file(NvLibrary::Nvapi64), "nvapi64.dll");
    assert_eq!(library_file(NvLibrary::Nvapi32), "nvapi.dll");
}

#[test]
fn apply_sets_the_mapped_level() {
    let program = NvProgram::Apply { level: 50 };
    let mut session = ready_session(program);
    let info = DvcInfo { current_level: 10, min_level: 0, max_level: 63 };
    assert_eq!(
        session.step(NvEvent::DvcInfoRead { status: 0, info }),
        NvAction::MapLevel { level: 50, info }
    );
    assert_eq!(session.step(NvEvent::LevelMapped(31)), NvAction::SetLevel(31));
    let end = session.step(NvEvent::Status(0));
    let outcome = NvOutcome::LevelSet { level: 31, info };
    assert_eq!(end, NvAction::Finish(outcome));
    assert_eq!(
        outcome_message(program, outcome),
        Ok("Digital Vibrance set to 31 (DVC range: 0 to 63 (current: 10))".to_string())
    );
}

#[test]
fn apply_clamps_a_level_outside_the_range() {
    let mut session = ready_session(NvProgram::Apply { level: 100 });
    session.step(NvEvent::DvcInfoRead { status: 0, info: INFO });
    assert_eq!(session.step(NvEvent::LevelMapped(70)), NvAction::SetLevel(63));
    assert_eq!(session.stage, NvStage::SettingLevel { info: INFO, level: 63 });

    let mut low = ready_session(NvProgram::Apply { level: -5 });
    low.step(NvEvent::DvcInfoRead { status: 0, info: INFO });
    assert_eq!(low.step(NvEvent::LevelMapped(-3)), NvAction::SetLevel(0));
}

#[test]
fn apply_falls_back_to_the_32_bit_library() {
    let mut session = NvSession::new(NvProgram::Apply { level: 50 });
    assert_eq!(session.step(NvEvent::LibraryLoaded(false)), NvAction::Load(NvLibrary::Nvapi32));
    assert_eq!(session.step(NvEvent::LibraryLoaded(true)), NvAction::ResolveQueryInterface);
}

#[test]
fn apply_without_any_driver() {
    let program = NvProgram::Apply { level: 50 };
    let mut session = NvSession::new(program);
    session.step(NvEvent::LibraryLoaded(false));
    let end = session.step(NvEvent::LibraryLoaded(false));
    assert_eq!(end, NvAction::Finish(NvOutcome::DriverMissing));
    assert_eq!(
        outcome_message(program, NvOutcome::DriverMissing),
        Err("NVIDIA driver not found (nvapi64.dll / nvapi.dll)".to_string())
    );
}

#[test]
fn probe_does_not_fall_back() {
    let mut session = NvSession::new(NvProgram::Probe);
    assert_eq!(
        session.step(NvEvent::LibraryLoaded(false)),
        NvAction::Finish(NvOutcome::DriverMissing)
    );
    assert_eq!(
        outcome_message(NvProgram::Probe, NvOutcome::DriverMissing),
        Err("nvapi64.dll not found".to_string())
    );
}

#[test]
fn missing_query_interface() {
    let mut session = NvSession::new(NvProgram::Apply { level: 1 });
    session.step(NvEvent::LibraryLoaded(true));
    assert_eq!(
        session.step(NvEvent::QueryInterfaceFound(false)),
        NvAction::Finish(NvOutcome::QueryInterfaceMissing)
    );
    assert_eq!(
        outcome_message(NvProgram::Apply { level: 1 }, NvOutcome::QueryInterfaceMissing),
        Err("Failed to find nvapi_QueryInterface".to_string())
    );
    assert_eq!(
        outcome_message(NvProgram::Probe, NvOutcome::QueryInterfaceMissing),
        Err("nvapi_QueryInterface not found".to_string())
    );
}

#[test]
fn initialize_failure_carries_the_status() {
    let mut session = NvSession::new(NvProgram::Apply { level: 1 });
    session.step(NvEvent::LibraryLoaded(true));
    session.step(NvEvent::QueryInterfaceFound(true));
    assert_eq!(
        session.step(NvEvent::Status(-6)),
        NvAction::Finish(NvOutcome::InitializeFailed(-6))
    );
    for program in [NvProgram::Apply { level: 1 }, NvProgram::Probe] {
        assert_eq!(
            outcome_message(program, NvOutcome::InitializeFailed(-6)),
            Err("NvAPI_Initialize failed (status: -6)".to_string())
        );
    }
}

#[test]
fn display_enumeration_failure() {
    let mut session = NvSession::new(NvProgram::Probe);
    session.step(NvEvent::LibraryLoaded(true));
    session.step(NvEvent::QueryInterfaceFound(true));
    session.step(NvEvent::Status(0));
    assert_eq!(
        session.step(NvEvent::Status(-101)),
        NvAction::Finish(NvOutcome::EnumDisplayFailed(-101))
    );
    assert_eq!(
        outcome_message(NvProgram::Apply { level: 50 }, NvOutcome::EnumDisplayFailed(-101)),
        Err("NvAPI_EnumNvidiaDisplayHandle failed (status: -101)".to_string())
    );
    assert_eq!(
        outcome_message(NvProgram::Probe, NvOutcome::EnumDisplayFailed(-101)),
        Err("NvAPI_EnumDisplayHandle failed (status: -101)".to_string())
    );
}

#[test]
fn dvc_read_failure() {
    let mut session = ready_session(NvProgram::Apply { level: 50 });
    assert_eq!(
        session.step(NvEvent::DvcInfoRead { status: -9, info: INFO }),
        NvAction::Finish(NvOutcome::DvcInfoFailed(-9))
    );
    assert_eq!(
        outcome_message(NvProgram::Apply { level: 50 }, NvOutcome::DvcInfoFailed(-9)),
        Err("NvAPI_GetDVCInfo failed (status: -9)".to_string())
    );
    assert_eq!(
        outcome_message(NvProgram::Probe, NvOutcome::DvcInfoFailed(-9)),
        Err("NvAPI_GetDVCInfoEx failed (status: -9)".to_string())
    );
}

#[test]
fn set_level_failure_reports_the_range() {
    let program = NvProgram::Apply { level: 50 };
    let mut session = ready_session(program);
    let info = DvcInfo { current_level: 5, min_level: -10, max_level: 20 };
    session.step(NvEvent::DvcInfoRead { status: 0, info });
    session.step(NvEvent::LevelMapped(5));
    let outcome = NvOutcome::SetLevelFailed { status: -3, info };
    assert_eq!(session.step(NvEvent::Status(-3)), NvAction::Finish(outcome));
    assert_eq!(
        outcome_message(program, outcome),
        Err("NvAPI_SetDVCLevel failed (status: -3). DVC range: -10 to 20 (current: 5)".to_string())
    );
}

#[test]
fn probe_reads_without_writing() {
    let mut session = ready_session(NvProgram::Probe);
    let info = DvcInfo { current_level: 12, min_level: 0, max_level: 63 };
    let end = session.step(NvEvent::DvcInfoRead { status: 0, info });
    assert_eq!(end, NvAction::Finish(NvOutcome::Probed(info)));
    assert_eq!(
        outcome_message(NvProgram::Probe, NvOutcome::Probed(info)),
        Ok("NVAPI OK! DVC: current=12, min=0, max=63".to_string())
    );
}

#[test]
fn unexpected_reply_repeats_the_pending_action() {
    let mut session = NvSession::new(NvProgram::Apply { level: 50 });
    assert_eq!(session.step(NvEvent::Status(0)), NvAction::Load(NvLibrary::Nvapi64));
    assert_eq!(session.stage, NvStage::LoadingPrimary);
    session.step(NvEvent::LibraryLoaded(true));
    assert_eq!(session.step(NvEvent::LevelMapped(3)), NvAction::ResolveQueryInterface);
}

#[test]
fn finished_session_stays_finished() {
    let mut session = NvSession::new(NvProgram::Probe);
    session.step(NvEvent::LibraryLoaded(false));
    for event in [NvEvent::LibraryLoaded(true), NvEvent::Status(0), NvEvent::LevelMapped(1)] {
        assert_eq!(session.step(event), NvAction::Finish(NvOutcome::DriverMissing));
    }
}
