use sybot::{
    admit_drive, all_ok, batch_outcome, comp_kind, drive_outcome, gammas_verdict, tool_kind,
    CompKind, DriveError, ErrType, Phase, Session, SyArmError, ToolChange, ToolKind,
};

#[test]
fn error_new_simple_has_empty_message() {
    let e = SyArmError::new_simple(ErrType::BadPins);
    assert_eq!(e.err_type, ErrType::BadPins);
    assert_eq!(e.msg, "");
}

#[test]
fn error_new_keeps_message() {
    let e = SyArmError::new("pin 4 is not free", ErrType::OutOfRange);
    assert_eq!(e.err_type, ErrType::OutOfRange);
    assert_eq!(e.msg, "pin 4 is not free");
}

#[test]
fn error_codes_follow_declaration_order() {
    assert_eq!(ErrType::Unspecified.code(), 0);
    assert_eq!(ErrType::OutOfRange.code(), 1);
    assert_eq!(ErrType::BadPins.code(), 2);
    assert_eq!(ErrType::GCodeFuncNotFound.code(), 3);
    assert_eq!(ErrType::UnreachableTarget.code(), 4);
    assert_eq!(ErrType::Homing.code(), 5);
    assert_eq!(ErrType::Configuration.code(), 6);
    assert_eq!(ErrType::ToolIndex.code(), 7);
}

#[test]
fn error_text_shows_code_and_message() {
    let e = SyArmError::new("no such function", ErrType::GCodeFuncNotFound);
    assert_eq!(e.text(), "[SyArm-Error 3] no such function");
    assert_eq!(SyArmError::new_simple(ErrType::Unspecified).text(), "[SyArm-Error 0] ");
}

#[test]
fn comp_kinds_are_recognised() {
    assert_eq!(comp_kind("stepper_lib::ctrl::StepperCtrl"), Some(CompKind::StepperCtrl));
    assert_eq!(comp_kind("stepper_lib::comp::cylinder::Cylinder"), Some(CompKind::Cylinder));
    assert_eq!(
        comp_kind("stepper_lib::comp::cylinder_triangle::CylinderTriangle"),
        Some(CompKind::CylinderTriangle)
    );
    assert_eq!(
        comp_kind("stepper_lib::comp::gear_bearing::GearBearing"),
        Some(CompKind::GearBearing)
    );
}

#[test]
fn unknown_comp_kind_is_none() {
    assert_eq!(comp_kind(""), None);
    assert_eq!(comp_kind("stepper_lib::comp::cylinder::Cylinde"), None);
    assert_eq!(comp_kind("stepper_lib::comp::tool::tongs::Tongs"), None);
}

#[test]
fn tool_kinds_are_recognised() {
    let cases = [
        ("stepper_lib::comp::tool::axial_joint::AxialJoint", ToolKind::AxialJoint),
        ("stepper_lib::comp::tool::axis_tongs::AxisTongs", ToolKind::AxisTongs),
        ("stepper_lib::comp::tool::no_tool::NoTool", ToolKind::NoTool),
        ("stepper_lib::comp::tool::pencil_tool::PencilTool", ToolKind::PencilTool),
        ("stepper_lib::comp::tool::tongs::Tongs", ToolKind::Tongs),
    ];
    for (name, kind) in cases {
        assert_eq!(tool_kind(name).unwrap(), kind);
    }
}

#[test]
fn unknown_tool_is_configuration_error() {
    let e = tool_kind("stepper_lib::ctrl::StepperCtrl").unwrap_err();
    assert_eq!(e.err_type, ErrType::Configuration);
    assert!(tool_kind("Tongs").is_err());
}

#[test]
fn all_ok_of_reports() {
    assert!(all_ok(&vec![]));
    assert!(all_ok(&vec![true, true, true, true]));
    assert!(!all_ok(&vec![true, true, false, true]));
    assert!(!all_ok(&vec![false]));
}

#[test]
fn batch_fails_if_any_axis_fails() {
    assert_eq!(batch_outcome(vec![true, true, true, true]), Ok(()));
    assert_eq!(
        batch_outcome(vec![true, false, true, false]),
        Err(vec![true, false, true, false])
    );
    assert_eq!(batch_outcome(vec![]), Ok(()));
}

#[test]
fn gammas_verdict_admits_all_valid() {
    assert!(gammas_verdict(vec![true, true, true, true]).is_ok());
}

#[test]
fn gammas_verdict_rejects_one_invalid_axis() {
    let (valids, e) = gammas_verdict(vec![true, true, false, true]).unwrap_err();
    assert_eq!(valids, vec![true, true, false, true]);
    assert_eq!(e.err_type, ErrType::OutOfRange);
}

#[test]
fn drive_rejected_before_motion() {
    assert!(admit_drive(vec![true, true, true, true]).is_ok());
    match admit_drive(vec![false, true, true, true]) {
        Err(DriveError::Rejected(v)) => assert_eq!(v, vec![false, true, true, true]),
        other => panic!("unexpected {:?}", other),
    }
}

#[test]
fn drive_partial_failure_reports_axes() {
    assert!(drive_outcome(vec![true, true, true, true]).is_ok());
    match drive_outcome(vec![true, true, true, false]) {
        Err(DriveError::Partial(v)) => assert_eq!(v, vec![true, true, true, false]),
        other => panic!("unexpected {:?}", other),
    }
}

#[test]
fn new_session_is_unconfigured_without_tool() {
    let s = Session::new(4, 2);
    assert_eq!(s.axes(), 4);
    assert_eq!(s.tools(), 2);
    assert_eq!(s.tool_id(), None);
    assert_eq!(s.phase(), Phase::Unconfigured);
}

#[test]
fn measure_all_axes_reached_homes() {
    let mut s = Session::new(4, 1);
    assert_eq!(s.measured(vec![true, true, true, true]), Ok(()));
    assert_eq!(s.phase(), Phase::Homed);
    s.updated();
    assert_eq!(s.phase(), Phase::Ready);
    s.updated();
    assert_eq!(s.phase(), Phase::Ready);
}

#[test]
fn measure_one_axis_failing_flags_it_alone() {
    let mut s = Session::new(4, 1);
    assert_eq!(
        s.measured(vec![true, true, false, true]),
        Err(vec![true, true, false, true])
    );
    assert_eq!(s.phase(), Phase::Unconfigured);
    s.updated();
    assert_eq!(s.phase(), Phase::Unconfigured);
}

#[test]
fn tool_index_out_of_range_keeps_active_tool() {
    let mut s = Session::new(4, 2);
    assert_eq!(s.set_tool_id(1).unwrap(), ToolChange { dismount: None, mount: 1 });
    let e = s.set_tool_id(2).unwrap_err();
    assert_eq!(e.err_type, ErrType::ToolIndex);
    assert_eq!(s.tool_id(), Some(1));
    assert!(s.set_tool_id(usize::MAX).is_err());
    assert_eq!(s.tool_id(), Some(1));
}

#[test]
fn tool_change_dismounts_previous() {
    let mut s = Session::new(4, 3);
    s.set_tool_id(0).unwrap();
    assert_eq!(s.set_tool_id(2).unwrap(), ToolChange { dismount: Some(0), mount: 2 });
    assert_eq!(s.tool_id(), Some(2));
}

#[test]
fn session_without_tools_rejects_every_index() {
    let mut s = Session::new(4, 0);
    assert_eq!(s.set_tool_id(0).unwrap_err().err_type, ErrType::ToolIndex);
    assert_eq!(s.tool_id(), None);
}

#[test]
fn pose_untrusted_while_motion_in_flight() {
    let mut s = Session::new(4, 1);
    assert!(s.pose_trusted());
    s.motion_issued();
    assert!(!s.pose_trusted());
    s.motion_settled();
    assert!(s.pose_trusted());
}

#[test]
fn update_during_motion_does_not_make_ready() {
    let mut s = Session::new(4, 1);
    s.measured(vec![true, true, true, true]).unwrap();
    s.motion_issued();
    s.updated();
    assert_eq!(s.phase(), Phase::Homed);
    s.motion_settled();
    s.updated();
    assert_eq!(s.phase(), Phase::Ready);
}

#[test]
fn successful_homing_leaves_axes_at_rest() {
    let mut s = Session::new(3, 1);
    s.motion_issued();
    assert!(s.measured(vec![true, false, true]).is_err());
    assert!(!s.pose_trusted());
    s.measured(vec![true, true, true]).unwrap();
    assert!(s.pose_trusted());
    assert_eq!(s.phase(), Phase::Homed);
}
