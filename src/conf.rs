use vstd::prelude::*;

use crate::types::{ErrType, SyArmError};

verus! {

/// The axis variants a configuration descriptor can name.
#[derive(Copy, Clone, Debug, PartialEq, Eq, Structural)]
pub enum CompKind {
    /// Generic stepped axis driven directly by a stepper controller
    StepperCtrl,
    /// Linear actuator
    Cylinder,
    /// Linear actuator acting on a joint through a triangle linkage
    CylinderTriangle,
    /// Rotational joint behind a gear bearing
    GearBearing,
}

/// The tools a configuration descriptor can name.
#[derive(Copy, Clone, Debug, PartialEq, Eq, Structural)]
pub enum ToolKind {
    AxialJoint,
    AxisTongs,
    NoTool,
    PencilTool,
    Tongs,
}

/// Type name under which a descriptor names an axis variant.
pub open spec fn comp_type_name(k: CompKind) -> Seq<char> {
    match k {
        CompKind::StepperCtrl => "stepper_lib::ctrl::StepperCtrl"@,
        CompKind::Cylinder => "stepper_lib::comp::cylinder::Cylinder"@,
        CompKind::CylinderTriangle => "stepper_lib::comp::cylinder_triangle::CylinderTriangle"@,
        CompKind::GearBearing => "stepper_lib::comp::gear_bearing::GearBearing"@,
    }
}

/// Type name under which a descriptor names a tool.
pub open spec fn tool_type_name(k: ToolKind) -> Seq<char> {
    match k {
        ToolKind::AxialJoint => "stepper_lib::comp::tool::axial_joint::AxialJoint"@,
        ToolKind::AxisTongs => "stepper_lib::comp::tool::axis_tongs::AxisTongs"@,
        ToolKind::NoTool => "stepper_lib::comp::tool::no_tool::NoTool"@,
        ToolKind::PencilTool => "stepper_lib::comp::tool::pencil_tool::PencilTool"@,
        ToolKind::Tongs => "stepper_lib::comp::tool::tongs::Tongs"@,
    }
}

/// The axis variant named by `s`, if any.
pub open spec fn comp_kind_of(s: Seq<char>) -> Option<CompKind> {
    if s == comp_type_name(CompKind::StepperCtrl) {
        Some(CompKind::StepperCtrl)
    } else if s == comp_type_name(CompKind::Cylinder) {
        Some(CompKind::Cylinder)
    } else if s == comp_type_name(CompKind::CylinderTriangle) {
        Some(CompKind::CylinderTriangle)
    } else if s == comp_type_name(CompKind::GearBearing) {
        Some(CompKind::GearBearing)
    } else {
        None
    }
}

/// The tool named by `s`, if any.
pub open spec fn tool_kind_of(s: Seq<char>) -> Option<ToolKind> {
    if s == tool_type_name(ToolKind::AxialJoint) {
        Some(ToolKind::AxialJoint)
    } else if s == tool_type_name(ToolKind::AxisTongs) {
        Some(ToolKind::AxisTongs)
    } else if s == tool_type_name(ToolKind::NoTool) {
        Some(ToolKind::NoTool)
    } else if s == tool_type_name(ToolKind::PencilTool) {
        Some(ToolKind::PencilTool)
    } else if s == tool_type_name(ToolKind::Tongs) {
        Some(ToolKind::Tongs)
    } else {
        None
    }
}

fn same_text(a: &str, b: &str) -> (r: bool)
    ensures
        r == (a@ == b@),
{
    let x = a.to_owned();
    let y = b.to_owned();
    x == y
}

/// Recognises the axis variant a descriptor's type name stands for.
pub fn comp_kind(name: &str) -> (r: Option<CompKind>)
    ensures
        r == comp_kind_of(name@),
{
    if same_text(name, "stepper_lib::ctrl::StepperCtrl") {
        Some(CompKind::StepperCtrl)
    } else if same_text(name, "stepper_lib::comp::cylinder::Cylinder") {
        Some(CompKind::Cylinder)
    } else if same_text(name, "stepper_lib::comp::cylinder_triangle::CylinderTriangle") {
        Some(CompKind::CylinderTriangle)
    } else if same_text(name, "stepper_lib::comp::gear_bearing::GearBearing") {
        Some(CompKind::GearBearing)
    } else {
        None
    }
}

/// Recognises the tool a descriptor's type name stands for; an unknown name
/// is a configuration error.
pub fn tool_kind(name: &str) -> (r: Result<ToolKind, SyArmError>)
    ensures
        tool_kind_of(name@) matches Some(k) ==> r == Ok::<ToolKind, SyArmError>(k),
        tool_kind_of(name@) is None ==> (r matches Err(e) && e.err_type
            == ErrType::Configuration),
{
    if same_text(name, "stepper_lib::comp::tool::axial_joint::AxialJoint") {
        Ok(ToolKind::AxialJoint)
    } else if same_text(name, "stepper_lib::comp::tool::axis_tongs::AxisTongs") {
        Ok(ToolKind::AxisTongs)
    } else if same_text(name, "stepper_lib::comp::tool::no_tool::NoTool") {
        Ok(ToolKind::NoTool)
    } else if same_text(name, "stepper_lib::comp::tool::pencil_tool::PencilTool") {
        Ok(ToolKind::PencilTool)
    } else if same_text(name, "stepper_lib::comp::tool::tongs::Tongs") {
        Ok(ToolKind::Tongs)
    } else {
        Err(
            SyArmError::new(
                "The type name does not match any known type to the software",
                ErrType::Configuration,
            ),
        )
    }
}

/// Every axis variant is recognised by its own type name.
pub proof fn lemma_comp_names_recognised(k: CompKind)
    ensures
        comp_kind_of(comp_type_name(k)) == Some(k),
{
    reveal_strlit("stepper_lib::ctrl::StepperCtrl");
    reveal_strlit("stepper_lib::comp::cylinder::Cylinder");
    reveal_strlit("stepper_lib::comp::cylinder_triangle::CylinderTriangle");
    reveal_strlit("stepper_lib::comp::gear_bearing::GearBearing");
    assert(comp_type_name(CompKind::StepperCtrl).len() == 30);
    assert(comp_type_name(CompKind::Cylinder).len() == 37);
    assert(comp_type_name(CompKind::CylinderTriangle).len() == 54);
    assert(comp_type_name(CompKind::GearBearing).len() == 44);
}

/// Every tool is recognised by its own type name.
pub proof fn lemma_tool_names_recognised(k: ToolKind)
    ensures
        tool_kind_of(tool_type_name(k)) == Some(k),
{
    reveal_strlit("stepper_lib::comp::tool::axial_joint::AxialJoint");
    reveal_strlit("stepper_lib::comp::tool::axis_tongs::AxisTongs");
    reveal_strlit("stepper_lib::comp::tool::no_tool::NoTool");
    reveal_strlit("stepper_lib::comp::tool::pencil_tool::PencilTool");
    reveal_strlit("stepper_lib::comp::tool::tongs::Tongs");
    assert(tool_type_name(ToolKind::AxialJoint).len() == 48);
    assert(tool_type_name(ToolKind::AxisTongs).len() == 46);
    assert(tool_type_name(ToolKind::NoTool).len() == 40);
    assert(tool_type_name(ToolKind::PencilTool).len() == 48);
    assert(tool_type_name(ToolKind::Tongs).len() == 37);
    // the two names of equal length part at the first letter after the common prefix
    assert(tool_type_name(ToolKind::AxialJoint)[25] != tool_type_name(ToolKind::PencilTool)[25]);
}

} // verus!
