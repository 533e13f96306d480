use vstd::prelude::*;

verus! {

/// Kind of failure reported by the robot library.
#[derive(Copy, Clone, Debug, PartialEq, Eq, Structural)]
pub enum ErrType {
    Unspecified,
    // Movements
    OutOfRange,
    BadPins,
    // Interpreter
    GCodeFuncNotFound,
    // Kinematics: the target lies outside the reachable workspace
    UnreachableTarget,
    // An axis did not reach its reference while homing
    Homing,
    // A component or tool descriptor could not be recognised
    Configuration,
    // A tool index outside the mounted tool list
    ToolIndex,
}

/// Numeric code of an error kind, in declaration order.
pub open spec fn err_code(t: ErrType) -> u64 {
    match t {
        ErrType::Unspecified => 0,
        ErrType::OutOfRange => 1,
        ErrType::BadPins => 2,
        ErrType::GCodeFuncNotFound => 3,
        ErrType::UnreachableTarget => 4,
        ErrType::Homing => 5,
        ErrType::Configuration => 6,
        ErrType::ToolIndex => 7,
    }
}

impl ErrType {
    /// The numeric code of this kind.
    pub fn code(&self) -> (r: u64)
        ensures
            r == err_code(*self),
    {
        match self {
            ErrType::Unspecified => 0,
            ErrType::OutOfRange => 1,
            ErrType::BadPins => 2,
            ErrType::GCodeFuncNotFound => 3,
            ErrType::UnreachableTarget => 4,
            ErrType::Homing => 5,
            ErrType::Configuration => 6,
            ErrType::ToolIndex => 7,
        }
    }
}

/// Decimal text of an error kind's code.
pub open spec fn code_text(t: ErrType) -> Seq<char> {
    match t {
        ErrType::Unspecified => "0"@,
        ErrType::OutOfRange => "1"@,
        ErrType::BadPins => "2"@,
        ErrType::GCodeFuncNotFound => "3"@,
        ErrType::UnreachableTarget => "4"@,
        ErrType::Homing => "5"@,
        ErrType::Configuration => "6"@,
        ErrType::ToolIndex => "7"@,
    }
}

/// Error of the robot library: a kind and a message.
#[derive(Debug)]
pub struct SyArmError {
    pub msg: String,
    pub err_type: ErrType,
}

impl SyArmError {
    /// An error of the given kind with an empty message.
    pub fn new_simple(err_type: ErrType) -> (r: Self)
        ensures
            r.err_type == err_type,
            r.msg@ == Seq::<char>::empty(),
    {
        Self { err_type: err_type, msg: String::new() }
    }

    /// An error of the given kind carrying the given message.
    pub fn new(msg: &str, err_type: ErrType) -> (r: Self)
        ensures
            r.err_type == err_type,
            r.msg@ == msg@,
    {
        Self { err_type: err_type, msg: msg.to_owned() }
    }

    /// Human-readable form: the kind's code in brackets, then the message.
    pub fn text(&self) -> (r: String)
        ensures
            r@ == "[SyArm-Error "@ + code_text(self.err_type) + "] "@ + self.msg@,
    {
        let code: &str = match self.err_type {
            ErrType::Unspecified => "0",
            ErrType::OutOfRange => "1",
            ErrType::BadPins => "2",
            ErrType::GCodeFuncNotFound => "3",
            ErrType::UnreachableTarget => "4",
            ErrType::Homing => "5",
            ErrType::Configuration => "6",
            ErrType::ToolIndex => "7",
        };
        let mut r = "[SyArm-Error ".to_owned();
        r.append(code);
        r.append("] ");
        r.append(self.msg.as_str());
        r
    }
}

} // verus!
