use vstd::prelude::*;

verus! {

/// Status codes returned by every native entry point.
#[derive(PartialEq, Eq, Structural, Clone, Copy, Debug)]
#[allow(non_camel_case_types)]
pub enum PvStatus {
    SUCCESS,
    OUT_OF_MEMORY,
    IO_ERROR,
    INVALID_ARGUMENT,
    STOP_ITERATION,
    KEY_ERROR,
    INVALID_STATE,
    RUNTIME_ERROR,
    ACTIVATION_ERROR,
    ACTIVATION_LIMIT_REACHED,
    ACTIVATION_THROTTLED,
    ACTIVATION_REFUSED,
}

/// The status with the given native code, if the code is one of the enumeration.
pub open spec fn status_of_code(code: i32) -> Option<PvStatus> {
    if code == 0 {
        Some(PvStatus::SUCCESS)
    } else if code == 1 {
        Some(PvStatus::OUT_OF_MEMORY)
    } else if code == 2 {
        Some(PvStatus::IO_ERROR)
    } else if code == 3 {
        Some(PvStatus::INVALID_ARGUMENT)
    } else if code == 4 {
        Some(PvStatus::STOP_ITERATION)
    } else if code == 5 {
        Some(PvStatus::KEY_ERROR)
    } else if code == 6 {
        Some(PvStatus::INVALID_STATE)
    } else if code == 7 {
        Some(PvStatus::RUNTIME_ERROR)
    } else if code == 8 {
        Some(PvStatus::ACTIVATION_ERROR)
    } else if code == 9 {
        Some(PvStatus::ACTIVATION_LIMIT_REACHED)
    } else if code == 10 {
        Some(PvStatus::ACTIVATION_THROTTLED)
    } else if code == 11 {
        Some(PvStatus::ACTIVATION_REFUSED)
    } else {
        None
    }
}

impl PvStatus {
    /// The native integer code of this status.
    pub open spec fn spec_code(self) -> i32 {
        match self {
            PvStatus::SUCCESS => 0,
            PvStatus::OUT_OF_MEMORY => 1,
            PvStatus::IO_ERROR => 2,
            PvStatus::INVALID_ARGUMENT => 3,
            PvStatus::STOP_ITERATION => 4,
            PvStatus::KEY_ERROR => 5,
            PvStatus::INVALID_STATE => 6,
            PvStatus::RUNTIME_ERROR => 7,
            PvStatus::ACTIVATION_ERROR => 8,
            PvStatus::ACTIVATION_LIMIT_REACHED => 9,
            PvStatus::ACTIVATION_THROTTLED => 10,
            PvStatus::ACTIVATION_REFUSED => 11,
        }
    }

    pub fn code(&self) -> (r: i32)
        ensures
            r == self.spec_code(),
            status_of_code(r) == Some(*self),
    {
        match self {
            PvStatus::SUCCESS => 0,
            PvStatus::OUT_OF_MEMORY => 1,
            PvStatus::IO_ERROR => 2,
            PvStatus::INVALID_ARGUMENT => 3,
            PvStatus::STOP_ITERATION => 4,
            PvStatus::KEY_ERROR => 5,
            PvStatus::INVALID_STATE => 6,
            PvStatus::RUNTIME_ERROR => 7,
            PvStatus::ACTIVATION_ERROR => 8,
            PvStatus::ACTIVATION_LIMIT_REACHED => 9,
            PvStatus::ACTIVATION_THROTTLED => 10,
            PvStatus::ACTIVATION_REFUSED => 11,
        }
    }

    /// The status with the given code, or `None` for a code outside the enumeration.
    pub fn from_code(code: i32) -> (r: Option<PvStatus>)
        ensures
            r == status_of_code(code),
            r matches Some(s) ==> s.spec_code() == code,
    {
        match code {
            0 => Some(PvStatus::SUCCESS),
            1 => Some(PvStatus::OUT_OF_MEMORY),
            2 => Some(PvStatus::IO_ERROR),
            3 => Some(PvStatus::INVALID_ARGUMENT),
            4 => Some(PvStatus::STOP_ITERATION),
            5 => Some(PvStatus::KEY_ERROR),
            6 => Some(PvStatus::INVALID_STATE),
            7 => Some(PvStatus::RUNTIME_ERROR),
            8 => Some(PvStatus::ACTIVATION_ERROR),
            9 => Some(PvStatus::ACTIVATION_LIMIT_REACHED),
            10 => Some(PvStatus::ACTIVATION_THROTTLED),
            11 => Some(PvStatus::ACTIVATION_REFUSED),
            _ => None,
        }
    }

    /// Reads a status returned by the native engine. A code outside the
    /// enumeration is still a failure, and is reported as a runtime error.
    pub fn from_native(code: i32) -> (r: PvStatus)
        ensures
            r == match status_of_code(code) {
                Some(s) => s,
                None => PvStatus::RUNTIME_ERROR,
            },
            (r == PvStatus::SUCCESS) <==> code == 0,
    {
        match PvStatus::from_code(code) {
            Some(s) => s,
            None => PvStatus::RUNTIME_ERROR,
        }
    }

    /// The variant's name, as it reads in diagnostics.
    pub open spec fn spec_name(self) -> Seq<char> {
        match self {
            PvStatus::SUCCESS => "SUCCESS"@,
            PvStatus::OUT_OF_MEMORY => "OUT_OF_MEMORY"@,
            PvStatus::IO_ERROR => "IO_ERROR"@,
            PvStatus::INVALID_ARGUMENT => "INVALID_ARGUMENT"@,
            PvStatus::STOP_ITERATION => "STOP_ITERATION"@,
            PvStatus::KEY_ERROR => "KEY_ERROR"@,
            PvStatus::INVALID_STATE => "INVALID_STATE"@,
            PvStatus::RUNTIME_ERROR => "RUNTIME_ERROR"@,
            PvStatus::ACTIVATION_ERROR => "ACTIVATION_ERROR"@,
            PvStatus::ACTIVATION_LIMIT_REACHED => "ACTIVATION_LIMIT_REACHED"@,
            PvStatus::ACTIVATION_THROTTLED => "ACTIVATION_THROTTLED"@,
            PvStatus::ACTIVATION_REFUSED => "ACTIVATION_REFUSED"@,
        }
    }

    pub fn name(&self) -> (r: &'static str)
        ensures
            r@ == self.spec_name(),
    {
        match self {
            PvStatus::SUCCESS => "SUCCESS",
            PvStatus::OUT_OF_MEMORY => "OUT_OF_MEMORY",
            PvStatus::IO_ERROR => "IO_ERROR",
            PvStatus::INVALID_ARGUMENT => "INVALID_ARGUMENT",
            PvStatus::STOP_ITERATION => "STOP_ITERATION",
            PvStatus::KEY_ERROR => "KEY_ERROR",
            PvStatus::INVALID_STATE => "INVALID_STATE",
            PvStatus::RUNTIME_ERROR => "RUNTIME_ERROR",
            PvStatus::ACTIVATION_ERROR => "ACTIVATION_ERROR",
            PvStatus::ACTIVATION_LIMIT_REACHED => "ACTIVATION_LIMIT_REACHED",
            PvStatus::ACTIVATION_THROTTLED => "ACTIVATION_THROTTLED",
            PvStatus::ACTIVATION_REFUSED => "ACTIVATION_REFUSED",
        }
    }

    pub fn is_success(&self) -> (r: bool)
        ensures
            r <==> *self == PvStatus::SUCCESS,
    {
        match self {
            PvStatus::SUCCESS => true,
            _ => false,
        }
    }
}

} // verus!
