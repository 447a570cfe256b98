//! Labels for the driver's debug messages: the severity and message-type
//! flag words, as the debug-utils extension defines them, mapped to the
//! bracketed labels the log lines carry.

use vstd::prelude::*;

verus! {

/// Severity flag bits of a debug message.
pub const SEVERITY_VERBOSE: u32 = 0x1;

pub const SEVERITY_INFO: u32 = 0x10;

pub const SEVERITY_WARNING: u32 = 0x100;

pub const SEVERITY_ERROR: u32 = 0x1000;

/// Message-type flag bits of a debug message.
pub const TYPE_GENERAL: u32 = 0x1;

pub const TYPE_VALIDATION: u32 = 0x2;

pub const TYPE_PERFORMANCE: u32 = 0x4;

/// The label a message of severity `severity` is logged under.
pub open spec fn severity_label_spec(severity: u32) -> Seq<char> {
    if severity == SEVERITY_VERBOSE {
        "[Verbose]"@
    } else if severity == SEVERITY_WARNING {
        "[Warning]"@
    } else if severity == SEVERITY_ERROR {
        "[Error]"@
    } else if severity == SEVERITY_INFO {
        "[Info]"@
    } else {
        "[Unknown]"@
    }
}

/// The label a message of type `message_type` is logged under.
pub open spec fn message_type_label_spec(message_type: u32) -> Seq<char> {
    if message_type == TYPE_GENERAL {
        "[General]"@
    } else if message_type == TYPE_PERFORMANCE {
        "[Performance]"@
    } else if message_type == TYPE_VALIDATION {
        "[Validation]"@
    } else {
        "[Unknown]"@
    }
}

/// Device type codes a physical device reports.
pub const DEVICE_TYPE_OTHER: i32 = 0;

pub const DEVICE_TYPE_INTEGRATED_GPU: i32 = 1;

pub const DEVICE_TYPE_DISCRETE_GPU: i32 = 2;

pub const DEVICE_TYPE_VIRTUAL_GPU: i32 = 3;

pub const DEVICE_TYPE_CPU: i32 = 4;

/// The label a physical device of type `device_type` is reported under.
pub open spec fn device_type_label_spec(device_type: i32) -> Seq<char> {
    if device_type == DEVICE_TYPE_CPU {
        "CPU"@
    } else if device_type == DEVICE_TYPE_INTEGRATED_GPU {
        "Integerate GPU"@
    } else if device_type == DEVICE_TYPE_DISCRETE_GPU {
        "Discrete GPU"@
    } else if device_type == DEVICE_TYPE_VIRTUAL_GPU {
        "Virtual GPU"@
    } else {
        "Unknown"@
    }
}

/// The label a physical device's type is reported under. A code outside the
/// five known ones is not answered for (the caller treats it as fatal).
pub fn device_type_label(device_type: i32) -> (r: &'static str)
    requires
        DEVICE_TYPE_OTHER <= device_type <= DEVICE_TYPE_CPU,
    ensures
        r@ == device_type_label_spec(device_type),
{
    if device_type == DEVICE_TYPE_CPU {
        "CPU"
    } else if device_type == DEVICE_TYPE_INTEGRATED_GPU {
        "Integerate GPU"
    } else if device_type == DEVICE_TYPE_DISCRETE_GPU {
        "Discrete GPU"
    } else if device_type == DEVICE_TYPE_VIRTUAL_GPU {
        "Virtual GPU"
    } else {
        "Unknown"
    }
}

/// The word a queue family's capability is reported with.
pub fn support_label(supported: bool) -> (r: &'static str)
    ensures
        supported ==> r@ == "support"@,
        !supported ==> r@ == "unsupport"@,
{
    if supported {
        "support"
    } else {
        "unsupport"
    }
}

pub fn severity_label(severity: u32) -> (r: &'static str)
    ensures
        r@ == severity_label_spec(severity),
{
    if severity == SEVERITY_VERBOSE {
        "[Verbose]"
    } else if severity == SEVERITY_WARNING {
        "[Warning]"
    } else if severity == SEVERITY_ERROR {
        "[Error]"
    } else if severity == SEVERITY_INFO {
        "[Info]"
    } else {
        "[Unknown]"
    }
}

pub fn message_type_label(message_type: u32) -> (r: &'static str)
    ensures
        r@ == message_type_label_spec(message_type),
{
    if message_type == TYPE_GENERAL {
        "[General]"
    } else if message_type == TYPE_PERFORMANCE {
        "[Performance]"
    } else if message_type == TYPE_VALIDATION {
        "[Validation]"
    } else {
        "[Unknown]"
    }
}

} // verus!
