//! Error types of the configuration and rigging components.
//!
//! Validation is fail-fast: the first violated constraint is returned.  Each
//! error carries the offending values as fixed-point integers, and renders a
//! human-readable message whose exact text is part of its contract.

use vstd::prelude::*;
use crate::text::{milli_1dp_string, spec_milli_1dp, spec_udec, udec_string};

verus! {

/// A violated constraint of a crane configuration.
#[derive(Clone, Debug)]
pub enum CraneConfigError {
    BoomLengthOutOfRange { current_mm: i64, min_mm: i64, max_mm: i64 },
    BoomAngleInvalid { angle_mdeg: i64 },
    RadiusOutOfRange { current_mm: i64, min_mm: i64, max_mm: i64 },
    HeightExceeded { current_mm: i64, max_mm: i64 },
    LoadExceedsCapacity { load_kg: i64, capacity_kg: i64, radius_mm: i64 },
    OutriggerPositionInvalid { position: String },
    OutriggerExtensionInvalid { extension_mm: i64, min_mm: i64, max_mm: i64 },
    CounterweightInvalid { weight_kg: i64, min_kg: i64, max_kg: i64 },
    CapacityChartNotFound { boom_length_mm: i64 },
    UnsafeConfiguration { reason: String },
}

/// The message text of a configuration error.
pub open spec fn spec_config_error_message(e: CraneConfigError) -> Seq<char> {
    match e {
        CraneConfigError::BoomLengthOutOfRange { current_mm, min_mm, max_mm } => "Boom length "@
            + spec_milli_1dp(current_mm as int) + "m is out of range ("@ + spec_milli_1dp(
            min_mm as int,
        ) + "m - "@ + spec_milli_1dp(max_mm as int) + "m)"@,
        CraneConfigError::BoomAngleInvalid { angle_mdeg } => "Boom angle "@ + spec_milli_1dp(
            angle_mdeg as int,
        ) + " degrees is invalid (must be 0-85 degrees)"@,
        CraneConfigError::RadiusOutOfRange { current_mm, min_mm, max_mm } => "Radius "@
            + spec_milli_1dp(current_mm as int) + "m is out of range ("@ + spec_milli_1dp(
            min_mm as int,
        ) + "m - "@ + spec_milli_1dp(max_mm as int) + "m)"@,
        CraneConfigError::HeightExceeded { current_mm, max_mm } => "Hook height "@
            + spec_milli_1dp(current_mm as int) + "m exceeds maximum "@ + spec_milli_1dp(
            max_mm as int,
        ) + "m"@,
        CraneConfigError::LoadExceedsCapacity { load_kg, capacity_kg, radius_mm } => "Load "@
            + spec_udec(load_kg as int) + "kg exceeds capacity "@ + spec_udec(capacity_kg as int)
            + "kg at "@ + spec_milli_1dp(radius_mm as int) + "m radius"@,
        CraneConfigError::OutriggerPositionInvalid { position } => "Invalid outrigger position: "@
            + position@,
        CraneConfigError::OutriggerExtensionInvalid { extension_mm, min_mm, max_mm } =>
            "Outrigger extension "@ + spec_milli_1dp(extension_mm as int)
            + "m out of range ("@ + spec_milli_1dp(min_mm as int) + "m - "@ + spec_milli_1dp(
            max_mm as int,
        ) + "m)"@,
        CraneConfigError::CounterweightInvalid { weight_kg, min_kg, max_kg } => "Counterweight "@
            + spec_udec(weight_kg as int) + "kg invalid (must be "@ + spec_udec(min_kg as int)
            + "kg - "@ + spec_udec(max_kg as int) + "kg)"@,
        CraneConfigError::CapacityChartNotFound { boom_length_mm } =>
            "No capacity chart found for boom length "@ + spec_milli_1dp(boom_length_mm as int)
            + "m"@,
        CraneConfigError::UnsafeConfiguration { reason } => "Unsafe configuration: "@ + reason@,
    }
}

impl CraneConfigError {
    /// Render the error as text; the view of the result equals
    /// [`spec_config_error_message`].
    pub fn message(&self) -> (s: String)
        requires
            crane_config_error_wf(*self),
        ensures
            s@ == spec_config_error_message(*self),
    {
        match self {
            CraneConfigError::BoomLengthOutOfRange { current_mm, min_mm, max_mm } => {
                let mut s = String::from_str("Boom length ");
                s.append(milli_1dp_string(*current_mm).as_str());
                s.append("m is out of range (");
                s.append(milli_1dp_string(*min_mm).as_str());
                s.append("m - ");
                s.append(milli_1dp_string(*max_mm).as_str());
                s.append("m)");
                s
            },
            CraneConfigError::BoomAngleInvalid { angle_mdeg } => {
                let mut s = String::from_str("Boom angle ");
                s.append(milli_1dp_string(*angle_mdeg).as_str());
                s.append(" degrees is invalid (must be 0-85 degrees)");
                s
            },
            CraneConfigError::RadiusOutOfRange { current_mm, min_mm, max_mm } => {
                let mut s = String::from_str("Radius ");
                s.append(milli_1dp_string(*current_mm).as_str());
                s.append("m is out of range (");
                s.append(milli_1dp_string(*min_mm).as_str());
                s.append("m - ");
                s.append(milli_1dp_string(*max_mm).as_str());
                s.append("m)");
                s
            },
            CraneConfigError::HeightExceeded { current_mm, max_mm } => {
                let mut s = String::from_str("Hook height ");
                s.append(milli_1dp_string(*current_mm).as_str());
                s.append("m exceeds maximum ");
                s.append(milli_1dp_string(*max_mm).as_str());
                s.append("m");
                s
            },
            CraneConfigError::LoadExceedsCapacity { load_kg, capacity_kg, radius_mm } => {
                let mut s = String::from_str("Load ");
                s.append(udec_string(*load_kg as u64).as_str());
                s.append("kg exceeds capacity ");
                s.append(udec_string(*capacity_kg as u64).as_str());
                s.append("kg at ");
                s.append(milli_1dp_string(*radius_mm).as_str());
                s.append("m radius");
                s
            },
            CraneConfigError::OutriggerPositionInvalid { position } => {
                let mut s = String::from_str("Invalid outrigger position: ");
                s.append(position.as_str());
                s
            },
            CraneConfigError::OutriggerExtensionInvalid { extension_mm, min_mm, max_mm } => {
                let mut s = String::from_str("Outrigger extension ");
                s.append(milli_1dp_string(*extension_mm).as_str());
                s.append("m out of range (");
                s.append(milli_1dp_string(*min_mm).as_str());
                s.append("m - ");
                s.append(milli_1dp_string(*max_mm).as_str());
                s.append("m)");
                s
            },
            CraneConfigError::CounterweightInvalid { weight_kg, min_kg, max_kg } => {
                let mut s = String::from_str("Counterweight ");
                s.append(udec_string(*weight_kg as u64).as_str());
                s.append("kg invalid (must be ");
                s.append(udec_string(*min_kg as u64).as_str());
                s.append("kg - ");
                s.append(udec_string(*max_kg as u64).as_str());
                s.append("kg)");
                s
            },
            CraneConfigError::CapacityChartNotFound { boom_length_mm } => {
                let mut s = String::from_str("No capacity chart found for boom length ");
                s.append(milli_1dp_string(*boom_length_mm).as_str());
                s.append("m");
                s
            },
            CraneConfigError::UnsafeConfiguration { reason } => {
                let mut s = String::from_str("Unsafe configuration: ");
                s.append(reason.as_str());
                s
            },
        }
    }
}

/// Payload values a configuration error can carry without losing its
/// rendering: weights nonnegative, lengths above the minimum integer.
pub open spec fn crane_config_error_wf(e: CraneConfigError) -> bool {
    match e {
        CraneConfigError::BoomLengthOutOfRange { current_mm, min_mm, max_mm } => current_mm
            != i64::MIN && min_mm != i64::MIN && max_mm != i64::MIN,
        CraneConfigError::BoomAngleInvalid { angle_mdeg } => angle_mdeg != i64::MIN,
        CraneConfigError::RadiusOutOfRange { current_mm, min_mm, max_mm } => current_mm
            != i64::MIN && min_mm != i64::MIN && max_mm != i64::MIN,
        CraneConfigError::HeightExceeded { current_mm, max_mm } => current_mm != i64::MIN
            && max_mm != i64::MIN,
        CraneConfigError::LoadExceedsCapacity { load_kg, capacity_kg, radius_mm } => load_kg >= 0
            && capacity_kg >= 0 && radius_mm != i64::MIN,
        CraneConfigError::OutriggerExtensionInvalid { extension_mm, min_mm, max_mm } =>
            extension_mm != i64::MIN && min_mm != i64::MIN && max_mm != i64::MIN,
        CraneConfigError::CounterweightInvalid { weight_kg, min_kg, max_kg } => weight_kg >= 0
            && min_kg >= 0 && max_kg >= 0,
        CraneConfigError::CapacityChartNotFound { boom_length_mm } => boom_length_mm != i64::MIN,
        _ => true,
    }
}

/// A failure of the rigging statics solver.
#[derive(Clone, Debug)]
pub enum RiggingError {
    /// No sling is attached.
    InsufficientPickPoints,
    /// A sling's tension exceeds its de-rated capacity.
    SlingOverloaded { sling_id: String, utilization_pm: i64 },
    /// The load hangs unbalanced beyond tolerance.
    UnbalancedLoad { tilt_angle_mdeg: i64 },
    /// The sling geometry admits no solution.
    InvalidConfiguration(String),
    /// A numeric step could not be carried out.
    MathError(String),
}

} // verus!
