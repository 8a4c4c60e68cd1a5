use vstd::prelude::*;

verus! {

/// Errors surfaced by the Aura lighting controller.
#[derive(Debug, Clone, Copy, PartialEq, Eq, Structural)]
pub enum RogError {
    /// No usable control path was resolved; fatal at construction time.
    NoAuraKeyboard,
    /// The requested mode or zone is outside the device's capabilities.
    EffectNotSupported,
    /// An I/O failure on the resolved control path.
    DeviceWriteFailed,
    /// The persisted configuration could not be loaded.
    ConfigLoadFailed,
}

impl RogError {
    /// The message text attached to each error kind.
    pub open spec fn message_spec(&self) -> Seq<char> {
        match *self {
            RogError::NoAuraKeyboard => "No supported Aura keyboard"@,
            RogError::EffectNotSupported => "Aura effect not supported"@,
            RogError::DeviceWriteFailed => "Aura device write failed"@,
            RogError::ConfigLoadFailed => "Aura config load failed"@,
        }
    }

    /// A human-readable description of the error.
    pub fn to_string(&self) -> (r: String)
        ensures
            r@ == self.message_spec(),
    {
        match *self {
            RogError::NoAuraKeyboard => "No supported Aura keyboard".to_owned(),
            RogError::EffectNotSupported => "Aura effect not supported".to_owned(),
            RogError::DeviceWriteFailed => "Aura device write failed".to_owned(),
            RogError::ConfigLoadFailed => "Aura config load failed".to_owned(),
        }
    }
}

} // verus!
