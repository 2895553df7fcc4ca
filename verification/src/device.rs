//! States, kinds and severities reported by devices, command buffers and
//! libraries, and the decoding of the raw values Metal reports for them.

use vstd::prelude::*;

verus! {

/// The stage a command buffer has reached.
#[derive(Clone, Copy, Debug, PartialEq, Eq, Structural)]
pub enum CommandBufferStatus {
    NotEnqueued,
    Enqueued,
    Committed,
    Scheduled,
    Completed,
    Error,
}

impl CommandBufferStatus {
    /// The value Metal uses for this variant.
    pub open spec fn raw_value(self) -> usize {
        match self {
            CommandBufferStatus::NotEnqueued => 0,
            CommandBufferStatus::Enqueued => 1,
            CommandBufferStatus::Committed => 2,
            CommandBufferStatus::Scheduled => 3,
            CommandBufferStatus::Completed => 4,
            CommandBufferStatus::Error => 5,
        }
    }

    /// The value handed to Metal for this variant.
    pub fn as_raw(self) -> (r: usize)
        ensures
            r == self.raw_value(),
            self == CommandBufferStatus::NotEnqueued ==> r == 0,
            self == CommandBufferStatus::Enqueued ==> r == 1,
            self == CommandBufferStatus::Committed ==> r == 2,
            self == CommandBufferStatus::Scheduled ==> r == 3,
            self == CommandBufferStatus::Completed ==> r == 4,
            self == CommandBufferStatus::Error ==> r == 5,
    {
        match self {
            CommandBufferStatus::NotEnqueued => 0,
            CommandBufferStatus::Enqueued => 1,
            CommandBufferStatus::Committed => 2,
            CommandBufferStatus::Scheduled => 3,
            CommandBufferStatus::Completed => 4,
            CommandBufferStatus::Error => 5,
        }
    }

    /// Distinct variants have distinct raw values.
    pub proof fn lemma_raw_value_injective(a: CommandBufferStatus, b: CommandBufferStatus)
        ensures
            a.raw_value() == b.raw_value() <==> a == b,
    {
    }

    /// The variant whose raw value is `raw`, if there is one.
    pub open spec fn from_raw_spec(raw: usize) -> Option<CommandBufferStatus> {
        if raw == 0 {
            Some(CommandBufferStatus::NotEnqueued)
        } else if raw == 1 {
            Some(CommandBufferStatus::Enqueued)
        } else if raw == 2 {
            Some(CommandBufferStatus::Committed)
        } else if raw == 3 {
            Some(CommandBufferStatus::Scheduled)
        } else if raw == 4 {
            Some(CommandBufferStatus::Completed)
        } else if raw == 5 {
            Some(CommandBufferStatus::Error)
        } else {
            None
        }
    }

    /// Decodes a raw Metal value; `None` when no variant has it.
    pub fn from_raw(raw: usize) -> (r: Option<CommandBufferStatus>)
        ensures
            r == CommandBufferStatus::from_raw_spec(raw),
            r matches Some(e) ==> e.raw_value() == raw,
            r is None <==> forall|e: CommandBufferStatus| e.raw_value() != raw,
            raw == 0 ==> r == Some(CommandBufferStatus::NotEnqueued),
            raw == 1 ==> r == Some(CommandBufferStatus::Enqueued),
            raw == 2 ==> r == Some(CommandBufferStatus::Committed),
            raw == 3 ==> r == Some(CommandBufferStatus::Scheduled),
            raw == 4 ==> r == Some(CommandBufferStatus::Completed),
            raw == 5 ==> r == Some(CommandBufferStatus::Error),
    {
        proof {
            CommandBufferStatus::lemma_from_raw_sound(raw);
        }
        match raw {
            0 => Some(CommandBufferStatus::NotEnqueued),
            1 => Some(CommandBufferStatus::Enqueued),
            2 => Some(CommandBufferStatus::Committed),
            3 => Some(CommandBufferStatus::Scheduled),
            4 => Some(CommandBufferStatus::Completed),
            5 => Some(CommandBufferStatus::Error),
            _ => None,
        }
    }

    /// Decoding the raw value of a variant gives that variant back.
    pub proof fn lemma_from_raw_roundtrip(e: CommandBufferStatus)
        ensures
            CommandBufferStatus::from_raw_spec(e.raw_value()) == Some(e),
    {
    }

    /// Whatever decoding gives has the raw value that was decoded, and
    /// decoding fails exactly on the values no variant has.
    pub proof fn lemma_from_raw_sound(raw: usize)
        ensures
            CommandBufferStatus::from_raw_spec(raw) matches Some(e) ==> e.raw_value() == raw,
            CommandBufferStatus::from_raw_spec(raw) is None <==> forall|e: CommandBufferStatus| e.raw_value() != raw,
    {
        assert(CommandBufferStatus::NotEnqueued.raw_value() == 0);
        assert(CommandBufferStatus::Enqueued.raw_value() == 1);
        assert(CommandBufferStatus::Committed.raw_value() == 2);
        assert(CommandBufferStatus::Scheduled.raw_value() == 3);
        assert(CommandBufferStatus::Completed.raw_value() == 4);
        assert(CommandBufferStatus::Error.raw_value() == 5);
        if let Some(e) = CommandBufferStatus::from_raw_spec(raw) {
            assert(e.raw_value() == raw);
        }
    }
}

/// Whether a library is linked into pipelines or loaded on its own.
#[derive(Clone, Copy, Debug, PartialEq, Eq, Structural)]
pub enum LibraryType {
    Executable,
    Dynamic,
}

impl LibraryType {
    /// The value Metal uses for this variant.
    pub open spec fn raw_value(self) -> usize {
        match self {
            LibraryType::Executable => 0,
            LibraryType::Dynamic => 1,
        }
    }

    /// The value handed to Metal for this variant.
    pub fn as_raw(self) -> (r: usize)
        ensures
            r == self.raw_value(),
            self == LibraryType::Executable ==> r == 0,
            self == LibraryType::Dynamic ==> r == 1,
    {
        match self {
            LibraryType::Executable => 0,
            LibraryType::Dynamic => 1,
        }
    }

    /// Distinct variants have distinct raw values.
    pub proof fn lemma_raw_value_injective(a: LibraryType, b: LibraryType)
        ensures
            a.raw_value() == b.raw_value() <==> a == b,
    {
    }

    /// The variant whose raw value is `raw`, if there is one.
    pub open spec fn from_raw_spec(raw: usize) -> Option<LibraryType> {
        if raw == 0 {
            Some(LibraryType::Executable)
        } else if raw == 1 {
            Some(LibraryType::Dynamic)
        } else {
            None
        }
    }

    /// Decodes a raw Metal value; `None` when no variant has it.
    pub fn from_raw(raw: usize) -> (r: Option<LibraryType>)
        ensures
            r == LibraryType::from_raw_spec(raw),
            r matches Some(e) ==> e.raw_value() == raw,
            r is None <==> forall|e: LibraryType| e.raw_value() != raw,
            raw == 0 ==> r == Some(LibraryType::Executable),
            raw == 1 ==> r == Some(LibraryType::Dynamic),
    {
        proof {
            LibraryType::lemma_from_raw_sound(raw);
        }
        match raw {
            0 => Some(LibraryType::Executable),
            1 => Some(LibraryType::Dynamic),
            _ => None,
        }
    }

    /// Decoding the raw value of a variant gives that variant back.
    pub proof fn lemma_from_raw_roundtrip(e: LibraryType)
        ensures
            LibraryType::from_raw_spec(e.raw_value()) == Some(e),
    {
    }

    /// Whatever decoding gives has the raw value that was decoded, and
    /// decoding fails exactly on the values no variant has.
    pub proof fn lemma_from_raw_sound(raw: usize)
        ensures
            LibraryType::from_raw_spec(raw) matches Some(e) ==> e.raw_value() == raw,
            LibraryType::from_raw_spec(raw) is None <==> forall|e: LibraryType| e.raw_value() != raw,
    {
        assert(LibraryType::Executable.raw_value() == 0);
        assert(LibraryType::Dynamic.raw_value() == 1);
        if let Some(e) = LibraryType::from_raw_spec(raw) {
            assert(e.raw_value() == raw);
        }
    }
}

/// What the shader compiler optimizes for.
#[derive(Clone, Copy, Debug, PartialEq, Eq, Structural)]
pub enum LibraryOptimizationLevel {
    Default,
    Size,
}

impl LibraryOptimizationLevel {
    /// The value Metal uses for this variant.
    pub open spec fn raw_value(self) -> isize {
        match self {
            LibraryOptimizationLevel::Default => 0,
            LibraryOptimizationLevel::Size => 1,
        }
    }

    /// The value handed to Metal for this variant.
    pub fn as_raw(self) -> (r: isize)
        ensures
            r == self.raw_value(),
            self == LibraryOptimizationLevel::Default ==> r == 0,
            self == LibraryOptimizationLevel::Size ==> r == 1,
    {
        match self {
            LibraryOptimizationLevel::Default => 0,
            LibraryOptimizationLevel::Size => 1,
        }
    }

    /// Distinct variants have distinct raw values.
    pub proof fn lemma_raw_value_injective(a: LibraryOptimizationLevel, b: LibraryOptimizationLevel)
        ensures
            a.raw_value() == b.raw_value() <==> a == b,
    {
    }

    /// The variant whose raw value is `raw`, if there is one.
    pub open spec fn from_raw_spec(raw: isize) -> Option<LibraryOptimizationLevel> {
        if raw == 0 {
            Some(LibraryOptimizationLevel::Default)
        } else if raw == 1 {
            Some(LibraryOptimizationLevel::Size)
        } else {
            None
        }
    }

    /// Decodes a raw Metal value; `None` when no variant has it.
    pub fn from_raw(raw: isize) -> (r: Option<LibraryOptimizationLevel>)
        ensures
            r == LibraryOptimizationLevel::from_raw_spec(raw),
            r matches Some(e) ==> e.raw_value() == raw,
            r is None <==> forall|e: LibraryOptimizationLevel| e.raw_value() != raw,
            raw == 0 ==> r == Some(LibraryOptimizationLevel::Default),
            raw == 1 ==> r == Some(LibraryOptimizationLevel::Size),
    {
        proof {
            LibraryOptimizationLevel::lemma_from_raw_sound(raw);
        }
        match raw {
            0 => Some(LibraryOptimizationLevel::Default),
            1 => Some(LibraryOptimizationLevel::Size),
            _ => None,
        }
    }

    /// Decoding the raw value of a variant gives that variant back.
    pub proof fn lemma_from_raw_roundtrip(e: LibraryOptimizationLevel)
        ensures
            LibraryOptimizationLevel::from_raw_spec(e.raw_value()) == Some(e),
    {
    }

    /// Whatever decoding gives has the raw value that was decoded, and
    /// decoding fails exactly on the values no variant has.
    pub proof fn lemma_from_raw_sound(raw: isize)
        ensures
            LibraryOptimizationLevel::from_raw_spec(raw) matches Some(e) ==> e.raw_value() == raw,
            LibraryOptimizationLevel::from_raw_spec(raw) is None <==> forall|e: LibraryOptimizationLevel| e.raw_value() != raw,
    {
        assert(LibraryOptimizationLevel::Default.raw_value() == 0);
        assert(LibraryOptimizationLevel::Size.raw_value() == 1);
        if let Some(e) = LibraryOptimizationLevel::from_raw_spec(raw) {
            assert(e.raw_value() == raw);
        }
    }
}

/// Error codes of library creation.
#[derive(Clone, Copy, Debug, PartialEq, Eq, Structural)]
pub enum LibraryError {
    Unsupported,
    Internal,
    CompileFailure,
    CompileWarning,
    FunctionNotFound,
    FileNotFound,
}

impl LibraryError {
    /// The value Metal uses for this variant.
    pub open spec fn raw_value(self) -> usize {
        match self {
            LibraryError::Unsupported => 1,
            LibraryError::Internal => 2,
            LibraryError::CompileFailure => 3,
            LibraryError::CompileWarning => 4,
            LibraryError::FunctionNotFound => 5,
            LibraryError::FileNotFound => 6,
        }
    }

    /// The value handed to Metal for this variant.
    pub fn as_raw(self) -> (r: usize)
        ensures
            r == self.raw_value(),
            self == LibraryError::Unsupported ==> r == 1,
            self == LibraryError::Internal ==> r == 2,
            self == LibraryError::CompileFailure ==> r == 3,
            self == LibraryError::CompileWarning ==> r == 4,
            self == LibraryError::FunctionNotFound ==> r == 5,
            self == LibraryError::FileNotFound ==> r == 6,
    {
        match self {
            LibraryError::Unsupported => 1,
            LibraryError::Internal => 2,
            LibraryError::CompileFailure => 3,
            LibraryError::CompileWarning => 4,
            LibraryError::FunctionNotFound => 5,
            LibraryError::FileNotFound => 6,
        }
    }

    /// Distinct variants have distinct raw values.
    pub proof fn lemma_raw_value_injective(a: LibraryError, b: LibraryError)
        ensures
            a.raw_value() == b.raw_value() <==> a == b,
    {
    }
}

/// The severity of a shader log message.
#[derive(Clone, Copy, Debug, PartialEq, Eq, Structural)]
pub enum LogLevel {
    Undefined,
    Debug,
    Info,
    Notice,
    Error,
    Fault,
}

impl LogLevel {
    /// The value Metal uses for this variant.
    pub open spec fn raw_value(self) -> isize {
        match self {
            LogLevel::Undefined => -1isize,
            LogLevel::Debug => 0,
            LogLevel::Info => 1,
            LogLevel::Notice => 2,
            LogLevel::Error => 3,
            LogLevel::Fault => 4,
        }
    }

    /// The value handed to Metal for this variant.
    pub fn as_raw(self) -> (r: isize)
        ensures
            r == self.raw_value(),
            self == LogLevel::Undefined ==> r == -1isize,
            self == LogLevel::Debug ==> r == 0,
            self == LogLevel::Info ==> r == 1,
            self == LogLevel::Notice ==> r == 2,
            self == LogLevel::Error ==> r == 3,
            self == LogLevel::Fault ==> r == 4,
    {
        match self {
            LogLevel::Undefined => -1isize,
            LogLevel::Debug => 0,
            LogLevel::Info => 1,
            LogLevel::Notice => 2,
            LogLevel::Error => 3,
            LogLevel::Fault => 4,
        }
    }

    /// Distinct variants have distinct raw values.
    pub proof fn lemma_raw_value_injective(a: LogLevel, b: LogLevel)
        ensures
            a.raw_value() == b.raw_value() <==> a == b,
    {
    }
}

/// Whether the commands of an encoder may run concurrently.
#[derive(Clone, Copy, Debug, PartialEq, Eq, Structural)]
pub enum DispatchType {
    Serial,
    Concurrent,
}

impl DispatchType {
    /// The value Metal uses for this variant.
    pub open spec fn raw_value(self) -> usize {
        match self {
            DispatchType::Serial => 0,
            DispatchType::Concurrent => 1,
        }
    }

    /// The value handed to Metal for this variant.
    pub fn as_raw(self) -> (r: usize)
        ensures
            r == self.raw_value(),
            self == DispatchType::Serial ==> r == 0,
            self == DispatchType::Concurrent ==> r == 1,
    {
        match self {
            DispatchType::Serial => 0,
            DispatchType::Concurrent => 1,
        }
    }

    /// Distinct variants have distinct raw values.
    pub proof fn lemma_raw_value_injective(a: DispatchType, b: DispatchType)
        ensures
            a.raw_value() == b.raw_value() <==> a == b,
    {
    }

    /// The variant whose raw value is `raw`, if there is one.
    pub open spec fn from_raw_spec(raw: usize) -> Option<DispatchType> {
        if raw == 0 {
            Some(DispatchType::Serial)
        } else if raw == 1 {
            Some(DispatchType::Concurrent)
        } else {
            None
        }
    }

    /// Decodes a raw Metal value; `None` when no variant has it.
    pub fn from_raw(raw: usize) -> (r: Option<DispatchType>)
        ensures
            r == DispatchType::from_raw_spec(raw),
            r matches Some(e) ==> e.raw_value() == raw,
            r is None <==> forall|e: DispatchType| e.raw_value() != raw,
            raw == 0 ==> r == Some(DispatchType::Serial),
            raw == 1 ==> r == Some(DispatchType::Concurrent),
    {
        proof {
            DispatchType::lemma_from_raw_sound(raw);
        }
        match raw {
            0 => Some(DispatchType::Serial),
            1 => Some(DispatchType::Concurrent),
            _ => None,
        }
    }

    /// Decoding the raw value of a variant gives that variant back.
    pub proof fn lemma_from_raw_roundtrip(e: DispatchType)
        ensures
            DispatchType::from_raw_spec(e.raw_value()) == Some(e),
    {
    }

    /// Whatever decoding gives has the raw value that was decoded, and
    /// decoding fails exactly on the values no variant has.
    pub proof fn lemma_from_raw_sound(raw: usize)
        ensures
            DispatchType::from_raw_spec(raw) matches Some(e) ==> e.raw_value() == raw,
            DispatchType::from_raw_spec(raw) is None <==> forall|e: DispatchType| e.raw_value() != raw,
    {
        assert(DispatchType::Serial.raw_value() == 0);
        assert(DispatchType::Concurrent.raw_value() == 1);
        if let Some(e) = DispatchType::from_raw_spec(raw) {
            assert(e.raw_value() == raw);
        }
    }
}

/// The status of a command buffer from the value Metal reports: a value that
/// names no status is read as `Error`.
pub fn command_buffer_status(raw: usize) -> (r: CommandBufferStatus)
    ensures
        r == (match CommandBufferStatus::from_raw_spec(raw) {
            Some(s) => s,
            None => CommandBufferStatus::Error,
        }),
        raw <= 5 ==> r.raw_value() == raw,
        raw > 5 ==> r == CommandBufferStatus::Error,
{
    proof {
        CommandBufferStatus::lemma_from_raw_sound(raw);
    }
    match CommandBufferStatus::from_raw(raw) {
        Some(status) => status,
        None => CommandBufferStatus::Error,
    }
}

} // verus!
