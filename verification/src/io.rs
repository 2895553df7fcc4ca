//! Enumerations of Metal's fast resource loading API and their raw values.

use vstd::prelude::*;

verus! {

/// The priority of the work of an IO command queue.
#[derive(Clone, Copy, Debug, PartialEq, Eq, Structural)]
pub enum IOPriority {
    High,
    Normal,
    Low,
}

impl IOPriority {
    /// The value Metal uses for this variant.
    pub open spec fn raw_value(self) -> usize {
        match self {
            IOPriority::High => 0,
            IOPriority::Normal => 1,
            IOPriority::Low => 2,
        }
    }

    /// The value handed to Metal for this variant.
    pub fn as_raw(self) -> (r: usize)
        ensures
            r == self.raw_value(),
            self == IOPriority::High ==> r == 0,
            self == IOPriority::Normal ==> r == 1,
            self == IOPriority::Low ==> r == 2,
    {
        match self {
            IOPriority::High => 0,
            IOPriority::Normal => 1,
            IOPriority::Low => 2,
        }
    }

    /// Distinct variants have distinct raw values.
    pub proof fn lemma_raw_value_injective(a: IOPriority, b: IOPriority)
        ensures
            a.raw_value() == b.raw_value() <==> a == b,
    {
    }

    /// The variant whose raw value is `raw`, if there is one.
    pub open spec fn from_raw_spec(raw: usize) -> Option<IOPriority> {
        if raw == 0 {
            Some(IOPriority::High)
        } else if raw == 1 {
            Some(IOPriority::Normal)
        } else if raw == 2 {
            Some(IOPriority::Low)
        } else {
            None
        }
    }

    /// Decodes a raw Metal value; `None` when no variant has it.
    pub fn from_raw(raw: usize) -> (r: Option<IOPriority>)
        ensures
            r == IOPriority::from_raw_spec(raw),
            r matches Some(e) ==> e.raw_value() == raw,
            r is None <==> forall|e: IOPriority| e.raw_value() != raw,
            raw == 0 ==> r == Some(IOPriority::High),
            raw == 1 ==> r == Some(IOPriority::Normal),
            raw == 2 ==> r == Some(IOPriority::Low),
    {
        proof {
            IOPriority::lemma_from_raw_sound(raw);
        }
        match raw {
            0 => Some(IOPriority::High),
            1 => Some(IOPriority::Normal),
            2 => Some(IOPriority::Low),
            _ => None,
        }
    }

    /// Decoding the raw value of a variant gives that variant back.
    pub proof fn lemma_from_raw_roundtrip(e: IOPriority)
        ensures
            IOPriority::from_raw_spec(e.raw_value()) == Some(e),
    {
    }

    /// Whatever decoding gives has the raw value that was decoded, and
    /// decoding fails exactly on the values no variant has.
    pub proof fn lemma_from_raw_sound(raw: usize)
        ensures
            IOPriority::from_raw_spec(raw) matches Some(e) ==> e.raw_value() == raw,
            IOPriority::from_raw_spec(raw) is None <==> forall|e: IOPriority| e.raw_value() != raw,
    {
        assert(IOPriority::High.raw_value() == 0);
        assert(IOPriority::Normal.raw_value() == 1);
        assert(IOPriority::Low.raw_value() == 2);
        if let Some(e) = IOPriority::from_raw_spec(raw) {
            assert(e.raw_value() == raw);
        }
    }
}

/// Whether an IO command queue runs its buffers in order.
#[derive(Clone, Copy, Debug, PartialEq, Eq, Structural)]
pub enum IOCommandQueueType {
    Concurrent,
    Serial,
}

impl IOCommandQueueType {
    /// The value Metal uses for this variant.
    pub open spec fn raw_value(self) -> usize {
        match self {
            IOCommandQueueType::Concurrent => 0,
            IOCommandQueueType::Serial => 1,
        }
    }

    /// The value handed to Metal for this variant.
    pub fn as_raw(self) -> (r: usize)
        ensures
            r == self.raw_value(),
            self == IOCommandQueueType::Concurrent ==> r == 0,
            self == IOCommandQueueType::Serial ==> r == 1,
    {
        match self {
            IOCommandQueueType::Concurrent => 0,
            IOCommandQueueType::Serial => 1,
        }
    }

    /// Distinct variants have distinct raw values.
    pub proof fn lemma_raw_value_injective(a: IOCommandQueueType, b: IOCommandQueueType)
        ensures
            a.raw_value() == b.raw_value() <==> a == b,
    {
    }

    /// The variant whose raw value is `raw`, if there is one.
    pub open spec fn from_raw_spec(raw: usize) -> Option<IOCommandQueueType> {
        if raw == 0 {
            Some(IOCommandQueueType::Concurrent)
        } else if raw == 1 {
            Some(IOCommandQueueType::Serial)
        } else {
            None
        }
    }

    /// Decodes a raw Metal value; `None` when no variant has it.
    pub fn from_raw(raw: usize) -> (r: Option<IOCommandQueueType>)
        ensures
            r == IOCommandQueueType::from_raw_spec(raw),
            r matches Some(e) ==> e.raw_value() == raw,
            r is None <==> forall|e: IOCommandQueueType| e.raw_value() != raw,
            raw == 0 ==> r == Some(IOCommandQueueType::Concurrent),
            raw == 1 ==> r == Some(IOCommandQueueType::Serial),
    {
        proof {
            IOCommandQueueType::lemma_from_raw_sound(raw);
        }
        match raw {
            0 => Some(IOCommandQueueType::Concurrent),
            1 => Some(IOCommandQueueType::Serial),
            _ => None,
        }
    }

    /// Decoding the raw value of a variant gives that variant back.
    pub proof fn lemma_from_raw_roundtrip(e: IOCommandQueueType)
        ensures
            IOCommandQueueType::from_raw_spec(e.raw_value()) == Some(e),
    {
    }

    /// Whatever decoding gives has the raw value that was decoded, and
    /// decoding fails exactly on the values no variant has.
    pub proof fn lemma_from_raw_sound(raw: usize)
        ensures
            IOCommandQueueType::from_raw_spec(raw) matches Some(e) ==> e.raw_value() == raw,
            IOCommandQueueType::from_raw_spec(raw) is None <==> forall|e: IOCommandQueueType| e.raw_value() != raw,
    {
        assert(IOCommandQueueType::Concurrent.raw_value() == 0);
        assert(IOCommandQueueType::Serial.raw_value() == 1);
        if let Some(e) = IOCommandQueueType::from_raw_spec(raw) {
            assert(e.raw_value() == raw);
        }
    }
}

/// The state of an IO command buffer.
#[derive(Clone, Copy, Debug, PartialEq, Eq, Structural)]
pub enum IOStatus {
    Pending,
    Cancelled,
    Error,
    Complete,
}

impl IOStatus {
    /// The value Metal uses for this variant.
    pub open spec fn raw_value(self) -> isize {
        match self {
            IOStatus::Pending => 0,
            IOStatus::Cancelled => 1,
            IOStatus::Error => 2,
            IOStatus::Complete => 3,
        }
    }

    /// The value handed to Metal for this variant.
    pub fn as_raw(self) -> (r: isize)
        ensures
            r == self.raw_value(),
            self == IOStatus::Pending ==> r == 0,
            self == IOStatus::Cancelled ==> r == 1,
            self == IOStatus::Error ==> r == 2,
            self == IOStatus::Complete ==> r == 3,
    {
        match self {
            IOStatus::Pending => 0,
            IOStatus::Cancelled => 1,
            IOStatus::Error => 2,
            IOStatus::Complete => 3,
        }
    }

    /// Distinct variants have distinct raw values.
    pub proof fn lemma_raw_value_injective(a: IOStatus, b: IOStatus)
        ensures
            a.raw_value() == b.raw_value() <==> a == b,
    {
    }

    /// The variant whose raw value is `raw`, if there is one.
    pub open spec fn from_raw_spec(raw: isize) -> Option<IOStatus> {
        if raw == 0 {
            Some(IOStatus::Pending)
        } else if raw == 1 {
            Some(IOStatus::Cancelled)
        } else if raw == 2 {
            Some(IOStatus::Error)
        } else if raw == 3 {
            Some(IOStatus::Complete)
        } else {
            None
        }
    }

    /// Decodes a raw Metal value; `None` when no variant has it.
    pub fn from_raw(raw: isize) -> (r: Option<IOStatus>)
        ensures
            r == IOStatus::from_raw_spec(raw),
            r matches Some(e) ==> e.raw_value() == raw,
            r is None <==> forall|e: IOStatus| e.raw_value() != raw,
            raw == 0 ==> r == Some(IOStatus::Pending),
            raw == 1 ==> r == Some(IOStatus::Cancelled),
            raw == 2 ==> r == Some(IOStatus::Error),
            raw == 3 ==> r == Some(IOStatus::Complete),
    {
        proof {
            IOStatus::lemma_from_raw_sound(raw);
        }
        match raw {
            0 => Some(IOStatus::Pending),
            1 => Some(IOStatus::Cancelled),
            2 => Some(IOStatus::Error),
            3 => Some(IOStatus::Complete),
            _ => None,
        }
    }

    /// Decoding the raw value of a variant gives that variant back.
    pub proof fn lemma_from_raw_roundtrip(e: IOStatus)
        ensures
            IOStatus::from_raw_spec(e.raw_value()) == Some(e),
    {
    }

    /// Whatever decoding gives has the raw value that was decoded, and
    /// decoding fails exactly on the values no variant has.
    pub proof fn lemma_from_raw_sound(raw: isize)
        ensures
            IOStatus::from_raw_spec(raw) matches Some(e) ==> e.raw_value() == raw,
            IOStatus::from_raw_spec(raw) is None <==> forall|e: IOStatus| e.raw_value() != raw,
    {
        assert(IOStatus::Pending.raw_value() == 0);
        assert(IOStatus::Cancelled.raw_value() == 1);
        assert(IOStatus::Error.raw_value() == 2);
        assert(IOStatus::Complete.raw_value() == 3);
        if let Some(e) = IOStatus::from_raw_spec(raw) {
            assert(e.raw_value() == raw);
        }
    }
}

/// The ways an IO command can fail.
#[derive(Clone, Copy, Debug, PartialEq, Eq, Structural)]
pub enum IOError {
    UrlInvalid,
    Internal,
}

impl IOError {
    /// The value Metal uses for this variant.
    pub open spec fn raw_value(self) -> isize {
        match self {
            IOError::UrlInvalid => 1,
            IOError::Internal => 2,
        }
    }

    /// The value handed to Metal for this variant.
    pub fn as_raw(self) -> (r: isize)
        ensures
            r == self.raw_value(),
            self == IOError::UrlInvalid ==> r == 1,
            self == IOError::Internal ==> r == 2,
    {
        match self {
            IOError::UrlInvalid => 1,
            IOError::Internal => 2,
        }
    }

    /// Distinct variants have distinct raw values.
    pub proof fn lemma_raw_value_injective(a: IOError, b: IOError)
        ensures
            a.raw_value() == b.raw_value() <==> a == b,
    {
    }

    /// The variant whose raw value is `raw`, if there is one.
    pub open spec fn from_raw_spec(raw: isize) -> Option<IOError> {
        if raw == 1 {
            Some(IOError::UrlInvalid)
        } else if raw == 2 {
            Some(IOError::Internal)
        } else {
            None
        }
    }

    /// Decodes a raw Metal value; `None` when no variant has it.
    pub fn from_raw(raw: isize) -> (r: Option<IOError>)
        ensures
            r == IOError::from_raw_spec(raw),
            r matches Some(e) ==> e.raw_value() == raw,
            r is None <==> forall|e: IOError| e.raw_value() != raw,
            raw == 1 ==> r == Some(IOError::UrlInvalid),
            raw == 2 ==> r == Some(IOError::Internal),
    {
        proof {
            IOError::lemma_from_raw_sound(raw);
        }
        match raw {
            1 => Some(IOError::UrlInvalid),
            2 => Some(IOError::Internal),
            _ => None,
        }
    }

    /// Decoding the raw value of a variant gives that variant back.
    pub proof fn lemma_from_raw_roundtrip(e: IOError)
        ensures
            IOError::from_raw_spec(e.raw_value()) == Some(e),
    {
    }

    /// Whatever decoding gives has the raw value that was decoded, and
    /// decoding fails exactly on the values no variant has.
    pub proof fn lemma_from_raw_sound(raw: isize)
        ensures
            IOError::from_raw_spec(raw) matches Some(e) ==> e.raw_value() == raw,
            IOError::from_raw_spec(raw) is None <==> forall|e: IOError| e.raw_value() != raw,
    {
        assert(IOError::UrlInvalid.raw_value() == 1);
        assert(IOError::Internal.raw_value() == 2);
        if let Some(e) = IOError::from_raw_spec(raw) {
            assert(e.raw_value() == raw);
        }
    }
}

/// How flushing a compression context ended.
#[derive(Clone, Copy, Debug, PartialEq, Eq, Structural)]
pub enum IOCompressionStatus {
    Complete,
    Error,
}

impl IOCompressionStatus {
    /// The value Metal uses for this variant.
    pub open spec fn raw_value(self) -> isize {
        match self {
            IOCompressionStatus::Complete => 0,
            IOCompressionStatus::Error => 1,
        }
    }

    /// The value handed to Metal for this variant.
    pub fn as_raw(self) -> (r: isize)
        ensures
            r == self.raw_value(),
            self == IOCompressionStatus::Complete ==> r == 0,
            self == IOCompressionStatus::Error ==> r == 1,
    {
        match self {
            IOCompressionStatus::Complete => 0,
            IOCompressionStatus::Error => 1,
        }
    }

    /// Distinct variants have distinct raw values.
    pub proof fn lemma_raw_value_injective(a: IOCompressionStatus, b: IOCompressionStatus)
        ensures
            a.raw_value() == b.raw_value() <==> a == b,
    {
    }

    /// The variant whose raw value is `raw`, if there is one.
    pub open spec fn from_raw_spec(raw: isize) -> Option<IOCompressionStatus> {
        if raw == 0 {
            Some(IOCompressionStatus::Complete)
        } else if raw == 1 {
            Some(IOCompressionStatus::Error)
        } else {
            None
        }
    }

    /// Decodes a raw Metal value; `None` when no variant has it.
    pub fn from_raw(raw: isize) -> (r: Option<IOCompressionStatus>)
        ensures
            r == IOCompressionStatus::from_raw_spec(raw),
            r matches Some(e) ==> e.raw_value() == raw,
            r is None <==> forall|e: IOCompressionStatus| e.raw_value() != raw,
            raw == 0 ==> r == Some(IOCompressionStatus::Complete),
            raw == 1 ==> r == Some(IOCompressionStatus::Error),
    {
        proof {
            IOCompressionStatus::lemma_from_raw_sound(raw);
        }
        match raw {
            0 => Some(IOCompressionStatus::Complete),
            1 => Some(IOCompressionStatus::Error),
            _ => None,
        }
    }

    /// Decoding the raw value of a variant gives that variant back.
    pub proof fn lemma_from_raw_roundtrip(e: IOCompressionStatus)
        ensures
            IOCompressionStatus::from_raw_spec(e.raw_value()) == Some(e),
    {
    }

    /// Whatever decoding gives has the raw value that was decoded, and
    /// decoding fails exactly on the values no variant has.
    pub proof fn lemma_from_raw_sound(raw: isize)
        ensures
            IOCompressionStatus::from_raw_spec(raw) matches Some(e) ==> e.raw_value() == raw,
            IOCompressionStatus::from_raw_spec(raw) is None <==> forall|e: IOCompressionStatus| e.raw_value() != raw,
    {
        assert(IOCompressionStatus::Complete.raw_value() == 0);
        assert(IOCompressionStatus::Error.raw_value() == 1);
        if let Some(e) = IOCompressionStatus::from_raw_spec(raw) {
            assert(e.raw_value() == raw);
        }
    }
}

/// The codec of a compressed IO file.
#[derive(Clone, Copy, Debug, PartialEq, Eq, Structural)]
pub enum IOCompressionMethod {
    Zlib,
    Lzfse,
    Lz4,
    Lzma,
    LzBitmap,
}

impl IOCompressionMethod {
    /// The value Metal uses for this variant.
    pub open spec fn raw_value(self) -> isize {
        match self {
            IOCompressionMethod::Zlib => 0,
            IOCompressionMethod::Lzfse => 1,
            IOCompressionMethod::Lz4 => 2,
            IOCompressionMethod::Lzma => 3,
            IOCompressionMethod::LzBitmap => 4,
        }
    }

    /// The value handed to Metal for this variant.
    pub fn as_raw(self) -> (r: isize)
        ensures
            r == self.raw_value(),
            self == IOCompressionMethod::Zlib ==> r == 0,
            self == IOCompressionMethod::Lzfse ==> r == 1,
            self == IOCompressionMethod::Lz4 ==> r == 2,
            self == IOCompressionMethod::Lzma ==> r == 3,
            self == IOCompressionMethod::LzBitmap ==> r == 4,
    {
        match self {
            IOCompressionMethod::Zlib => 0,
            IOCompressionMethod::Lzfse => 1,
            IOCompressionMethod::Lz4 => 2,
            IOCompressionMethod::Lzma => 3,
            IOCompressionMethod::LzBitmap => 4,
        }
    }

    /// Distinct variants have distinct raw values.
    pub proof fn lemma_raw_value_injective(a: IOCompressionMethod, b: IOCompressionMethod)
        ensures
            a.raw_value() == b.raw_value() <==> a == b,
    {
    }

    /// The variant whose raw value is `raw`, if there is one.
    pub open spec fn from_raw_spec(raw: isize) -> Option<IOCompressionMethod> {
        if raw == 0 {
            Some(IOCompressionMethod::Zlib)
        } else if raw == 1 {
            Some(IOCompressionMethod::Lzfse)
        } else if raw == 2 {
            Some(IOCompressionMethod::Lz4)
        } else if raw == 3 {
            Some(IOCompressionMethod::Lzma)
        } else if raw == 4 {
            Some(IOCompressionMethod::LzBitmap)
        } else {
            None
        }
    }

    /// Decodes a raw Metal value; `None` when no variant has it.
    pub fn from_raw(raw: isize) -> (r: Option<IOCompressionMethod>)
        ensures
            r == IOCompressionMethod::from_raw_spec(raw),
            r matches Some(e) ==> e.raw_value() == raw,
            r is None <==> forall|e: IOCompressionMethod| e.raw_value() != raw,
            raw == 0 ==> r == Some(IOCompressionMethod::Zlib),
            raw == 1 ==> r == Some(IOCompressionMethod::Lzfse),
            raw == 2 ==> r == Some(IOCompressionMethod::Lz4),
            raw == 3 ==> r == Some(IOCompressionMethod::Lzma),
            raw == 4 ==> r == Some(IOCompressionMethod::LzBitmap),
    {
        proof {
            IOCompressionMethod::lemma_from_raw_sound(raw);
        }
        match raw {
            0 => Some(IOCompressionMethod::Zlib),
            1 => Some(IOCompressionMethod::Lzfse),
            2 => Some(IOCompressionMethod::Lz4),
            3 => Some(IOCompressionMethod::Lzma),
            4 => Some(IOCompressionMethod::LzBitmap),
            _ => None,
        }
    }

    /// Decoding the raw value of a variant gives that variant back.
    pub proof fn lemma_from_raw_roundtrip(e: IOCompressionMethod)
        ensures
            IOCompressionMethod::from_raw_spec(e.raw_value()) == Some(e),
    {
    }

    /// Whatever decoding gives has the raw value that was decoded, and
    /// decoding fails exactly on the values no variant has.
    pub proof fn lemma_from_raw_sound(raw: isize)
        ensures
            IOCompressionMethod::from_raw_spec(raw) matches Some(e) ==> e.raw_value() == raw,
            IOCompressionMethod::from_raw_spec(raw) is None <==> forall|e: IOCompressionMethod| e.raw_value() != raw,
    {
        assert(IOCompressionMethod::Zlib.raw_value() == 0);
        assert(IOCompressionMethod::Lzfse.raw_value() == 1);
        assert(IOCompressionMethod::Lz4.raw_value() == 2);
        assert(IOCompressionMethod::Lzma.raw_value() == 3);
        assert(IOCompressionMethod::LzBitmap.raw_value() == 4);
        if let Some(e) = IOCompressionMethod::from_raw_spec(raw) {
            assert(e.raw_value() == raw);
        }
    }
}

impl IOCompressionMethod {
    /// The codecs in the order Metal numbers them: zlib, LZFSE, LZ4, LZMA, LZ bitmap.
    pub open spec fn metal_order() -> Seq<IOCompressionMethod> {
        seq![IOCompressionMethod::Zlib, IOCompressionMethod::Lzfse, IOCompressionMethod::Lz4, IOCompressionMethod::Lzma, IOCompressionMethod::LzBitmap]
    }

    /// Metal numbers these variants from 0 in the order of `metal_order`:
    /// the raw value of each is its position there.
    pub proof fn lemma_raw_value_is_position(e: IOCompressionMethod)
        ensures
            0 <= e.raw_value() < IOCompressionMethod::metal_order().len(),
            IOCompressionMethod::metal_order()[e.raw_value() as int] == e,
            forall|i: int|
                0 <= i < IOCompressionMethod::metal_order().len() ==> #[trigger] IOCompressionMethod::metal_order()[i].raw_value() == i,
    {
        let o = IOCompressionMethod::metal_order();
        assert forall|i: int| 0 <= i < o.len() implies #[trigger] o[i].raw_value() == i by {
            if i == 0 { assert(o[0] == IOCompressionMethod::Zlib); }
            if i == 1 { assert(o[1] == IOCompressionMethod::Lzfse); }
            if i == 2 { assert(o[2] == IOCompressionMethod::Lz4); }
            if i == 3 { assert(o[3] == IOCompressionMethod::Lzma); }
            if i == 4 { assert(o[4] == IOCompressionMethod::LzBitmap); }
        }
        assert(o[0] == IOCompressionMethod::Zlib);
        assert(o[1] == IOCompressionMethod::Lzfse);
        assert(o[2] == IOCompressionMethod::Lz4);
        assert(o[3] == IOCompressionMethod::Lzma);
        assert(o[4] == IOCompressionMethod::LzBitmap);
    }
}

} // verus!
