//! The required core symbol table: status and element-type codes, the
//! semantic-version compatibility gate, and the all-or-nothing binding rule.
use vstd::prelude::*;

use crate::Error;

verus! {

/// Status code returned by fallible native operations. The native ABI
/// transports it as a small integer; `code` and `from_code` carry the
/// numeric mapping.
#[derive(Debug, PartialEq, Eq, Structural, Clone, Copy)]
pub enum TfLiteStatus {
    Okay,
    Error,
    DelegateError,
    ApplicationError,
    DelegateDataNotFound,
    DelegateDataWriteError,
    DelegateDataReadError,
    UnresolvedOps,
}

/// The numeric value a native call transports for each status.
pub open spec fn spec_status_code(s: TfLiteStatus) -> int {
    match s {
        TfLiteStatus::Okay => 0,
        TfLiteStatus::Error => 1,
        TfLiteStatus::DelegateError => 2,
        TfLiteStatus::ApplicationError => 3,
        TfLiteStatus::DelegateDataNotFound => 4,
        TfLiteStatus::DelegateDataWriteError => 5,
        TfLiteStatus::DelegateDataReadError => 6,
        TfLiteStatus::UnresolvedOps => 7,
    }
}

/// The status a numeric value stands for, if any.
pub open spec fn spec_status_from_code(c: int) -> Option<TfLiteStatus> {
    if c == 0 {
        Some(TfLiteStatus::Okay)
    } else if c == 1 {
        Some(TfLiteStatus::Error)
    } else if c == 2 {
        Some(TfLiteStatus::DelegateError)
    } else if c == 3 {
        Some(TfLiteStatus::ApplicationError)
    } else if c == 4 {
        Some(TfLiteStatus::DelegateDataNotFound)
    } else if c == 5 {
        Some(TfLiteStatus::DelegateDataWriteError)
    } else if c == 6 {
        Some(TfLiteStatus::DelegateDataReadError)
    } else if c == 7 {
        Some(TfLiteStatus::UnresolvedOps)
    } else {
        None
    }
}

impl TfLiteStatus {
    /// The numeric value this status is transported as.
    pub fn code(&self) -> (r: i32)
        ensures
            r as int == spec_status_code(*self),
    {
        match self {
            TfLiteStatus::Okay => 0,
            TfLiteStatus::Error => 1,
            TfLiteStatus::DelegateError => 2,
            TfLiteStatus::ApplicationError => 3,
            TfLiteStatus::DelegateDataNotFound => 4,
            TfLiteStatus::DelegateDataWriteError => 5,
            TfLiteStatus::DelegateDataReadError => 6,
            TfLiteStatus::UnresolvedOps => 7,
        }
    }

    /// The status a raw native value stands for; `None` for a value outside
    /// the defined range.
    pub fn from_code(c: i32) -> (r: Option<TfLiteStatus>)
        ensures
            r == spec_status_from_code(c as int),
    {
        if c == 0 {
            Some(TfLiteStatus::Okay)
        } else if c == 1 {
            Some(TfLiteStatus::Error)
        } else if c == 2 {
            Some(TfLiteStatus::DelegateError)
        } else if c == 3 {
            Some(TfLiteStatus::ApplicationError)
        } else if c == 4 {
            Some(TfLiteStatus::DelegateDataNotFound)
        } else if c == 5 {
            Some(TfLiteStatus::DelegateDataWriteError)
        } else if c == 6 {
            Some(TfLiteStatus::DelegateDataReadError)
        } else if c == 7 {
            Some(TfLiteStatus::UnresolvedOps)
        } else {
            None
        }
    }
}

/// Decoding a status code undoes encoding it.
pub proof fn lemma_status_code_round_trip(s: TfLiteStatus)
    ensures
        spec_status_from_code(spec_status_code(s)) == Some(s),
{
}

/// Element type of a tensor, as reported by the native library.
#[derive(Debug, PartialEq, Eq, Structural, Clone, Copy)]
pub enum TfLiteType {
    NoType,
    Float32,
    Int32,
    UInt8,
    Int64,
    String,
    Bool,
    Int16,
    Complex64,
    Int8,
    Float16,
    Float64,
    Complex128,
    UInt64,
    Resource,
    Variant,
    UInt32,
}

/// The numeric value the native ABI transports for each element type.
pub open spec fn spec_type_code(t: TfLiteType) -> int {
    match t {
        TfLiteType::NoType => 0,
        TfLiteType::Float32 => 1,
        TfLiteType::Int32 => 2,
        TfLiteType::UInt8 => 3,
        TfLiteType::Int64 => 4,
        TfLiteType::String => 5,
        TfLiteType::Bool => 6,
        TfLiteType::Int16 => 7,
        TfLiteType::Complex64 => 8,
        TfLiteType::Int8 => 9,
        TfLiteType::Float16 => 10,
        TfLiteType::Float64 => 11,
        TfLiteType::Complex128 => 12,
        TfLiteType::UInt64 => 13,
        TfLiteType::Resource => 14,
        TfLiteType::Variant => 15,
        TfLiteType::UInt32 => 16,
    }
}

/// The element type a numeric value stands for, if any.
pub open spec fn spec_type_from_code(c: int) -> Option<TfLiteType> {
    if c == 0 {
        Some(TfLiteType::NoType)
    } else if c == 1 {
        Some(TfLiteType::Float32)
    } else if c == 2 {
        Some(TfLiteType::Int32)
    } else if c == 3 {
        Some(TfLiteType::UInt8)
    } else if c == 4 {
        Some(TfLiteType::Int64)
    } else if c == 5 {
        Some(TfLiteType::String)
    } else if c == 6 {
        Some(TfLiteType::Bool)
    } else if c == 7 {
        Some(TfLiteType::Int16)
    } else if c == 8 {
        Some(TfLiteType::Complex64)
    } else if c == 9 {
        Some(TfLiteType::Int8)
    } else if c == 10 {
        Some(TfLiteType::Float16)
    } else if c == 11 {
        Some(TfLiteType::Float64)
    } else if c == 12 {
        Some(TfLiteType::Complex128)
    } else if c == 13 {
        Some(TfLiteType::UInt64)
    } else if c == 14 {
        Some(TfLiteType::Resource)
    } else if c == 15 {
        Some(TfLiteType::Variant)
    } else if c == 16 {
        Some(TfLiteType::UInt32)
    } else {
        None
    }
}

impl TfLiteType {
    /// The numeric value this element type is transported as.
    pub fn code(&self) -> (r: i32)
        ensures
            r as int == spec_type_code(*self),
    {
        match self {
            TfLiteType::NoType => 0,
            TfLiteType::Float32 => 1,
            TfLiteType::Int32 => 2,
            TfLiteType::UInt8 => 3,
            TfLiteType::Int64 => 4,
            TfLiteType::String => 5,
            TfLiteType::Bool => 6,
            TfLiteType::Int16 => 7,
            TfLiteType::Complex64 => 8,
            TfLiteType::Int8 => 9,
            TfLiteType::Float16 => 10,
            TfLiteType::Float64 => 11,
            TfLiteType::Complex128 => 12,
            TfLiteType::UInt64 => 13,
            TfLiteType::Resource => 14,
            TfLiteType::Variant => 15,
            TfLiteType::UInt32 => 16,
        }
    }

    /// The element type a raw native value stands for; `None` for a value
    /// outside the defined range.
    pub fn from_code(c: i32) -> (r: Option<TfLiteType>)
        ensures
            r == spec_type_from_code(c as int),
    {
        if c == 0 {
            Some(TfLiteType::NoType)
        } else if c == 1 {
            Some(TfLiteType::Float32)
        } else if c == 2 {
            Some(TfLiteType::Int32)
        } else if c == 3 {
            Some(TfLiteType::UInt8)
        } else if c == 4 {
            Some(TfLiteType::Int64)
        } else if c == 5 {
            Some(TfLiteType::String)
        } else if c == 6 {
            Some(TfLiteType::Bool)
        } else if c == 7 {
            Some(TfLiteType::Int16)
        } else if c == 8 {
            Some(TfLiteType::Complex64)
        } else if c == 9 {
            Some(TfLiteType::Int8)
        } else if c == 10 {
            Some(TfLiteType::Float16)
        } else if c == 11 {
            Some(TfLiteType::Float64)
        } else if c == 12 {
            Some(TfLiteType::Complex128)
        } else if c == 13 {
            Some(TfLiteType::UInt64)
        } else if c == 14 {
            Some(TfLiteType::Resource)
        } else if c == 15 {
            Some(TfLiteType::Variant)
        } else if c == 16 {
            Some(TfLiteType::UInt32)
        } else {
            None
        }
    }
}

/// Decoding an element-type code undoes encoding it.
pub proof fn lemma_type_code_round_trip(t: TfLiteType)
    ensures
        spec_type_from_code(spec_type_code(t)) == Some(t),
{
}

/// A semantic version as this layer reads it: the numeric triple and
/// whether a pre-release segment is present.
#[derive(Debug, PartialEq, Eq, Structural, Clone, Copy)]
pub struct SemVer {
    pub major: u64,
    pub minor: u64,
    pub patch: u64,
    /// True when the version carries a pre-release segment.
    pub pre: bool,
}

/// The oldest library version this layer accepts.
pub const MIN_SUPPORTED_MAJOR: u64 = 2;

pub const MIN_SUPPORTED_MINOR: u64 = 8;

pub const MIN_SUPPORTED_PATCH: u64 = 0;

/// Compatibility gate: the same major line as the minimum supported
/// version, at least its minor and patch, and no pre-release segment.
pub open spec fn spec_version_compatible(v: SemVer) -> bool {
    &&& v.major == MIN_SUPPORTED_MAJOR
    &&& !v.pre
    &&& (v.minor > MIN_SUPPORTED_MINOR || (v.minor == MIN_SUPPORTED_MINOR
        && v.patch >= MIN_SUPPORTED_PATCH))
}

impl SemVer {
    /// Whether this version satisfies the compatibility gate.
    pub fn compatible(&self) -> (r: bool)
        ensures
            r == spec_version_compatible(*self),
    {
        self.major == MIN_SUPPORTED_MAJOR && !self.pre
            && (self.minor > MIN_SUPPORTED_MINOR || (self.minor == MIN_SUPPORTED_MINOR
                && self.patch >= MIN_SUPPORTED_PATCH))
    }
}

/// What parsing a version string yields: the major/minor/patch triple and
/// pre-release presence, or nothing when the string is not a semantic
/// version. The result depends on the characters of the string alone.
pub uninterp spec fn parsed_version(s: Seq<char>) -> Option<(u64, u64, u64, bool)>;

/// Relies on semver::Version::parse: whether a string parses as a semantic
/// version, and the major/minor/patch numbers and pre-release presence it
/// parses to, are a function of the string alone.
#[verifier::external_body]
fn parse_version(s: &String) -> (r: Option<(u64, u64, u64, bool)>)
    ensures
        r == parsed_version(s@),
{
    match semver::Version::parse(s) {
        Ok(v) => Some((v.major, v.minor, v.patch, !v.pre.is_empty())),
        Err(_) => None,
    }
}

/// How many entry-point symbols, besides the version query, the core table
/// requires.
pub const CORE_SYMBOL_COUNT: usize = 20;

/// The symbol whose resolved function reports the library's version.
pub fn version_symbol_name() -> (r: &'static str)
    ensures
        r@ == "TfLiteVersion"@,
{
    "TfLiteVersion"
}

/// The required entry-point symbols of the core table, besides the version
/// query, in binding order.
pub fn core_symbol_names() -> (r: Vec<&'static str>)
    ensures
        r@.len() == CORE_SYMBOL_COUNT,
        r@[0]@ == "TfLiteModelCreate"@,
        r@[1]@ == "TfLiteModelDelete"@,
        r@[2]@ == "TfLiteInterpreterOptionsCreate"@,
        r@[3]@ == "TfLiteInterpreterOptionsDelete"@,
        r@[4]@ == "TfLiteInterpreterOptionsSetNumThreads"@,
        r@[5]@ == "TfLiteInterpreterOptionsAddDelegate"@,
        r@[6]@ == "TfLiteInterpreterCreate"@,
        r@[7]@ == "TfLiteInterpreterDelete"@,
        r@[8]@ == "TfLiteInterpreterGetInputTensorCount"@,
        r@[9]@ == "TfLiteInterpreterGetInputTensor"@,
        r@[10]@ == "TfLiteInterpreterAllocateTensors"@,
        r@[11]@ == "TfLiteInterpreterInvoke"@,
        r@[12]@ == "TfLiteInterpreterGetOutputTensorCount"@,
        r@[13]@ == "TfLiteInterpreterGetOutputTensor"@,
        r@[14]@ == "TfLiteTensorType"@,
        r@[15]@ == "TfLiteTensorNumDims"@,
        r@[16]@ == "TfLiteTensorDim"@,
        r@[17]@ == "TfLiteTensorByteSize"@,
        r@[18]@ == "TfLiteTensorData"@,
        r@[19]@ == "TfLiteTensorName"@,
{
    let mut v: Vec<&'static str> = Vec::new();
    v.push("TfLiteModelCreate");
    v.push("TfLiteModelDelete");
    v.push("TfLiteInterpreterOptionsCreate");
    v.push("TfLiteInterpreterOptionsDelete");
    v.push("TfLiteInterpreterOptionsSetNumThreads");
    v.push("TfLiteInterpreterOptionsAddDelegate");
    v.push("TfLiteInterpreterCreate");
    v.push("TfLiteInterpreterDelete");
    v.push("TfLiteInterpreterGetInputTensorCount");
    v.push("TfLiteInterpreterGetInputTensor");
    v.push("TfLiteInterpreterAllocateTensors");
    v.push("TfLiteInterpreterInvoke");
    v.push("TfLiteInterpreterGetOutputTensorCount");
    v.push("TfLiteInterpreterGetOutputTensor");
    v.push("TfLiteTensorType");
    v.push("TfLiteTensorNumDims");
    v.push("TfLiteTensorDim");
    v.push("TfLiteTensorByteSize");
    v.push("TfLiteTensorData");
    v.push("TfLiteTensorName");
    v
}

/// When binding the core table succeeds: the version symbol answered with a
/// string, the string parses, the parsed version passes the compatibility
/// gate, and every required entry-point symbol was resolvable.
pub open spec fn spec_core_bind_ok(version_string: Option<String>, resolved: Seq<bool>) -> bool {
    &&& version_string matches Some(s)
    &&& parsed_version(s@) matches Some(t)
    &&& spec_version_compatible(SemVer { major: t.0, minor: t.1, patch: t.2, pre: t.3 })
    &&& (forall|i: int| 0 <= i < resolved.len() ==> resolved[i])
}

/// Binding is all-or-nothing: a report in which any one required symbol is
/// unresolved cannot bind, whatever the rest of the report says.
pub proof fn lemma_missing_symbol_fails(
    version_string: Option<String>,
    resolved: Seq<bool>,
    i: int,
)
    requires
        0 <= i < resolved.len(),
        !resolved[i],
    ensures
        !spec_core_bind_ok(version_string, resolved),
{
}

/// A missing version symbol, an unparseable version string, or a version
/// outside the compatibility gate cannot bind, whatever the symbol report
/// says.
pub proof fn lemma_bad_version_fails(version_string: Option<String>, resolved: Seq<bool>)
    requires
        (match version_string {
            Some(s) => match parsed_version(s@) {
                Some(t) => !spec_version_compatible(
                    SemVer { major: t.0, minor: t.1, patch: t.2, pre: t.3 },
                ),
                None => true,
            },
            None => true,
        }),
    ensures
        !spec_core_bind_ok(version_string, resolved),
{
}

/// The bound core table, as this layer sees it: the version the library
/// reported, validated against the compatibility gate. A value of this type
/// certifies that binding was all-or-nothing complete.
#[derive(Debug, Clone)]
pub struct TfLiteVt {
    /// The parsed, validated version of the loaded library.
    pub version: SemVer,
    /// The version string the library reported, verbatim.
    pub version_string: String,
}

impl TfLiteVt {
    /// Binds the core table from a symbol-resolution report.
    ///
    /// `version_string` is what calling the version-query function returned,
    /// or `None` when the version symbol itself was absent; `resolved[i]`
    /// says whether the `i`-th name of `core_symbol_names` was resolvable.
    /// Binding is all-or-nothing: one missing symbol, an unparseable version
    /// string, or an incompatible version fails the whole load.
    pub fn load(version_string: Option<String>, resolved: &Vec<bool>) -> (r: Result<TfLiteVt, Error>)
        requires
            resolved@.len() == CORE_SYMBOL_COUNT,
        ensures
            r is Ok <==> spec_core_bind_ok(version_string, resolved@),
            (r matches Ok(vt) ==> {
                &&& version_string matches Some(s)
                &&& vt.version_string@ == s@
                &&& parsed_version(s@) == Some(
                    (vt.version.major, vt.version.minor, vt.version.patch, vt.version.pre),
                )
                &&& spec_version_compatible(vt.version)
            }),
            r is Err ==> r == Err::<TfLiteVt, Error>(Error::FailedToLoad),
    {
        let mut i: usize = 0;
        while i < resolved.len()
            invariant
                i <= resolved@.len(),
                forall|j: int| 0 <= j < i ==> resolved@[j],
            decreases resolved@.len() - i,
        {
            if !resolved[i] {
                return Err(Error::FailedToLoad);
            }
            i += 1;
        }
        let vs = match version_string {
            Some(s) => s,
            None => {
                return Err(Error::FailedToLoad);
            },
        };
        let (major, minor, patch, pre) = match parse_version(&vs) {
            Some(t) => t,
            None => {
                return Err(Error::FailedToLoad);
            },
        };
        let version = SemVer { major, minor, patch, pre };
        if !version.compatible() {
            return Err(Error::FailedToLoad);
        }
        Ok(TfLiteVt { version, version_string: vs })
    }
}

} // verus!
