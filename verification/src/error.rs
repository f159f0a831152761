//! The bridge's model of an engine error: its kind, its display strings and
//! its chain of causes, all held as plain values, plus the mapping from the
//! engine's open-ended kind enumeration onto the fixed discriminant set that
//! C-style callers poll.

use vstd::prelude::*;

verus! {

/// The template engine's error-kind enumeration as the bridge models it: the
/// kinds the engine defines today, plus `Unrecognized` standing for any kind a
/// later engine version may add.
#[derive(Clone, Copy, Debug, PartialEq, Eq, Structural)]
pub enum EngineErrorKind {
    NonPrimitive,
    NonKey,
    InvalidOperation,
    SyntaxError,
    TemplateNotFound,
    TooManyArguments,
    MissingArgument,
    UnknownFilter,
    UnknownTest,
    UnknownFunction,
    UnknownMethod,
    BadEscape,
    UndefinedError,
    BadSerialization,
    CannotDeserialize,
    BadInclude,
    EvalBlock,
    CannotUnpack,
    WriteFailure,
    OutOfFuel,
    InvalidDelimiter,
    UnknownBlock,
    Unrecognized,
}

/// One entry of an error's cause chain, flattened to plain values: the cause's
/// display string, whether the cause is an engine error attached to a named
/// template, and in that case the cause's own debug rendering.
#[derive(Clone, Debug, PartialEq)]
pub struct CauseEntry {
    pub message: String,
    pub named: bool,
    pub debug_info: String,
}

/// An engine error as the bridge holds it: every field the polling accessors
/// and the diagnostic report read, as plain values.
#[derive(Clone, Debug, PartialEq)]
pub struct BridgeError {
    pub kind: EngineErrorKind,
    /// The error's own display string.
    pub message: String,
    pub detail: Option<String>,
    pub template_name: Option<String>,
    pub line: Option<u32>,
    /// The engine's debug rendering of the error; empty when none is attached.
    pub debug_info: String,
    pub causes: Vec<CauseEntry>,
}

impl BridgeError {
    /// An error the bridge itself raises, carrying a kind and a detail string.
    pub fn new(kind: EngineErrorKind, detail: &str) -> (r: BridgeError)
        ensures
            r.kind == kind,
            r.message@ == detail@,
            r.detail matches Some(d) && d@ == detail@,
            r.template_name is None,
            r.line is None,
            r.debug_info@ == Seq::<char>::empty(),
            r.causes@ =~= Seq::<CauseEntry>::empty(),
    {
        BridgeError {
            kind,
            message: detail.to_owned(),
            detail: Some(detail.to_owned()),
            template_name: None,
            line: None,
            debug_info: String::new(),
            causes: Vec::new(),
        }
    }

    /// An engine error wrapping a host exception: kind `InvalidOperation`,
    /// with the host exception's display string as detail and as the single
    /// entry of the cause chain.
    pub fn from_host_exception(message: &str) -> (r: BridgeError)
        ensures
            r.kind == EngineErrorKind::InvalidOperation,
            r.message@ == message@,
            r.detail matches Some(d) && d@ == message@,
            r.template_name is None,
            r.line is None,
            r.causes@.len() == 1,
            r.causes@[0].message@ == message@,
            !r.causes@[0].named,
    {
        let mut causes: Vec<CauseEntry> = Vec::new();
        causes.push(CauseEntry {
            message: message.to_owned(),
            named: false,
            debug_info: String::new(),
        });
        BridgeError {
            kind: EngineErrorKind::InvalidOperation,
            message: message.to_owned(),
            detail: Some(message.to_owned()),
            template_name: None,
            line: None,
            debug_info: String::new(),
            causes,
        }
    }
}

/// The fixed discriminant set exposed across the C-style boundary.
#[allow(non_camel_case_types)]
#[derive(Clone, Copy, Debug, PartialEq, Eq, Structural)]
pub enum mj_err_kind {
    MJ_ERR_KIND_NON_PRIMITIVE,
    MJ_ERR_KIND_NON_KEY,
    MJ_ERR_KIND_INVALID_OPERATION,
    MJ_ERR_KIND_SYNTAX_ERROR,
    MJ_ERR_KIND_TEMPLATE_NOT_FOUND,
    MJ_ERR_KIND_TOO_MANY_ARGUMENTS,
    MJ_ERR_KIND_MISSING_ARGUMENT,
    MJ_ERR_KIND_UNKNOWN_FILTER,
    MJ_ERR_KIND_UNKNOWN_FUNCTION,
    MJ_ERR_KIND_UNKNOWN_TEST,
    MJ_ERR_KIND_UNKNOWN_METHOD,
    MJ_ERR_KIND_BAD_ESCAPE,
    MJ_ERR_KIND_UNDEFINED_ERROR,
    MJ_ERROR_KIND_BAD_SERIALIZTION,
    MJ_ERR_KIND_BAD_INCLUDE,
    MJ_ERR_KIND_EVAL_BLOCK,
    MJ_ERR_KIND_CANNOT_UNPACK,
    MJ_ERR_KIND_WRITE_FAILURE,
    MJ_ERR_KIND_UNKNOWN,
}

/// The fixed mapping from engine kinds to C discriminants. `None` for every
/// kind outside the fixed set: those degrade to `MJ_ERR_KIND_UNKNOWN` at the
/// boundary instead of failing it.
pub open spec fn fixed_kind_of(value: EngineErrorKind) -> Option<mj_err_kind> {
    match value {
        EngineErrorKind::NonPrimitive => Some(mj_err_kind::MJ_ERR_KIND_NON_PRIMITIVE),
        EngineErrorKind::NonKey => Some(mj_err_kind::MJ_ERR_KIND_NON_KEY),
        EngineErrorKind::InvalidOperation => Some(mj_err_kind::MJ_ERR_KIND_INVALID_OPERATION),
        EngineErrorKind::SyntaxError => Some(mj_err_kind::MJ_ERR_KIND_SYNTAX_ERROR),
        EngineErrorKind::TemplateNotFound => Some(mj_err_kind::MJ_ERR_KIND_TEMPLATE_NOT_FOUND),
        EngineErrorKind::TooManyArguments => Some(mj_err_kind::MJ_ERR_KIND_TOO_MANY_ARGUMENTS),
        EngineErrorKind::MissingArgument => Some(mj_err_kind::MJ_ERR_KIND_MISSING_ARGUMENT),
        EngineErrorKind::UnknownFilter => Some(mj_err_kind::MJ_ERR_KIND_UNKNOWN_FILTER),
        EngineErrorKind::UnknownTest => Some(mj_err_kind::MJ_ERR_KIND_UNKNOWN_TEST),
        EngineErrorKind::UnknownFunction => Some(mj_err_kind::MJ_ERR_KIND_UNKNOWN_FUNCTION),
        EngineErrorKind::UnknownMethod => Some(mj_err_kind::MJ_ERR_KIND_UNKNOWN_METHOD),
        EngineErrorKind::BadEscape => Some(mj_err_kind::MJ_ERR_KIND_BAD_ESCAPE),
        EngineErrorKind::UndefinedError => Some(mj_err_kind::MJ_ERR_KIND_UNDEFINED_ERROR),
        EngineErrorKind::BadSerialization => Some(mj_err_kind::MJ_ERROR_KIND_BAD_SERIALIZTION),
        EngineErrorKind::BadInclude => Some(mj_err_kind::MJ_ERR_KIND_BAD_INCLUDE),
        EngineErrorKind::EvalBlock => Some(mj_err_kind::MJ_ERR_KIND_EVAL_BLOCK),
        EngineErrorKind::CannotUnpack => Some(mj_err_kind::MJ_ERR_KIND_CANNOT_UNPACK),
        EngineErrorKind::WriteFailure => Some(mj_err_kind::MJ_ERR_KIND_WRITE_FAILURE),
        _ => None,
    }
}

impl mj_err_kind {
    /// Maps an engine kind into the fixed discriminant set; fails exactly on
    /// the kinds outside it.
    pub fn try_from(value: EngineErrorKind) -> (r: Result<mj_err_kind, ()>)
        ensures
            r matches Ok(k) ==> fixed_kind_of(value) == Some(k),
            r is Err <==> fixed_kind_of(value) is None,
    {
        match value {
            EngineErrorKind::NonPrimitive => Ok(mj_err_kind::MJ_ERR_KIND_NON_PRIMITIVE),
            EngineErrorKind::NonKey => Ok(mj_err_kind::MJ_ERR_KIND_NON_KEY),
            EngineErrorKind::InvalidOperation => Ok(mj_err_kind::MJ_ERR_KIND_INVALID_OPERATION),
            EngineErrorKind::SyntaxError => Ok(mj_err_kind::MJ_ERR_KIND_SYNTAX_ERROR),
            EngineErrorKind::TemplateNotFound => Ok(mj_err_kind::MJ_ERR_KIND_TEMPLATE_NOT_FOUND),
            EngineErrorKind::TooManyArguments => Ok(mj_err_kind::MJ_ERR_KIND_TOO_MANY_ARGUMENTS),
            EngineErrorKind::MissingArgument => Ok(mj_err_kind::MJ_ERR_KIND_MISSING_ARGUMENT),
            EngineErrorKind::UnknownFilter => Ok(mj_err_kind::MJ_ERR_KIND_UNKNOWN_FILTER),
            EngineErrorKind::UnknownTest => Ok(mj_err_kind::MJ_ERR_KIND_UNKNOWN_TEST),
            EngineErrorKind::UnknownFunction => Ok(mj_err_kind::MJ_ERR_KIND_UNKNOWN_FUNCTION),
            EngineErrorKind::UnknownMethod => Ok(mj_err_kind::MJ_ERR_KIND_UNKNOWN_METHOD),
            EngineErrorKind::BadEscape => Ok(mj_err_kind::MJ_ERR_KIND_BAD_ESCAPE),
            EngineErrorKind::UndefinedError => Ok(mj_err_kind::MJ_ERR_KIND_UNDEFINED_ERROR),
            EngineErrorKind::BadSerialization => Ok(mj_err_kind::MJ_ERROR_KIND_BAD_SERIALIZTION),
            EngineErrorKind::BadInclude => Ok(mj_err_kind::MJ_ERR_KIND_BAD_INCLUDE),
            EngineErrorKind::EvalBlock => Ok(mj_err_kind::MJ_ERR_KIND_EVAL_BLOCK),
            EngineErrorKind::CannotUnpack => Ok(mj_err_kind::MJ_ERR_KIND_CANNOT_UNPACK),
            EngineErrorKind::WriteFailure => Ok(mj_err_kind::MJ_ERR_KIND_WRITE_FAILURE),
            _ => Err(()),
        }
    }
}

/// Forward compatibility of the kind mapping: a kind outside the fixed
/// discriminant set never fails the boundary, it degrades to the `Unknown`
/// discriminant.
pub proof fn lemma_unfixed_kind_degrades_to_unknown(value: EngineErrorKind)
    requires
        fixed_kind_of(value) is None,
    ensures
        polled_kind_of(Some(value)) == mj_err_kind::MJ_ERR_KIND_UNKNOWN,
{
}

/// What the polling accessor reports for a slot holding an error of the given
/// kind (`None`: no error is set): the fixed discriminant where one exists,
/// `Unknown` otherwise.
pub open spec fn polled_kind_of(kind: Option<EngineErrorKind>) -> mj_err_kind {
    match kind {
        Some(k) => match fixed_kind_of(k) {
            Some(d) => d,
            None => mj_err_kind::MJ_ERR_KIND_UNKNOWN,
        },
        None => mj_err_kind::MJ_ERR_KIND_UNKNOWN,
    }
}

} // verus!
