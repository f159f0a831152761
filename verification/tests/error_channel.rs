use minijinja_bridge::channel::LastErrorSlot;
use minijinja_bridge::error::{mj_err_kind, BridgeError, CauseEntry, EngineErrorKind};

fn sample_error() -> BridgeError {
    BridgeError {
        kind: EngineErrorKind::SyntaxError,
        message: String::from("syntax error: unexpected end"),
        detail: Some(String::from("unexpected end")),
        template_name: Some(String::from("hello.txt")),
        line: Some(3),
        debug_info: String::from("--- debug ---"),
        causes: vec![
            CauseEntry {
                message: String::from("root cause"),
                named: false,
                debug_info: String::new(),
            },
        ],
    }
}

#[test]
fn empty_slot_reports_defaults() {
    let slot = LastErrorSlot::new();
    assert!(!slot.is_set());
    assert_eq!(slot.get_detail(), None);
    assert_eq!(slot.get_template_name(), None);
    assert_eq!(slot.get_line(), 0);
    assert_eq!(slot.get_kind(), mj_err_kind::MJ_ERR_KIND_UNKNOWN);
    assert!(slot.get_debug_info().is_none());
    assert!(slot.render_report().is_none());
}

#[test]
fn set_then_accessors_then_clear() {
    let mut slot = LastErrorSlot::new();
    slot.set(sample_error());
    assert!(slot.is_set());
    assert_eq!(slot.get_detail(), Some(String::from("unexpected end")));
    assert_eq!(slot.get_template_name(), Some(String::from("hello.txt")));
    assert_eq!(slot.get_line(), 3);
    assert_eq!(slot.get_kind(), mj_err_kind::MJ_ERR_KIND_SYNTAX_ERROR);
    slot.clear();
    assert!(!slot.is_set());
    assert_eq!(slot.get_line(), 0);
}

#[test]
fn last_write_wins() {
    let mut slot = LastErrorSlot::new();
    slot.set(sample_error());
    let second = BridgeError::new(EngineErrorKind::UnknownFilter, "no such filter");
    slot.set(second);
    assert_eq!(slot.get_kind(), mj_err_kind::MJ_ERR_KIND_UNKNOWN_FILTER);
    assert_eq!(slot.get_detail(), Some(String::from("no such filter")));
    assert_eq!(slot.get_line(), 0);
}

#[test]
fn debug_info_renders_head_and_causes() {
    let mut slot = LastErrorSlot::new();
    slot.set(sample_error());
    let info = slot.get_debug_info().unwrap();
    assert_eq!(info, "--- debug ---\n\ncaused by: root cause\n");
}

#[test]
fn debug_info_skips_head_without_template_name() {
    let mut slot = LastErrorSlot::new();
    let mut err = sample_error();
    err.template_name = None;
    slot.set(err);
    let info = slot.get_debug_info().unwrap();
    assert_eq!(info, "\ncaused by: root cause\n");
}

#[test]
fn named_cause_carries_its_own_debug_info() {
    let mut slot = LastErrorSlot::new();
    let mut err = sample_error();
    err.causes = vec![
        CauseEntry {
            message: String::from("inner template blew up"),
            named: true,
            debug_info: String::from("inner debug"),
        },
    ];
    slot.set(err);
    let info = slot.get_debug_info().unwrap();
    assert_eq!(
        info,
        "--- debug ---\n\ncaused by: inner template blew up\ninner debug\n"
    );
}

#[test]
fn report_lines_follow_the_chain() {
    let mut slot = LastErrorSlot::new();
    let mut err = sample_error();
    err.causes = vec![
        CauseEntry {
            message: String::from("first cause"),
            named: false,
            debug_info: String::new(),
        },
        CauseEntry {
            message: String::from("second cause"),
            named: true,
            debug_info: String::from("second debug"),
        },
    ];
    slot.set(err);
    let lines = slot.render_report().unwrap();
    assert_eq!(
        lines,
        vec![
            String::from("error: syntax error: unexpected end"),
            String::from("--- debug ---"),
            String::new(),
            String::from("caused by: first cause"),
            String::new(),
            String::from("caused by: second cause"),
            String::from("second debug"),
        ]
    );
}

#[test]
fn kind_mapping_covers_fixed_set_and_degrades() {
    assert_eq!(
        mj_err_kind::try_from(EngineErrorKind::NonPrimitive),
        Ok(mj_err_kind::MJ_ERR_KIND_NON_PRIMITIVE)
    );
    assert_eq!(
        mj_err_kind::try_from(EngineErrorKind::BadSerialization),
        Ok(mj_err_kind::MJ_ERROR_KIND_BAD_SERIALIZTION)
    );
    assert_eq!(
        mj_err_kind::try_from(EngineErrorKind::WriteFailure),
        Ok(mj_err_kind::MJ_ERR_KIND_WRITE_FAILURE)
    );
    // Kinds outside the fixed discriminant set fail the mapping itself ...
    assert_eq!(mj_err_kind::try_from(EngineErrorKind::OutOfFuel), Err(()));
    assert_eq!(mj_err_kind::try_from(EngineErrorKind::Unrecognized), Err(()));
    // ... and degrade to Unknown at the polling boundary.
    let mut slot = LastErrorSlot::new();
    let mut err = sample_error();
    err.kind = EngineErrorKind::OutOfFuel;
    slot.set(err);
    assert_eq!(slot.get_kind(), mj_err_kind::MJ_ERR_KIND_UNKNOWN);
}

#[test]
fn host_exception_wrapping_sets_kind_and_cause() {
    let err = BridgeError::from_host_exception("TypeError: bad operand");
    assert_eq!(err.kind, EngineErrorKind::InvalidOperation);
    assert_eq!(err.detail, Some(String::from("TypeError: bad operand")));
    assert_eq!(err.causes.len(), 1);
    assert_eq!(err.causes[0].message, "TypeError: bad operand");
    assert!(!err.causes[0].named);
}
