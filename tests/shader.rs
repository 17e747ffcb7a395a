use render_session::shader::{
    attrib_location, check_program, CompileResult, LinkResult, ShaderError, ShaderPolicy,
    ShaderStage, OUTPUT_COLOR_SLOT,
};

fn compiled(stage: ShaderStage, ok: bool, log: &str) -> CompileResult {
    CompileResult { stage, ok, log: log.to_string() }
}

#[test]
fn lenient_policy_goes_on_after_failures() {
    let r = check_program(
        ShaderPolicy::Lenient,
        compiled(ShaderStage::Vertex, false, "syntax error"),
        compiled(ShaderStage::Fragment, false, "syntax error"),
        LinkResult { ok: false, log: "not linked".to_string() },
    );
    assert!(r.is_ok());
}

#[test]
fn fail_fast_reports_first_failure() {
    let r = check_program(
        ShaderPolicy::FailFast,
        compiled(ShaderStage::Vertex, true, ""),
        compiled(ShaderStage::Fragment, false, "0:3: undeclared"),
        LinkResult { ok: false, log: "not linked".to_string() },
    );
    match r {
        Err(ShaderError::Compile { stage, log }) => {
            assert_eq!(stage, ShaderStage::Fragment);
            assert_eq!(log, "0:3: undeclared");
        }
        _ => panic!("expected a compile error"),
    }
    let r = check_program(
        ShaderPolicy::FailFast,
        compiled(ShaderStage::Vertex, true, ""),
        compiled(ShaderStage::Fragment, true, ""),
        LinkResult { ok: false, log: "outColor unbound".to_string() },
    );
    match r {
        Err(ShaderError::Link { log }) => assert_eq!(log, "outColor unbound"),
        _ => panic!("expected a link error"),
    }
    let r = check_program(
        ShaderPolicy::FailFast,
        compiled(ShaderStage::Vertex, true, ""),
        compiled(ShaderStage::Fragment, true, ""),
        LinkResult { ok: true, log: String::new() },
    );
    assert!(r.is_ok());
}

#[test]
fn absent_name_has_no_location() {
    assert_eq!(attrib_location(-1), None);
    assert_eq!(attrib_location(0), Some(0));
    assert_eq!(attrib_location(3), Some(3));
    assert_eq!(OUTPUT_COLOR_SLOT, 0);
}
