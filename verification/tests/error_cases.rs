use orion_error::{
    convert_error, CallContext, DomainReason, ErrorCode, ErrorWith, StructError, StructReason,
    TestAssertWithMsg, UvsReason, WithContext,
};

// A small domain reason type, as a calling module would define one.
#[derive(Debug, PartialEq, Clone)]
enum TestDomainReason {
    Why1,
    Uvs(UvsReason),
}

impl DomainReason for TestDomainReason {
    fn text(&self) -> String {
        match self {
            TestDomainReason::Why1 => "why1".to_string(),
            TestDomainReason::Uvs(u) => u.text(),
        }
    }

    fn from_uvs(u: UvsReason) -> Self {
        TestDomainReason::Uvs(u)
    }
}

impl ErrorCode for TestDomainReason {
    fn error_code(&self) -> i32 {
        match self {
            TestDomainReason::Why1 => 200,
            TestDomainReason::Uvs(uvs_reason) => uvs_reason.error_code(),
        }
    }
}

// Another domain reason type, for conversion tests.
#[derive(Debug, PartialEq, Clone)]
enum OtherDomainReason {
    Why2,
    Uvs(UvsReason),
}

impl DomainReason for OtherDomainReason {
    fn text(&self) -> String {
        match self {
            OtherDomainReason::Why2 => "why1".to_string(),
            OtherDomainReason::Uvs(u) => u.text(),
        }
    }

    fn from_uvs(u: UvsReason) -> Self {
        OtherDomainReason::Uvs(u)
    }
}

impl From<TestDomainReason> for OtherDomainReason {
    fn from(value: TestDomainReason) -> Self {
        match value {
            TestDomainReason::Why1 => Self::Why2,
            TestDomainReason::Uvs(uvs_reason) => Self::Uvs(uvs_reason),
        }
    }
}

#[test]
fn test_domain_error_creation() {
    let err = StructError::from(TestDomainReason::Why1);

    assert_eq!(err.reason(), &StructReason::Domain(TestDomainReason::Why1));
    assert_eq!(err.error_code(), 200);
}

#[test]
fn test_error_with_details() {
    let err = StructError::from(TestDomainReason::Why1).with_detail("detailed message");

    assert_eq!(err.detail(), &Some("detailed message".to_string()));
}

#[test]
fn test_error_context() {
    let mut ctx = WithContext::want("user_profile");
    ctx.with("user_id", "12345");

    let err = StructError::from(TestDomainReason::Why1).with(ctx);

    assert_eq!(err.target(), Some("user_profile".to_string()));
    assert!(err
        .context()
        .first()
        .unwrap()
        .context()
        .items
        .contains(&("user_id".into(), "12345".into())));
}

#[test]
fn test_error_conversion() {
    let original = StructError::from(TestDomainReason::Why1)
        .with_detail("conversion test")
        .with_position("test.rs:1")
        .with_context(WithContext::want("ctx").context().clone());

    let converted: StructError<OtherDomainReason> = convert_error(original);

    assert_eq!(
        converted.reason(),
        &StructReason::Domain(OtherDomainReason::Why2)
    );
    assert_eq!(converted.detail(), &Some("conversion test".into()));
}

#[test]
fn test_error_display() {
    let mut ctx = WithContext::new();
    ctx.with("step", "initialization");
    ctx.with("resource", "database");

    let err = StructError::from(TestDomainReason::Uvs(UvsReason::core_conf(
        "config missing",
    )))
    .with_detail("missing db config")
    .position("src/config.rs:42")
    .want("database_config")
    .with(ctx);

    let display_output = err.to_text();
    println!("{display_output}");

    assert!(display_output.contains("[300]"));
    assert!(display_output.contains("configuration error << core config > config missing"));
    assert!(display_output.contains("-> At: src/config.rs:42"));
    assert!(display_output.contains("-> Want: database_config"));
    assert!(display_output.contains("-> Details: missing db config"));
    assert!(display_output.contains("Context stack:"));
    assert!(display_output.contains("1. step: initialization"));
    assert!(display_output.contains("2. resource: database"));
}

#[test]
#[should_panic]
fn test_error_assertions() {
    let result: Result<(), _> = StructError::from(TestDomainReason::Why1).err();

    result.confirm("This should panic with domain error");
}

#[test]
fn test_struct_error_new_parts() {
    let mut context = CallContext::default();
    context
        .items
        .push(("key1".to_string(), "value1".to_string()));

    let error = StructError::new(
        StructReason::Domain(TestDomainReason::Why1),
        Some("Detailed error description".to_string()),
        Some("file.rs:10:5".to_string()),
        vec![WithContext::from(context)],
    );

    assert_eq!(error.detail(), &Some("Detailed error description".to_string()));
    assert_eq!(error.context().len(), 1);
    let rendered = error.to_text();
    assert!(rendered.contains("file.rs:10:5"));
}
