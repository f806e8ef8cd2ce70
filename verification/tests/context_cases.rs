use orion_error::{CallContext, ContextAdd, ContextTake, OperationContext};
use std::path::{Path, PathBuf};

#[test]
fn test_withcontext_new() {
    let ctx = OperationContext::new();
    assert!(ctx.target().is_none());
    assert_eq!(ctx.context().items.len(), 0);
}

#[test]
fn test_withcontext_want() {
    let ctx = OperationContext::want("test_target");
    assert_eq!(*ctx.target(), Some("test_target".to_string()));
    assert_eq!(ctx.context().items.len(), 0);
}

#[test]
fn test_withcontext_with() {
    let mut ctx = OperationContext::new();
    ctx.with("key1", "value1");
    ctx.with("key2", "value2");

    assert_eq!(ctx.context().items.len(), 2);
    assert_eq!(
        ctx.context().items[0],
        ("key1".to_string(), "value1".to_string())
    );
    assert_eq!(
        ctx.context().items[1],
        ("key2".to_string(), "value2".to_string())
    );
}

#[test]
fn test_withcontext_with_path() {
    let mut ctx = OperationContext::new();
    let path = PathBuf::from("/test/path");
    ctx.with_path("file_path", path.to_str().unwrap());

    assert_eq!(ctx.context().items.len(), 1);
    assert!(ctx.context().items[0].1.contains("/test/path"));
}

#[test]
fn test_withcontext_with_want() {
    let mut ctx = OperationContext::new();
    ctx.with_want("new_target");

    assert_eq!(*ctx.target(), Some("new_target".to_string()));
}

#[test]
fn test_errcontext_from_string() {
    let ctx = CallContext::from(("key".to_string(), "test_string".to_string()));
    assert_eq!(ctx.items.len(), 1);
    assert_eq!(ctx.items[0], ("key".to_string(), "test_string".to_string()));
}

#[test]
fn test_errcontext_from_str() {
    let ctx = CallContext::from(("key", "test_str"));
    assert_eq!(ctx.items.len(), 1);
    assert_eq!(ctx.items[0], ("key".to_string(), "test_str".to_string()));
}

#[test]
fn test_errcontext_from_string_pair() {
    let ctx = CallContext::from(("key1".to_string(), "value1".to_string()));
    assert_eq!(ctx.items.len(), 1);
    assert_eq!(ctx.items[0], ("key1".to_string(), "value1".to_string()));
}

#[test]
fn test_errcontext_from_str_pair() {
    let ctx = CallContext::from(("key1", "value1"));
    assert_eq!(ctx.items.len(), 1);
    assert_eq!(ctx.items[0], ("key1".to_string(), "value1".to_string()));
}

#[test]
fn test_errcontext_from_mixed_pair() {
    let ctx = CallContext::from(("key1", "value1".to_string()));
    assert_eq!(ctx.items.len(), 1);
    assert_eq!(ctx.items[0], ("key1".to_string(), "value1".to_string()));
}

#[test]
fn test_errcontext_default() {
    let ctx = CallContext::default();
    assert_eq!(ctx.items.len(), 0);
}

#[test]
fn test_errcontext_display_single() {
    let ctx = CallContext::from(("key", "test"));
    let display = ctx.to_text();
    assert!(display.contains("call context:"));
    assert!(display.contains("key : test"));
}

#[test]
fn test_errcontext_display_multiple() {
    let mut ctx = CallContext::default();
    ctx.items.push(("key1".to_string(), "value1".to_string()));
    ctx.items.push(("key2".to_string(), "value2".to_string()));
    let display = ctx.to_text();
    assert!(display.contains("call context:"));
    assert!(display.contains("key1 : value1"));
    assert!(display.contains("key2 : value2"));
}

#[test]
fn test_errcontext_display_empty() {
    let ctx = CallContext::default();
    let display = ctx.to_text();
    assert_eq!(display, "");
}

#[test]
fn test_withcontext_from_string() {
    let ctx = OperationContext::from("test_string".to_string());
    assert!(ctx.target().is_none());
    assert_eq!(ctx.context().items.len(), 1);
    assert_eq!(
        ctx.context().items[0],
        ("key".to_string(), "test_string".to_string())
    );
}

#[test]
fn test_withcontext_from_str() {
    let ctx = OperationContext::from("test_str".to_string());
    assert!(ctx.target().is_none());
    assert_eq!(ctx.context().items.len(), 1);
    assert_eq!(
        ctx.context().items[0],
        ("key".to_string(), "test_str".to_string())
    );
}

#[test]
fn test_withcontext_from_pathbuf() {
    let path = PathBuf::from("/test/path");
    let ctx = OperationContext::from(("path", path.to_str().unwrap()));
    assert!(ctx.target().is_none());
    assert_eq!(ctx.context().items.len(), 1);
    assert!(ctx.context().items[0].1.contains("/test/path"));
}

#[test]
fn test_withcontext_from_path() {
    let path = "/test/path";
    let ctx = OperationContext::from(path);
    assert!(ctx.target().is_none());
    assert_eq!(ctx.context().items.len(), 1);
    assert!(ctx.context().items[0].1.contains("/test/path"));
}

#[test]
fn test_withcontext_from_string_pair() {
    let ctx = OperationContext::from(("key1".to_string(), "value1".to_string()));
    assert!(ctx.target().is_none());
    assert_eq!(ctx.context().items.len(), 1);
    assert_eq!(
        ctx.context().items[0],
        ("key1".to_string(), "value1".to_string())
    );
}

#[test]
fn test_withcontext_from_str_pair() {
    let ctx = OperationContext::from(("key1", "value1"));
    assert!(ctx.target().is_none());
    assert_eq!(ctx.context().items.len(), 1);
    assert_eq!(
        ctx.context().items[0],
        ("key1".to_string(), "value1".to_string())
    );
}

#[test]
fn test_withcontext_from_mixed_pair() {
    let ctx = OperationContext::from(("key1", "value1".to_string()));
    assert!(ctx.target().is_none());
    assert_eq!(ctx.context().items.len(), 1);
    assert_eq!(
        ctx.context().items[0],
        ("key1".to_string(), "value1".to_string())
    );
}

#[test]
fn test_withcontext_from_path_pair() {
    let path = PathBuf::from("/test/path");
    let ctx = OperationContext::from(("file", path.to_string_lossy().as_ref()));
    assert!(ctx.target().is_none());
    assert_eq!(ctx.context().items.len(), 1);
    assert!(ctx.context().items[0].0.contains("file"));
    assert!(ctx.context().items[0].1.contains("/test/path"));
}

#[test]
fn test_withcontext_display_with_target() {
    let mut ctx = OperationContext::want("test_target");
    ctx.with("key1", "value1");
    let display = ctx.to_text();
    assert!(display.contains("target: test_target"));
    assert!(display.contains("1. key1: value1"));
}

#[test]
fn test_withcontext_display_without_target() {
    let mut ctx = OperationContext::new();
    ctx.with("key1", "value1");
    let display = ctx.to_text();
    assert!(!display.contains("target:"));
    assert!(display.contains("1. key1: value1"));
}

#[test]
fn test_withcontext_from_errcontext() {
    let err_ctx = CallContext::from(("key1", "value1"));
    let ctx = OperationContext::from(err_ctx);
    assert!(ctx.target().is_none());
    assert_eq!(ctx.context().items.len(), 1);
    assert_eq!(
        ctx.context().items[0],
        ("key1".to_string(), "value1".to_string())
    );
}

#[test]
fn test_withcontext_from_withcontext() {
    let mut ctx1 = OperationContext::want("target1");
    ctx1.with("key1", "value1");
    let ctx2 = OperationContext::from(&ctx1);
    assert_eq!(*ctx2.target(), Some("target1".to_string()));
    assert_eq!(ctx2.context().items.len(), 1);
    assert_eq!(
        ctx2.context().items[0],
        ("key1".to_string(), "value1".to_string())
    );
}

#[test]
fn test_withcontext_from_str_path_pair() {
    let path = PathBuf::from("/test/path");
    let ctx = OperationContext::from(("file", path.to_str().unwrap()));
    assert_eq!(ctx.context().items.len(), 1);
    assert_eq!(ctx.context().items[0].0, "file");
    assert!(ctx.context().items[0].1.contains("/test/path"));
}

#[test]
fn test_withcontext_from_str_pathbuf_pair() {
    let path = PathBuf::from("/test/pathbuf");
    let ctx = OperationContext::from(("file", path.to_str().unwrap()));
    assert_eq!(ctx.context().items.len(), 1);
    assert_eq!(ctx.context().items[0].0, "file");
    assert!(ctx.context().items[0].1.contains("/test/pathbuf"));
}

#[test]
fn test_withcontext_edge_cases() {
    let ctx1 = OperationContext::from("".to_string());
    assert_eq!(ctx1.context().items.len(), 1);
    assert_eq!(ctx1.context().items[0], ("key".to_string(), "".to_string()));

    let ctx2 = OperationContext::from(("".to_string(), "".to_string()));
    assert_eq!(ctx2.context().items.len(), 1);
    assert_eq!(ctx2.context().items[0], ("".to_string(), "".to_string()));
}

#[test]
fn test_errcontext_equality() {
    let ctx1 = CallContext::from(("key1", "value1"));
    let ctx2 = CallContext::from(("key1", "value1"));
    let ctx3 = CallContext::from(("key1", "value2"));

    assert_eq!(ctx1, ctx2);
    assert_ne!(ctx1, ctx3);
}

#[test]
fn test_withcontext_equality() {
    let ctx1 = OperationContext::from(("key1", "value1"));
    let ctx2 = OperationContext::from(("key1", "value1"));
    let ctx3 = OperationContext::from(("key1", "value2"));

    assert_eq!(ctx1, ctx2);
    assert_ne!(ctx1, ctx3);
}

#[test]
fn test_withcontext_clone() {
    let mut ctx = OperationContext::want("target");
    ctx.with("key", "value");

    let cloned = ctx.clone();
    assert_eq!(ctx.target(), cloned.target());
    assert_eq!(ctx.context().items.len(), cloned.context().items.len());
    assert_eq!(ctx.context().items[0], cloned.context().items[0]);
}

#[test]
fn test_withcontext_with_types() {
    let mut ctx = OperationContext::new();

    ctx.with("string_key", "string_value");
    ctx.with("string_key", &42.to_string());
    ctx.with("bool_key", &true.to_string());

    assert_eq!(ctx.context().items.len(), 3);

    assert_eq!(
        ctx.context().items[2],
        ("bool_key".to_string(), "true".to_string())
    );
}

#[test]
fn test_mark_suc() {
    let mut ctx = OperationContext::new();
    assert!(!ctx.is_suc());

    ctx.mark_suc();
    assert!(ctx.is_suc());
}

#[test]
fn test_with_exit_log() {
    let ctx = OperationContext::new().with_exit_log();
    assert!(ctx.exit_log());

    let ctx2 = OperationContext::want("test").with_exit_log();
    assert!(ctx2.exit_log());
    assert_eq!(*ctx2.target(), Some("test".to_string()));
}

#[test]
fn test_format_context_with_target() {
    let mut ctx = OperationContext::want("test_target");
    ctx.with("key1", "value1");

    let formatted = ctx.format_context();
    assert_eq!(formatted, "test_target: \ncall context:\n\tkey1 : value1\n");
}

#[test]
fn test_format_context_without_target() {
    let mut ctx = OperationContext::new();
    ctx.with("key1", "value1");

    let formatted = ctx.format_context();
    assert_eq!(formatted, ": \ncall context:\n\tkey1 : value1\n");
}

#[test]
fn test_format_context_empty() {
    let ctx = OperationContext::new();
    let formatted = ctx.format_context();
    assert_eq!(formatted, "");
}

#[test]
fn test_format_context_with_target_only() {
    let ctx = OperationContext::want("test_target");
    let formatted = ctx.format_context();
    assert_eq!(formatted, "test_target");
}

#[test]
fn test_logging_methods() {
    let ctx = OperationContext::want("test_target");

    let _ = ctx.info("info message");
    let _ = ctx.debug("debug message");
    let _ = ctx.warn("warn message");
    let _ = ctx.error("error message");
    let _ = ctx.trace("trace message");
}

#[test]
fn test_logging_methods_with_empty_context() {
    let ctx = OperationContext::new();

    let _ = ctx.info("info message");
    let _ = ctx.debug("debug message");
    let _ = ctx.warn("warn message");
    let _ = ctx.error("error message");
    let _ = ctx.trace("trace message");
}

#[test]
fn test_context_add_trait() {
    let mut ctx = OperationContext::new();

    ctx.add_context(("key1", "value1"));
    ctx.add_context(("key2", "value2"));

    assert_eq!(ctx.context().items.len(), 2);
    assert_eq!(
        ctx.context().items[0],
        ("key1".to_string(), "value1".to_string())
    );
    assert_eq!(
        ctx.context().items[1],
        ("key2".to_string(), "value2".to_string())
    );
}

#[test]
fn test_drop_trait_with_success() {
    {
        let mut ctx = OperationContext::want("test_drop").with_exit_log();
        ctx.with("operation", "test");
        ctx.mark_suc();
        let line = ctx.exit_line();
        assert!(line.starts_with("suc!"));
    }
}

#[test]
fn test_drop_trait_with_failure() {
    {
        let mut ctx = OperationContext::want("test_drop_fail").with_exit_log();
        ctx.with("operation", "test_fail");
        let line = ctx.exit_line();
        assert!(line.starts_with("fail!"));
    }
}

#[test]
fn test_drop_trait_without_exit_log() {
    {
        let mut ctx = OperationContext::want("test_no_log");
        ctx.with("operation", "no_log");
        ctx.mark_suc();
        assert!(!ctx.exit_log());
    }
}

#[test]
fn test_complex_context_scenario() {
    let mut ctx = OperationContext::want("user_registration").with_exit_log();

    ctx.with("user_id", "12345");
    ctx.with("email", "test@example.com");
    ctx.with("role", "user");

    let _ = ctx.info("registration started");
    let _ = ctx.debug("validating input");
    let _ = ctx.warn("possible security risk");

    ctx.mark_suc();
    let _ = ctx.info("registration finished");

    assert!(ctx.is_suc());
    assert!(ctx.exit_log());
    assert_eq!(*ctx.target(), Some("user_registration".to_string()));
    assert_eq!(ctx.context().items.len(), 3);

    let formatted = ctx.format_context();
    assert!(formatted.contains("user_registration"));
    assert!(formatted.contains("user_id"));
    assert!(formatted.contains("email"));
    assert!(formatted.contains("role"));
}

#[test]
fn test_context_with_special_characters() {
    let mut ctx = OperationContext::new();

    ctx.with("key_with_spaces", "value with spaces");
    ctx.with("key_with_unicode", "\u{503c}\u{5305}\u{542b}\u{4e2d}\u{6587}");
    ctx.with("key_with_symbols", "value@#$%^&*()");

    assert_eq!(ctx.context().items.len(), 3);
    assert_eq!(
        ctx.context().items[0],
        (
            "key_with_spaces".to_string(),
            "value with spaces".to_string()
        )
    );
    assert_eq!(
        ctx.context().items[1],
        (
            "key_with_unicode".to_string(),
            "\u{503c}\u{5305}\u{542b}\u{4e2d}\u{6587}".to_string()
        )
    );
    assert_eq!(
        ctx.context().items[2],
        ("key_with_symbols".to_string(), "value@#$%^&*()".to_string())
    );

    let display = ctx.to_text();
    assert!(display.contains("key_with_spaces"));
    assert!(display.contains("\u{503c}\u{5305}\u{542b}\u{4e2d}\u{6587}"));
    assert!(display.contains("value@#$%^&*()"));
}

#[test]
fn test_context_builder_pattern() {
    let ctx = OperationContext::want("builder_test").with_exit_log();

    assert_eq!(*ctx.target(), Some("builder_test".to_string()));
    assert!(ctx.exit_log());
}

#[test]
fn test_context_multiple_with_calls() {
    let mut ctx = OperationContext::new();

    ctx.with("key1", "value1");
    ctx.with("key2", "value2");
    ctx.with("key3", "value3");
    ctx.with("key1", "new_value1");

    assert_eq!(ctx.context().items.len(), 4);
    assert_eq!(
        ctx.context().items[0],
        ("key1".to_string(), "value1".to_string())
    );
    assert_eq!(
        ctx.context().items[3],
        ("key1".to_string(), "new_value1".to_string())
    );
}

#[test]
fn test_context_from_various_types() {
    let ctx1 = OperationContext::from("simple_string");
    assert_eq!(
        ctx1.context().items[0],
        ("key".to_string(), "simple_string".to_string())
    );

    let ctx2 = OperationContext::from(("custom_key", "custom_value"));
    assert_eq!(
        ctx2.context().items[0],
        ("custom_key".to_string(), "custom_value".to_string())
    );

    let path = PathBuf::from("/test/path/file.txt");
    let ctx3 = OperationContext::from(("path", path.to_str().unwrap()));
    assert!(ctx3.context().items[0].0.contains("path"));
    assert!(ctx3.context().items[0].1.contains("/test/path/file.txt"));
}

#[test]
fn test_context_take_with_string_types() {
    let mut ctx = OperationContext::new();

    ctx.take("string_key", "string_value");
    ctx.take("string_key2", String::from("string_value2"));
    ctx.take(String::from("string_key3"), "string_value3");
    ctx.take(String::from("string_key4"), String::from("string_value4"));

    assert_eq!(ctx.context().items.len(), 4);
    assert_eq!(
        ctx.context().items[0],
        ("string_key".to_string(), "string_value".to_string())
    );
    assert_eq!(
        ctx.context().items[1],
        ("string_key2".to_string(), "string_value2".to_string())
    );
    assert_eq!(
        ctx.context().items[2],
        ("string_key3".to_string(), "string_value3".to_string())
    );
    assert_eq!(
        ctx.context().items[3],
        ("string_key4".to_string(), "string_value4".to_string())
    );
}

#[test]
fn test_context_take_with_numeric_types() {
    let mut ctx = OperationContext::new();

    ctx.take("int_key", 42.to_string());
    ctx.take("float_key", 3.14.to_string());
    ctx.take("bool_key", true.to_string());

    assert_eq!(ctx.context().items.len(), 3);
    assert_eq!(
        ctx.context().items[0],
        ("int_key".to_string(), "42".to_string())
    );
    assert_eq!(
        ctx.context().items[1],
        ("float_key".to_string(), "3.14".to_string())
    );
    assert_eq!(
        ctx.context().items[2],
        ("bool_key".to_string(), "true".to_string())
    );
}

#[test]
fn test_context_take_with_path_context() {
    let mut ctx = OperationContext::new();

    let path1 = PathBuf::from("/test/path1.txt");
    let path2 = Path::new("/test/path2.txt");

    ctx.take("file1", path1.to_str().unwrap());
    ctx.take("file2", path2.to_str().unwrap());

    assert_eq!(ctx.context().items.len(), 2);
    assert_eq!(ctx.context().items[0].0, "file1");
    assert!(ctx.context().items[0].1.contains("/test/path1.txt"));
    assert_eq!(ctx.context().items[1].0, "file2");
    assert!(ctx.context().items[1].1.contains("/test/path2.txt"));
}

#[test]
fn test_context_take_mixed_types() {
    let mut ctx = OperationContext::new();

    ctx.take("name", "test_user");
    ctx.take("age", 25.to_string());
    ctx.take("config_file", PathBuf::from("/etc/config.toml").to_str().unwrap());
    ctx.take("status", "active");

    assert_eq!(ctx.context().items.len(), 4);
    assert_eq!(
        ctx.context().items[0],
        ("name".to_string(), "test_user".to_string())
    );
    assert_eq!(
        ctx.context().items[1],
        ("age".to_string(), "25".to_string())
    );
    assert_eq!(ctx.context().items[2].0, "config_file");
    assert!(ctx.context().items[2].1.contains("/etc/config.toml"));
    assert_eq!(
        ctx.context().items[3],
        ("status".to_string(), "active".to_string())
    );
}

#[test]
fn test_context_take_edge_cases() {
    let mut ctx = OperationContext::new();

    ctx.take("", "");
    ctx.take("empty_value", "");
    ctx.take("", "empty_key");
    ctx.take("special_chars", "@#$%^&*()");
    ctx.take("unicode", "\u{6d4b}\u{8bd5}\u{4e2d}\u{6587}\u{5b57}\u{7b26}");

    assert_eq!(ctx.context().items.len(), 5);
    assert_eq!(ctx.context().items[0], ("".to_string(), "".to_string()));
    assert_eq!(
        ctx.context().items[1],
        ("empty_value".to_string(), "".to_string())
    );
    assert_eq!(
        ctx.context().items[2],
        ("".to_string(), "empty_key".to_string())
    );
    assert_eq!(
        ctx.context().items[3],
        ("special_chars".to_string(), "@#$%^&*()".to_string())
    );
    assert_eq!(
        ctx.context().items[4],
        ("unicode".to_string(), "\u{6d4b}\u{8bd5}\u{4e2d}\u{6587}\u{5b57}\u{7b26}".to_string())
    );
}

#[test]
fn test_context_take_multiple_calls() {
    let mut ctx = OperationContext::new();

    ctx.take("key1", "value1");
    ctx.take("key2", "value2");
    ctx.take("key1", "new_value1");
    ctx.take("key3", PathBuf::from("/path/file.txt").to_str().unwrap());
    ctx.take("key2", PathBuf::from("/path/file2.txt").to_str().unwrap());

    assert_eq!(ctx.context().items.len(), 5);
    assert_eq!(
        ctx.context().items[0],
        ("key1".to_string(), "value1".to_string())
    );
    assert_eq!(
        ctx.context().items[1],
        ("key2".to_string(), "value2".to_string())
    );
    assert_eq!(
        ctx.context().items[2],
        ("key1".to_string(), "new_value1".to_string())
    );
    assert_eq!(ctx.context().items[3].0, "key3");
    assert!(ctx.context().items[3].1.contains("/path/file.txt"));
    assert_eq!(ctx.context().items[4].0, "key2");
    assert!(ctx.context().items[4].1.contains("/path/file2.txt"));
}

#[test]
fn test_context_take_with_existing_context() {
    let mut ctx = OperationContext::from(("existing_key", "existing_value"));

    ctx.take("new_key1", "new_value1");
    ctx.take("new_key2", PathBuf::from("/new/path.txt").to_str().unwrap());

    assert_eq!(ctx.context().items.len(), 3);
    assert_eq!(
        ctx.context().items[0],
        ("existing_key".to_string(), "existing_value".to_string())
    );
    assert_eq!(
        ctx.context().items[1],
        ("new_key1".to_string(), "new_value1".to_string())
    );
    assert_eq!(ctx.context().items[2].0, "new_key2");
    assert!(ctx.context().items[2].1.contains("/new/path.txt"));
}
