use sqlbridge::pythonmanager::{
    parse_python_version, parse_u32, python_check_report, python_version_status, PythonVersionStatus,
};

#[test]
fn parses_version_line() {
    assert_eq!(parse_python_version("Python 3.10.11"), Some((3, 10, 11)));
    assert_eq!(parse_python_version("  Python\t3.9.7\r\n"), Some((3, 9, 7)));
    assert_eq!(parse_python_version("Python 3.10.11.2"), Some((3, 10, 11)));
}

#[test]
fn rejects_malformed_version_lines() {
    assert_eq!(parse_python_version("Python 3.10"), None);
    assert_eq!(parse_python_version("Python 3.10.11rc1"), None);
    assert_eq!(parse_python_version("Python"), None);
    assert_eq!(parse_python_version(""), None);
    assert_eq!(parse_python_version("Python 3..1"), None);
}

#[test]
fn parses_u32_like_std() {
    assert_eq!(parse_u32("42"), Some(42));
    assert_eq!(parse_u32("+7"), Some(7));
    assert_eq!(parse_u32("+"), None);
    assert_eq!(parse_u32(""), None);
    assert_eq!(parse_u32("4294967295"), Some(u32::MAX));
    assert_eq!(parse_u32("4294967296"), None);
    assert_eq!(parse_u32("-1"), None);
    assert_eq!(parse_u32("00012"), Some(12));
}

#[test]
fn version_status() {
    assert_eq!(python_version_status("Python 3.10.4"), PythonVersionStatus::Supported);
    assert_eq!(python_version_status("Python 3.11.0"), PythonVersionStatus::Unsupported);
    assert_eq!(python_version_status("garbage"), PythonVersionStatus::Unreadable);
}

#[test]
fn check_report_messages() {
    assert_eq!(python_check_report("Python 3.10.4\r\n"), Ok("Python 3.10.* is installed. (Python 3.10.4)".to_string()));
    assert_eq!(python_check_report(" Python 3.12.1\n"), Err("Python 3.10.* is not installed. Found: Python 3.12.1".to_string()));
    assert_eq!(python_check_report("oops\n"), Err("Failed to parse Python version: oops".to_string()));
}
