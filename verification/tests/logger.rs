use asr_capi::logger::{level_code, should_forward, LogLevel};

#[test]
fn info_and_more_severe_are_forwarded() {
    assert!(should_forward(LogLevel::Error));
    assert!(should_forward(LogLevel::Warn));
    assert!(should_forward(LogLevel::Info));
    assert!(!should_forward(LogLevel::Debug));
    assert!(!should_forward(LogLevel::Trace));
}

#[test]
fn level_codes_count_from_most_severe() {
    assert_eq!(level_code(LogLevel::Error), 1);
    assert_eq!(level_code(LogLevel::Warn), 2);
    assert_eq!(level_code(LogLevel::Info), 3);
    assert_eq!(level_code(LogLevel::Debug), 4);
    assert_eq!(level_code(LogLevel::Trace), 5);
}
