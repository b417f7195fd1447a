use jrny::logger::{Color, Level, Logger, Print, Stream};

#[test]
fn information_and_graver_is_shown() {
    assert!(Logger.enabled(Level::Error));
    assert!(Logger.enabled(Level::Warn));
    assert!(Logger.enabled(Level::Info));
    assert!(!Logger.enabled(Level::Debug));
    assert!(!Logger.enabled(Level::Trace));
}

#[test]
fn warnings_go_to_the_error_stream_in_red() {
    assert_eq!(
        Logger.log(Level::Warn),
        Some(Print { stream: Stream::Stderr, color: Some(Color::Red) })
    );
}

#[test]
fn other_messages_go_to_the_output_stream() {
    let plain = Some(Print { stream: Stream::Stdout, color: None });
    assert_eq!(Logger.log(Level::Info), plain);
    assert_eq!(Logger.log(Level::Error), plain);
}

#[test]
fn what_is_not_shown_is_not_printed() {
    assert_eq!(Logger.log(Level::Debug), None);
    assert_eq!(Logger.log(Level::Trace), None);
}
