use usage_tracker::{FileFormat, UsageTrackerError};

fn text(s: &str) -> String {
    String::from(s)
}

#[test]
fn errors_about_objects_name_the_object() {
    assert_eq!(
        UsageTrackerError::ObjectAlreadyTracked { name: text("kettle") }.message(),
        "object \"kettle\" is already tracked"
    );
    assert_eq!(
        UsageTrackerError::ObjectNeverUsed { name: text("kettle") }.message(),
        "object \"kettle\" has never been used"
    );
    assert_eq!(
        UsageTrackerError::ObjectNotTracked { name: text("kettle") }.message(),
        "object \"kettle\" doesn't exist"
    );
    assert_eq!(
        UsageTrackerError::ObjectNotTracked { name: text("") }.message(),
        "object \"\" doesn't exist"
    );
    assert_eq!(UsageTrackerError::ObjectNotTracked { name: text("kettle") }.cause(), None);
}

#[test]
fn errors_about_files_name_the_file() {
    assert_eq!(
        UsageTrackerError::PathIsNotFile { path: text("/data/usages.json") }.message(),
        "found directory instead of file: /data/usages.json"
    );
    assert_eq!(
        UsageTrackerError::ParseError {
            path: text("/data/usages.json"),
            format: FileFormat::Json,
            cause: text("eof"),
        }
        .message(),
        "could not parse JSON file: /data/usages.json"
    );
    assert_eq!(
        UsageTrackerError::ParseError {
            path: text("/data/default.ron"),
            format: FileFormat::Ron,
            cause: text("eof"),
        }
        .message(),
        "could not load data from RON file: /data/default.ron"
    );
    assert_eq!(
        UsageTrackerError::UnsupportedFormat { extension: text("toml") }.message(),
        "\"toml\" is not a supported file format"
    );
    assert_eq!(UsageTrackerError::FormatNotSpecified.message(), "file format not specified");
    assert_eq!(UsageTrackerError::FormatNotSpecified.cause(), None);
}

#[test]
fn errors_with_a_cause_hand_it_out() {
    let ron = UsageTrackerError::FileLoadErrorRon(text("1:3: unexpected end"));
    assert_eq!(ron.message(), "RON file could not be loaded");
    assert_eq!(ron.cause(), Some(text("1:3: unexpected end")));
    let io = UsageTrackerError::IoError {
        context: text("couldn't clear data file path"),
        cause: text("permission denied"),
    };
    assert_eq!(io.message(), "couldn't clear data file path");
    assert_eq!(io.cause(), Some(text("permission denied")));
    let parse = UsageTrackerError::ParseError {
        path: text("a.json"),
        format: FileFormat::Json,
        cause: text("eof"),
    };
    assert_eq!(parse.cause(), Some(text("eof")));
    assert_eq!(parse.clone(), parse);
}
