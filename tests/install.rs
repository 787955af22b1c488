use std::sync::{Arc, Mutex};

use fern::{Dispatch, InitError, Level, Metadata, Output};

struct Collect {
    tree: Dispatch,
    seen: Arc<Mutex<Vec<String>>>,
}

impl log::Log for Collect {
    fn enabled(&self, m: &log::Metadata) -> bool {
        let meta = Metadata::new(convert(m.level()), m.target());
        let accepted = self.tree.accepts(&meta);
        if accepted {
            self.seen.lock().unwrap().push(m.target().to_string());
        }
        accepted
    }

    fn log(&self, record: &log::Record) {
        let meta = Metadata::new(convert(record.level()), record.target());
        let text = record.args().to_string();
        for d in self.tree.route(&meta, &text) {
            self.seen.lock().unwrap().push(d.line);
        }
    }

    fn flush(&self) {}
}

fn convert(l: log::Level) -> Level {
    match l {
        log::Level::Error => Level::Error,
        log::Level::Warn => Level::Warn,
        log::Level::Info => Level::Info,
        log::Level::Debug => Level::Debug,
        log::Level::Trace => Level::Trace,
    }
}

fn send(level: log::Level, target: &str) -> bool {
    log::logger().enabled(&log::MetadataBuilder::new().level(level).target(target).build())
}

#[test]
fn second_installation_is_refused() {
    let first = Arc::new(Mutex::new(Vec::new()));
    let second = Arc::new(Mutex::new(Vec::new()));
    let a = Collect { tree: Dispatch::new().chain(Output::Stdout), seen: first.clone() };
    let b = Collect { tree: Dispatch::new().chain(Output::Stdout), seen: second.clone() };
    log::set_max_level(log::LevelFilter::Trace);
    assert!(log::set_boxed_logger(Box::new(a)).is_ok());
    let err = InitError::from(log::set_boxed_logger(Box::new(b)).unwrap_err());
    assert!(matches!(err, InitError::SetLoggerError(_)));
    assert_eq!(
        err.message(),
        "logging initialization failed: attempted to set a logger after the logging system was already initialized"
    );
    assert_eq!(err.description(), "logging system already initialized with different logger");
    assert!(send(log::Level::Info, "after"));
    assert_eq!(*first.lock().unwrap(), vec!["after".to_string()]);
    assert!(second.lock().unwrap().is_empty());
}

#[test]
fn io_error_message() {
    let err = InitError::from(std::io::Error::new(std::io::ErrorKind::Other, "boom"));
    assert!(matches!(err, InitError::Io(_)));
    assert_eq!(err.message(), "IO Error initializing logger: boom");
    assert_eq!(err.cause_text(), "boom");
    assert_eq!(err.description(), "IO error while initializing logging");
}
