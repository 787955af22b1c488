use fern::dispatch::Endpoint;
use fern::filter::{first_rejecting, starts_with};
use fern::format::{prefix, render_pieces, wrap};
use fern::{Delivery, Dispatch, Filter, Level, LevelFilter, Metadata, Output, Piece};

fn lines(ds: &[Delivery]) -> Vec<(Endpoint, String)> {
    ds.iter().map(|d| (d.endpoint, d.line.clone())).collect()
}

#[test]
fn below_warn_reaches_no_sink() {
    let d = Dispatch::new().level(LevelFilter::Warn).chain(Output::Stdout).chain(Output::File(3));
    for level in [Level::Info, Level::Debug, Level::Trace] {
        assert!(d.route(&Metadata::new(level, "app"), "hello").is_empty());
    }
    for level in [Level::Error, Level::Warn] {
        assert_eq!(d.route(&Metadata::new(level, "app"), "hello").len(), 2);
    }
}

#[test]
fn override_beats_default_level() {
    let d = Dispatch::new()
        .level(LevelFilter::Error)
        .level_for("mod::x", LevelFilter::Debug)
        .chain(Output::Custom(7));
    let r = d.route(&Metadata::new(Level::Debug, "mod::x"), "m");
    assert_eq!(lines(&r), vec![(Endpoint::Custom(7), "m".to_string())]);
    assert!(d.route(&Metadata::new(Level::Debug, "mod::y"), "m").is_empty());
    assert!(d.route(&Metadata::new(Level::Debug, "mod::x::z"), "m").is_empty());
    assert_eq!(d.route(&Metadata::new(Level::Error, "mod::y"), "m").len(), 1);
    assert!(d.route(&Metadata::new(Level::Trace, "mod::x"), "m").is_empty());
}

#[test]
fn later_override_replaces_earlier() {
    let d = Dispatch::new()
        .level_for("a", LevelFilter::Off)
        .level_for("a", LevelFilter::Info);
    assert_eq!(d.effective_level(&"a".to_string()), LevelFilter::Info);
    assert_eq!(d.effective_level(&"b".to_string()), LevelFilter::Trace);
}

#[test]
fn nested_formatters_compose() {
    let child = Dispatch::new().format(prefix("X:")).chain(Output::Stdout);
    let root = Dispatch::new().format(wrap("[", "]")).chain(Output::Dispatch(Box::new(child)));
    let r = root.route(&Metadata::new(Level::Info, "t"), "hi");
    assert_eq!(lines(&r), vec![(Endpoint::Stdout, "X:[hi]".to_string())]);
}

#[test]
fn filters_stop_at_first_failure() {
    let fs = vec![Filter::Constant(false), Filter::TargetIs("t".to_string())];
    let meta = Metadata::new(Level::Info, "t");
    assert_eq!(first_rejecting(&fs, &meta), Some(0));
    let fs = vec![Filter::TargetStartsWith("t".to_string()), Filter::TargetIsNot("t".to_string())];
    assert_eq!(first_rejecting(&fs, &meta), Some(1));
    let fs = vec![Filter::LevelWithin(LevelFilter::Info), Filter::Constant(true)];
    assert_eq!(first_rejecting(&fs, &meta), None);
    let d = Dispatch::new().filter(Filter::Constant(false)).chain(Output::Stdout);
    assert!(d.route(&meta, "x").is_empty());
}

#[test]
fn fan_out_follows_chain_order() {
    let d = Dispatch::new().chain(Output::Custom(1)).chain(Output::Custom(2)).chain(Output::Stderr);
    for msg in ["a", "b"] {
        let r = d.route(&Metadata::new(Level::Warn, "t"), msg);
        assert_eq!(
            lines(&r),
            vec![
                (Endpoint::Custom(1), msg.to_string()),
                (Endpoint::Custom(2), msg.to_string()),
                (Endpoint::Stderr, msg.to_string()),
            ]
        );
    }
}

#[test]
fn rejected_record_stays_rejected() {
    let d = Dispatch::new().level(LevelFilter::Off).format(wrap("<", ">")).chain(Output::Stdout);
    let meta = Metadata::new(Level::Error, "t");
    assert!(d.route(&meta, "x").is_empty());
    assert!(d.route(&meta, "x").is_empty());
    assert!(!d.accepts(&meta));
}

#[test]
fn lines_keep_order_and_format() {
    let d = Dispatch::new()
        .format(vec![
            Piece::Text("[".to_string()),
            Piece::LevelName,
            Piece::Text("][".to_string()),
            Piece::Target,
            Piece::Text("] ".to_string()),
            Piece::Message,
        ])
        .chain(Output::File(0));
    let mut out = Vec::new();
    let msgs = ["one", "two", "three"];
    for m in msgs {
        d.route_into(&Metadata::new(Level::Info, "app::db"), m, &mut out);
    }
    let got: Vec<String> = out.iter().map(|x| x.line.clone()).collect();
    assert_eq!(got, vec!["[INFO][app::db] one", "[INFO][app::db] two", "[INFO][app::db] three"]);
    assert!(out.iter().all(|x| x.endpoint == Endpoint::File(0)));
}

#[test]
fn nested_node_narrows_scope() {
    let quiet = Dispatch::new().level(LevelFilter::Warn).chain(Output::File(9));
    let root = Dispatch::new().chain(Output::Stdout).chain(Output::Dispatch(Box::new(quiet)));
    let r = root.route(&Metadata::new(Level::Info, "t"), "i");
    assert_eq!(lines(&r), vec![(Endpoint::Stdout, "i".to_string())]);
    let r = root.route(&Metadata::new(Level::Error, "t"), "e");
    assert_eq!(lines(&r), vec![(Endpoint::Stdout, "e".to_string()), (Endpoint::File(9), "e".to_string())]);
}

#[test]
fn empty_tree_and_empty_template() {
    let d = Dispatch::new();
    assert!(d.route(&Metadata::new(Level::Error, ""), "x").is_empty());
    let meta = Metadata::new(Level::Trace, "t");
    assert_eq!(render_pieces(&vec![], "x", &meta), "");
    assert_eq!(render_pieces(&vec![Piece::Message, Piece::Message], "ab", &meta), "abab");
}

#[test]
fn prefix_test_on_strings() {
    assert!(starts_with("mod::x", "mod"));
    assert!(starts_with("mod", "mod"));
    assert!(starts_with("mod", ""));
    assert!(!starts_with("mo", "mod"));
    assert!(!starts_with("mad::x", "mod"));
}

#[test]
fn level_names_and_ranks() {
    assert_eq!(Level::Error.as_str(), "ERROR");
    assert_eq!(Level::Trace.as_str(), "TRACE");
    assert_eq!(Level::Warn.rank(), 2);
    assert_eq!(LevelFilter::Off.rank(), 0);
    assert!(!LevelFilter::Off.allows(Level::Error));
    assert!(LevelFilter::Debug.allows(Level::Debug));
    assert!(!LevelFilter::Debug.allows(Level::Trace));
}
