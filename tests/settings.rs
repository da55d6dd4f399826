use qsv_config::config::{
    Config, Overrides, QuoteStyle, SelectColumns, SniffedDialect, Terminator, Trim,
    DEFAULT_RDR_BUFFER_CAPACITY, DEFAULT_WTR_BUFFER_CAPACITY,
};
use qsv_config::delimiter::Delimiter;
use qsv_config::stream::{ReadSource, WriteTarget};

fn cfg(p: &str) -> Config {
    Config::new(&Some(p.to_string()), &Overrides::none())
}

#[test]
fn defaults_of_a_new_config() {
    let c = cfg("a.csv");
    assert_eq!(c.get_read_buffer(), DEFAULT_RDR_BUFFER_CAPACITY);
    assert_eq!(c.get_write_buffer(), DEFAULT_WTR_BUFFER_CAPACITY);
    assert_eq!(DEFAULT_RDR_BUFFER_CAPACITY, 128 * 1024);
    assert_eq!(DEFAULT_WTR_BUFFER_CAPACITY, 512 * 1024);
    assert!(!c.no_headers);
    assert_eq!(c.quote, b'"');
    assert_eq!(c.preamble_rows, 0);
    assert!(!c.get_dmy_preference());
    let o = c.reader_options();
    assert!(o.has_headers);
    assert_eq!(o.comment, None);
    assert_eq!(o.trim, Trim::Nothing);
    let w = c.writer_options();
    assert_eq!(w.escape, b'\\');
    assert_eq!(w.terminator, Terminator::Any(b'\n'));
    assert_eq!(w.quote_style, QuoteStyle::Necessary);
    assert!(!w.bom);
}

#[test]
fn environment_buffers_and_threshold() {
    let env = Overrides {
        read_buffer: Some(10),
        write_buffer: Some(20),
        autoindex_size: 5,
        prefer_dmy: true,
        ..Overrides::none()
    };
    let c = Config::new(&Some("a.csv".to_string()), &env);
    assert_eq!(c.get_read_buffer(), 10);
    assert_eq!(c.get_write_buffer(), 20);
    assert_eq!(c.get_autoindex_size(), 5);
    assert!(c.get_dmy_preference());
}

#[test]
fn builders_update_fields() {
    let c = cfg("a.csv")
        .delimiter(Some(Delimiter(b';')))
        .flexible(true)
        .quote(b'\'')
        .quote_style(QuoteStyle::Always)
        .double_quote(false)
        .escape(Some(b'#'))
        .quoting(false)
        .trim(Trim::All)
        .crlf(true)
        .read_buffer(7)
        .write_buffer(9)
        .comment(Some(b'%'));
    let r = c.reader_options();
    assert_eq!(r.delimiter, b';');
    assert!(r.flexible);
    assert_eq!(r.quote, b'\'');
    assert!(!r.quoting);
    assert_eq!(r.escape, Some(b'#'));
    assert_eq!(r.buffer_capacity, 7);
    assert_eq!(r.comment, Some(b'%'));
    assert_eq!(r.trim, Trim::All);
    let w = c.writer_options();
    assert_eq!(w.terminator, Terminator::CRLF);
    assert_eq!(w.quote_style, QuoteStyle::Always);
    assert!(!w.double_quote);
    assert_eq!(w.escape, b'#');
    assert_eq!(w.buffer_capacity, 9);
    let c = c.delimiter(None).terminator(Terminator::Any(b';')).crlf(false);
    assert_eq!(c.get_delimiter(), b';');
    assert_eq!(c.writer_options().terminator, Terminator::Any(b'\n'));
}

#[test]
fn header_flag_with_toggles() {
    assert!(cfg("a.csv").no_headers(true).no_headers);
    assert!(!cfg("a.csv").no_headers(false).no_headers);
    let toggle = Overrides { toggle_headers: true, ..Overrides::none() };
    let c = Config::new(&Some("a.csv".to_string()), &toggle);
    assert!(!c.clone().no_headers(true).no_headers);
    assert!(c.no_headers(false).no_headers);
    let force = Overrides { no_headers: true, toggle_headers: true, ..Overrides::none() };
    let c = Config::new(&Some("a.csv".to_string()), &force);
    assert!(c.clone().no_headers(false).no_headers);
    assert!(c.no_headers(true).no_headers);
}

#[test]
fn environment_comment_wins() {
    let env = Overrides { comment: Some(b'#'), ..Overrides::none() };
    let c = Config::new(&Some("a.csv".to_string()), &env).comment(Some(b'%'));
    assert_eq!(c.reader_comment(), Some(b'#'));
    assert_eq!(c.clone().comment(None).reader_options().comment, Some(b'#'));
    assert_eq!(cfg("a.csv").comment(Some(b'%')).reader_comment(), Some(b'%'));
}

#[test]
fn bom_goes_to_every_writer() {
    let env = Overrides { output_bom: true, ..Overrides::none() };
    assert!(Config::new(&None, &env).writer_options().bom);
    assert!(Config::new(&Some("sink".to_string()), &env).writer_options().bom);
}

#[test]
fn sniffing() {
    let c = cfg("a.csv");
    assert_eq!(c.sniff_path(), None);
    let c = c.sniffed(Some(SniffedDialect { delimiter: b'|', preamble_rows: 3 }));
    assert_eq!(c.get_delimiter(), b'|');
    assert_eq!(c.preamble_rows, 3);
    let c = c.sniffed(None);
    assert_eq!(c.get_delimiter(), b'|');
    let env = Overrides { sniff: true, ..Overrides::none() };
    let c = Config::new(&Some("a.csv".to_string()), &env);
    assert_eq!(c.sniff_path(), Some("a.csv".to_string()));
    assert_eq!(Config::new(&Some("-".to_string()), &env).sniff_path(), None);
}

#[test]
fn selection_needs_select() {
    let c = cfg("a.csv");
    assert_eq!(
        c.selection().err(),
        Some("Config has no 'SelectColumns'. Did you call Config::select?".to_string())
    );
    let c = c.select(SelectColumns::new("1-3".to_string())).no_headers(true);
    let (sel, first_is_header) = c.selection().unwrap();
    assert_eq!(sel.expression(), "1-3");
    assert!(!first_is_header);
}

#[test]
fn read_sources() {
    assert_eq!(Config::new(&None, &Overrides::none()).read_source(), ReadSource::Stdin);
    assert_eq!(
        cfg("a.csv.sz").read_source(),
        ReadSource::File { path: "a.csv.sz".to_string(), decompress: true }
    );
    assert_eq!(
        cfg("a.csv").read_source(),
        ReadSource::File { path: "a.csv".to_string(), decompress: false }
    );
}

#[test]
fn write_targets() {
    assert_eq!(Config::new(&None, &Overrides::none()).write_target(), WriteTarget::Stdout);
    assert_eq!(cfg("sink").write_target(), WriteTarget::Sink);
    assert_eq!(
        cfg("out.tsv.sz").write_target(),
        WriteTarget::File { path: "out.tsv.sz".to_string(), compress: true }
    );
    assert_eq!(
        cfg("sink.csv").write_target(),
        WriteTarget::File { path: "sink.csv".to_string(), compress: false }
    );
}
