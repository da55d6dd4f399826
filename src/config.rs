use vstd::prelude::*;
use crate::delimiter::{Delimiter, COMMA};
use crate::dialect::{dialect_of, opt_string_view, resolve_dialect, same_text};

verus! {

/// The default capacity of a reader's buffer: 128 KiB.
pub const DEFAULT_RDR_BUFFER_CAPACITY: usize = 131072;

/// The default capacity of a writer's buffer: 512 KiB.
pub const DEFAULT_WTR_BUFFER_CAPACITY: usize = 524288;

/// How many records the dialect sniffer samples.
pub const DEFAULT_SNIFFER_SAMPLE: usize = 100;

/// The byte of a backslash, the escape a writer uses where none is set.
pub const BACKSLASH: u8 = 92;

/// The byte of a double quote.
pub const DOUBLE_QUOTE: u8 = 34;

/// The byte of a line feed.
pub const LINE_FEED: u8 = 10;

/// How records end.
#[derive(Clone, Copy, Debug, PartialEq, Eq, Structural)]
pub enum Terminator {
    /// A carriage return, a line feed, or the two together.
    CRLF,
    /// The given byte.
    Any(u8),
}

/// When a writer quotes a field.
#[derive(Clone, Copy, Debug, PartialEq, Eq, Structural)]
pub enum QuoteStyle {
    Always,
    Necessary,
    NonNumeric,
    Never,
}

/// Which fields a reader trims of white space.
#[derive(Clone, Copy, Debug, PartialEq, Eq, Structural)]
pub enum Trim {
    Nothing,
    Headers,
    Fields,
    All,
}

/// The settings that the environment of the process supplies, read once by the
/// caller and handed in as plain values.
#[derive(Clone, Copy, Debug, PartialEq, Eq, Structural)]
pub struct Overrides {
    /// The delimiter to use where the path does not decide it.
    pub default_delimiter: Option<Delimiter>,
    /// Whether the dialect of a file is to be sniffed.
    pub sniff: bool,
    /// The file size from which an index is built automatically; 0 turns this off.
    pub autoindex_size: u64,
    /// Whether dates are read day first.
    pub prefer_dmy: bool,
    /// The capacity of a reader's buffer, where it is set.
    pub read_buffer: Option<usize>,
    /// The capacity of a writer's buffer, where it is set.
    pub write_buffer: Option<usize>,
    /// Whether the meaning of the header flag is inverted.
    pub toggle_headers: bool,
    /// Whether inputs are always read as having no header row.
    pub no_headers: bool,
    /// A comment byte that wins over the one the caller sets.
    pub comment: Option<u8>,
    /// Whether a writer begins with a byte-order mark.
    pub output_bom: bool,
}

impl Overrides {
    /// The settings of an environment that sets nothing.
    pub fn none() -> (r: Overrides)
        ensures
            r.default_delimiter is None,
            !r.sniff,
            r.autoindex_size == 0,
            !r.prefer_dmy,
            r.read_buffer is None,
            r.write_buffer is None,
            !r.toggle_headers,
            !r.no_headers,
            r.comment is None,
            !r.output_bom,
    {
        Overrides {
            default_delimiter: None,
            sniff: false,
            autoindex_size: 0,
            prefer_dmy: false,
            read_buffer: None,
            write_buffer: None,
            toggle_headers: false,
            no_headers: false,
            comment: None,
            output_bom: false,
        }
    }
}

/// What a sniffer found out of a file's dialect.
#[derive(Clone, Copy, Debug, PartialEq, Eq, Structural)]
pub struct SniffedDialect {
    pub delimiter: u8,
    pub preamble_rows: u64,
}

/// A column-selection expression, resolved against a header row by its user.
#[derive(Clone, Debug)]
pub struct SelectColumns {
    expression: String,
}

impl View for SelectColumns {
    type V = Seq<char>;

    closed spec fn view(&self) -> Seq<char> {
        self.expression@
    }
}

impl SelectColumns {
    pub fn new(expression: String) -> (r: SelectColumns)
        ensures
            r@ == expression@,
    {
        SelectColumns { expression }
    }

    pub fn expression(&self) -> (r: &str)
        ensures
            r@ == self@,
    {
        self.expression.as_str()
    }
}

/// The options that a reader of delimited text is built with.
#[derive(Clone, Copy, Debug, PartialEq, Eq, Structural)]
pub struct ReaderOptions {
    pub flexible: bool,
    pub delimiter: u8,
    pub has_headers: bool,
    pub quote: u8,
    pub quoting: bool,
    pub escape: Option<u8>,
    pub buffer_capacity: usize,
    pub comment: Option<u8>,
    pub trim: Trim,
}

/// The options that a writer of delimited text is built with.
#[derive(Clone, Copy, Debug, PartialEq, Eq, Structural)]
pub struct WriterOptions {
    pub flexible: bool,
    pub delimiter: u8,
    pub terminator: Terminator,
    pub quote: u8,
    pub quote_style: QuoteStyle,
    pub double_quote: bool,
    pub escape: u8,
    pub buffer_capacity: usize,
    /// Whether the byte-order mark is written before any data.
    pub bom: bool,
}

/// The state of a configuration, as the contracts speak of it.
pub struct ConfigView {
    pub path: Option<Seq<char>>,
    pub index_path: Option<Seq<char>>,
    pub select_columns: Option<Seq<char>>,
    pub delimiter: u8,
    pub no_headers: bool,
    pub flexible: bool,
    pub terminator: Terminator,
    pub quote: u8,
    pub quote_style: QuoteStyle,
    pub double_quote: bool,
    pub escape: Option<u8>,
    pub quoting: bool,
    pub preamble_rows: u64,
    pub trim: Trim,
    pub autoindex_size: u64,
    pub prefer_dmy: bool,
    pub comment: Option<u8>,
    pub compressed: bool,
    pub read_buffer: usize,
    pub write_buffer: usize,
    pub overrides: Overrides,
}

/// How a stream of delimited text is read or written, and where.
#[derive(Clone, Debug)]
pub struct Config {
    /// The file; `None` stands for the standard stream.
    pub path: Option<String>,
    idx_path: Option<String>,
    select_columns: Option<SelectColumns>,
    delimiter: u8,
    pub no_headers: bool,
    flexible: bool,
    terminator: Terminator,
    pub quote: u8,
    quote_style: QuoteStyle,
    double_quote: bool,
    escape: Option<u8>,
    quoting: bool,
    pub preamble_rows: u64,
    trim: Trim,
    autoindex_size: u64,
    prefer_dmy: bool,
    comment: Option<u8>,
    snappy: bool,
    read_buffer: usize,
    write_buffer: usize,
    overrides: Overrides,
}

impl View for Config {
    type V = ConfigView;

    closed spec fn view(&self) -> ConfigView {
        ConfigView {
            path: opt_string_view(self.path),
            index_path: opt_string_view(self.idx_path),
            select_columns: match self.select_columns {
                Some(s) => Some(s@),
                None => None,
            },
            delimiter: self.delimiter,
            no_headers: self.no_headers,
            flexible: self.flexible,
            terminator: self.terminator,
            quote: self.quote,
            quote_style: self.quote_style,
            double_quote: self.double_quote,
            escape: self.escape,
            quoting: self.quoting,
            preamble_rows: self.preamble_rows,
            trim: self.trim,
            autoindex_size: self.autoindex_size,
            prefer_dmy: self.prefer_dmy,
            comment: self.comment,
            compressed: self.snappy,
            read_buffer: self.read_buffer,
            write_buffer: self.write_buffer,
            overrides: self.overrides,
        }
    }
}

/// The delimiter used where neither the path nor the caller sets one.
pub open spec fn default_delimiter(env: Overrides) -> u8 {
    match env.default_delimiter {
        Some(d) => d.0,
        None => COMMA,
    }
}

/// Whether a given endpoint names the standard stream.
pub open spec fn is_standard(path: Option<Seq<char>>) -> bool {
    match path {
        Some(p) => p == "-"@,
        None => true,
    }
}

/// The file, delimiter and compression that an endpoint resolves to.
pub open spec fn resolved(path: Option<Seq<char>>, env: Overrides) -> (Option<Seq<char>>, u8, bool) {
    if is_standard(path) {
        (None, default_delimiter(env), false)
    } else {
        let d = dialect_of(path->Some_0, default_delimiter(env));
        (path, d.0, d.1)
    }
}

pub open spec fn unwrap_or_usize(o: Option<usize>, d: usize) -> usize {
    match o {
        Some(v) => v,
        None => d,
    }
}

/// The header flag after a caller asks for `yes`.
pub open spec fn no_headers_after(env: Overrides, yes: bool) -> bool {
    env.no_headers || (if env.toggle_headers {
        !yes
    } else {
        yes
    })
}

pub open spec fn no_selection_message() -> Seq<char> {
    "Config has no 'SelectColumns'. Did you call Config::select?"@
}

pub open spec fn effective_comment(c: ConfigView) -> Option<u8> {
    if c.overrides.comment is Some {
        c.overrides.comment
    } else {
        c.comment
    }
}

pub open spec fn reader_options_of(c: ConfigView) -> ReaderOptions {
    ReaderOptions {
        flexible: c.flexible,
        delimiter: c.delimiter,
        has_headers: !c.no_headers,
        quote: c.quote,
        quoting: c.quoting,
        escape: c.escape,
        buffer_capacity: c.read_buffer,
        comment: effective_comment(c),
        trim: c.trim,
    }
}

pub open spec fn writer_options_of(c: ConfigView) -> WriterOptions {
    WriterOptions {
        flexible: c.flexible,
        delimiter: c.delimiter,
        terminator: c.terminator,
        quote: c.quote,
        quote_style: c.quote_style,
        double_quote: c.double_quote,
        escape: match c.escape {
            Some(e) => e,
            None => BACKSLASH,
        },
        buffer_capacity: c.write_buffer,
        bom: c.overrides.output_bom,
    }
}

impl Config {
    /// A configuration for the endpoint `path` (`None` or `-` for the standard
    /// stream), with its delimiter and compression worked out from the file's name.
    pub fn new(path: &Option<String>, env: &Overrides) -> (r: Config)
        ensures
            r@.path == resolved(opt_string_view(*path), *env).0,
            r@.delimiter == resolved(opt_string_view(*path), *env).1,
            r@.compressed == resolved(opt_string_view(*path), *env).2,
            r@.index_path is None,
            r@.select_columns is None,
            !r@.no_headers,
            !r@.flexible,
            r@.terminator == Terminator::Any(LINE_FEED),
            r@.quote == DOUBLE_QUOTE,
            r@.quote_style == QuoteStyle::Necessary,
            r@.double_quote,
            r@.escape is None,
            r@.quoting,
            r@.preamble_rows == 0,
            r@.trim == Trim::Nothing,
            r@.autoindex_size == env.autoindex_size,
            r@.prefer_dmy == env.prefer_dmy,
            r@.comment is None,
            r@.read_buffer == unwrap_or_usize(env.read_buffer, DEFAULT_RDR_BUFFER_CAPACITY),
            r@.write_buffer == unwrap_or_usize(env.write_buffer, DEFAULT_WTR_BUFFER_CAPACITY),
            r@.overrides == *env,
    {
        let default_delim = match env.default_delimiter {
            Some(d) => d.as_byte(),
            None => COMMA,
        };
        let (file, delim, snappy) = match path {
            None => (None, default_delim, false),
            Some(s) => {
                if same_text(s.as_str(), "-") {
                    (None, default_delim, false)
                } else {
                    let (d, z) = resolve_dialect(s.as_str(), default_delim);
                    (Some(s.clone()), d, z)
                }
            },
        };
        let read_buffer = match env.read_buffer {
            Some(n) => n,
            None => DEFAULT_RDR_BUFFER_CAPACITY,
        };
        let write_buffer = match env.write_buffer {
            Some(n) => n,
            None => DEFAULT_WTR_BUFFER_CAPACITY,
        };
        Config {
            path: file,
            idx_path: None,
            select_columns: None,
            delimiter: delim,
            no_headers: false,
            flexible: false,
            terminator: Terminator::Any(LINE_FEED),
            quote: DOUBLE_QUOTE,
            quote_style: QuoteStyle::Necessary,
            double_quote: true,
            escape: None,
            quoting: true,
            preamble_rows: 0,
            trim: Trim::Nothing,
            autoindex_size: env.autoindex_size,
            prefer_dmy: env.prefer_dmy,
            comment: None,
            snappy,
            read_buffer,
            write_buffer,
            overrides: *env,
        }
    }

    /// Applies what a sniffer found: its delimiter and its count of preamble rows.
    pub fn sniffed(self, found: Option<SniffedDialect>) -> (r: Config)
        ensures
            found is None ==> r@ == self@,
            found is Some ==> r@ == (ConfigView {
                delimiter: found->Some_0.delimiter,
                preamble_rows: found->Some_0.preamble_rows,
                ..self@
            }),
    {
        let mut c = self;
        if let Some(d) = found {
            c.delimiter = d.delimiter;
            c.preamble_rows = d.preamble_rows;
        }
        c
    }

    /// The file whose dialect is to be sniffed: the configured file, where sniffing
    /// is turned on.
    pub fn sniff_path(&self) -> (r: Option<String>)
        ensures
            opt_string_view(r) == (if self@.overrides.sniff {
                self@.path
            } else {
                None
            }),
    {
        if self.overrides.sniff {
            self.path.clone()
        } else {
            None
        }
    }

    /// Sets the index file to use instead of the one found beside the data.
    pub fn index_path(self, p: Option<String>) -> (r: Config)
        ensures
            r@ == (ConfigView { index_path: opt_string_view(p), ..self@ }),
    {
        let mut c = self;
        c.idx_path = p;
        c
    }

    pub fn delimiter(self, d: Option<Delimiter>) -> (r: Config)
        ensures
            d is None ==> r@ == self@,
            d is Some ==> r@ == (ConfigView { delimiter: d->Some_0.0, ..self@ }),
    {
        let mut c = self;
        if let Some(d) = d {
            c.delimiter = d.as_byte();
        }
        c
    }

    pub fn get_delimiter(&self) -> (r: u8)
        ensures
            r == self@.delimiter,
    {
        self.delimiter
    }

    pub fn comment(self, c: Option<u8>) -> (r: Config)
        ensures
            r@ == (ConfigView { comment: c, ..self@ }),
    {
        let mut n = self;
        n.comment = c;
        n
    }

    pub fn get_dmy_preference(&self) -> (r: bool)
        ensures
            r == self@.prefer_dmy,
    {
        self.prefer_dmy
    }

    /// Sets whether the first row is data rather than a header. The environment
    /// may invert the flag, and may force it on whatever the caller says.
    pub fn no_headers(self, yes: bool) -> (r: Config)
        ensures
            r@ == (ConfigView { no_headers: no_headers_after(self@.overrides, yes), ..self@ }),
    {
        let mut c = self;
        let wanted = if c.overrides.toggle_headers {
            !yes
        } else {
            yes
        };
        c.no_headers = c.overrides.no_headers || wanted;
        c
    }

    pub fn flexible(self, yes: bool) -> (r: Config)
        ensures
            r@ == (ConfigView { flexible: yes, ..self@ }),
    {
        let mut c = self;
        c.flexible = yes;
        c
    }

    /// Ends records with CRLF, or with a line feed.
    pub fn crlf(self, yes: bool) -> (r: Config)
        ensures
            r@ == (ConfigView {
                terminator: if yes {
                    Terminator::CRLF
                } else {
                    Terminator::Any(LINE_FEED)
                },
                ..self@
            }),
    {
        let mut c = self;
        c.terminator = if yes {
            Terminator::CRLF
        } else {
            Terminator::Any(LINE_FEED)
        };
        c
    }

    pub fn terminator(self, term: Terminator) -> (r: Config)
        ensures
            r@ == (ConfigView { terminator: term, ..self@ }),
    {
        let mut c = self;
        c.terminator = term;
        c
    }

    pub fn quote(self, quote: u8) -> (r: Config)
        ensures
            r@ == (ConfigView { quote: quote, ..self@ }),
    {
        let mut c = self;
        c.quote = quote;
        c
    }

    pub fn quote_style(self, style: QuoteStyle) -> (r: Config)
        ensures
            r@ == (ConfigView { quote_style: style, ..self@ }),
    {
        let mut c = self;
        c.quote_style = style;
        c
    }

    pub fn double_quote(self, yes: bool) -> (r: Config)
        ensures
            r@ == (ConfigView { double_quote: yes, ..self@ }),
    {
        let mut c = self;
        c.double_quote = yes;
        c
    }

    pub fn escape(self, escape: Option<u8>) -> (r: Config)
        ensures
            r@ == (ConfigView { escape: escape, ..self@ }),
    {
        let mut c = self;
        c.escape = escape;
        c
    }

    pub fn quoting(self, yes: bool) -> (r: Config)
        ensures
            r@ == (ConfigView { quoting: yes, ..self@ }),
    {
        let mut c = self;
        c.quoting = yes;
        c
    }

    pub fn trim(self, trim_type: Trim) -> (r: Config)
        ensures
            r@ == (ConfigView { trim: trim_type, ..self@ }),
    {
        let mut c = self;
        c.trim = trim_type;
        c
    }

    pub fn get_read_buffer(&self) -> (r: usize)
        ensures
            r == self@.read_buffer,
    {
        self.read_buffer
    }

    pub fn read_buffer(self, buffer: usize) -> (r: Config)
        ensures
            r@ == (ConfigView { read_buffer: buffer, ..self@ }),
    {
        let mut c = self;
        c.read_buffer = buffer;
        c
    }

    pub fn get_write_buffer(&self) -> (r: usize)
        ensures
            r == self@.write_buffer,
    {
        self.write_buffer
    }

    pub fn write_buffer(self, buffer: usize) -> (r: Config)
        ensures
            r@ == (ConfigView { write_buffer: buffer, ..self@ }),
    {
        let mut c = self;
        c.write_buffer = buffer;
        c
    }

    pub fn select(self, sel_cols: SelectColumns) -> (r: Config)
        ensures
            r@ == (ConfigView { select_columns: Some(sel_cols@), ..self@ }),
    {
        let mut c = self;
        c.select_columns = Some(sel_cols);
        c
    }

    pub fn is_stdin(&self) -> (r: bool)
        ensures
            r == (self@.path is None),
    {
        self.path.is_none()
    }

    /// The selection expression that was registered, and whether the first row it
    /// is resolved against is a header.
    pub fn selection(&self) -> (r: Result<(&SelectColumns, bool), String>)
        ensures
            self@.select_columns is None <==> r is Err,
            r is Ok ==> r->Ok_0.0@ == self@.select_columns->Some_0 && r->Ok_0.1
                == !self@.no_headers,
            r is Err ==> r->Err_0@ == no_selection_message(),
    {
        match &self.select_columns {
            None => Err(String::from_str("Config has no 'SelectColumns'. Did you call Config::select?")),
            Some(sel) => Ok((sel, !self.no_headers)),
        }
    }

    /// The comment byte that readers use: the environment's, where it sets one.
    pub fn reader_comment(&self) -> (r: Option<u8>)
        ensures
            r == effective_comment(self@),
    {
        if self.overrides.comment.is_some() {
            self.overrides.comment
        } else {
            self.comment
        }
    }

    /// The options that a reader of this configuration is built with.
    pub fn reader_options(&self) -> (r: ReaderOptions)
        ensures
            r == reader_options_of(self@),
    {
        ReaderOptions {
            flexible: self.flexible,
            delimiter: self.delimiter,
            has_headers: !self.no_headers,
            quote: self.quote,
            quoting: self.quoting,
            escape: self.escape,
            buffer_capacity: self.read_buffer,
            comment: self.reader_comment(),
            trim: self.trim,
        }
    }

    /// The options that a writer of this configuration is built with.
    pub fn writer_options(&self) -> (r: WriterOptions)
        ensures
            r == writer_options_of(self@),
    {
        let escape = match self.escape {
            Some(e) => e,
            None => BACKSLASH,
        };
        WriterOptions {
            flexible: self.flexible,
            delimiter: self.delimiter,
            terminator: self.terminator,
            quote: self.quote,
            quote_style: self.quote_style,
            double_quote: self.double_quote,
            escape,
            buffer_capacity: self.write_buffer,
            bom: self.overrides.output_bom,
        }
    }

    /// Whether the stream is compressed, as the path's name decided.
    pub fn is_compressed(&self) -> (r: bool)
        ensures
            r == self@.compressed,
    {
        self.snappy
    }

    /// The index file set in place of the one found beside the data.
    pub fn get_index_path(&self) -> (r: Option<String>)
        ensures
            opt_string_view(r) == self@.index_path,
    {
        self.idx_path.clone()
    }

    pub fn get_autoindex_size(&self) -> (r: u64)
        ensures
            r == self@.autoindex_size,
    {
        self.autoindex_size
    }

    pub fn get_path(&self) -> (r: Option<String>)
        ensures
            opt_string_view(r) == self@.path,
    {
        self.path.clone()
    }
}

} // verus!
