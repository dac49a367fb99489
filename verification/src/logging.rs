//! Options of the diagnostics sink, read from a list of key and value pairs
//! with a default for each key that is absent.
use vstd::prelude::*;
use crate::text::chars_of;

verus! {

/// What `std::path::Path::parent` gives for the path written as `path`, as
/// text: the path without its final component, if there is one.
pub uninterp spec fn path_parent(path: Seq<char>) -> Option<Seq<char>>;

/// What `std::path::Path::file_name` gives for the path written as `path`, as
/// text: its final component, if that is a normal one.
pub uninterp spec fn path_file_name(path: Seq<char>) -> Option<Seq<char>>;

/// What `str::to_lowercase` gives for `text`.
pub uninterp spec fn lowercase_of(text: Seq<char>) -> Seq<char>;

/// Calls `std::path::Path::parent`, which splits the path by its syntax alone
/// and touches no file system.
#[verifier::external_body]
fn parent_of(path: &str) -> (r: Option<String>)
    ensures
        r is Some == path_parent(path@) is Some,
        r is Some ==> path_parent(path@) == Some(r->0@),
{
    std::path::Path::new(path).parent().map(|p| p.to_string_lossy().into_owned())
}

/// Calls `std::path::Path::file_name`, which splits the path by its syntax
/// alone and touches no file system.
#[verifier::external_body]
fn file_name_of(path: &str) -> (r: Option<String>)
    ensures
        r is Some == path_file_name(path@) is Some,
        r is Some ==> path_file_name(path@) == Some(r->0@),
{
    std::path::Path::new(path).file_name().map(|f| f.to_string_lossy().into_owned())
}

/// Calls `str::to_lowercase`.
#[verifier::external_body]
fn lowercase(text: &str) -> (r: String)
    ensures
        r@ == lowercase_of(text@),
{
    text.to_lowercase()
}

/// The number that a run of decimal digits writes.
pub open spec fn digits_value(s: Seq<char>) -> nat
    decreases s.len(),
{
    if s.len() == 0 {
        0
    } else {
        digits_value(s.drop_last()) * 10 + ((s.last() as u32 - '0' as u32) as nat)
    }
}

/// Every character of `s` is one of `0` to `9`.
pub open spec fn all_digits(s: Seq<char>) -> bool {
    forall|i: int| 0 <= i < s.len() ==> '0' <= #[trigger] s[i] <= '9'
}

/// The value of `s` read as an unsigned decimal number: an optional `+`, then
/// one or more digits and nothing else, the number no greater than
/// `u64::MAX`.
pub open spec fn decimal_value(s: Seq<char>) -> Option<u64> {
    let digits = if s.len() > 0 && s[0] == '+' {
        s.skip(1)
    } else {
        s
    };
    if digits.len() > 0 && all_digits(digits) && digits_value(digits) <= u64::MAX {
        Some(digits_value(digits) as u64)
    } else {
        None
    }
}

/// Calls `str::parse::<u64>`. std documents the accepted form as an optional
/// `+` sign followed by decimal digits only, and an error for the empty
/// string, any other character and a number that does not fit.
#[verifier::external_body]
fn parse_u64(text: &str) -> (r: Option<u64>)
    ensures
        r == decimal_value(text@),
{
    text.parse::<u64>().ok()
}

/// The entries of a configuration list as pairs of texts.
pub open spec fn entries(cfg: Seq<(&str, &str)>) -> Seq<(Seq<char>, Seq<char>)> {
    cfg.map_values(|e: (&str, &str)| (e.0@, e.1@))
}

/// The value of the first entry under `key`, or `default_value` where no
/// entry has that key.
pub open spec fn lookup(
    cfg: Seq<(Seq<char>, Seq<char>)>,
    key: Seq<char>,
    default_value: Seq<char>,
) -> Seq<char>
    decreases cfg.len(),
{
    if cfg.len() == 0 {
        default_value
    } else if cfg[0].0 == key {
        cfg[0].1
    } else {
        lookup(cfg.skip(1), key, default_value)
    }
}

/// Default path of the log file.
pub open spec fn default_log_path() -> Seq<char> {
    "output.log"@
}

/// Default log level.
pub open spec fn default_log_level() -> Seq<char> {
    "debug"@
}

/// Default of the switch that sends the log to standard output.
pub open spec fn default_std_out() -> Seq<char> {
    "false"@
}

/// Default size, in bytes, at which the log file is rotated.
pub open spec fn default_log_file_size() -> Seq<char> {
    "10000"@
}

/// The configured path of the log file.
pub open spec fn log_path_of(cfg: Seq<(&str, &str)>) -> Seq<char> {
    lookup(entries(cfg), "log_path"@, default_log_path())
}

/// The configured text of the rotation size.
pub open spec fn log_file_size_of(cfg: Seq<(&str, &str)>) -> Seq<char> {
    lookup(entries(cfg), "log_file_size_in_bytes"@, default_log_file_size())
}

/// Directory and file name that a log path splits into: the directory is
/// `./` where the path names none.
pub open spec fn split_log_path(path: Seq<char>) -> (Seq<char>, Seq<char>)
    recommends
        path_file_name(path) is Some,
{
    let dir = match path_parent(path) {
        Some(d) => d,
        None => Seq::<char>::empty(),
    };
    (
        if dir.len() == 0 {
            "./"@
        } else {
            dir
        },
        path_file_name(path)->0,
    )
}

/// Whether a textual switch is on: it reads `true`, in any letter case.
pub open spec fn switch_is_on(text: Seq<char>) -> bool {
    lowercase_of(text) == "true"@
}

/// Whether two texts hold the same characters.
pub fn same_text(a: &str, b: &str) -> (r: bool)
    ensures
        r == (a@ == b@),
{
    let x = chars_of(a);
    let y = chars_of(b);
    if x.len() != y.len() {
        return false;
    }
    let mut i: usize = 0;
    while i < x.len()
        invariant
            x@ == a@,
            y@ == b@,
            x@.len() == y@.len(),
            i <= x@.len(),
            x@.take(i as int) == y@.take(i as int),
        decreases x@.len() - i,
    {
        if x[i] != y[i] {
            assert(x@[i as int] != y@[i as int]);
            return false;
        }
        i += 1;
        assert(x@.take(i as int) =~= x@.take(i - 1).push(x@[i - 1]));
        assert(y@.take(i as int) =~= y@.take(i - 1).push(y@[i - 1]));
    }
    assert(x@.take(x@.len() as int) =~= x@);
    assert(y@.take(y@.len() as int) =~= y@);
    true
}

/// Whether a textual switch of the configuration is on.
pub fn is_enabled(text: &str) -> (r: bool)
    ensures
        r == switch_is_on(text@),
{
    let lower = lowercase(text);
    same_text(lower.as_str(), "true")
}

/// The value under `find_key`, or the default.
pub fn get_value_from_key(cfg: &Vec<(&str, &str)>, find_key: &str, default_value: &str) -> (r:
    String)
    ensures
        r@ == lookup(entries(cfg@), find_key@, default_value@),
{
    let mut i: usize = 0;
    assert(entries(cfg@).skip(0) =~= entries(cfg@));
    while i < cfg.len()
        invariant
            i <= cfg@.len(),
            lookup(entries(cfg@), find_key@, default_value@) == lookup(
                entries(cfg@).skip(i as int),
                find_key@,
                default_value@,
            ),
        decreases cfg@.len() - i,
    {
        let ghost rest = entries(cfg@).skip(i as int);
        assert(rest[0] == (cfg@[i as int].0@, cfg@[i as int].1@));
        assert(rest.skip(1) =~= entries(cfg@).skip(i + 1));
        let entry = cfg[i];
        if same_text(entry.0, find_key) {
            return entry.1.to_owned();
        }
        i += 1;
    }
    default_value.to_owned()
}

/// The directory and the final component of `input_path`.
pub fn extract_path_and_filename(input_path: &str) -> (r: (String, String))
    requires
        path_file_name(input_path@) is Some,
    ensures
        r.0@ == (match path_parent(input_path@) {
            Some(d) => d,
            None => Seq::<char>::empty(),
        }),
        r.1@ == path_file_name(input_path@)->0,
{
    let dir = match parent_of(input_path) {
        Some(d) => d,
        None => String::new(),
    };
    match file_name_of(input_path) {
        Some(file) => (dir, file),
        None => (dir, String::new()),
    }
}

/// Directory and file name of the configured log file.
pub fn set_log_file_path(cfg: &Vec<(&str, &str)>) -> (r: (String, String))
    requires
        path_file_name(log_path_of(cfg@)) is Some,
    ensures
        (r.0@, r.1@) == split_log_path(log_path_of(cfg@)),
{
    let log_file = get_value_from_key(cfg, "log_path", "output.log");
    let (dir, file) = extract_path_and_filename(log_file.as_str());
    if dir.as_str().is_empty() {
        ("./".to_owned(), file)
    } else {
        (dir, file)
    }
}

/// The configured log level.
pub fn set_log_level(cfg: &Vec<(&str, &str)>) -> (r: String)
    ensures
        r@ == lookup(entries(cfg@), "log_level"@, default_log_level()),
{
    get_value_from_key(cfg, "log_level", "debug")
}

/// The configured switch that sends the log to standard output.
pub fn get_print_to_stdout(cfg: &Vec<(&str, &str)>) -> (r: String)
    ensures
        r@ == lookup(entries(cfg@), "std_out"@, default_std_out()),
{
    get_value_from_key(cfg, "std_out", "false")
}

/// The configured size, in bytes, at which the log file is rotated.
pub fn get_log_file_size_in_bytes(cfg: &Vec<(&str, &str)>) -> (r: u64)
    requires
        decimal_value(log_file_size_of(cfg@)) is Some,
    ensures
        Some(r) == decimal_value(log_file_size_of(cfg@)),
{
    let text = get_value_from_key(cfg, "log_file_size_in_bytes", "10000");
    match parse_u64(text.as_str()) {
        Some(n) => n,
        None => 0,
    }
}

/// Why no logger can be set up from a configuration.
#[derive(Debug, PartialEq, Eq, Structural)]
pub enum LoggerError {
    /// The log path ends in no file name.
    NoFileName,
    /// The rotation size is no unsigned decimal number of 64 bits.
    BadFileSize,
}

/// Everything the diagnostics sink is started with.
#[derive(Debug)]
pub struct LoggerPlan {
    pub directory: String,
    pub basename: String,
    pub level: String,
    pub to_stdout: bool,
    pub rotate_at_bytes: u64,
}

/// `plan` is what `cfg` asks for.
pub open spec fn plan_matches(cfg: Seq<(&str, &str)>, plan: LoggerPlan) -> bool {
    &&& (plan.directory@, plan.basename@) == split_log_path(log_path_of(cfg))
    &&& plan.level@ == lookup(entries(cfg), "log_level"@, default_log_level())
    &&& plan.to_stdout == switch_is_on(lookup(entries(cfg), "std_out"@, default_std_out()))
    &&& Some(plan.rotate_at_bytes) == decimal_value(log_file_size_of(cfg))
}

/// Reads the logger's options. A path without a file name comes first,
/// then a rotation size that is no number.
pub fn setup_logger(cfg: &Vec<(&str, &str)>) -> (r: Result<LoggerPlan, LoggerError>)
    ensures
        match r {
            Ok(plan) => {
                &&& path_file_name(log_path_of(cfg@)) is Some
                &&& decimal_value(log_file_size_of(cfg@)) is Some
                &&& plan_matches(cfg@, plan)
            },
            Err(LoggerError::NoFileName) => path_file_name(log_path_of(cfg@)) is None,
            Err(LoggerError::BadFileSize) => path_file_name(log_path_of(cfg@)) is Some
                && decimal_value(log_file_size_of(cfg@)) is None,
        },
{
    let log_file = get_value_from_key(cfg, "log_path", "output.log");
    if file_name_of(log_file.as_str()).is_none() {
        return Err(LoggerError::NoFileName);
    }
    let size_text = get_value_from_key(cfg, "log_file_size_in_bytes", "10000");
    if parse_u64(size_text.as_str()).is_none() {
        return Err(LoggerError::BadFileSize);
    }
    let (directory, basename) = set_log_file_path(cfg);
    let level = set_log_level(cfg);
    let std_out = get_print_to_stdout(cfg);
    let rotate_at_bytes = get_log_file_size_in_bytes(cfg);
    let to_stdout = is_enabled(std_out.as_str());
    Ok(LoggerPlan { directory, basename, level, to_stdout, rotate_at_bytes })
}

} // verus!
