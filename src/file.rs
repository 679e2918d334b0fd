use vstd::prelude::*;

use crate::dated::Dated;
use crate::timestamp::{utc_representable, Timestamp};

verus! {

/// The result of chrono's `NaiveDateTime::parse_from_str` on a text and a
/// format, read as UTC: seconds since the Unix epoch and nanoseconds.
pub uninterp spec fn parsed_naive(s: Seq<char>, fmt: Seq<char>) -> Option<(i64, u32)>;

/// The result of chrono's `DateTime::parse_from_str` on a text and a format
/// that carries an offset, normalized to UTC: seconds since the Unix epoch and
/// nanoseconds.
pub uninterp spec fn parsed_zoned(s: Seq<char>, fmt: Seq<char>) -> Option<(i64, u32)>;

/// Relies on chrono's `NaiveDateTime::parse_from_str`: the text parsed under
/// the format as a date and time without offset (`None` where it does not
/// parse), then taken as UTC by `and_utc`, `timestamp` and
/// `timestamp_subsec_nanos`.
#[verifier::external_body]
fn parse_naive_utc(s: &str, fmt: &str) -> (r: Option<(i64, u32)>)
    ensures
        r == parsed_naive(s@, fmt@),
{
    match chrono::NaiveDateTime::parse_from_str(s, fmt) {
        Ok(t) => Some((t.and_utc().timestamp(), t.and_utc().timestamp_subsec_nanos())),
        Err(_) => None,
    }
}

/// Relies on chrono's `DateTime::parse_from_str`: the text parsed under the
/// format as a date and time with an offset (`None` where it does not parse),
/// then read as UTC by `timestamp` and `timestamp_subsec_nanos`.
#[verifier::external_body]
fn parse_zoned_utc(s: &str, fmt: &str) -> (r: Option<(i64, u32)>)
    ensures
        r == parsed_zoned(s@, fmt@),
{
    match chrono::DateTime::parse_from_str(s, fmt) {
        Ok(t) => Some((t.timestamp(), t.timestamp_subsec_nanos())),
        Err(_) => None,
    }
}

/// `pat` occurs in `s` as a run of consecutive characters.
pub open spec fn occurs_in(pat: Seq<char>, s: Seq<char>) -> bool {
    exists|i: int| 0 <= i && i + pat.len() <= s.len() && #[trigger] s.subrange(i, i + pat.len()) == pat
}

/// Relies on std's `str::contains` with a `&str` pattern: true where the
/// pattern matches a sub-slice of the text.
#[verifier::external_body]
fn str_contains(s: &str, pat: &str) -> (r: bool)
    ensures
        r == occurs_in(pat@, s@),
{
    s.contains(pat)
}

/// A format carries a time-zone offset where it holds the `%z` specifier.
pub open spec fn has_offset_specifier(fmt: Seq<char>) -> bool {
    occurs_in(seq!['%', 'z'], fmt)
}

/// The instant that a file name gives under a format, as seconds and
/// nanoseconds since the Unix epoch.
pub open spec fn parsed_instant(name: Seq<char>, fmt: Seq<char>) -> Option<(i64, u32)> {
    if has_offset_specifier(fmt) {
        parsed_zoned(name, fmt)
    } else {
        parsed_naive(name, fmt)
    }
}

/// A parse gave an instant that a `Timestamp` can hold.
pub open spec fn on_calendar(parsed: Option<(i64, u32)>) -> bool {
    match parsed {
        Some((secs, nanos)) => utc_representable(secs as int, nanos as int),
        None => false,
    }
}

/// A backup file: its path, which is its identity, and its timestamp.
#[derive(Debug)]
pub struct File {
    pub path: String,
    pub timestamp: Timestamp,
}

impl File {
    pub fn new(path: String, timestamp: Timestamp) -> (r: File)
        ensures
            r.path == path,
            r.timestamp == timestamp,
    {
        File { path, timestamp }
    }

    /// The file named `path`, dated by parsing the name under `format`.
    /// A format with `%z` is read with its offset and normalized to UTC; one
    /// without is read as UTC. Fails where the name does not parse, or where
    /// the parsed instant cannot be placed on the calendar.
    pub fn from_path(path: String, format: &str) -> (r: Result<File, ()>)
        ensures
            r is Ok <==> on_calendar(parsed_instant(path@, format@)),
            r matches Ok(f) ==> {
                &&& f.path == path
                &&& f.timestamp.wf()
                &&& parsed_instant(path@, format@) == Some(
                    (f.timestamp.secs_spec() as i64, f.timestamp.nanos_spec() as u32),
                )
            },
    {
        let parsed = if str_contains(format, "%z") {
            parse_zoned_utc(path.as_str(), format)
        } else {
            parse_naive_utc(path.as_str(), format)
        };
        assert(seq!['%', 'z'] == "%z"@) by {
            reveal_strlit("%z");
        };
        match parsed {
            Some((secs, nanos)) => match Timestamp::from_unix(secs, nanos) {
                Some(timestamp) => Ok(File { path, timestamp }),
                None => Err(()),
            },
            None => Err(()),
        }
    }

    /// The files named `paths`, in order, each dated by parsing its name
    /// under `format` as `from_path` does; fails where some name fails.
    pub fn from_paths(paths: &Vec<String>, format: &str) -> (r: Result<Vec<File>, ()>)
        ensures
            r is Ok <==> forall|i: int| 0 <= i < paths@.len() ==> on_calendar(
                #[trigger] parsed_instant(paths@[i]@, format@),
            ),
            r matches Ok(files) ==> {
                &&& files@.len() == paths@.len()
                &&& forall|i: int| 0 <= i < paths@.len() ==> {
                    &&& (#[trigger] files@[i]).path == paths@[i]
                    &&& parsed_instant(paths@[i]@, format@) == Some(
                        (files@[i].timestamp.secs_spec() as i64, files@[i].timestamp.nanos_spec() as u32),
                    )
                }
            },
    {
        let mut files: Vec<File> = Vec::new();
        let mut i: usize = 0;
        while i < paths.len()
            invariant
                i <= paths@.len(),
                files@.len() == i,
                forall|j: int| 0 <= j < i ==> on_calendar(#[trigger] parsed_instant(paths@[j]@, format@)),
                forall|j: int| 0 <= j < i ==> {
                    &&& (#[trigger] files@[j]).path == paths@[j]
                    &&& parsed_instant(paths@[j]@, format@) == Some(
                        (files@[j].timestamp.secs_spec() as i64, files@[j].timestamp.nanos_spec() as u32),
                    )
                },
            decreases paths@.len() - i,
        {
            match File::from_path(paths[i].clone(), format) {
                Ok(file) => files.push(file),
                Err(()) => {
                    return Err(());
                },
            }
            i = i + 1;
        }
        Ok(files)
    }
}

impl Clone for File {
    fn clone(&self) -> (r: File)
        ensures
            r == *self,
    {
        File { path: self.path.clone(), timestamp: self.timestamp }
    }
}

impl PartialEq for File {
    fn eq(&self, other: &File) -> (r: bool) {
        self.path == other.path
    }
}

impl vstd::std_specs::cmp::PartialEqSpecImpl for File {
    open spec fn obeys_eq_spec() -> bool {
        true
    }

    open spec fn eq_spec(&self, other: &File) -> bool {
        self.path@ == other.path@
    }
}

impl Eq for File {
}

impl Dated for File {
    open spec fn date(&self) -> Timestamp {
        self.timestamp
    }

    fn get_date(&self) -> (r: Timestamp) {
        self.timestamp
    }
}

} // verus!
