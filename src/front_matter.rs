use crate::error::PostError;
use vstd::prelude::*;
use vstd::string::StrSliceExecFns;

verus! {

/// A point in time with the UTC offset it was written in: whole seconds and
/// nanoseconds since the Unix epoch (UTC), and the offset in seconds east.
#[derive(Debug, Clone, Copy, PartialEq, Eq, Structural)]
pub struct Timestamp {
    pub seconds: i64,
    pub nanos: u32,
    pub offset_seconds: i32,
}

/// `a` is a strictly later instant than `b`; the offset plays no part.
pub open spec fn later_than(a: Timestamp, b: Timestamp) -> bool {
    a.seconds > b.seconds || (a.seconds == b.seconds && a.nanos > b.nanos)
}

/// `a` and `b` denote the same instant.
pub open spec fn same_instant(a: Timestamp, b: Timestamp) -> bool {
    a.seconds == b.seconds && a.nanos == b.nanos
}

impl Timestamp {
    /// Whether `self` is a strictly later instant than `other`.
    pub fn is_later_than(&self, other: &Timestamp) -> (r: bool)
        ensures
            r == later_than(*self, *other),
    {
        self.seconds > other.seconds || (self.seconds == other.seconds && self.nanos > other.nanos)
    }
}

/// What chrono's parser of offset-aware timestamps makes of a text.
pub uninterp spec fn parsed_timestamp(text: Seq<char>) -> Option<Timestamp>;

/// Relies on chrono's `FromStr` for `DateTime<FixedOffset>` (relaxed RFC 3339,
/// the form serde reads such a field in), then `timestamp`,
/// `timestamp_subsec_nanos` and `FixedOffset::local_minus_utc`.
#[verifier::external_body]
fn parse_timestamp(text: &str) -> (r: Option<Timestamp>)
    ensures
        r == parsed_timestamp(text@),
{
    text.parse::<chrono::DateTime<chrono::FixedOffset>>().ok().map(
        |d| Timestamp {
            seconds: d.timestamp(),
            nanos: d.timestamp_subsec_nanos(),
            offset_seconds: d.offset().local_minus_utc(),
        },
    )
}

/// The metadata block of a post.
#[derive(Debug, Clone)]
pub struct FrontMatter {
    pub title: String,
    pub date: Timestamp,
    pub description: Option<String>,
    pub image: Option<String>,
}

/// A marker line, exactly three hyphens, starts at index `c` of `doc`: it
/// begins the text or follows a line end, and is followed by a line end or by
/// the end of the text.
pub open spec fn is_marker_line_at(doc: Seq<char>, c: int) -> bool {
    &&& 0 <= c
    &&& c + 3 <= doc.len()
    &&& c == 0 || doc[c - 1] == '\n'
    &&& doc[c] == '-' && doc[c + 1] == '-' && doc[c + 2] == '-'
    &&& c + 3 == doc.len() || doc[c + 3] == '\n'
}

/// The start of the first marker line of `doc` at or after index `c`.
pub open spec fn next_marker_line(doc: Seq<char>, c: int) -> Option<int>
    decreases doc.len() + 1 - c,
{
    if c < 0 || c + 3 > doc.len() {
        None
    } else if is_marker_line_at(doc, c) {
        Some(c)
    } else {
        next_marker_line(doc, c + 1)
    }
}

/// The text opens with a marker line ended by a line end.
pub open spec fn opens_with_marker_line(doc: Seq<char>) -> bool {
    doc.len() >= 4 && is_marker_line_at(doc, 0) && doc[3] == '\n'
}

/// The text of the metadata block: the document's first line is a marker
/// line, and the block is every line after it up to the next marker line.
pub open spec fn front_matter_text(doc: Seq<char>) -> Option<Seq<char>> {
    if opens_with_marker_line(doc) {
        match next_marker_line(doc, 4) {
            Some(c) => Some(doc.subrange(4, c)),
            None => None,
        }
    } else {
        None
    }
}

/// Whether a marker line starts at character index `c` of `contents`.
fn marker_line_at(contents: &str, n: usize, c: usize) -> (r: bool)
    requires
        n == contents@.len(),
        c <= n,
        n - c >= 3,
    ensures
        r == is_marker_line_at(contents@, c as int),
{
    (c == 0 || contents.get_char(c - 1) == '\n') && contents.get_char(c) == '-'
        && contents.get_char(c + 1) == '-' && contents.get_char(c + 2) == '-' && (n - c == 3
        || contents.get_char(c + 3) == '\n')
}

/// Locates the metadata block of a content file and returns its text; fails
/// with `FrontMatterMissing` when the first line is not a marker line or no
/// marker line follows it.
pub fn front_matter_block(contents: &str) -> (r: Result<String, PostError>)
    ensures
        match front_matter_text(contents@) {
            Some(block) => r matches Ok(s) && s@ == block,
            None => r == Err::<String, PostError>(PostError::FrontMatterMissing),
        },
{
    let n = contents.unicode_len();
    if n < 4 || !marker_line_at(contents, n, 0) || contents.get_char(3) != '\n' {
        return Err(PostError::FrontMatterMissing);
    }
    let mut c: usize = 4;
    while c < n && n - c >= 3
        invariant
            n == contents@.len(),
            opens_with_marker_line(contents@),
            4 <= c <= n,
            next_marker_line(contents@, 4) == next_marker_line(contents@, c as int),
        decreases n - c,
    {
        if marker_line_at(contents, n, c) {
            return Ok(contents.substring_char(4, c).to_owned());
        }
        c = c + 1;
    }
    Err(PostError::FrontMatterMissing)
}

impl FrontMatter {
    /// Builds the front matter from the fields decoded out of the metadata
    /// block. The title must be non-empty and the date must parse as an
    /// offset-aware timestamp; otherwise `FrontMatterMalformed`.
    pub fn from_fields(
        title: String,
        date: &str,
        description: Option<String>,
        image: Option<String>,
    ) -> (r: Result<FrontMatter, PostError>)
        ensures
            (title@.len() > 0 && parsed_timestamp(date@) is Some) <==> r is Ok,
            r is Err ==> r == Err::<FrontMatter, PostError>(PostError::FrontMatterMalformed),
            r matches Ok(fm) ==> {
                &&& fm.title == title
                &&& Some(fm.date) == parsed_timestamp(date@)
                &&& fm.description == description
                &&& fm.image == image
            },
    {
        if title.as_str().is_empty() {
            return Err(PostError::FrontMatterMalformed);
        }
        match parse_timestamp(date) {
            Some(d) => Ok(FrontMatter { title, date: d, description, image }),
            None => Err(PostError::FrontMatterMalformed),
        }
    }
}

} // verus!
