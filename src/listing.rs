//! The records of a listing: what the store reports of each object, and what the
//! gateway returns for it.

use std::collections::HashMap;
use vstd::prelude::*;

verus! {

/// The char of a decimal digit.
pub open spec fn digit_char(d: nat) -> char {
    (48 + d) as char
}

/// The last `width` decimal digits of `n`, most significant first, zero-padded.
pub open spec fn decimal(n: nat, width: nat) -> Seq<char>
    decreases width,
{
    if width == 0 {
        Seq::empty()
    } else {
        decimal(n / 10, (width - 1) as nat).push(digit_char(n % 10))
    }
}

/// `YYYY-MM-DD HH:MM:SS` for the given fields.
pub open spec fn timestamp_text(
    year: nat,
    month: nat,
    day: nat,
    hour: nat,
    minute: nat,
    second: nat,
) -> Seq<char> {
    decimal(year, 4) + "-"@ + decimal(month, 2) + "-"@ + decimal(day, 2) + " "@ + decimal(hour, 2)
        + ":"@ + decimal(minute, 2) + ":"@ + decimal(second, 2)
}

/// The ranges of the fields of a timestamp (a leap second reads as second 60).
pub open spec fn timestamp_fields_in_range(
    year: nat,
    month: nat,
    day: nat,
    hour: nat,
    minute: nat,
    second: nat,
) -> bool {
    &&& year <= 9999
    &&& 1 <= month <= 12
    &&& 1 <= day <= 31
    &&& hour <= 23
    &&& minute <= 59
    &&& second <= 60
}

/// A UTC date and time of day, to the second.
#[derive(Clone, Copy, Debug)]
pub struct Timestamp {
    year: u16,
    month: u8,
    day: u8,
    hour: u8,
    minute: u8,
    second: u8,
}

impl Timestamp {
    #[verifier::type_invariant]
    spec fn in_range(self) -> bool {
        timestamp_fields_in_range(
            self.year as nat,
            self.month as nat,
            self.day as nat,
            self.hour as nat,
            self.minute as nat,
            self.second as nat,
        )
    }

    /// The `YYYY-MM-DD HH:MM:SS` form of this timestamp.
    pub closed spec fn text(self) -> Seq<char> {
        timestamp_text(
            self.year as nat,
            self.month as nat,
            self.day as nat,
            self.hour as nat,
            self.minute as nat,
            self.second as nat,
        )
    }

    /// A timestamp of the given fields; `None` where one is out of its range.
    pub fn new(year: u16, month: u8, day: u8, hour: u8, minute: u8, second: u8) -> (r: Option<
        Timestamp,
    >)
        ensures
            r is Some <==> timestamp_fields_in_range(
                year as nat,
                month as nat,
                day as nat,
                hour as nat,
                minute as nat,
                second as nat,
            ),
            r is Some ==> r->Some_0.text() == timestamp_text(
                year as nat,
                month as nat,
                day as nat,
                hour as nat,
                minute as nat,
                second as nat,
            ),
    {
        if year <= 9999 && 1 <= month && month <= 12 && 1 <= day && day <= 31 && hour <= 23
            && minute <= 59 && second <= 60 {
            Some(Timestamp { year, month, day, hour, minute, second })
        } else {
            None
        }
    }

    /// Formats this timestamp as `YYYY-MM-DD HH:MM:SS`.
    pub fn format(&self) -> (r: String)
        ensures
            r@ == self.text(),
    {
        proof {
            use_type_invariant(self);
        }
        let mut out = String::new();
        push_decimal(&mut out, self.year, 4);
        out.append("-");
        push_decimal(&mut out, self.month as u16, 2);
        out.append("-");
        push_decimal(&mut out, self.day as u16, 2);
        out.append(" ");
        push_decimal(&mut out, self.hour as u16, 2);
        out.append(":");
        push_decimal(&mut out, self.minute as u16, 2);
        out.append(":");
        push_decimal(&mut out, self.second as u16, 2);
        assert(out@ =~= self.text());
        out
    }
}

/// The one-char string of a decimal digit.
fn digit_str(d: u16) -> (r: &'static str)
    requires
        d < 10,
    ensures
        r@ == seq![digit_char(d as nat)],
{
    proof {
        reveal_strlit("0");
        reveal_strlit("1");
        reveal_strlit("2");
        reveal_strlit("3");
        reveal_strlit("4");
        reveal_strlit("5");
        reveal_strlit("6");
        reveal_strlit("7");
        reveal_strlit("8");
        reveal_strlit("9");
    }
    match d {
        0 => "0",
        1 => "1",
        2 => "2",
        3 => "3",
        4 => "4",
        5 => "5",
        6 => "6",
        7 => "7",
        8 => "8",
        _ => "9",
    }
}

/// Appends the last `width` decimal digits of `n`, zero-padded.
fn push_decimal(out: &mut String, n: u16, width: u16)
    ensures
        final(out)@ == old(out)@ + decimal(n as nat, width as nat),
    decreases width,
{
    if width > 0 {
        push_decimal(out, n / 10, width - 1);
        out.append(digit_str(n % 10));
        assert(decimal(n as nat, width as nat) == decimal((n / 10) as nat, (width - 1) as nat).push(
            digit_char((n % 10) as nat),
        ));
        assert(out@ =~= old(out)@ + decimal(n as nat, width as nat));
    }
}

/// The media type that a file name suggests.
pub uninterp spec fn content_type_of(name: Seq<char>) -> Seq<char>;

/// Relies on mime_guess::from_path and MimeGuess::first_or_octet_stream: the first
/// media type registered for the extension of `name`, or `application/octet-stream`
/// where there is none; the table is built into the crate, so the result depends on
/// the name alone.
#[verifier::external_body]
fn guess_content_type(name: &str) -> (r: String)
    ensures
        r@ == content_type_of(name@),
{
    mime_guess::from_path(name).first_or_octet_stream().to_string()
}

/// What the store reports of one object under a listed prefix.
#[derive(Clone, Debug)]
pub struct ObjectEntry {
    pub name: String,
    pub last_modified: Option<Timestamp>,
    pub etag: Option<String>,
    pub owner_name: Option<String>,
    pub size: Option<usize>,
    pub storage_class: Option<String>,
    pub is_latest: bool,
    pub version_id: Option<String>,
    pub user_metadata: Option<HashMap<String, String>>,
    pub is_prefix: bool,
    pub is_delete_marker: bool,
    pub encoding_type: Option<String>,
}

/// One object of a listing, as the gateway returns it.
#[derive(Clone, Debug)]
pub struct Resource {
    pub name: String,
    pub last_modified: Option<String>,
    pub etag: Option<String>,
    pub owner_name: Option<String>,
    pub size: Option<usize>,
    pub storage_class: Option<String>,
    pub is_latest: bool,
    pub version_id: Option<String>,
    pub user_metadata: Option<HashMap<String, String>>,
    pub is_prefix: bool,
    pub is_delete_marker: bool,
    pub encoding_type: Option<String>,
    pub content_type: Option<String>,
}

/// A listing: the prefix that was listed and the objects under it.
#[derive(Clone, Debug)]
pub struct ResourceResponse {
    pub parent_folder: Option<String>,
    pub resources: Option<Vec<Resource>>,
}

/// A presigned upload: the signed URL and the key that it writes.
#[derive(Clone, Debug)]
pub struct PresignedObject {
    pub url: Option<String>,
    pub file_name: Option<String>,
}

/// `r` describes `e`: the same fields, the modification time formatted, and the
/// media type that the name suggests.
pub open spec fn describes(r: Resource, e: ObjectEntry) -> bool {
    &&& r.name == e.name
    &&& match e.last_modified {
        Some(t) => r.last_modified is Some && r.last_modified->Some_0@ == t.text(),
        None => r.last_modified is None,
    }
    &&& r.etag == e.etag
    &&& r.owner_name == e.owner_name
    &&& r.size == e.size
    &&& r.storage_class == e.storage_class
    &&& r.is_latest == e.is_latest
    &&& r.version_id == e.version_id
    &&& r.user_metadata == e.user_metadata
    &&& r.is_prefix == e.is_prefix
    &&& r.is_delete_marker == e.is_delete_marker
    &&& r.encoding_type == e.encoding_type
    &&& r.content_type is Some
    &&& r.content_type->Some_0@ == content_type_of(e.name@)
}

impl Resource {
    /// The record returned for one listed object.
    pub fn from_entry(entry: ObjectEntry) -> (r: Resource)
        ensures
            describes(r, entry),
    {
        let content_type = guess_content_type(entry.name.as_str());
        let last_modified = match &entry.last_modified {
            Some(t) => Some(t.format()),
            None => None,
        };
        Resource {
            name: entry.name,
            last_modified,
            etag: entry.etag,
            owner_name: entry.owner_name,
            size: entry.size,
            storage_class: entry.storage_class,
            is_latest: entry.is_latest,
            version_id: entry.version_id,
            user_metadata: entry.user_metadata,
            is_prefix: entry.is_prefix,
            is_delete_marker: entry.is_delete_marker,
            encoding_type: entry.encoding_type,
            content_type: Some(content_type),
        }
    }
}

impl ResourceResponse {
    /// The listing of `parent_folder`: one record per entry, in the order given.
    pub fn new(parent_folder: Option<String>, entries: Vec<ObjectEntry>) -> (r: ResourceResponse)
        ensures
            r.parent_folder == parent_folder,
            r.resources is Some,
            r.resources->Some_0@.len() == entries@.len(),
            forall|i: int|
                0 <= i < entries@.len() ==> describes(
                    #[trigger] r.resources->Some_0@[i],
                    entries@[i],
                ),
    {
        let mut resources: Vec<Resource> = Vec::new();
        for entry in it: entries.into_iter()
            invariant
                resources@.len() == it.index(),
                forall|i: int|
                    0 <= i < it.index() ==> describes(#[trigger] resources@[i], it.seq()[i]),
        {
            resources.push(Resource::from_entry(entry));
        }
        ResourceResponse { parent_folder, resources: Some(resources) }
    }
}

} // verus!
