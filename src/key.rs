//! Validation of an identifier set and derivation of the storage key (or listing
//! prefix) that it names.

use vstd::prelude::*;
use crate::text::{file_segment, file_segment_of, path_segment, path_segment_of};

verus! {

/// The recognized kinds of container.
#[derive(Clone, Copy, Debug, PartialEq, Eq, Structural)]
pub enum ContainerType {
    Window,
    Process,
    Report,
    Browser,
    Form,
    Application,
    Resource,
    Attachment,
}

/// The kind whose name equals a (sanitized, case-folded) container-type segment.
pub open spec fn kind_of_segment(s: Seq<char>) -> Option<ContainerType> {
    if s == "window"@ {
        Some(ContainerType::Window)
    } else if s == "process"@ {
        Some(ContainerType::Process)
    } else if s == "report"@ {
        Some(ContainerType::Report)
    } else if s == "browser"@ {
        Some(ContainerType::Browser)
    } else if s == "form"@ {
        Some(ContainerType::Form)
    } else if s == "application"@ {
        Some(ContainerType::Application)
    } else if s == "resource"@ {
        Some(ContainerType::Resource)
    } else if s == "attachment"@ {
        Some(ContainerType::Attachment)
    } else {
        None
    }
}

/// The kind that a raw container type names: the one whose name is its key segment,
/// so that the comparison ignores ASCII case.
pub open spec fn container_kind(raw: Seq<char>) -> Option<ContainerType> {
    kind_of_segment(path_segment(raw))
}

/// Whether a raw container type names the attachment kind.
pub open spec fn is_attachment(raw: Seq<char>) -> bool {
    container_kind(raw) == Some(ContainerType::Attachment)
}

impl ContainerType {
    /// The kind named by a container-type segment, if any.
    pub fn from_segment(segment: &String) -> (r: Option<ContainerType>)
        ensures
            r == kind_of_segment(segment@),
    {
        if *segment == String::from_str("window") {
            Some(ContainerType::Window)
        } else if *segment == String::from_str("process") {
            Some(ContainerType::Process)
        } else if *segment == String::from_str("report") {
            Some(ContainerType::Report)
        } else if *segment == String::from_str("browser") {
            Some(ContainerType::Browser)
        } else if *segment == String::from_str("form") {
            Some(ContainerType::Form)
        } else if *segment == String::from_str("application") {
            Some(ContainerType::Application)
        } else if *segment == String::from_str("resource") {
            Some(ContainerType::Resource)
        } else if *segment == String::from_str("attachment") {
            Some(ContainerType::Attachment)
        } else {
            None
        }
    }
}

/// Why an identifier set names no key.
#[derive(Clone, Copy, Debug, PartialEq, Eq, Structural)]
pub enum KeyError {
    ClientIdMandatory,
    ContainerTypeMandatory,
    ContainerIdMandatory,
    TableNameMandatory,
    RecordIdMandatory,
    InvalidContainerType,
    AttachmentNeedsRecord,
    FileNameMandatory,
}

impl KeyError {
    /// The message shown to the caller for this error.
    pub open spec fn text(self) -> Seq<char> {
        match self {
            KeyError::ClientIdMandatory => "Client ID is Mandatory"@,
            KeyError::ContainerTypeMandatory => "Container Type is Mandatory"@,
            KeyError::ContainerIdMandatory => "Container ID is Mandatory"@,
            KeyError::TableNameMandatory => "Table Name is Mandatory"@,
            KeyError::RecordIdMandatory => "Record ID is Mandatory"@,
            KeyError::InvalidContainerType => "Invalid Container Type"@,
            KeyError::AttachmentNeedsRecord =>
                "Invalid Container Type (Mandatory Record ID and Table Name)"@,
            KeyError::FileNameMandatory => "File Name is Mandatory"@,
        }
    }

    /// The message shown to the caller for this error.
    pub fn message(&self) -> (r: String)
        ensures
            r@ == self.text(),
    {
        match self {
            KeyError::ClientIdMandatory => String::from_str("Client ID is Mandatory"),
            KeyError::ContainerTypeMandatory => String::from_str("Container Type is Mandatory"),
            KeyError::ContainerIdMandatory => String::from_str("Container ID is Mandatory"),
            KeyError::TableNameMandatory => String::from_str("Table Name is Mandatory"),
            KeyError::RecordIdMandatory => String::from_str("Record ID is Mandatory"),
            KeyError::InvalidContainerType => String::from_str("Invalid Container Type"),
            KeyError::AttachmentNeedsRecord => String::from_str(
                "Invalid Container Type (Mandatory Record ID and Table Name)",
            ),
            KeyError::FileNameMandatory => String::from_str("File Name is Mandatory"),
        }
    }
}

/// The identifiers of one request, as sequences of chars; `None` where absent.
pub struct Identifiers {
    pub client_id: Option<Seq<char>>,
    pub container_id: Option<Seq<char>>,
    pub container_type: Option<Seq<char>>,
    pub table_name: Option<Seq<char>>,
    pub column_name: Option<Seq<char>>,
    pub record_id: Option<Seq<char>>,
    pub user_id: Option<Seq<char>>,
    pub role_id: Option<Seq<char>>,
}

/// The identifiers of one request, as the router extracts them.
#[derive(Clone, Debug)]
pub struct IdentifierSet {
    pub client_id: Option<String>,
    pub container_id: Option<String>,
    pub container_type: Option<String>,
    pub table_name: Option<String>,
    pub column_name: Option<String>,
    pub record_id: Option<String>,
    pub user_id: Option<String>,
    pub role_id: Option<String>,
    pub file_name: Option<String>,
}

impl IdentifierSet {
    /// The identifiers other than the file name, as sequences of chars.
    pub open spec fn ids(self) -> Identifiers {
        ids_of(
            self.client_id,
            self.container_id,
            self.container_type,
            self.table_name,
            self.column_name,
            self.record_id,
            self.user_id,
            self.role_id,
        )
    }
}

/// The chars of an optional string.
pub open spec fn chars_of(o: Option<String>) -> Option<Seq<char>> {
    match o {
        Some(s) => Some(s@),
        None => None,
    }
}

/// The identifiers held by the positional arguments of the key functions.
pub open spec fn ids_of(
    client_id: Option<String>,
    container_id: Option<String>,
    container_type: Option<String>,
    table_name: Option<String>,
    column_name: Option<String>,
    record_id: Option<String>,
    user_id: Option<String>,
    role_id: Option<String>,
) -> Identifiers {
    Identifiers {
        client_id: chars_of(client_id),
        container_id: chars_of(container_id),
        container_type: chars_of(container_type),
        table_name: chars_of(table_name),
        column_name: chars_of(column_name),
        record_id: chars_of(record_id),
        user_id: chars_of(user_id),
        role_id: chars_of(role_id),
    }
}

/// The first invariant that `ids` breaks, in the order in which they are checked;
/// `None` when it names a prefix.
pub open spec fn prefix_error(ids: Identifiers) -> Option<KeyError> {
    if ids.client_id is None {
        Some(KeyError::ClientIdMandatory)
    } else if ids.container_type is None {
        Some(KeyError::ContainerTypeMandatory)
    } else if ids.container_id is None && !is_attachment(ids.container_type->0) {
        Some(KeyError::ContainerIdMandatory)
    } else if ids.record_id is Some && ids.table_name is None {
        Some(KeyError::TableNameMandatory)
    } else if ids.table_name is Some && ids.record_id is None {
        Some(KeyError::RecordIdMandatory)
    } else if ids.column_name is Some && ids.table_name is None {
        Some(KeyError::TableNameMandatory)
    } else if container_kind(ids.container_type->0) is None {
        Some(KeyError::InvalidContainerType)
    } else if is_attachment(ids.container_type->0) && (ids.table_name is None
        || ids.record_id is None) {
        Some(KeyError::AttachmentNeedsRecord)
    } else {
        None
    }
}

/// `"/"` followed by the folder segment of `s`.
pub open spec fn slash_segment(s: Seq<char>) -> Seq<char> {
    "/"@ + path_segment(s)
}

/// An optional `"/"`-led folder segment: empty where the identifier is absent.
pub open spec fn optional_segment(o: Option<Seq<char>>) -> Seq<char> {
    match o {
        Some(s) => slash_segment(s),
        None => Seq::empty(),
    }
}

/// The visibility part of a key: `user/<user>`, else `role/<role>` when scoping is
/// asked for, else the shared `client`.
pub open spec fn scope_part(ids: Identifiers, include_scope: bool) -> Seq<char> {
    if include_scope && ids.user_id is Some {
        "user"@ + slash_segment(ids.user_id->0)
    } else if include_scope && ids.role_id is Some {
        "role"@ + slash_segment(ids.role_id->0)
    } else {
        "client"@
    }
}

/// The table and record part of a key: empty where no table is named.
pub open spec fn table_part(ids: Identifiers) -> Seq<char> {
    match ids.table_name {
        Some(t) => slash_segment(t) + optional_segment(ids.record_id),
        None => Seq::empty(),
    }
}

/// The prefix that valid identifiers name:
/// `client/scope/type[/container][/table/record][/column]`.
pub open spec fn scope_prefix(ids: Identifiers, include_scope: bool) -> Seq<char> {
    path_segment(ids.client_id->0) + "/"@ + scope_part(ids, include_scope) + slash_segment(
        ids.container_type->0,
    ) + optional_segment(ids.container_id) + table_part(ids) + optional_segment(
        ids.column_name,
    )
}

/// What prefix derivation gives for `ids`.
pub open spec fn prefix_result(ids: Identifiers, include_scope: bool) -> Result<
    Seq<char>,
    KeyError,
> {
    match prefix_error(ids) {
        Some(e) => Err(e),
        None => Ok(scope_prefix(ids, include_scope)),
    }
}

/// What object-key derivation gives for `ids` and a file name: the scoped prefix,
/// `"/"` and the file-name segment.
pub open spec fn object_key_result(ids: Identifiers, file_name: Option<Seq<char>>) -> Result<
    Seq<char>,
    KeyError,
> {
    match file_name {
        None => Err(KeyError::FileNameMandatory),
        Some(f) => match prefix_result(ids, true) {
            Ok(p) => Ok(p + "/"@ + file_segment(f)),
            Err(e) => Err(e),
        },
    }
}

/// The chars of a derived key, or the error.
pub open spec fn key_chars(r: Result<String, KeyError>) -> Result<Seq<char>, KeyError> {
    match r {
        Ok(s) => Ok(s@),
        Err(e) => Err(e),
    }
}

/// Appends `"/"` and the folder segment of `value` to `folder`.
fn push_segment(folder: &mut String, value: &String)
    ensures
        final(folder)@ == old(folder)@ + slash_segment(value@),
{
    let segment = path_segment_of(value);
    folder.append("/");
    folder.append(segment.as_str());
    assert(final(folder)@ =~= old(folder)@ + slash_segment(value@));
}

/// Validates the identifiers and derives the prefix that they name:
/// `client/scope/type[/container][/table/record][/column]`, each segment sanitized
/// and case-folded. The scope is `user/<user_id>` (or else `role/<role_id>`) only
/// when `include_access` is set; otherwise it is the shared `client`. Fails with the
/// first invariant broken, in the order of `prefix_error`.
pub fn get_valid_path(
    client_id: Option<String>,
    container_id: Option<String>,
    container_type: Option<String>,
    table_name: Option<String>,
    column_name: Option<String>,
    record_id: Option<String>,
    user_id: Option<String>,
    role_id: Option<String>,
    include_access: bool,
) -> (r: Result<String, KeyError>)
    ensures
        key_chars(r) == prefix_result(
            ids_of(
                client_id,
                container_id,
                container_type,
                table_name,
                column_name,
                record_id,
                user_id,
                role_id,
            ),
            include_access,
        ),
{
    let ghost ids = ids_of(
        client_id,
        container_id,
        container_type,
        table_name,
        column_name,
        record_id,
        user_id,
        role_id,
    );
    let client = match &client_id {
        Some(c) => c,
        None => return Err(KeyError::ClientIdMandatory),
    };
    let raw_type = match &container_type {
        Some(t) => t,
        None => return Err(KeyError::ContainerTypeMandatory),
    };
    let type_segment = path_segment_of(raw_type);
    let kind = ContainerType::from_segment(&type_segment);
    let attachment = match kind {
        Some(ContainerType::Attachment) => true,
        _ => false,
    };
    assert(attachment == is_attachment(ids.container_type->0));
    if container_id.is_none() && !attachment {
        return Err(KeyError::ContainerIdMandatory);
    }
    if record_id.is_some() && table_name.is_none() {
        return Err(KeyError::TableNameMandatory);
    }
    if record_id.is_none() && table_name.is_some() {
        return Err(KeyError::RecordIdMandatory);
    }
    if column_name.is_some() && table_name.is_none() {
        return Err(KeyError::TableNameMandatory);
    }
    if kind.is_none() {
        return Err(KeyError::InvalidContainerType);
    }
    if attachment && (table_name.is_none() || record_id.is_none()) {
        return Err(KeyError::AttachmentNeedsRecord);
    }
    assert(prefix_error(ids) is None);
    //  Tenant, then visibility.
    let mut folder = path_segment_of(client);
    folder.append("/");
    match (&user_id, &role_id) {
        (Some(user), _) if include_access => {
            folder.append("user");
            push_segment(&mut folder, user);
        },
        (None, Some(role)) if include_access => {
            folder.append("role");
            push_segment(&mut folder, role);
        },
        _ => {
            folder.append("client");
        },
    }
    let ghost scoped = folder@;
    assert(scoped =~= path_segment(ids.client_id->0) + "/"@ + scope_part(ids, include_access));
    //  Container, then the table row and column it is pinned to.
    folder.append("/");
    folder.append(type_segment.as_str());
    let ghost typed = folder@;
    assert(typed =~= scoped + slash_segment(ids.container_type->0));
    if let Some(id) = &container_id {
        push_segment(&mut folder, id);
    }
    let ghost contained = folder@;
    assert(contained =~= typed + optional_segment(ids.container_id));
    if let Some(table) = &table_name {
        push_segment(&mut folder, table);
        if let Some(record) = &record_id {
            push_segment(&mut folder, record);
        }
    }
    let ghost tabled = folder@;
    assert(tabled =~= contained + table_part(ids));
    if let Some(column) = &column_name {
        push_segment(&mut folder, column);
    }
    assert(folder@ =~= tabled + optional_segment(ids.column_name));
    Ok(folder)
}

/// Derives the full object key: fails with `FileNameMandatory` when no file name is
/// given, else with the first invariant that the identifiers break; otherwise the
/// scoped prefix (user or role scope honored), `"/"` and the sanitized, case-folded
/// file name, whose segment also keeps `.`.
pub fn get_valid_file_name(
    client_id: Option<String>,
    container_id: Option<String>,
    file_name: Option<String>,
    container_type: Option<String>,
    table_name: Option<String>,
    column_name: Option<String>,
    record_id: Option<String>,
    user_id: Option<String>,
    role_id: Option<String>,
) -> (r: Result<String, KeyError>)
    ensures
        key_chars(r) == object_key_result(
            ids_of(
                client_id,
                container_id,
                container_type,
                table_name,
                column_name,
                record_id,
                user_id,
                role_id,
            ),
            chars_of(file_name),
        ),
{
    let file = match &file_name {
        Some(f) => f,
        None => return Err(KeyError::FileNameMandatory),
    };
    let folder = get_valid_path(
        client_id,
        container_id,
        container_type,
        table_name,
        column_name,
        record_id,
        user_id,
        role_id,
        true,
    );
    match folder {
        Ok(folder) => {
            let mut key = folder;
            key.append("/");
            let segment = file_segment_of(file);
            key.append(segment.as_str());
            Ok(key)
        },
        Err(e) => Err(e),
    }
}

} // verus!
