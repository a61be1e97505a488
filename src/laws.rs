//! Properties of key derivation that relate several calls or hold of every input.

use vstd::prelude::*;
use crate::key::{
    container_kind, is_attachment, key_chars, object_key_result, prefix_error, prefix_result,
    scope_part, slash_segment, Identifiers, KeyError,
};
use crate::text::path_segment;

verus! {

/// Object-key derivation is deterministic: for valid identifiers and a file name, any
/// two results that `get_valid_file_name` may return are keys with the same chars.
pub proof fn lemma_object_key_deterministic(
    ids: Identifiers,
    file_name: Option<Seq<char>>,
    first: Result<String, KeyError>,
    second: Result<String, KeyError>,
)
    requires
        prefix_error(ids) is None,
        file_name is Some,
        key_chars(first) == object_key_result(ids, file_name),
        key_chars(second) == object_key_result(ids, file_name),
    ensures
        first is Ok,
        second is Ok,
        first->Ok_0@ == second->Ok_0@,
{
}

/// A missing client id is reported before anything else, a missing container type
/// included, whether a prefix or a full key is asked for.
pub proof fn lemma_client_id_checked_first(
    ids: Identifiers,
    include_scope: bool,
    file_name: Option<Seq<char>>,
)
    requires
        ids.client_id is None,
    ensures
        prefix_result(ids, include_scope) == Err::<Seq<char>, KeyError>(
            KeyError::ClientIdMandatory,
        ),
        file_name is Some ==> object_key_result(ids, file_name) == Err::<Seq<char>, KeyError>(
            KeyError::ClientIdMandatory,
        ),
{
}

/// A table name without a record id, or a record id without a table name, is
/// reported by the missing side once client, container type and container id pass.
pub proof fn lemma_table_and_record_paired(ids: Identifiers, include_scope: bool)
    requires
        ids.client_id is Some,
        ids.container_type is Some,
        ids.container_id is Some || is_attachment(ids.container_type->0),
    ensures
        ids.table_name is Some && ids.record_id is None ==> prefix_result(ids, include_scope)
            == Err::<Seq<char>, KeyError>(KeyError::RecordIdMandatory),
        ids.table_name is None && ids.record_id is Some ==> prefix_result(ids, include_scope)
            == Err::<Seq<char>, KeyError>(KeyError::TableNameMandatory),
{
}

/// An attachment needs no container id, but it must be pinned to a table row: with
/// both a table name and a record id it names a prefix, without a table name none.
pub proof fn lemma_attachment_pinned_to_row(ids: Identifiers, include_scope: bool)
    requires
        ids.client_id is Some,
        ids.container_type is Some,
        is_attachment(ids.container_type->0),
    ensures
        ids.table_name is Some && ids.record_id is Some ==> prefix_result(ids, include_scope)
            is Ok,
        ids.table_name is None ==> prefix_result(ids, include_scope) is Err,
{
}

/// With scoping asked for, a user id takes precedence over a role id: the prefix
/// goes on from the tenant segment with `user/<user>`, whatever the role.
pub proof fn lemma_user_scope_precedes_role(ids: Identifiers)
    requires
        prefix_error(ids) is None,
        ids.user_id is Some,
    ensures
        prefix_result(ids, true) is Ok,
        scope_part(ids, true) == "user"@ + slash_segment(ids.user_id->0),
        (path_segment(ids.client_id->0) + "/"@ + scope_part(ids, true)).is_prefix_of(
            prefix_result(ids, true)->Ok_0,
        ),
{
    let p = prefix_result(ids, true)->Ok_0;
    let head = path_segment(ids.client_id->0) + "/"@ + scope_part(ids, true);
    assert(p.subrange(0, head.len() as int) =~= head);
}

/// An unrecognized container type yields no prefix and no key.
pub proof fn lemma_unknown_container_type_rejected(
    ids: Identifiers,
    include_scope: bool,
    file_name: Option<Seq<char>>,
)
    requires
        ids.container_type is Some,
        container_kind(ids.container_type->0) is None,
    ensures
        prefix_result(ids, include_scope) is Err,
        object_key_result(ids, file_name) is Err,
{
}

/// The listing prefix of a set of identifiers is a prefix of the object key that the
/// same identifiers and a file name give.
pub proof fn lemma_prefix_of_object_key(ids: Identifiers, file_name: Option<Seq<char>>)
    requires
        object_key_result(ids, file_name) is Ok,
    ensures
        prefix_result(ids, true) is Ok,
        prefix_result(ids, true)->Ok_0.is_prefix_of(object_key_result(ids, file_name)->Ok_0),
{
    let p = prefix_result(ids, true)->Ok_0;
    let k = object_key_result(ids, file_name)->Ok_0;
    assert(k.subrange(0, p.len() as int) =~= p);
}

} // verus!
