//! The laws of the collection: how the five operations relate across calls.

use vstd::prelude::*;

use crate::model::{content_eq, with_id, BlogView};
use crate::oid::{lemma_oid_hex_round_trip, oid_hex, spec_parse_oid, valid_oid_str, PostId};
use crate::repository::{
    find_in, has_id, lemma_find_in_first, lemma_find_in_props, spec_create, spec_delete,
    spec_lookup, spec_update, unique_ids,
};

verus! {

/// Creating a post and then looking the assigned identifier up yields a
/// stored post equal to the input in every field except the id assignment.
pub proof fn lemma_create_then_get(s: Seq<BlogView>, b: BlogView, fresh: PostId)
    requires
        !has_id(s, fresh),
    ensures
        spec_lookup(spec_create(s, b, fresh), fresh) == Some(with_id(b, fresh)),
        content_eq(with_id(b, fresh), b),
{
    let t = spec_create(s, b, fresh);
    lemma_find_in_props(s, fresh);
    lemma_find_in_first(t, fresh, s.len() as int);
}

/// The same round trip through the identifier's textual form: the id the
/// acknowledgment carries, printed and parsed back as a path argument,
/// names the document that was just created.
pub proof fn lemma_create_then_get_by_hex(s: Seq<BlogView>, b: BlogView, fresh: PostId)
    requires
        !has_id(s, fresh),
    ensures
        valid_oid_str(oid_hex(fresh)),
        spec_lookup(spec_create(s, b, fresh), spec_parse_oid(oid_hex(fresh))) == Some(
            with_id(b, fresh),
        ),
{
    lemma_oid_hex_round_trip(fresh);
    lemma_create_then_get(s, b, fresh);
}

/// Updating by an identifier that matches nothing leaves the collection
/// unchanged.
pub proof fn lemma_update_unmatched(s: Seq<BlogView>, id: PostId, b: BlogView)
    requires
        !has_id(s, id),
    ensures
        spec_update(s, id, b) == s,
{
}

/// Updating by a matching identifier replaces every mutable field: looking
/// the same identifier up afterwards yields exactly the new values, under
/// the unchanged identifier.
pub proof fn lemma_update_then_get(s: Seq<BlogView>, id: PostId, b: BlogView)
    requires
        has_id(s, id),
    ensures
        spec_lookup(spec_update(s, id, b), id) == Some(with_id(b, id)),
        content_eq(with_id(b, id), b),
        spec_update(s, id, b).len() == s.len(),
{
    lemma_find_in_props(s, id);
    let i = find_in(s, id).unwrap();
    let t = s.update(i, with_id(b, id));
    lemma_find_in_first(t, id, i);
}

/// Deleting by a matching identifier removes exactly one document, and a
/// subsequent lookup of the same identifier finds nothing.
pub proof fn lemma_delete_removes(s: Seq<BlogView>, id: PostId)
    requires
        has_id(s, id),
        unique_ids(s),
    ensures
        spec_delete(s, id).len() == s.len() - 1,
        spec_lookup(spec_delete(s, id), id) is None,
{
    lemma_find_in_props(s, id);
    let i = find_in(s, id).unwrap();
    let t = s.remove(i);
    assert forall|k: int| 0 <= k < t.len() implies (#[trigger] t[k].id) != Some(id) by {
        if k < i {
            assert(t[k] == s[k]);
        } else {
            assert(t[k] == s[k + 1]);
        }
    }
    lemma_find_in_props(t, id);
}

/// Creating a post grows the collection by exactly one document; together
/// with the list operation's contract, a collection holding nothing lists
/// nothing, and each insert adds one to what is listed.
pub proof fn lemma_create_adds_one(s: Seq<BlogView>, b: BlogView, fresh: PostId)
    ensures
        spec_create(s, b, fresh).len() == s.len() + 1,
{
}

} // verus!
