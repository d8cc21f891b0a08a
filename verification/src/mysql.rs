//! The MySQL renderer is an intentionally unimplemented dialect stub:
//! asking it to render any item is a fatal caller error, not a recoverable
//! result. A verified function may not panic, so the item-level entry
//! points of this dialect do not exist here at all; only a schema with no
//! items can be rendered, and it renders nothing.

use vstd::prelude::*;

use crate::models::Schema;

verus! {

/// Renders an empty schema, the only schema this stub accepts, to nothing.
pub fn write_schema(schema: &Schema) -> (out: String)
    requires
        schema@.items.len() == 0,
    ensures
        out@ == Seq::<char>::empty(),
{
    String::new()
}

} // verus!
