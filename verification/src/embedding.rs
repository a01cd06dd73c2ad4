//! The vector literal by which an embedding is handed to the data store.

use vstd::prelude::*;
use vstd::string::*;
use crate::text::{join, join_strings, string_views};

verus! {

/// The store's syntax for a vector: the components, separated by commas,
/// between square brackets.
pub open spec fn vector_literal(components: Seq<Seq<char>>) -> Seq<char> {
    "["@ + join(components, ","@) + "]"@
}

/// Renders a vector, given by its components in text, as a vector literal of
/// the data store. An empty vector gives "[]".
pub fn embedding_to_pgvector(components: &Vec<String>) -> (literal: String)
    ensures
        literal@ == vector_literal(string_views(components@)),
{
    let mut literal = String::from_str("[");
    literal.append(join_strings(components, ",").as_str());
    literal.append("]");
    literal
}

} // verus!
