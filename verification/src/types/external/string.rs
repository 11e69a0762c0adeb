//! Text as a value type.

use crate::registry::{
    lemma_register_nothing, MetaSchema, MetaSchemaRef, MetaSchemaRefView, MetaSchemaView, Registry,
};
use crate::types::Type;
use std::borrow::Cow;
use vstd::prelude::*;

verus! {

impl Type for String {
    open spec fn spec_name() -> Seq<char> {
        "string"@
    }

    open spec fn spec_schema_ref() -> MetaSchemaRefView {
        MetaSchemaRefView::Inline(MetaSchemaView { ty: "string"@, format: None })
    }

    open spec fn named_schemas() -> Map<Seq<char>, MetaSchemaView> {
        Map::empty()
    }

    fn name() -> (r: Cow<'static, str>) {
        Cow::Borrowed("string")
    }

    fn schema_ref() -> (r: MetaSchemaRef) {
        MetaSchemaRef::Inline(Box::new(MetaSchema::new("string")))
    }

    fn register(registry: &mut Registry) {
        proof {
            lemma_register_nothing(registry.schemas());
        }
    }
}

} // verus!
