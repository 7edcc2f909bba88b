//! Keeping the saved schema document in step with the schema as built: the
//! file is written only when its content would change.

use crate::proto::text_of;
use vstd::prelude::*;

verus! {

/// What is to be done with the schema file.
#[derive(Debug, Clone, Copy, PartialEq, Eq, Structural)]
pub enum SchemaFileAction {
    /// The file is to be written with the rendered schema.
    Write,
    /// The file holds the rendered schema already and is left alone.
    Keep,
}

/// The content that a schema file counts as holding: a file that cannot be
/// read counts as empty.
pub open spec fn content_of(existing: Option<Seq<char>>) -> Seq<char> {
    match existing {
        Some(content) => content,
        None => Seq::empty(),
    }
}

/// The action that brings a file with content `existing` (`None` where it
/// cannot be read) in step with the schema rendered as `rendered`.
pub open spec fn action_for(existing: Option<Seq<char>>, rendered: Seq<char>) -> SchemaFileAction {
    if content_of(existing) == rendered {
        SchemaFileAction::Keep
    } else {
        SchemaFileAction::Write
    }
}

/// Decides whether the schema file has to be written. `existing` is what the
/// file holds now, `None` where it cannot be read; `rendered` is the schema
/// as it would be written.
pub fn schema_file_action(existing: Option<String>, rendered: &String) -> (action: SchemaFileAction)
    ensures
        action == action_for(text_of(existing), rendered@),
{
    let current = match existing {
        Some(content) => content,
        None => String::new(),
    };
    if current == *rendered {
        SchemaFileAction::Keep
    } else {
        SchemaFileAction::Write
    }
}

/// Saving is idempotent: once the file holds the rendered schema, as it does
/// after it was written, saving the same schema again leaves it alone.
pub proof fn saved_schema_is_kept(rendered: Seq<char>)
    ensures
        action_for(Some(rendered), rendered) == SchemaFileAction::Keep,
{
}

} // verus!
