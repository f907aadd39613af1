//! The subcommands of the command line, as plain values. The argument parser
//! that fills them lives with the program.

use vstd::prelude::*;

verus! {

/// User operations.
#[derive(Debug)]
pub enum UserCommands {
    /// The bot user of the token.
    Me,
    /// A user by identifier.
    Get { id: String },
    /// All users.
    List,
}

/// Page operations.
#[derive(Debug)]
pub enum PageCommands {
    /// Retrieve a page, optionally only some of its properties.
    Get { id: String, filter_properties: Vec<String> },
    /// Create a page under a page or a database.
    Create { parent: String, properties: String, children: Option<String>, database_parent: bool },
    /// Update a page's properties, and optionally archive or restore it.
    Update { id: String, properties: String, archived: Option<bool> },
    /// Move a page under a page, a database or the workspace.
    Move { id: String, parent_type: String, to: String },
    /// Retrieve one property of a page.
    Property { page_id: String, property_id: String },
}

/// Block operations.
#[derive(Debug)]
pub enum BlockCommands {
    Get { id: String },
    /// List a block's children.
    Children { id: String },
    /// Append children to a block, optionally after a given child.
    Append { id: String, children: String, after: Option<String> },
    /// Update a block, and optionally archive or restore it.
    Update { id: String, data: String, archived: Option<bool> },
    Delete { id: String },
}

/// Comment operations.
#[derive(Debug)]
pub enum CommentCommands {
    /// List the comments on a block or page.
    List { block_id: String },
    /// Comment on a page.
    Create { page_id: String, text: String },
}

/// Database operations.
#[derive(Debug)]
pub enum DbCommands {
    /// Retrieve a database's metadata.
    Get { id: String },
}

/// Data source operations.
#[derive(Debug)]
pub enum DsCommands {
    Get { id: String },
    /// Create a data source under a page.
    Create { parent: String, title: String, properties: Option<String> },
    Update { id: String, data: String },
    /// Query a data source, optionally filtered and sorted.
    Query { id: String, filter: Option<String>, sorts: Option<String> },
    /// List a data source's templates.
    Templates { id: String },
}

/// File upload operations.
#[derive(Debug)]
pub enum FileUploadCommands {
    /// Open an upload session.
    Create {
        mode: String,
        filename: Option<String>,
        content_type: Option<String>,
        number_of_parts: Option<u32>,
        external_url: Option<String>,
    },
    /// Send a file, or one part of it, to a session.
    Send { id: String, file: std::path::PathBuf, part_number: Option<u32> },
    /// Complete a session.
    Complete { id: String },
    Get { id: String },
    /// List sessions, optionally by status.
    List { status: Option<String> },
    /// Create, send and complete in one step.
    Upload { file: std::path::PathBuf, content_type: Option<String> },
}

} // verus!
