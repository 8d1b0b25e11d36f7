//! The file search tool's input and output records.
//!
//! The directory walk and the regular-expression matching are outside work;
//! these are the plain records that cross that boundary.

use vstd::prelude::*;

verus! {

/// Input parameters for the file search tool.
#[derive(Debug)]
pub struct FileSearchInput {
    /// The search pattern (a regular expression).
    pub pattern: String,
    /// Directory to search in; the current directory when absent.
    pub directory: Option<String>,
    /// Most results to return.
    pub max_results: Option<u32>,
    /// File extensions to include; all files when absent.
    pub extensions: Option<Vec<String>>,
    /// Whether the search is case-sensitive.
    pub case_sensitive: Option<bool>,
}

/// The default bound on search results.
pub fn default_max_results() -> (r: Option<u32>)
    ensures
        r == Some(100u32),
{
    Some(100)
}

/// Searches are case-insensitive unless asked otherwise.
pub fn default_case_sensitive() -> (r: Option<bool>)
    ensures
        r == Some(false),
{
    Some(false)
}

impl FileSearchInput {
    /// The result bound actually used: the requested one, or the default.
    pub fn effective_max_results(&self) -> (r: u32)
        ensures
            r == match self.max_results {
                Some(n) => n,
                None => 100u32,
            },
    {
        match self.max_results {
            Some(n) => n,
            None => 100,
        }
    }

    /// The case sensitivity actually used: the requested one, or the default.
    pub fn effective_case_sensitive(&self) -> (r: bool)
        ensures
            r == match self.case_sensitive {
                Some(b) => b,
                None => false,
            },
    {
        match self.case_sensitive {
            Some(b) => b,
            None => false,
        }
    }
}

/// A single line match found by the file search tool.
#[derive(Debug)]
pub struct FileMatch {
    /// Path of the file containing the match.
    pub file_path: String,
    /// Line number of the match (1-based).
    pub line_number: u32,
    /// The full line containing the match.
    pub line_content: String,
    /// Column where the match starts (0-based).
    pub column_start: u32,
    /// Column where the match ends (0-based).
    pub column_end: u32,
}

/// The file search tool.
#[derive(Debug)]
pub struct FileSearchTool;

impl FileSearchTool {
    /// The tool's registry name.
    pub fn name(&self) -> (r: &'static str)
        ensures
            r@ == "file_search"@,
    {
        "file_search"
    }

    /// The tool's human-readable description.
    pub fn description(&self) -> (r: &'static str)
        ensures
            r@ == "Search for text patterns in files using regular expressions. Supports filtering by file extensions and case-sensitive/insensitive matching."@,
    {
        "Search for text patterns in files using regular expressions. Supports filtering by file extensions and case-sensitive/insensitive matching."
    }
}

} // verus!
