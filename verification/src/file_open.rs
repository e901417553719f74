//! Recognising files the editor can open.
//!
//! The application may be handed a file when it is launched (a command
//! line argument) or while it runs (an "opened" event carrying URLs).
//! Either way the same rules apply: only diagram sources by their
//! extension are accepted, and a `file://` scheme prefix is removed
//! before the check.  The host stores the accepted path in application
//! state as an [`OpenedFilePath`] and surfaces it to the UI.

use crate::text::{ends_with_str, is_suffix_of, remove_all, remove_all_spec};
use vstd::prelude::*;

verus! {

/// The opened-file slot kept in application state: the path handed to
/// the application at launch or by an "opened" event, if any was both
/// present and supported.
pub struct OpenedFilePath(pub Option<String>);

impl OpenedFilePath {
    /// The stored path, if any.
    pub fn get(&self) -> (r: Option<String>)
        ensures
            r == self.0,
    {
        match &self.0 {
            Some(p) => Some(p.clone()),
            None => None,
        }
    }
}

/// A path names a diagram source the editor can open.
pub open spec fn is_supported_spec(path: Seq<char>) -> bool {
    ||| is_suffix_of(".pu"@, path)
    ||| is_suffix_of(".puml"@, path)
    ||| is_suffix_of(".mmd"@, path)
    ||| is_suffix_of(".mermaid"@, path)
}

/// Whether a file path has a supported diagram extension.
pub fn is_supported_file(file_path: &str) -> (b: bool)
    ensures
        b == is_supported_spec(file_path@),
{
    ends_with_str(file_path, ".pu") || ends_with_str(file_path, ".puml") || ends_with_str(
        file_path,
        ".mmd",
    ) || ends_with_str(file_path, ".mermaid")
}

/// The file a launch argument list opens: the first real argument (the
/// one after the executable's name), provided it is supported.
pub open spec fn opened_from_args_spec(args: Seq<Seq<char>>) -> Option<Seq<char>> {
    if args.len() > 1 && is_supported_spec(args[1]) {
        Some(args[1])
    } else {
        None
    }
}

/// Pick the opened file out of the launch arguments.
pub fn opened_file_from_args(args: &Vec<String>) -> (r: Option<String>)
    ensures
        r.deep_view() == opened_from_args_spec(args.deep_view()),
{
    if args.len() > 1 {
        let candidate = &args[1];
        if is_supported_file(candidate.as_str()) {
            Some(candidate.clone())
        } else {
            None
        }
    } else {
        None
    }
}

/// The file an "opened" event's URL list opens: the first URL with any
/// `file://` scheme occurrences removed, provided the remaining path is
/// supported.
pub open spec fn opened_from_urls_spec(urls: Seq<Seq<char>>) -> Option<Seq<char>> {
    if urls.len() == 0 {
        None
    } else if is_supported_spec(remove_all_spec(urls[0], "file://"@)) {
        Some(remove_all_spec(urls[0], "file://"@))
    } else {
        None
    }
}

/// Pick the opened file out of an "opened" event's URLs.
pub fn opened_file_from_urls(urls: &Vec<String>) -> (r: Option<String>)
    ensures
        r.deep_view() == opened_from_urls_spec(urls.deep_view()),
{
    if urls.len() == 0 {
        return None;
    }
    let path = remove_all(urls[0].as_str(), "file://");
    if is_supported_file(path.as_str()) {
        Some(path)
    } else {
        None
    }
}

} // verus!
