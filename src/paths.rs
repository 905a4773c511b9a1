//! File references: where a cover image lives relative to its article, and
//! which files count as articles.

use vstd::prelude::*;

use std::path::Path;

use crate::text::str_eq;

verus! {

/// Whether a path is absolute on this platform, as `Path::is_absolute` says.
pub uninterp spec fn absolute(p: Seq<char>) -> bool;

/// The path without its final component, as `Path::parent` gives it.
pub uninterp spec fn parent_of(p: Seq<char>) -> Option<Seq<char>>;

/// `rest` appended to `base`, as `Path::join` gives it.
pub uninterp spec fn joined(base: Seq<char>, rest: Seq<char>) -> Seq<char>;

/// The final component without its extension, as `Path::file_stem` gives it.
pub uninterp spec fn stem_of(p: Seq<char>) -> Option<Seq<char>>;

/// The extension of the final component, as `Path::extension` gives it.
pub uninterp spec fn extension_of(p: Seq<char>) -> Option<Seq<char>>;

/// Relies on `Path::is_absolute`.
#[verifier::external_body]
fn path_is_absolute(p: &str) -> (r: bool)
    ensures
        r == absolute(p@),
{
    Path::new(p).is_absolute()
}

/// Relies on `Path::parent`; the result is text because the argument is.
#[verifier::external_body]
fn path_parent(p: &str) -> (r: Option<String>)
    ensures
        r matches Some(d) ==> parent_of(p@) == Some(d@),
        r is None ==> parent_of(p@) is None,
{
    match Path::new(p).parent() {
        Some(d) => Some(d.to_string_lossy().into_owned()),
        None => None,
    }
}

/// Relies on `Path::join`; the result is text because both arguments are.
#[verifier::external_body]
fn path_join(base: &str, rest: &str) -> (r: String)
    ensures
        r@ == joined(base@, rest@),
{
    Path::new(base).join(rest).to_string_lossy().into_owned()
}

/// Relies on `Path::file_stem`.
#[verifier::external_body]
fn path_file_stem(p: &str) -> (r: Option<String>)
    ensures
        r matches Some(s) ==> stem_of(p@) == Some(s@),
        r is None ==> stem_of(p@) is None,
{
    match Path::new(p).file_stem() {
        Some(s) => Some(s.to_string_lossy().into_owned()),
        None => None,
    }
}

/// Relies on `Path::extension`.
#[verifier::external_body]
fn path_extension(p: &str) -> (r: Option<String>)
    ensures
        r matches Some(s) ==> extension_of(p@) == Some(s@),
        r is None ==> extension_of(p@) is None,
{
    match Path::new(p).extension() {
        Some(s) => Some(s.to_string_lossy().into_owned()),
        None => None,
    }
}

/// The directory that holds an article: its parent, or the current
/// directory when it has none.
pub open spec fn article_dir(article: Seq<char>) -> Seq<char> {
    match parent_of(article) {
        Some(d) => d,
        None => "."@,
    }
}

/// Where a cover reference points: an absolute reference to itself, a
/// relative one into the article's directory.
pub open spec fn resolved_cover(article: Seq<char>, cover: Seq<char>) -> Seq<char> {
    if absolute(cover) {
        cover
    } else {
        joined(article_dir(article), cover)
    }
}

/// Resolves a cover reference against the article that declares it, never
/// against the working directory.
pub fn resolve_cover_path(markdown_file_path: &str, cover_filename: &str) -> (r: String)
    ensures
        r@ == resolved_cover(markdown_file_path@, cover_filename@),
{
    if path_is_absolute(cover_filename) {
        String::from_str(cover_filename)
    } else {
        let dir = match path_parent(markdown_file_path) {
            Some(d) => d,
            None => String::from_str("."),
        };
        path_join(dir.as_str(), cover_filename)
    }
}

/// The stem that names an article's generated cover: the file stem, or
/// `article` when the path has none.
pub open spec fn article_stem(article: Seq<char>) -> Seq<char> {
    match stem_of(article) {
        Some(s) => s,
        None => "article"@,
    }
}

pub fn article_file_stem(markdown_file_path: &str) -> (r: String)
    ensures
        r@ == article_stem(markdown_file_path@),
{
    match path_file_stem(markdown_file_path) {
        Some(s) => s,
        None => String::from_str("article"),
    }
}

/// Whether a file is an article: its extension is `md`.
pub fn is_markdown_file(path: &str) -> (r: bool)
    ensures
        r == (extension_of(path@) == Some("md"@)),
{
    match path_extension(path) {
        Some(e) => str_eq(e.as_str(), "md"),
        None => false,
    }
}

} // verus!
