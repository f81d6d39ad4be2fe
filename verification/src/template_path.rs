//! Template paths: the part of a template file path that starts at its `meshes` directory.
//!
//! - `meshes/../[1st_person/]<template name>.bin`
//! - e.g. `../../resource/assets/templates/meshes/actors/character/defaultmale_Project.bin`
//!   gives `meshes/actors/character/defaultmale_Project.bin`.
//!
//! The directory is found as the first `meshes` (in any ASCII case) followed by `/` or `\`
//! that is preceded by at least one character.
use vstd::prelude::*;

use crate::templates::TemplateKey;
use crate::text::{caseless_at, caseless_at_exec, chars_of, sep_at, sep_at_exec};

verus! {

/// Errors of template path handling.
#[derive(Debug, Clone, PartialEq, Eq)]
pub enum TemplateError {
    /// The path is not valid UTF-8.
    InvalidUtf8,
    /// The path has no file stem.
    MissingFileStem,
    /// The path has no `meshes` directory.
    MissingMeshesDir { path: String },
}

/// A `meshes` directory (in any ASCII case, followed by a separator) begins at `k`.
pub open spec fn meshes_dir_at(s: Seq<char>, k: int) -> bool {
    caseless_at(s, k, "meshes"@) && sep_at(s, k + "meshes"@.len())
}

/// The first position `k >= i` where a `meshes` directory begins, or -1.
pub open spec fn find_meshes_dir(s: Seq<char>, i: int) -> int
    decreases s.len() + 1 - i,
{
    if i < 0 || i >= s.len() {
        -1
    } else if meshes_dir_at(s, i) {
        i
    } else {
        find_meshes_dir(s, i + 1)
    }
}

proof fn lemma_find_meshes_dir(s: Seq<char>, i: int)
    requires
        0 <= i,
    ensures
        find_meshes_dir(s, i) == -1 || (i <= find_meshes_dir(s, i) < s.len() && meshes_dir_at(
            s,
            find_meshes_dir(s, i),
        )),
    decreases s.len() + 1 - i,
{
    if i < s.len() && !meshes_dir_at(s, i) {
        lemma_find_meshes_dir(s, i + 1);
    }
}

/// The inner path of `s`: from its first `meshes` directory after position 0 to the end.
pub open spec fn spec_template_path(s: Seq<char>) -> Option<Seq<char>> {
    let k = find_meshes_dir(s, 1);
    if k < 0 {
        None
    } else {
        Some(s.subrange(k, s.len() as int))
    }
}

/// The inner path starting from `meshes` of a template path.
pub fn parse_template_path(path: &str) -> (r: Result<&str, TemplateError>)
    ensures
        match spec_template_path(path@) {
            Some(inner) => r matches Ok(t) && t@ == inner,
            None => r matches Err(TemplateError::MissingMeshesDir { path: p }) && p@ == path@,
        },
{
    let s = chars_of(path);
    let meshes = chars_of("meshes");
    let mut i: usize = 1;
    while i < s.len()
        invariant
            meshes@ == "meshes"@,
            s@ == path@,
            1 <= i,
            find_meshes_dir(s@, 1) == find_meshes_dir(s@, i as int),
        decreases s@.len() - i,
    {
        if caseless_at_exec(&s, i, &meshes) && sep_at_exec(&s, i + meshes.len()) {
            return Ok(path.substring_char(i, s.len()));
        }
        i = i + 1;
    }
    Err(TemplateError::MissingMeshesDir { path: path.to_owned() })
}

/// The template key of a template path: its inner path starting from `meshes`.
pub fn template_name_and_inner_path(path: &str) -> (r: Result<TemplateKey, TemplateError>)
    ensures
        match spec_template_path(path@) {
            Some(inner) => r matches Ok(k) && k@ == inner,
            None => r matches Err(TemplateError::MissingMeshesDir { path: p }) && p@ == path@,
        },
{
    let inner = parse_template_path(path)?;
    proof {
        lemma_find_meshes_dir(path@, 1);
        let k = find_meshes_dir(path@, 1);
        assert(path@.subrange(k, path@.len() as int).subrange(0, "meshes"@.len() as int)
            =~= path@.subrange(k, k + "meshes"@.len()));
    }
    match TemplateKey::new(inner.to_owned()) {
        Some(key) => Ok(key),
        None => Err(TemplateError::MissingMeshesDir { path: path.to_owned() }),
    }
}

} // verus!
