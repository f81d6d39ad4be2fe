//! The JSON patches of one Nemesis patch file, sorted into the maps of its template.
//!
//! A Nemesis patch file (`Nemesis_Engine/mod/<mod_code>/<template>/#<id>.txt`) is parsed
//! into JSON patches, each with a kind: a `Pure` patch replaces one value, a `SeqRange` or
//! `SeqPush` patch edits an array. The file's path names the template; its patches go to
//! the single-value map (`Pure`) or the array map (the others) of that template, all with
//! the priority of the mod.
use vstd::prelude::*;

use crate::error::Error;
use crate::nemesis_path::{parse_nemesis_path, spec_nemesis_path, spec_template_key, spec_variable_index};
use crate::patch_map::{spec_keep_higher, spec_push, HkxPatchMaps, JsonPath, ValueWithPriority};
use crate::templates::TemplateKey;

verus! {

/// The kind of a JSON patch.
#[derive(Debug, Clone, Copy, PartialEq, Eq, Structural)]
pub enum PatchAction {
    /// Replaces one value.
    Pure,
    /// Edits a range of an array.
    SeqRange,
    /// Appends to an array.
    SeqPush,
}

/// A JSON patch of a Nemesis patch file.
#[derive(Debug, Clone, PartialEq, Eq)]
pub struct ParsedPatch {
    /// The JSON path it targets.
    pub path: JsonPath,
    /// Its kind.
    pub action: PatchAction,
    /// The patch, as JSON text.
    pub patch: String,
}

/// The single-value map after offering the `Pure` patches of `patches`, in order, all with
/// `priority` (the first of equal priority stays).
pub open spec fn spec_pure_patches(patches: Seq<ParsedPatch>, priority: usize) -> Map<
    Seq<Seq<char>>,
    (Seq<char>, usize),
>
    decreases patches.len(),
{
    if patches.len() == 0 {
        Map::empty()
    } else {
        let before = spec_pure_patches(patches.drop_last(), priority);
        let p = patches.last();
        if p.action == PatchAction::Pure {
            spec_keep_higher(before, p.path.deep_view(), (p.patch@, priority))
        } else {
            before
        }
    }
}

/// The array map after pushing the other patches of `patches`, in order, all with
/// `priority`.
pub open spec fn spec_array_patches(patches: Seq<ParsedPatch>, priority: usize) -> Map<
    Seq<Seq<char>>,
    Seq<(Seq<char>, usize)>,
>
    decreases patches.len(),
{
    if patches.len() == 0 {
        Map::empty()
    } else {
        let before = spec_array_patches(patches.drop_last(), priority);
        let p = patches.last();
        if p.action == PatchAction::Pure {
            before
        } else {
            spec_push(before, p.path.deep_view(), (p.patch@, priority))
        }
    }
}

/// The template of the patch file at `path`, if its path names one.
pub open spec fn spec_file_template(path: Seq<char>) -> Option<Seq<char>> {
    match spec_nemesis_path(path) {
        Some(np) => spec_template_key(np),
        None => None,
    }
}

/// The class index of the patch file at `path`: its template's, or else the one the parser
/// found (`parsed`).
pub open spec fn spec_file_index(path: Seq<char>, parsed: Option<Seq<char>>) -> Option<Seq<char>> {
    match spec_nemesis_path(path) {
        Some(np) => match spec_variable_index(np) {
            Some(x) => Some(x),
            None => parsed,
        },
        None => None,
    }
}

/// The patches of one file, for its template.
pub struct TemplatePatches {
    /// The template the file patches.
    pub template: TemplateKey,
    /// Its patches, by kind.
    pub maps: HkxPatchMaps,
    /// The class index used to resolve Nemesis variables in the template, if known.
    pub variable_class_index: Option<String>,
}

/// Sorts the parsed patches of the Nemesis patch file at `path` into the maps of its
/// template, with the mod's `priority`.
///
/// The variable class index is the one of the path's template, or else the one the parser
/// found in the file (`parsed_var_index`). A path that is not a Nemesis patch path, or that
/// names no known template, is refused.
pub fn collect_file_patches(
    path: &str,
    patches: Vec<ParsedPatch>,
    parsed_var_index: Option<&str>,
    priority: usize,
) -> (r: Result<TemplatePatches, Error>)
    ensures
        match spec_nemesis_path(path@) {
            None => r matches Err(Error::FailedParseNemesisPath { path: p }) && p@ == path@,
            Some(np) => match spec_template_key(np) {
                None => r matches Err(Error::FailedToCastNemesisPathToTemplateKey { path: p })
                    && p@ == path@,
                Some(t) => r matches Ok(tp) && {
                    &&& tp.template@ == t
                    &&& tp.maps.one@ == spec_pure_patches(patches@, priority)
                    &&& tp.maps.seq@ == spec_array_patches(patches@, priority)
                    &&& (tp.variable_class_index is Some <==> (spec_variable_index(np) is Some
                        || parsed_var_index is Some))
                    &&& (tp.variable_class_index matches Some(i) ==> i@ == match spec_variable_index(
                        np,
                    ) {
                        Some(x) => x,
                        None => parsed_var_index->0@,
                    })
                },
            },
        },
{
    let nemesis_path = parse_nemesis_path(path)?;
    let template = match nemesis_path.to_template_key() {
        Some(k) => k,
        None => return Err(Error::FailedToCastNemesisPathToTemplateKey { path: path.to_owned() }),
    };
    let variable_class_index = match nemesis_path.get_variable_index() {
        Some(i) => Some(i.to_owned()),
        None => match parsed_var_index {
            Some(i) => Some(i.to_owned()),
            None => None,
        },
    };
    let ghost all = patches@;
    let mut maps = HkxPatchMaps::new();
    for p in it: patches.into_iter()
        invariant
            it.seq() == all,
            maps.one@ == spec_pure_patches(all.take(it.index() as int), priority),
            maps.seq@ == spec_array_patches(all.take(it.index() as int), priority),
    {
        let ghost i = it.index() as int;
        proof {
            assert(all.take(i + 1).drop_last() =~= all.take(i));
        }
        let value = ValueWithPriority { patch: p.patch, priority };
        match p.action {
            PatchAction::Pure => maps.one.insert(p.path, value),
            PatchAction::SeqRange | PatchAction::SeqPush => maps.seq.insert(p.path, value),
        }
    }
    proof {
        assert(all.take(all.len() as int) =~= all);
    }
    Ok(TemplatePatches { template, maps, variable_class_index })
}

} // verus!
