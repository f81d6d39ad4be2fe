//! Nemesis patch path specification and parser.
//!
//! ## Supported layouts
//!
//! ### Normal
//! ```text
//! Nemesis_Engine/mod/<mod_code>/(optional _1stperson/)<template_name>/#<file>.txt
//! ```
//! - Targets a specific Nemesis template (e.g. `0_master`).
//! - `_1stperson` is a semantic prefix handled only in this mode.
//!
//! ### EngineExt
//! ```text
//! Nemesis_EngineExt/mod/<mod_code>/meshes/<any path>/#<file>.txt
//! ```
//! - Everything under `meshes/` is considered patchable.
//!
//! Both `/` and `\` separate components. The markers `Nemesis_Engine`,
//! `Nemesis_EngineExt`, `mod` and `_1stperson` are matched without ASCII case;
//! `meshes` in the EngineExt layout is matched exactly. A search for a marker
//! stops at its first occurrence.
use vstd::prelude::*;

use crate::error::Error;
use crate::templates::{
    master_index_of, starts_with_meshes, template_of, MasterIndex, TemplateKey,
};
use crate::text::{
    eq_caseless, caseless_at, caseless_at_exec, chars_of, exact_at, exact_at_exec, find_caseless,
    find_caseless_exec, find_sep_hash, find_sep_hash_exec, lemma_find_caseless, lemma_run_end,
    run_end, run_end_exec, sep_at, sep_at_exec, sep_hash_at,
};

verus! {

/// Parsed Nemesis path.
#[derive(Debug, Clone, PartialEq, Eq)]
pub enum NemesisPath<'a> {
    /// Normal Nemesis template-based patch.
    Normal {
        /// Template name such as `0_master`.
        template_name: &'a str,
        /// Whether `_1stperson` prefix exists.
        is_1st_person: bool,
    },
    /// Nemesis EngineExt patch: a relative path starting from `meshes/` (including `meshes/`).
    EngineExt { meshes_path: &'a str },
}

/// The mathematical content of a [`NemesisPath`].
pub enum NemesisPathView {
    Normal { template_name: Seq<char>, is_1st_person: bool },
    EngineExt { meshes_path: Seq<char> },
}

impl<'a> View for NemesisPath<'a> {
    type V = NemesisPathView;

    open spec fn view(&self) -> NemesisPathView {
        match *self {
            NemesisPath::Normal { template_name, is_1st_person } => NemesisPathView::Normal {
                template_name: template_name@,
                is_1st_person,
            },
            NemesisPath::EngineExt { meshes_path } => NemesisPathView::EngineExt {
                meshes_path: meshes_path@,
            },
        }
    }
}

/// Position right after `<marker>/mod/<mod_code>/`, where `<marker>` is the first
/// case-insensitive occurrence of `marker` in `s`; -1 when that prefix does not follow.
pub open spec fn after_mod_code(s: Seq<char>, marker: Seq<char>) -> int {
    let p = find_caseless(s, 0, marker);
    let a = p + marker.len();
    let m = a + 1 + "mod"@.len();
    let c1 = run_end(s, m + 1);
    if p < 0 {
        -1
    } else if !sep_at(s, a) || !caseless_at(s, a + 1, "mod"@) || !sep_at(s, m) {
        -1
    } else if c1 == m + 1 || !sep_at(s, c1) {
        -1
    } else {
        c1 + 1
    }
}

/// The Normal layout: `(is_1st_person, start, end)` of the template name, if `s` has it.
pub open spec fn spec_normal(s: Seq<char>) -> Option<(bool, int, int)> {
    let t0 = after_mod_code(s, "Nemesis_Engine"@);
    let first = caseless_at(s, t0, "_1stperson"@) && sep_at(s, t0 + "_1stperson"@.len());
    let n0 = if first {
        t0 + "_1stperson"@.len() + 1
    } else {
        t0
    };
    let n1 = run_end(s, n0);
    if t0 < 0 || n1 == n0 {
        None
    } else {
        Some((first, n0, n1))
    }
}

/// The EngineExt layout: `(start, end)` of the `meshes/...` part, if `s` has it.
/// The part ends right before the first `/#` or `\#` after `meshes/`.
pub open spec fn spec_ext(s: Seq<char>) -> Option<(int, int)> {
    let m0 = after_mod_code(s, "Nemesis_EngineExt"@);
    let k = find_sep_hash(s, m0 + "meshes"@.len() + 1);
    if m0 < 0 || !exact_at(s, m0, "meshes"@) || !sep_at(s, m0 + "meshes"@.len()) || k < 0 {
        None
    } else {
        Some((m0, k))
    }
}

/// What [`parse_nemesis_path`] yields for the text `s`: the EngineExt layout is tried first.
pub open spec fn spec_nemesis_path(s: Seq<char>) -> Option<NemesisPathView> {
    match spec_ext(s) {
        Some((a, b)) => Some(NemesisPathView::EngineExt { meshes_path: s.subrange(a, b) }),
        None => match spec_normal(s) {
            Some((f, a, b)) => Some(
                NemesisPathView::Normal { template_name: s.subrange(a, b), is_1st_person: f },
            ),
            None => None,
        },
    }
}

/// The template a parsed path patches: a Normal path's template through the template
/// tables; an EngineExt path's `meshes/...` text as given, when it
/// starts with `meshes`.
pub open spec fn spec_template_key(p: NemesisPathView) -> Option<Seq<char>> {
    match p {
        NemesisPathView::Normal { template_name, is_1st_person } => template_of(
            template_name,
            is_1st_person,
        ),
        NemesisPathView::EngineExt { meshes_path } => if starts_with_meshes(meshes_path) {
            Some(meshes_path)
        } else {
            None
        },
    }
}

/// The variable class index of a parsed path: the behavior graph index of a Normal path's
/// template, if it has one; none for an EngineExt path.
pub open spec fn spec_variable_index(p: NemesisPathView) -> Option<Seq<char>> {
    match p {
        NemesisPathView::Normal { template_name, is_1st_person } => match master_index_of(
            template_name,
            is_1st_person,
        ) {
            Some((_, graph)) => Some(graph),
            None => None,
        },
        NemesisPathView::EngineExt { .. } => None,
    }
}

impl<'a> NemesisPath<'a> {
    /// Attempts to convert this path into a [`TemplateKey`]: a Normal path through the
    /// template tables, an EngineExt path as its `meshes/...` text.
    pub fn to_template_key(&self) -> (r: Option<TemplateKey>)
        ensures
            match spec_template_key(self@) {
                Some(t) => r matches Some(k) && k@ == t,
                None => r is None,
            },
    {
        match self {
            NemesisPath::Normal { template_name, is_1st_person } => TemplateKey::from_nemesis_file(
                template_name,
                *is_1st_person,
            ),
            NemesisPath::EngineExt { meshes_path } => TemplateKey::new((*meshes_path).to_owned()),
        }
    }

    /// Returns the variable class index (e.g. `#0100`) used to replace Nemesis variables
    /// (e.g. `$variableID[variableName]$`) in `hkbBehaviorGraphStringData`.
    ///
    /// Only Normal paths have one; for EngineExt paths this is always `None`, since
    /// their index is discovered by the patcher during graph traversal.
    pub fn get_variable_index(&self) -> (r: Option<&'static str>)
        ensures
            match spec_variable_index(self@) {
                Some(x) => r matches Some(i) && i@ == x,
                None => r is None,
            },
    {
        match self {
            NemesisPath::Normal { template_name, is_1st_person } => {
                match MasterIndex::from_nemesis_file(template_name, *is_1st_person) {
                    Some(m) => Some(m.master_behavior_graph_index),
                    None => None,
                }
            },
            NemesisPath::EngineExt { .. } => None,
        }
    }
}

/// Every EngineExt path that the parser yields starts with `meshes`, so it always has a
/// template key.
pub proof fn lemma_ext_path_has_template_key(s: Seq<char>)
    ensures
        spec_nemesis_path(s) matches Some(NemesisPathView::EngineExt { meshes_path })
            ==> starts_with_meshes(meshes_path),
{
    if let Some((a, b)) = spec_ext(s) {
        let m = "meshes"@;
        lemma_find_sep_hash(s, a + m.len() + 1);
        let p = s.subrange(a, b);
        assert(p.subrange(0, m.len() as int) =~= s.subrange(a, a + m.len()));
        assert forall|j: int| 0 <= j < m.len() implies eq_caseless(
            #[trigger] p.subrange(0, m.len() as int)[j],
            m[j],
        ) by {
            assert(p.subrange(0, m.len() as int)[j] == m[j]);
        }
    }
}

/// Position right after `<marker>/mod/<mod_code>/` (see [`after_mod_code`]).
fn after_mod_code_exec(s: &Vec<char>, marker: &str) -> (r: Option<usize>)
    ensures
        match r {
            Some(k) => k as int == after_mod_code(s@, marker@) && k <= s@.len(),
            None => after_mod_code(s@, marker@) < 0,
        },
{
    // The length of `s` fits in a `usize`, so every position computed below does too.
    let _len = s.len();
    let marker_chars = chars_of(marker);
    let mod_chars = chars_of("mod");
    let p = match find_caseless_exec(s, 0, &marker_chars) {
        Some(p) => p,
        None => return None,
    };
    proof {
        lemma_find_caseless(s@, 0, marker@);
    }
    let a = p + marker_chars.len();
    if !sep_at_exec(s, a) || !caseless_at_exec(s, a + 1, &mod_chars) {
        return None;
    }
    let m = a + 1 + mod_chars.len();
    if !sep_at_exec(s, m) {
        return None;
    }
    let c1 = run_end_exec(s, m + 1);
    if c1 == m + 1 || !sep_at_exec(s, c1) {
        return None;
    }
    Some(c1 + 1)
}

fn parse_normal<'a>(path: &'a str, s: &Vec<char>) -> (r: Option<NemesisPath<'a>>)
    requires
        s@ == path@,
    ensures
        match spec_normal(path@) {
            Some((f, a, b)) => r matches Some(p) && p@ == (NemesisPathView::Normal {
                template_name: path@.subrange(a, b),
                is_1st_person: f,
            }),
            None => r is None,
        },
{
    // The length of `s` fits in a `usize`, so every position computed below does too.
    let _len = s.len();
    let t0 = match after_mod_code_exec(s, "Nemesis_Engine") {
        Some(t) => t,
        None => return None,
    };
    let first_chars = chars_of("_1stperson");
    let first = caseless_at_exec(s, t0, &first_chars) && sep_at_exec(s, t0 + first_chars.len());
    let n0 = if first {
        t0 + first_chars.len() + 1
    } else {
        t0
    };
    let n1 = run_end_exec(s, n0);
    if n1 == n0 {
        return None;
    }
    proof {
        lemma_run_end(s@, n0 as int);
    }
    let template_name = path.substring_char(n0, n1);
    Some(NemesisPath::Normal { template_name, is_1st_person: first })
}

fn parse_ext<'a>(path: &'a str, s: &Vec<char>) -> (r: Option<NemesisPath<'a>>)
    requires
        s@ == path@,
    ensures
        match spec_ext(path@) {
            Some((a, b)) => r matches Some(p) && p@ == (NemesisPathView::EngineExt {
                meshes_path: path@.subrange(a, b),
            }),
            None => r is None,
        },
{
    // The length of `s` fits in a `usize`, so every position computed below does too.
    let _len = s.len();
    let m0 = match after_mod_code_exec(s, "Nemesis_EngineExt") {
        Some(m) => m,
        None => return None,
    };
    let meshes_chars = chars_of("meshes");
    if !exact_at_exec(s, m0, &meshes_chars) || !sep_at_exec(s, m0 + meshes_chars.len()) {
        return None;
    }
    let k = match find_sep_hash_exec(s, m0 + meshes_chars.len() + 1) {
        Some(k) => k,
        None => return None,
    };
    proof {
        assert(find_sep_hash(s@, m0 + meshes_chars@.len() + 1) >= 0);
        lemma_find_sep_hash(s@, m0 + meshes_chars@.len() + 1);
    }
    let meshes_path = path.substring_char(m0, k);
    Some(NemesisPath::EngineExt { meshes_path })
}

/// Facts about `find_sep_hash`: a hit lies at or after `i` and inside `s`.
proof fn lemma_find_sep_hash(s: Seq<char>, i: int)
    requires
        0 <= i,
    ensures
        find_sep_hash(s, i) == -1 || (i <= find_sep_hash(s, i) && find_sep_hash(s, i) + 2
            <= s.len()),
    decreases s.len() + 1 - i,
{
    if i + 2 <= s.len() && !sep_hash_at(s, i) {
        lemma_find_sep_hash(s, i + 1);
    }
}

/// Parse a Nemesis patch path and return its structured form.
///
/// The EngineExt layout is tried first, then the Normal layout; a path that has
/// neither is refused with [`Error::FailedParseNemesisPath`].
pub fn parse_nemesis_path(path: &str) -> (r: Result<NemesisPath<'_>, Error>)
    ensures
        r is Ok <==> spec_nemesis_path(path@) is Some,
        r matches Ok(p) ==> Some(p@) == spec_nemesis_path(path@),
        r is Err ==> (r matches Err(Error::FailedParseNemesisPath { path: p }) && p@ == path@),
{
    let s = chars_of(path);
    if let Some(p) = parse_ext(path, &s) {
        return Ok(p);
    }
    if let Some(p) = parse_normal(path, &s) {
        return Ok(p);
    }
    Err(Error::FailedParseNemesisPath { path: path.to_owned() })
}

} // verus!
