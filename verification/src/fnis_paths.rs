//! # FNIS paths
//!
//! ```txt
//! <skyrim data dir>/
//! └── meshes/
//!     └── actors/
//!         └── character/
//!             ├── animations/
//!             │   └── <fnis_mod_namespace>/           <- `animations_mod_dir`
//!             │       ├── *.hkx
//!             │       └── FNIS_<fnis_mod_namespace>_List.txt
//!             └── behaviors/
//!                 └── FNIS_<fnis_mod_namespace>_Behavior.hkx
//! ```
//!
//! The directory names `meshes`, `actors`, `character` and `animations` are
//! matched without ASCII case; both `/` and `\` separate components. The search
//! for `meshes` stops at its first occurrence.
use vstd::prelude::*;

use crate::text::{
    caseless_at, caseless_at_exec, chars_of, exact_at, exact_at_exec, find_caseless,
    find_caseless_exec, is_sep, is_sep_char, lemma_find_caseless, lemma_run_end, run_end,
    run_end_exec, sep_at, sep_at_exec,
};

verus! {

/// Errors of the FNIS path handling that carry plain values.
#[derive(Debug, Clone, PartialEq, Eq)]
pub enum FnisError {
    /// The path has no `meshes/actors/character/animations/<namespace>/` part.
    FailedParseFnisPatchPath { path: String },
    /// The FNIS list file was not found.
    ListMissing { expected: String },
    /// The FNIS mod directory holds no animation, so it names no namespace.
    MissingNameSpace { path: String },
    /// The FNIS behavior file was not found.
    BehaviorMissing { expected: String },
}

/// Position after `<dir>/` where `dir` occurs case-insensitively at `i`, or -1.
pub open spec fn after_dir(s: Seq<char>, i: int, dir: Seq<char>) -> int {
    if i >= 0 && caseless_at(s, i, dir) && sep_at(s, i + dir.len()) {
        i + dir.len() + 1
    } else {
        -1
    }
}

/// Position right after `meshes/actors/character/animations/`, where `meshes` is its
/// first case-insensitive occurrence in `s`; -1 when that does not follow.
pub open spec fn after_animations_dir(s: Seq<char>) -> int {
    let p = find_caseless(s, 0, "meshes"@);
    let a = after_dir(s, p, "meshes"@);
    let b = after_dir(s, a, "actors"@);
    let c = after_dir(s, b, "character"@);
    after_dir(s, c, "animations"@)
}

/// `(start, end)` of the namespace: the component after `.../animations/`. It holds at
/// least one character, and ends at the first separator after its first character;
/// that separator must exist.
pub open spec fn spec_fnis_namespace(s: Seq<char>) -> Option<(int, int)> {
    let n0 = after_animations_dir(s);
    let k = run_end(s, n0 + 1);
    if n0 < 0 || n0 + 1 > s.len() || k >= s.len() {
        None
    } else {
        Some((n0, k))
    }
}

/// The part of `s` after `.../animations/`, when it is not empty.
pub open spec fn spec_trim_till_animations(s: Seq<char>) -> Option<Seq<char>> {
    let n0 = after_animations_dir(s);
    if n0 < 0 || n0 >= s.len() {
        None
    } else {
        Some(s.subrange(n0, s.len() as int))
    }
}

/// `c` with `/` replaced by `\`.
pub open spec fn to_backslash(c: char) -> char {
    if is_sep(c) {
        '\\'
    } else {
        c
    }
}

/// `Animations\<rel>` where `rel` is the part after `.../animations/`, with every
/// separator written as `\`.
pub open spec fn spec_normalize_hkx_path(s: Seq<char>) -> Option<Seq<char>> {
    match spec_trim_till_animations(s) {
        Some(rel) => Some("Animations\\"@ + rel.map_values(|c: char| to_backslash(c))),
        None => None,
    }
}

/// A normalized animation path starts with `Animations\` and holds no `/`.
pub proof fn lemma_normalized_path_form(s: Seq<char>)
    ensures
        spec_normalize_hkx_path(s) matches Some(n) ==> {
            &&& n.subrange(0, "Animations\\"@.len() as int) == "Animations\\"@
            &&& forall|j: int| 0 <= j < n.len() ==> #[trigger] n[j] != '/'
        },
{
    reveal_strlit("Animations\\");
    if let Some(rel) = spec_trim_till_animations(s) {
        let prefix = "Animations\\"@;
        let tail = rel.map_values(|c: char| to_backslash(c));
        let n = prefix + tail;
        assert(n.subrange(0, prefix.len() as int) =~= prefix);
        assert forall|j: int| 0 <= j < n.len() implies #[trigger] n[j] != '/' by {
            if j >= prefix.len() {
                assert(n[j] == tail[j - prefix.len()]);
            }
        }
    }
}

/// The animation event registered in the behavior graph: FNIS prepends `<namespace>_` to the
/// events of the `FNISFlyer` namespace (`FNISfl_BackUp2_fm` becomes
/// `FNISFlyer_FNISfl_BackUp2_fm`); other events are kept as they are.
pub fn anim_event_hack(namespace: &str, anim_event: &str) -> (r: String)
    ensures
        r@ == (if namespace@ == "FNISFlyer"@ {
            namespace@ + "_"@ + anim_event@
        } else {
            anim_event@
        }),
{
    if crate::text::str_eq(namespace, "FNISFlyer") {
        let mut r = String::from_str(namespace);
        r.append("_");
        r.append(anim_event);
        r
    } else {
        anim_event.to_owned()
    }
}

fn after_dir_exec(s: &Vec<char>, i: usize, dir: &str) -> (r: Option<usize>)
    ensures
        match r {
            Some(k) => k as int == after_dir(s@, i as int, dir@) && k <= s@.len(),
            None => after_dir(s@, i as int, dir@) == -1,
        },
{
    // The length of `s` fits in a `usize`, so every position computed below does too.
    let _len = s.len();
    let d = chars_of(dir);
    if caseless_at_exec(s, i, &d) && sep_at_exec(s, i + d.len()) {
        Some(i + d.len() + 1)
    } else {
        None
    }
}

fn after_animations_dir_exec(s: &Vec<char>) -> (r: Option<usize>)
    ensures
        match r {
            Some(k) => k as int == after_animations_dir(s@) && k <= s@.len(),
            None => after_animations_dir(s@) == -1,
        },
{
    let p = match find_caseless_exec(s, 0, &chars_of("meshes")) {
        Some(p) => p,
        None => return None,
    };
    proof {
        lemma_find_caseless(s@, 0, "meshes"@);
    }
    let a = match after_dir_exec(s, p, "meshes") {
        Some(a) => a,
        None => return None,
    };
    let b = match after_dir_exec(s, a, "actors") {
        Some(b) => b,
        None => return None,
    };
    let c = match after_dir_exec(s, b, "character") {
        Some(c) => c,
        None => return None,
    };
    after_dir_exec(s, c, "animations")
}

/// Parse an FNIS path to extract its namespace: the directory after
/// `meshes/actors/character/animations/`.
///
/// # Note
/// The namespace must be a unique name.
pub fn get_fnis_namespace(input: &str) -> (r: Result<&str, FnisError>)
    ensures
        match spec_fnis_namespace(input@) {
            Some((a, b)) => r matches Ok(ns) && ns@ == input@.subrange(a, b),
            None => r matches Err(FnisError::FailedParseFnisPatchPath { path }) && path@
                == input@,
        },
{
    let s = chars_of(input);
    let n0 = match after_animations_dir_exec(&s) {
        Some(n) => n,
        None => return Err(FnisError::FailedParseFnisPatchPath { path: input.to_owned() }),
    };
    if n0 >= s.len() {
        return Err(FnisError::FailedParseFnisPatchPath { path: input.to_owned() });
    }
    proof {
        lemma_run_end(s@, n0 + 1);
    }
    let k = run_end_exec(&s, n0 + 1);
    if k >= s.len() {
        return Err(FnisError::FailedParseFnisPatchPath { path: input.to_owned() });
    }
    Ok(input.substring_char(n0, k))
}

/// The substring relative to `meshes\actors\character\animations\`.
pub fn trim_till_animations(input: &str) -> (r: Option<&str>)
    ensures
        match spec_trim_till_animations(input@) {
            Some(rel) => r matches Some(t) && t@ == rel,
            None => r is None,
        },
{
    let s = chars_of(input);
    let n0 = match after_animations_dir_exec(&s) {
        Some(n) => n,
        None => return None,
    };
    if n0 >= s.len() {
        return None;
    }
    Some(input.substring_char(n0, s.len()))
}

/// To `Animations\<inner_path>\*.hkx`.
///
/// To ensure Skyrim reads it, the result uses `\` regardless of the OS.
pub fn normalize_hkx_path(path: &str) -> (r: Option<String>)
    ensures
        match spec_normalize_hkx_path(path@) {
            Some(n) => r matches Some(t) && t@ == n,
            None => r is None,
        },
{
    let rel = match trim_till_animations(path) {
        Some(rel) => rel,
        None => return None,
    };
    let chars = chars_of(rel);
    let ghost target = rel@.map_values(|c: char| to_backslash(c));
    let mut normalized = String::from_str("Animations\\");
    let mut i: usize = 0;
    while i < chars.len()
        invariant
            chars@ == rel@,
            i <= chars@.len(),
            target == rel@.map_values(|c: char| to_backslash(c)),
            normalized@ == "Animations\\"@ + target.subrange(0, i as int),
        decreases chars@.len() - i,
    {
        if is_sep_char(chars[i]) {
            normalized.append("\\");
            proof {
                reveal_strlit("\\");
            }
        } else {
            normalized.append(rel.substring_char(i, i + 1));
        }
        assert(target.subrange(0, i + 1) =~= target.subrange(0, i as int) + seq![
            to_backslash(chars@[i as int]),
        ]);
        i = i + 1;
    }
    assert(target.subrange(0, chars@.len() as int) =~= target);
    Some(normalized)
}

/// The position of the last `\` in `s` before position `i`, or -1.
pub open spec fn last_backslash_before(s: Seq<char>, i: int) -> int
    decreases i,
{
    if i <= 0 {
        -1
    } else if s[i - 1] == '\\' {
        i - 1
    } else {
        last_backslash_before(s, i - 1)
    }
}

/// The file name of a `\`-separated path: the text after its last `\` (all of it when
/// there is none), without a trailing `.hkx`.
pub open spec fn spec_behavior_name(path: Seq<char>) -> Seq<char> {
    let k = last_backslash_before(path, path.len() as int);
    let file_name = path.subrange(k + 1, path.len() as int);
    let n = file_name.len();
    if n >= 4 && exact_at(file_name, n - 4, ".hkx"@) {
        file_name.subrange(0, n - 4)
    } else {
        file_name
    }
}

/// The necessary information for creating a single FNIS mod as a patch for hkx.
#[derive(Debug)]
pub struct OwnedFnisInjection {
    /// The unique `<namespace>` under `meshes\actors\character\animations\<namespace>\`.
    pub namespace: String,
    /// The priority of this mod among the paths passed in.
    pub priority: usize,
    /// The contents of the FNIS list file in this namespace.
    pub list_content: String,
    /// All `.hkx` files under the namespace directory, each starting with `Animations`
    /// and using `\` as the path separator.
    pub animation_paths: Vec<String>,
    /// Relative path to the behavior file, e.g. `Behaviors\FNIS_FNISFlyer_Behavior.hkx`.
    pub behavior_path: String,
}

impl OwnedFnisInjection {
    /// Returns the behavior file name without the `Behaviors\` prefix and `.hkx` extension,
    /// e.g. `FNIS_FNISFlyer_Behavior` for `Behaviors\FNIS_FNISFlyer_Behavior.hkx`.
    pub fn behavior_name(&self) -> (r: &str)
        ensures
            r@ == spec_behavior_name(self.behavior_path@),
    {
        let path = self.behavior_path.as_str();
        let s = chars_of(path);
        let mut i = s.len();
        while i > 0 && s[i - 1] != '\\'
            invariant
                i <= s@.len(),
                last_backslash_before(s@, s@.len() as int) == last_backslash_before(
                    s@,
                    i as int,
                ),
            decreases i,
        {
            i = i - 1;
        }
        let file_name = path.substring_char(i, s.len());
        let n = s.len() - i;
        let f = chars_of(file_name);
        if n >= 4 && exact_at_exec(&f, n - 4, &chars_of(".hkx")) {
            file_name.substring_char(0, n - 4)
        } else {
            file_name
        }
    }
}

/// `FNIS_<namespace>_List.txt`
pub open spec fn spec_list_file_name(namespace: Seq<char>) -> Seq<char> {
    "FNIS_"@ + namespace + "_List.txt"@
}

/// `FNIS_<namespace>_Behavior.hkx`
pub open spec fn spec_behavior_file_name(namespace: Seq<char>) -> Seq<char> {
    "FNIS_"@ + namespace + "_Behavior.hkx"@
}

/// The FNIS list file name of a namespace: `FNIS_<namespace>_List.txt`.
pub fn list_file_name(namespace: &str) -> (r: String)
    ensures
        r@ == spec_list_file_name(namespace@),
{
    let mut r = String::from_str("FNIS_");
    r.append(namespace);
    r.append("_List.txt");
    r
}

/// The FNIS behavior file name of a namespace: `FNIS_<namespace>_Behavior.hkx`.
pub fn behavior_file_name(namespace: &str) -> (r: String)
    ensures
        r@ == spec_behavior_file_name(namespace@),
{
    let mut r = String::from_str("FNIS_");
    r.append(namespace);
    r.append("_Behavior.hkx");
    r
}

/// The game-relative behavior path of a namespace: `Behaviors\FNIS_<namespace>_Behavior.hkx`,
/// written with `\` regardless of the OS.
pub fn behavior_path(namespace: &str) -> (r: String)
    ensures
        r@ == "Behaviors\\"@ + spec_behavior_file_name(namespace@),
{
    let mut r = String::from_str("Behaviors\\");
    let name = behavior_file_name(namespace);
    r.append(name.as_str());
    r
}

/// `Animations\<namespace>\<file>`
pub open spec fn spec_animation_path(namespace: Seq<char>, file: Seq<char>) -> Seq<char> {
    "Animations\\"@ + namespace + "\\"@ + file
}

/// The game path of an animation file of a namespace: `Animations\<namespace>\<file>`.
pub fn animation_path(namespace: &str, file: &str) -> (r: String)
    ensures
        r@ == spec_animation_path(namespace@, file@),
{
    let mut r = String::from_str("Animations\\");
    r.append(namespace);
    r.append("\\");
    r.append(file);
    r
}

/// The namespace of an FNIS mod from its sorted animation paths: the namespace read from
/// the first path; [`FnisError::MissingNameSpace`] naming `animations_mod_dir` when there is
/// no animation.
pub fn namespace_of_animations<'a>(animations_mod_dir: &str, animation_paths: &'a Vec<String>) -> (r:
    Result<&'a str, FnisError>)
    ensures
        animation_paths@.len() == 0 ==> (r matches Err(FnisError::MissingNameSpace { path })
            && path@ == animations_mod_dir@),
        animation_paths@.len() > 0 ==> match spec_fnis_namespace(animation_paths@[0]@) {
            Some((a, b)) => r matches Ok(ns) && ns@ == animation_paths@[0]@.subrange(a, b),
            None => r matches Err(FnisError::FailedParseFnisPatchPath { path }) && path@
                == animation_paths@[0]@,
        },
{
    if animation_paths.len() == 0 {
        return Err(FnisError::MissingNameSpace { path: animations_mod_dir.to_owned() });
    }
    get_fnis_namespace(animation_paths[0].as_str())
}

} // verus!
