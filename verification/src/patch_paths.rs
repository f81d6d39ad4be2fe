//! Classification of the `.txt` patch files found under a Nemesis mod directory.
//!
//! A file whose stem starts with `#` is a regular Nemesis patch. Any other
//! `.txt` file is an animation data patch when its path reads
//! ```text
//! <anything>Nemesis_Engine/mod/<mod_code>/animationdatasinglefile/<anything>
//! <anything>Nemesis_Engine/mod/<mod_code>/animationsetdatasinglefile/<template>/<file><anything>
//! ```
//! where separators are runs of `/` or `\`, and the markers are matched without ASCII case.
//! The `animationsetdatasinglefile` patch `HorseProjectData~HorseProject/horseproject.txt`
//! is a valid path whose patch is known to be broken, and is refused.
use vstd::prelude::*;

use crate::text::{
    caseless_at, caseless_at_exec, chars_of, is_sep, is_sep_char, find_caseless, find_caseless_exec,
    lemma_find_caseless, lemma_run_end, lemma_sep_run_end, run_end, run_end_exec,
    seq_eq_caseless, sep_run_end, sep_run_end_exec, str_eq_caseless,
};

verus! {

/// The kind of a patch file.
#[derive(Debug, Clone, Copy, PartialEq, Eq, Structural)]
pub enum Category {
    /// A regular Nemesis patch.
    Nemesis,
    /// An `animationdatasinglefile` patch.
    Adsf,
    /// An `animationsetdatasinglefile` patch.
    Asdsf,
}

/// The end of a run of at least one separator starting at `i`, or -1 when `i` holds none.
pub open spec fn sep1_end(s: Seq<char>, i: int) -> int {
    if sep_run_end(s, i) > i {
        sep_run_end(s, i)
    } else {
        -1
    }
}

/// The end of a run of at least one non-separator starting at `i`, or -1 when there is none.
pub open spec fn component_end(s: Seq<char>, i: int) -> int {
    if 0 <= i && run_end(s, i) > i {
        run_end(s, i)
    } else {
        -1
    }
}

/// Position right after `Nemesis_Engine/mod/<mod_code>/` (separators being runs), or -1.
pub open spec fn after_engine_mod_code(s: Seq<char>) -> int {
    let p = find_caseless(s, 0, "Nemesis_Engine"@);
    let a = sep1_end(s, p + "Nemesis_Engine"@.len());
    let b = sep1_end(s, a + "mod"@.len());
    let c = component_end(s, b);
    let d = sep1_end(s, c);
    if p < 0 || a < 0 || !caseless_at(s, a, "mod"@) || b < 0 || c < 0 {
        -1
    } else {
        d
    }
}

/// The `animationsetdatasinglefile` patch that is refused: its template and file name.
pub open spec fn is_manifest_patch(template: Seq<char>, file: Seq<char>) -> bool {
    seq_eq_caseless(template, "HorseProjectData~HorseProject"@) && seq_eq_caseless(
        file,
        "horseproject.txt"@,
    )
}

/// The category that [`patch_path`] reads from `s`.
pub open spec fn spec_patch_path(s: Seq<char>) -> Option<Category> {
    let d = after_engine_mod_code(s);
    let adsf = caseless_at(s, d, "animationdatasinglefile"@);
    let asdsf = caseless_at(s, d, "animationsetdatasinglefile"@);
    let g = if adsf {
        d + "animationdatasinglefile"@.len()
    } else {
        d + "animationsetdatasinglefile"@.len()
    };
    let h = sep1_end(s, g);
    let t1 = component_end(s, h);
    let u = sep1_end(s, t1);
    let v = component_end(s, u);
    if d < 0 || !(adsf || asdsf) || h < 0 {
        None
    } else if adsf {
        Some(Category::Adsf)
    } else if t1 < 0 || u < 0 || v < 0 {
        None
    } else if is_manifest_patch(s.subrange(h, t1), s.subrange(u, v)) {
        None
    } else {
        Some(Category::Asdsf)
    }
}

fn sep1_end_exec(s: &Vec<char>, i: usize) -> (r: Option<usize>)
    requires
        i <= s@.len(),
    ensures
        match r {
            Some(k) => k as int == sep1_end(s@, i as int) && i < k <= s@.len(),
            None => sep1_end(s@, i as int) == -1,
        },
{
    proof {
        lemma_sep_run_end(s@, i as int);
    }
    let k = sep_run_end_exec(s, i);
    if k > i {
        Some(k)
    } else {
        None
    }
}

fn component_end_exec(s: &Vec<char>, i: usize) -> (r: Option<usize>)
    requires
        i <= s@.len(),
    ensures
        match r {
            Some(k) => k as int == component_end(s@, i as int) && i < k <= s@.len(),
            None => component_end(s@, i as int) == -1,
        },
{
    proof {
        lemma_run_end(s@, i as int);
    }
    let k = run_end_exec(s, i);
    if k > i {
        Some(k)
    } else {
        None
    }
}

fn after_engine_mod_code_exec(s: &Vec<char>) -> (r: Option<usize>)
    ensures
        match r {
            Some(k) => k as int == after_engine_mod_code(s@) && k <= s@.len(),
            None => after_engine_mod_code(s@) == -1,
        },
{
    // The length of `s` fits in a `usize`, so every position computed below does too.
    let _len = s.len();
    let engine = chars_of("Nemesis_Engine");
    let mod_chars = chars_of("mod");
    let p = match find_caseless_exec(s, 0, &engine) {
        Some(p) => p,
        None => return None,
    };
    proof {
        lemma_find_caseless(s@, 0, engine@);
    }
    let a = match sep1_end_exec(s, p + engine.len()) {
        Some(a) => a,
        None => return None,
    };
    if !caseless_at_exec(s, a, &mod_chars) {
        return None;
    }
    let b = match sep1_end_exec(s, a + mod_chars.len()) {
        Some(b) => b,
        None => return None,
    };
    let c = match component_end_exec(s, b) {
        Some(c) => c,
        None => return None,
    };
    sep1_end_exec(s, c)
}

/// Reads the category of an animation data patch path; `None` when the path has neither
/// layout or is the refused `HorseProjectData~HorseProject/horseproject.txt` patch.
pub fn patch_path(input: &str) -> (r: Option<Category>)
    ensures
        r == spec_patch_path(input@),
{
    let s = chars_of(input);
    // The length of `s` fits in a `usize`, so every position computed below does too.
    let _len = s.len();
    let d = match after_engine_mod_code_exec(&s) {
        Some(d) => d,
        None => return None,
    };
    let adsf_chars = chars_of("animationdatasinglefile");
    let asdsf_chars = chars_of("animationsetdatasinglefile");
    let adsf = caseless_at_exec(&s, d, &adsf_chars);
    let asdsf = caseless_at_exec(&s, d, &asdsf_chars);
    if !adsf && !asdsf {
        return None;
    }
    let g = if adsf {
        d + adsf_chars.len()
    } else {
        d + asdsf_chars.len()
    };
    let h = match sep1_end_exec(&s, g) {
        Some(h) => h,
        None => return None,
    };
    if adsf {
        return Some(Category::Adsf);
    }
    let t1 = match component_end_exec(&s, h) {
        Some(t) => t,
        None => return None,
    };
    let u = match sep1_end_exec(&s, t1) {
        Some(u) => u,
        None => return None,
    };
    let v = match component_end_exec(&s, u) {
        Some(v) => v,
        None => return None,
    };
    let template = input.substring_char(h, t1);
    let file = input.substring_char(u, v);
    if str_eq_caseless(template, "HorseProjectData~HorseProject") && str_eq_caseless(
        file,
        "horseproject.txt",
    ) {
        return None;
    }
    Some(Category::Asdsf)
}

/// Classifies a patch path that is not a `#`-prefixed Nemesis patch (see [`patch_path`]).
pub fn classify_patch_path(input: &str) -> (r: Option<Category>)
    ensures
        r == spec_patch_path(input@),
{
    patch_path(input)
}

/// The end of `s[..i]` without its trailing separators.
pub open spec fn trim_seps_end(s: Seq<char>, i: int) -> int
    decreases i,
{
    if i > 0 && i <= s.len() && is_sep(s[i - 1]) {
        trim_seps_end(s, i - 1)
    } else {
        i
    }
}

/// The start of the component that ends at `i`: right after the separator before it.
pub open spec fn component_start(s: Seq<char>, i: int) -> int
    decreases i,
{
    if i > 0 && i <= s.len() && !is_sep(s[i - 1]) {
        component_start(s, i - 1)
    } else {
        i
    }
}

/// The file name of a path: its last component, trailing separators ignored.
pub open spec fn spec_file_name(s: Seq<char>) -> Seq<char> {
    let e = trim_seps_end(s, s.len() as int);
    s.subrange(component_start(s, e), e)
}

proof fn lemma_trim_seps_end(s: Seq<char>, i: int)
    requires
        0 <= i <= s.len(),
    ensures
        0 <= trim_seps_end(s, i) <= i,
    decreases i,
{
    if i > 0 && is_sep(s[i - 1]) {
        lemma_trim_seps_end(s, i - 1);
    }
}

proof fn lemma_component_start(s: Seq<char>, i: int)
    requires
        0 <= i <= s.len(),
    ensures
        0 <= component_start(s, i) <= i,
    decreases i,
{
    if i > 0 && !is_sep(s[i - 1]) {
        lemma_component_start(s, i - 1);
    }
}

/// Whether a patch file is a regular Nemesis patch: its file name starts with `#`
/// (its stem then starts with `#` too). Both `/` and `\` separate components.
pub fn is_nemesis_file(path: &str) -> (r: bool)
    ensures
        r == (spec_file_name(path@).len() > 0 && spec_file_name(path@)[0] == '#'),
{
    let s = chars_of(path);
    let mut e = s.len();
    while e > 0 && is_sep_char(s[e - 1])
        invariant
            e <= s@.len(),
            s@ == path@,
            trim_seps_end(s@, s@.len() as int) == trim_seps_end(s@, e as int),
        decreases e,
    {
        e = e - 1;
    }
    proof {
        lemma_trim_seps_end(s@, e as int);
    }
    let mut b = e;
    while b > 0 && !is_sep_char(s[b - 1])
        invariant
            b <= e <= s@.len(),
            s@ == path@,
            component_start(s@, e as int) == component_start(s@, b as int),
        decreases b,
    {
        b = b - 1;
    }
    proof {
        lemma_component_start(s@, b as int);
    }
    b < e && s[b] == '#'
}

} // verus!
