# nemesis_merge

The verified core of a Nemesis/FNIS behavior merger for Skyrim: the grammars of patch and
template paths, the tables that map Nemesis file stems and FNIS behavior objects to hkx
templates, the priority rules of the patch maps, the patches that FNIS list entries add to
the master behaviors, and the values of the generated BDI and OAR configuration files.
The executable functions in `src/` carry contracts that Verus proves, apart from the small
wrappers around `dashmap::DashMap` and `str` hashing, whose contracts are trusted.

- `src/` — the library:
  - `text` — character-level helpers shared by the path grammars;
  - `nemesis_path`, `patch_paths`, `template_path`, `fnis_paths` — path grammars;
  - `templates`, `behaviors` — template keys and the template/behavior tables;
  - `patch_map`, `nemesis_patches`, `template_patches`, `json_path` — patch maps (kept in
    `dashmap::DashMap`s), how the patches of one file are sorted into them, and how the
    files of many mods are gathered by template;
  - `group_names`, `bdi`, `oar`, `fnis_names` — FNIS alternate animation groups, the BDI
    variables, OAR slot settings, and the names of the states and events of kill moves,
    paired and offset arm animations;
  - `json`, `fnis_anim`, `anim_seq`, `anim_var` — the JSON text of generated Havok classes
    and the array patches that register events and variables;
  - `kill_move`, `pair`, `offset_arm`, `chair`, `furniture`, `master_global`, `mt_global`,
    `list_patch` — the patches of FNIS kill moves, paired animations, offset arm animations,
    chairs and furniture groups, the classes and variables `0_master` and `mt_behavior` get
    once, and the patches of one parsed list;
  - `config`, `hkx_header`, `hashing`, `error` — options, progress statuses, `.hkx` headers,
    state ids and errors.
- `tests/` — tests of the library on concrete values.
- `app/` — directory walks, file output, JSON serialization and the progress callback.

FNIS patch generation covers basic, sequenced (`s`, `so`), kill move (`km`), paired (`pa`),
offset arm (`ofa`), chair (`ch`) and furniture (`fu`, `fuo`) entries and animation
variables, taking already parsed list entries and the new class names as arguments, and
the variables of alternate animations. Not covered: parsing `FNIS_*_List.txt`, converting
alternate animations (`aa`) to OAR and their old-style clip generators, the
`animationdatasinglefile.txt` and `animationsetdatasinglefile.txt` patches, and merging the
generated patches of many lists into the per-template maps.

Template keys keep the path they were made from; the patch maps file a template under its
normalized key (`TemplateKey::normalized`), so that paths that compare equal as
`/`-separated paths share one entry.
