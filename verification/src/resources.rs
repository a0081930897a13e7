use vstd::prelude::*;

use crate::config::{AppConfig, OcrResources};
use crate::paths::{
    file_name, file_name_of, join_path, join_path_seq, split_path_list, split_seq, string_views,
};
use crate::text::{
    chars_of, has_char, law_trim_idempotent, seq_ends_with, seq_starts_with, starts_with, trim,
    trim_seq,
};

verus! {

// ---------------------------------------------------------------------------
// Expanding `~` and `$VAR` in configured paths
// ---------------------------------------------------------------------------

/// Runs shellexpand's `full` (tilde and environment-variable expansion, reading
/// the process environment and the home directory) on `input`: `None` when a
/// variable lookup fails. Its contract states only what the crate's source shows
/// for every environment: text without `'$'` is never an error and is returned
/// as it is unless it starts with `'~'`, in which case a leading `"~"` or `"~/"`
/// may be replaced by the home directory. What a `$VAR` expands to depends on the
/// environment and is left unsaid.
#[verifier::external_body]
fn shell_expand(input: &str) -> (r: Option<String>)
    ensures
        !input@.contains('$') ==> r.is_some(),
        !input@.contains('$') && !seq_starts_with(input@, "~"@) ==> r.unwrap()@ == input@,
        !input@.contains('$') && seq_starts_with(input@, "~"@) ==> tilde_expanded(input@, r.unwrap()@),
{
    match shellexpand::full(input) {
        Ok(expanded) => Some(expanded.into_owned()),
        Err(_) => None,
    }
}

/// What expanding a leading tilde of `t` may give: `t` itself, or, when `t` is
/// `"~"` or starts with `"~/"`, some home directory followed by the rest of `t`.
pub open spec fn tilde_expanded(t: Seq<char>, out: Seq<char>) -> bool {
    out == t || ((t.len() == 1 || t[1] == '/') && seq_ends_with(out, t.drop_first()))
}

/// What expanding `input` may give, whatever the environment: nothing for blank
/// input; the trimmed input itself when it holds no `'$'` and does not start
/// with `'~'`; for a leading `"~"`/`"~/"` without `'$'`, the trimmed input or a
/// home directory followed by the rest of it.
pub open spec fn expansion_allowed(input: Seq<char>, out: Seq<char>) -> bool {
    let t = trim_seq(input);
    &&& t.len() == 0 ==> out.len() == 0
    &&& (t.len() > 0 && !t.contains('$') && !seq_starts_with(t, "~"@)) ==> out == t
    &&& (t.len() > 0 && !t.contains('$') && seq_starts_with(t, "~"@)) ==> tilde_expanded(t, out)
}

/// Trims `input` and expands a leading `~` and `$VAR`s in it; blank input gives
/// the empty path, and a failed variable lookup leaves the trimmed input as it is.
pub fn expand_path(input: &str) -> (out: String)
    ensures
        expansion_allowed(input@, out@),
{
    let t = trim(input);
    if t.as_str().is_empty() {
        return String::new();
    }
    let expansion = shell_expand(t.as_str());
    expanded_or_trimmed(t, expansion)
}

/// What an expansion of the trimmed text `trimmed` gives: the expansion when it
/// succeeded, and `trimmed` itself when a variable lookup failed (`None`).
pub fn expanded_or_trimmed(trimmed: String, expansion: Option<String>) -> (out: String)
    ensures
        expansion matches Some(o) ==> out@ == o@,
        expansion is None ==> out@ == trimmed@,
{
    match expansion {
        Some(o) => o,
        None => trimmed,
    }
}

} // verus!

verus! {

// ---------------------------------------------------------------------------
// Where programs and models are looked for
// ---------------------------------------------------------------------------

/// What the search for programs and models reads from the process and its
/// environment: the directory the running program lies in (if known), the
/// `PATH` variable (if set), and the home directory (empty if unknown).
pub struct SearchContext {
    pub exe_dir: Option<String>,
    pub path_var: Option<String>,
    pub home_dir: String,
}

/// The view of an optional string.
pub open spec fn opt_view(o: Option<String>) -> Option<Seq<char>> {
    match o {
        Some(s) => Some(s@),
        None => None,
    }
}

/// The directories searched for a program given by bare name, in order: the
/// program's own directory, each `PATH` entry, `/usr/local/bin`, `/usr/bin`,
/// `/bin` and `~/.local/bin`.
pub open spec fn search_dirs_spec(
    exe_dir: Option<Seq<char>>,
    path_var: Option<Seq<char>>,
    home: Seq<char>,
) -> Seq<Seq<char>> {
    let own = match exe_dir {
        Some(d) => seq![d],
        None => Seq::empty(),
    };
    let listed = match path_var {
        Some(p) => split_seq(p, ':'),
        None => Seq::empty(),
    };
    own + listed + seq![
        "/usr/local/bin"@,
        "/usr/bin"@,
        "/bin"@,
        join_path_seq(home, ".local/bin"@),
    ]
}

impl SearchContext {
    pub open spec fn search_dirs(&self) -> Seq<Seq<char>> {
        search_dirs_spec(opt_view(self.exe_dir), opt_view(self.path_var), self.home_dir@)
    }
}

/// Appends `s` (as a string) to `out`.
fn push_str_copy(out: &mut Vec<String>, s: &str)
    ensures
        string_views(final(out)@) == string_views(old(out)@).push(s@),
{
    let c = String::from_str(s);
    out.push(c);
    assert(string_views(final(out)@) =~= string_views(old(out)@).push(s@));
}

/// The directories searched for a program given by bare name.
pub fn search_dirs(ctx: &SearchContext) -> (dirs: Vec<String>)
    ensures
        string_views(dirs@) == ctx.search_dirs(),
{
    let mut dirs: Vec<String> = Vec::new();
    match &ctx.exe_dir {
        Some(d) => {
            push_str_copy(&mut dirs, d.as_str());
        },
        None => {},
    }
    match &ctx.path_var {
        Some(p) => {
            let listed = split_path_list(p.as_str());
            let mut i: usize = 0;
            let ghost start = string_views(dirs@);
            while i < listed.len()
                invariant
                    i <= listed.len(),
                    string_views(dirs@) == start + string_views(listed@).take(i as int),
                decreases listed.len() - i,
            {
                push_str_copy(&mut dirs, listed[i].as_str());
                assert(string_views(listed@)[i as int] == listed@[i as int]@);
                assert(start + string_views(listed@).take(i + 1) =~= (start + string_views(
                    listed@,
                ).take(i as int)).push(listed@[i as int]@));
                i += 1;
            }
            assert(string_views(listed@).take(listed.len() as int) =~= string_views(listed@));
        },
        None => {},
    }
    push_str_copy(&mut dirs, "/usr/local/bin");
    push_str_copy(&mut dirs, "/usr/bin");
    push_str_copy(&mut dirs, "/bin");
    let home_bin = join_path(ctx.home_dir.as_str(), ".local/bin");
    push_str_copy(&mut dirs, home_bin.as_str());
    assert(string_views(dirs@) =~= ctx.search_dirs());
    dirs
}

} // verus!

verus! {

// ---------------------------------------------------------------------------
// The expansions the search uses
// ---------------------------------------------------------------------------

/// One configured text and what expanding it gave.
pub struct Expansion {
    pub input: String,
    pub output: String,
}

/// What the table says `s` expands to: the output of its first entry for `s`;
/// a text the table has no entry for is taken as expanding to itself, trimmed.
pub open spec fn expansion_lookup(entries: Seq<Expansion>, s: Seq<char>) -> Seq<char>
    decreases entries.len(),
{
    if entries.len() == 0 {
        trim_seq(s)
    } else if entries[0].input@ == s {
        entries[0].output@
    } else {
        expansion_lookup(entries.drop_first(), s)
    }
}

/// What `s` expands to according to the table `entries`.
pub fn expanded(entries: &Vec<Expansion>, s: &str) -> (out: String)
    ensures
        out@ == expansion_lookup(entries@, s@),
{
    let key = String::from_str(s);
    let mut i: usize = 0;
    assert(entries@.skip(0) =~= entries@);
    while i < entries.len()
        invariant
            i <= entries.len(),
            key@ == s@,
            expansion_lookup(entries@, s@) == expansion_lookup(entries@.skip(i as int), s@),
        decreases entries.len() - i,
    {
        assert(entries@.skip(i as int)[0] == entries@[i as int]);
        if entries[i].input == key {
            return entries[i].output.clone();
        }
        assert(entries@.skip(i as int).drop_first() =~= entries@.skip(i + 1));
        i += 1;
    }
    trim(s)
}

/// The texts whose expansion the search needs, in order: the three model
/// settings, the two trimmed program settings, and every search directory that
/// holds a `'$'`.
pub open spec fn expansion_inputs(config: AppConfig, dirs: Seq<Seq<char>>) -> Seq<Seq<char>> {
    seq![
        config.text_model@,
        config.v_model@,
        config.mmproj@,
        trim_seq(config.cli_exe@),
        trim_seq(config.mtmd_exe@),
    ] + dirs.filter(|d: Seq<char>| d.contains('$'))
}

/// The inputs of a list of expansions.
pub open spec fn expansion_keys(entries: Seq<Expansion>) -> Seq<Seq<char>> {
    entries.map_values(|e: Expansion| e.input@)
}

fn push_expansion(entries: &mut Vec<Expansion>, input: &str)
    ensures
        final(entries)@.len() == old(entries)@.len() + 1,
        final(entries)@.drop_last() == old(entries)@,
        final(entries)@.last().input@ == input@,
        expansion_allowed(input@, final(entries)@.last().output@),
{
    let out = expand_path(input);
    entries.push(Expansion { input: String::from_str(input), output: out });
}

/// Expands every text the search for `config`'s programs and models needs
/// expanded, once each, in the order of [`expansion_inputs`]. What each
/// expansion gives depends on the environment; each one is at least what
/// [`expansion_allowed`] admits.
pub fn gather_expansions(config: &AppConfig, ctx: &SearchContext) -> (entries: Vec<Expansion>)
    ensures
        expansion_keys(entries@) == expansion_inputs(*config, ctx.search_dirs()),
        forall|i: int|
            0 <= i < entries@.len() ==> expansion_allowed(
                #[trigger] entries@[i].input@,
                entries@[i].output@,
            ),
{
    let mut entries: Vec<Expansion> = Vec::new();
    push_expansion(&mut entries, config.text_model.as_str());
    push_expansion(&mut entries, config.v_model.as_str());
    push_expansion(&mut entries, config.mmproj.as_str());
    let cli = trim(config.cli_exe.as_str());
    push_expansion(&mut entries, cli.as_str());
    let mtmd = trim(config.mtmd_exe.as_str());
    push_expansion(&mut entries, mtmd.as_str());
    let ghost head = expansion_keys(entries@);
    assert(head =~= seq![
        config.text_model@,
        config.v_model@,
        config.mmproj@,
        trim_seq(config.cli_exe@),
        trim_seq(config.mtmd_exe@),
    ]);
    let dirs = search_dirs(ctx);
    let ghost dv = string_views(dirs@);
    let mut i: usize = 0;
    assert(dv.take(0).filter(|d: Seq<char>| d.contains('$')) =~= Seq::<Seq<char>>::empty()) by {
        reveal(Seq::filter);
    }
    while i < dirs.len()
        invariant
            i <= dirs.len(),
            dv == string_views(dirs@),
            expansion_keys(entries@) == head + dv.take(i as int).filter(
                |d: Seq<char>| d.contains('$'),
            ),
            forall|k: int|
                0 <= k < entries@.len() ==> expansion_allowed(
                    #[trigger] entries@[k].input@,
                    entries@[k].output@,
                ),
        decreases dirs.len() - i,
    {
        let d = &dirs[i];
        assert(dv[i as int] == d@);
        assert(dv.take(i + 1).drop_last() =~= dv.take(i as int));
        reveal(Seq::filter);
        let dc = chars_of(d.as_str());
        if has_char(&dc, '$') {
            let ghost before = entries@;
            push_expansion(&mut entries, d.as_str());
            assert(expansion_keys(entries@) =~= expansion_keys(before).push(d@));
            assert forall|k: int| 0 <= k < entries@.len() implies expansion_allowed(
                #[trigger] entries@[k].input@,
                entries@[k].output@,
            ) by {
                if k < before.len() {
                    assert(entries@[k] == before[k]);
                }
            }
        }
        i += 1;
    }
    assert(dv.take(dirs.len() as int) =~= dv);
    entries
}

} // verus!

verus! {

// ---------------------------------------------------------------------------
// What the file system showed
// ---------------------------------------------------------------------------

/// What looking at one path showed: whether something is there, whether it is a
/// regular file (symbolic links followed), and its permission bits if its
/// metadata could be read.
pub struct PathFacts {
    pub path: String,
    pub exists: bool,
    pub is_file: bool,
    pub mode: Option<u32>,
}

/// The facts recorded for `p`: those of its first entry; none if it has none.
pub open spec fn facts_lookup(fs: Seq<PathFacts>, p: Seq<char>) -> Option<PathFacts>
    decreases fs.len(),
{
    if fs.len() == 0 {
        None
    } else if fs[0].path@ == p {
        Some(fs[0])
    } else {
        facts_lookup(fs.drop_first(), p)
    }
}

/// Something is at `p`.
pub open spec fn exists_in(fs: Seq<PathFacts>, p: Seq<char>) -> bool {
    match facts_lookup(fs, p) {
        Some(f) => f.exists,
        None => false,
    }
}

/// A regular file is at `p`.
pub open spec fn is_file_in(fs: Seq<PathFacts>, p: Seq<char>) -> bool {
    match facts_lookup(fs, p) {
        Some(f) => f.is_file,
        None => false,
    }
}

/// A regular file that someone may execute is at `p`: one of its three execute
/// bits (`0o111`) is set.
pub open spec fn runnable_in(fs: Seq<PathFacts>, p: Seq<char>) -> bool {
    match facts_lookup(fs, p) {
        Some(f) => f.is_file && (f.mode matches Some(m) && m & 0o111u32 != 0),
        None => false,
    }
}

/// The index of the facts recorded for `p`, if any.
fn find_facts(fs: &Vec<PathFacts>, p: &str) -> (r: Option<usize>)
    ensures
        r is None ==> facts_lookup(fs@, p@) is None,
        r matches Some(i) ==> i < fs.len() && facts_lookup(fs@, p@) == Some(fs@[i as int]),
{
    let key = String::from_str(p);
    let mut i: usize = 0;
    assert(fs@.skip(0) =~= fs@);
    while i < fs.len()
        invariant
            i <= fs.len(),
            key@ == p@,
            facts_lookup(fs@, p@) == facts_lookup(fs@.skip(i as int), p@),
        decreases fs.len() - i,
    {
        assert(fs@.skip(i as int)[0] == fs@[i as int]);
        if fs[i].path == key {
            return Some(i);
        }
        assert(fs@.skip(i as int).drop_first() =~= fs@.skip(i + 1));
        i += 1;
    }
    None
}

/// Whether something is at `p`.
pub fn path_exists(fs: &Vec<PathFacts>, p: &str) -> (b: bool)
    ensures
        b == exists_in(fs@, p@),
{
    match find_facts(fs, p) {
        Some(i) => fs[i].exists,
        None => false,
    }
}

/// Whether a regular file is at `p`.
pub fn path_is_file(fs: &Vec<PathFacts>, p: &str) -> (b: bool)
    ensures
        b == is_file_in(fs@, p@),
{
    match find_facts(fs, p) {
        Some(i) => fs[i].is_file,
        None => false,
    }
}

/// Whether an executable regular file is at `p`.
pub fn path_is_runnable(fs: &Vec<PathFacts>, p: &str) -> (b: bool)
    ensures
        b == runnable_in(fs@, p@),
{
    match find_facts(fs, p) {
        Some(i) => fs[i].is_file && match fs[i].mode {
            Some(m) => m & 0o111u32 != 0,
            None => false,
        },
        None => false,
    }
}

} // verus!

verus! {

// ---------------------------------------------------------------------------
// Resolving a model setting to a path
// ---------------------------------------------------------------------------

/// The first of `cands` that exists; `fallback` if none does.
pub open spec fn first_existing(fs: Seq<PathFacts>, cands: Seq<Seq<char>>, fallback: Seq<char>) -> Seq<char>
    decreases cands.len(),
{
    if cands.len() == 0 {
        fallback
    } else if exists_in(fs, cands[0]) {
        cands[0]
    } else {
        first_existing(fs, cands.drop_first(), fallback)
    }
}

/// The first of `cands` that is an executable regular file; `fallback` if none is.
pub open spec fn first_runnable(fs: Seq<PathFacts>, cands: Seq<Seq<char>>, fallback: Seq<char>) -> Seq<char>
    decreases cands.len(),
{
    if cands.len() == 0 {
        fallback
    } else if runnable_in(fs, cands[0]) {
        cands[0]
    } else {
        first_runnable(fs, cands.drop_first(), fallback)
    }
}

/// Where a model setting is looked for, in order: the expanded setting itself,
/// then its file name in `models/` beside the program and beside the program,
/// then in `~/.local/share/llama_models`.
pub open spec fn model_candidates(
    path: Seq<char>,
    name: Seq<char>,
    exe_dir: Option<Seq<char>>,
    home: Seq<char>,
) -> Seq<Seq<char>> {
    let beside = match exe_dir {
        Some(d) => seq![join_path_seq(join_path_seq(d, "models"@), name), join_path_seq(d, name)],
        None => Seq::empty(),
    };
    seq![path] + beside + seq![join_path_seq(join_path_seq(home, ".local/share/llama_models"@), name)]
}

/// The path a model setting resolves to: the first existing place it is looked
/// for; if none exists, the expanded setting. The file name looked for is that
/// of the expanded setting, or the setting as written if it has none.
pub open spec fn resolve_model_spec(
    input: Seq<char>,
    ctx: SearchContext,
    ex: Seq<Expansion>,
    fs: Seq<PathFacts>,
) -> Seq<char> {
    let path = expansion_lookup(ex, input);
    let name = match file_name_of(path) {
        Some(n) => n,
        None => input,
    };
    first_existing(fs, model_candidates(path, name, opt_view(ctx.exe_dir), ctx.home_dir@), path)
}

fn choose_existing(fs: &Vec<PathFacts>, cands: &Vec<String>, fallback: String) -> (r: String)
    ensures
        r@ == first_existing(fs@, string_views(cands@), fallback@),
{
    let ghost cv = string_views(cands@);
    let mut i: usize = 0;
    assert(cv.skip(0) =~= cv);
    while i < cands.len()
        invariant
            i <= cands.len(),
            cv == string_views(cands@),
            first_existing(fs@, cv, fallback@) == first_existing(fs@, cv.skip(i as int), fallback@),
        decreases cands.len() - i,
    {
        assert(cv.skip(i as int)[0] == cands@[i as int]@);
        if path_exists(fs, cands[i].as_str()) {
            return cands[i].clone();
        }
        assert(cv.skip(i as int).drop_first() =~= cv.skip(i + 1));
        i += 1;
    }
    fallback
}

fn choose_runnable(fs: &Vec<PathFacts>, cands: &Vec<String>, fallback: String) -> (r: String)
    ensures
        r@ == first_runnable(fs@, string_views(cands@), fallback@),
{
    let ghost cv = string_views(cands@);
    let mut i: usize = 0;
    assert(cv.skip(0) =~= cv);
    while i < cands.len()
        invariant
            i <= cands.len(),
            cv == string_views(cands@),
            first_runnable(fs@, cv, fallback@) == first_runnable(fs@, cv.skip(i as int), fallback@),
        decreases cands.len() - i,
    {
        assert(cv.skip(i as int)[0] == cands@[i as int]@);
        if path_is_runnable(fs, cands[i].as_str()) {
            return cands[i].clone();
        }
        assert(cv.skip(i as int).drop_first() =~= cv.skip(i + 1));
        i += 1;
    }
    fallback
}

/// The places the model setting `input` is looked for (see [`model_candidates`]).
pub fn model_candidate_list(input: &str, ctx: &SearchContext, ex: &Vec<Expansion>) -> (cands: Vec<
    String,
>)
    ensures
        string_views(cands@) == model_probes_spec(input@, *ctx, ex@),
{
    let path = expanded(ex, input);
    let name = match file_name(path.as_str()) {
        Some(n) => n,
        None => String::from_str(input),
    };
    let mut cands: Vec<String> = Vec::new();
    push_str_copy(&mut cands, path.as_str());
    match &ctx.exe_dir {
        Some(d) => {
            let models = join_path(d.as_str(), "models");
            let in_models = join_path(models.as_str(), name.as_str());
            push_str_copy(&mut cands, in_models.as_str());
            let beside = join_path(d.as_str(), name.as_str());
            push_str_copy(&mut cands, beside.as_str());
        },
        None => {},
    }
    let store = join_path(ctx.home_dir.as_str(), ".local/share/llama_models");
    let in_store = join_path(store.as_str(), name.as_str());
    push_str_copy(&mut cands, in_store.as_str());
    assert(string_views(cands@) =~= model_candidates(
        path@,
        name@,
        opt_view(ctx.exe_dir),
        ctx.home_dir@,
    ));
    cands
}

/// The places the model setting `input` is looked for, in order.
pub open spec fn model_probes_spec(input: Seq<char>, ctx: SearchContext, ex: Seq<Expansion>) -> Seq<
    Seq<char>,
> {
    let path = expansion_lookup(ex, input);
    let name = match file_name_of(path) {
        Some(n) => n,
        None => input,
    };
    model_candidates(path, name, opt_view(ctx.exe_dir), ctx.home_dir@)
}

/// Resolves a model setting to a path, given the expansions and what the file
/// system showed.
pub fn resolve_model_path(
    input: &str,
    ctx: &SearchContext,
    ex: &Vec<Expansion>,
    fs: &Vec<PathFacts>,
) -> (p: String)
    ensures
        p@ == resolve_model_spec(input@, *ctx, ex@, fs@),
{
    let cands = model_candidate_list(input, ctx, ex);
    let path = expanded(ex, input);
    choose_existing(fs, &cands, path)
}

// ---------------------------------------------------------------------------
// Resolving a program setting to a path
// ---------------------------------------------------------------------------

/// A program setting written as a path rather than a bare name.
pub open spec fn is_path_like(t: Seq<char>) -> bool {
    seq_starts_with(t, "/"@) || seq_starts_with(t, "./"@) || seq_starts_with(t, "../"@)
}

/// A search directory as it is used: expanded if it holds a `'$'`.
pub open spec fn search_dir_used(ex: Seq<Expansion>, d: Seq<char>) -> Seq<char> {
    if d.contains('$') {
        expansion_lookup(ex, d)
    } else {
        d
    }
}

/// The places a program given by bare name `t` is looked for, in order.
pub open spec fn program_candidates(t: Seq<char>, ex: Seq<Expansion>, dirs: Seq<Seq<char>>) -> Seq<Seq<char>> {
    dirs.map_values(|d: Seq<char>| join_path_seq(search_dir_used(ex, d), t))
}

/// The path a program setting resolves to: a setting written as a path is only
/// expanded; a bare name is looked for in each search directory, the first
/// executable regular file found winning, and otherwise it is only expanded.
pub open spec fn resolve_executable_spec(
    name: Seq<char>,
    ctx: SearchContext,
    ex: Seq<Expansion>,
    fs: Seq<PathFacts>,
) -> Seq<char> {
    let t = trim_seq(name);
    if is_path_like(t) {
        expansion_lookup(ex, t)
    } else {
        first_runnable(fs, program_candidates(t, ex, ctx.search_dirs()), expansion_lookup(ex, t))
    }
}

/// The places the bare program name `t` is looked for (see [`program_candidates`]).
pub fn program_candidate_list(t: &str, ctx: &SearchContext, ex: &Vec<Expansion>) -> (cands: Vec<
    String,
>)
    ensures
        string_views(cands@) == program_candidates(t@, ex@, ctx.search_dirs()),
{
    let dirs = search_dirs(ctx);
    let ghost dv = string_views(dirs@);
    let mut cands: Vec<String> = Vec::new();
    let mut i: usize = 0;
    while i < dirs.len()
        invariant
            i <= dirs.len(),
            dv == string_views(dirs@),
            string_views(cands@) == program_candidates(t@, ex@, dv.take(i as int)),
        decreases dirs.len() - i,
    {
        let d = &dirs[i];
        assert(dv[i as int] == d@);
        let dc = chars_of(d.as_str());
        let used = if has_char(&dc, '$') {
            expanded(ex, d.as_str())
        } else {
            d.clone()
        };
        let full = join_path(used.as_str(), t);
        push_str_copy(&mut cands, full.as_str());
        assert(program_candidates(t@, ex@, dv.take(i + 1)) =~= program_candidates(
            t@,
            ex@,
            dv.take(i as int),
        ).push(full@));
        i += 1;
    }
    assert(dv.take(dirs.len() as int) =~= dv);
    cands
}

/// Whether the program setting `t` (trimmed) is written as a path.
pub fn path_like(t: &str) -> (b: bool)
    ensures
        b == is_path_like(t@),
{
    let tc = chars_of(t);
    starts_with(&tc, &chars_of("/")) || starts_with(&tc, &chars_of("./")) || starts_with(
        &tc,
        &chars_of("../"),
    )
}

/// Resolves a program setting to a path, given the expansions and what the file
/// system showed.
pub fn resolve_executable(
    name_or_path: &str,
    ctx: &SearchContext,
    ex: &Vec<Expansion>,
    fs: &Vec<PathFacts>,
) -> (p: String)
    ensures
        p@ == resolve_executable_spec(name_or_path@, *ctx, ex@, fs@),
{
    let t = trim(name_or_path);
    if path_like(t.as_str()) {
        return expanded(ex, t.as_str());
    }
    let cands = program_candidate_list(t.as_str(), ctx, ex);
    let fallback = expanded(ex, t.as_str());
    choose_runnable(fs, &cands, fallback)
}

} // verus!

verus! {

// ---------------------------------------------------------------------------
// Checking the five resources
// ---------------------------------------------------------------------------

/// Which of the five resources a path is for.
#[derive(Clone, Copy, PartialEq, Eq, Structural, Debug)]
pub enum ResourceKind {
    TextCli,
    VisionCli,
    TextModel,
    VisionModel,
    VisionProjector,
}

/// How a resource is named to the user.
pub open spec fn resource_label_spec(k: ResourceKind) -> Seq<char> {
    match k {
        ResourceKind::TextCli => "文本引擎 CLI"@,
        ResourceKind::VisionCli => "视觉引擎 CLI"@,
        ResourceKind::TextModel => "翻译模型"@,
        ResourceKind::VisionModel => "OCR 模型"@,
        ResourceKind::VisionProjector => "视觉插件 (mmproj)"@,
    }
}

/// How the resource `k` is named to the user.
pub fn resource_label(k: ResourceKind) -> (s: String)
    ensures
        s@ == resource_label_spec(k),
{
    match k {
        ResourceKind::TextCli => String::from_str("文本引擎 CLI"),
        ResourceKind::VisionCli => String::from_str("视觉引擎 CLI"),
        ResourceKind::TextModel => String::from_str("翻译模型"),
        ResourceKind::VisionModel => String::from_str("OCR 模型"),
        ResourceKind::VisionProjector => String::from_str("视觉插件 (mmproj)"),
    }
}

/// Why the resources for a run are not usable.
pub enum ResourceError {
    /// The resource resolved to the empty path.
    EmptyPath(ResourceKind),
    /// No regular file is at the path the resource resolved to.
    NotAFile(ResourceKind, String),
}

impl ResourceError {
    /// The resource at fault, and the path it resolved to (none when empty).
    pub open spec fn problem(&self) -> (ResourceKind, Option<Seq<char>>) {
        match self {
            ResourceError::EmptyPath(k) => (*k, None),
            ResourceError::NotAFile(k, p) => (*k, Some(p@)),
        }
    }
}

/// The five resources of a run, each with the path it resolves to, in the order
/// they are checked.
pub open spec fn resolved_resources(
    config: AppConfig,
    ctx: SearchContext,
    ex: Seq<Expansion>,
    fs: Seq<PathFacts>,
) -> Seq<(ResourceKind, Seq<char>)> {
    seq![
        (ResourceKind::TextCli, resolve_executable_spec(config.cli_exe@, ctx, ex, fs)),
        (ResourceKind::VisionCli, resolve_executable_spec(config.mtmd_exe@, ctx, ex, fs)),
        (ResourceKind::TextModel, resolve_model_spec(config.text_model@, ctx, ex, fs)),
        (ResourceKind::VisionModel, resolve_model_spec(config.v_model@, ctx, ex, fs)),
        (ResourceKind::VisionProjector, resolve_model_spec(config.mmproj@, ctx, ex, fs)),
    ]
}

/// What is wrong with a single resource, if anything: an empty path, or no
/// regular file at it.
pub open spec fn resource_problem(k: ResourceKind, p: Seq<char>, fs: Seq<PathFacts>) -> Option<
    (ResourceKind, Option<Seq<char>>),
> {
    if p.len() == 0 {
        Some((k, None))
    } else if !is_file_in(fs, p) {
        Some((k, Some(p)))
    } else {
        None
    }
}

/// The first resource, in checking order, that something is wrong with.
pub open spec fn first_problem(items: Seq<(ResourceKind, Seq<char>)>, fs: Seq<PathFacts>) -> Option<
    (ResourceKind, Option<Seq<char>>),
>
    decreases items.len(),
{
    if items.len() == 0 {
        None
    } else {
        match resource_problem(items[0].0, items[0].1, fs) {
            Some(pr) => Some(pr),
            None => first_problem(items.drop_first(), fs),
        }
    }
}

fn check_resource(k: ResourceKind, p: &String, fs: &Vec<PathFacts>) -> (r: Option<ResourceError>)
    ensures
        r is None ==> resource_problem(k, p@, fs@) is None,
        r matches Some(e) ==> resource_problem(k, p@, fs@) == Some(e.problem()),
{
    if p.as_str().is_empty() {
        Some(ResourceError::EmptyPath(k))
    } else if !path_is_file(fs, p.as_str()) {
        Some(ResourceError::NotAFile(k, p.clone()))
    } else {
        None
    }
}

/// Resolves the five resources of `config` and checks, in order, that each is a
/// non-empty path to a regular file; the first failing check is the error.
pub fn get_ocr_resources_from_config(
    config: &AppConfig,
    ctx: &SearchContext,
    ex: &Vec<Expansion>,
    fs: &Vec<PathFacts>,
) -> (r: Result<OcrResources, ResourceError>)
    ensures
        r is Ok <==> first_problem(resolved_resources(*config, *ctx, ex@, fs@), fs@) is None,
        r matches Err(e) ==> first_problem(resolved_resources(*config, *ctx, ex@, fs@), fs@) == Some(
            e.problem(),
        ),
        r matches Ok(res) ==> {
            let items = resolved_resources(*config, *ctx, ex@, fs@);
            &&& res.cli_exe@ == items[0].1
            &&& res.mtmd_exe@ == items[1].1
            &&& res.text_model@ == items[2].1
            &&& res.v_model@ == items[3].1
            &&& res.mmproj@ == items[4].1
            &&& res.ocr_prompt@ == config.ocr_prompt@
            &&& res.trans_prompt@ == config.trans_prompt@
        },
        r matches Ok(res) ==> {
            &&& res.cli_exe@.len() > 0 && is_file_in(fs@, res.cli_exe@)
            &&& res.mtmd_exe@.len() > 0 && is_file_in(fs@, res.mtmd_exe@)
            &&& res.text_model@.len() > 0 && is_file_in(fs@, res.text_model@)
            &&& res.v_model@.len() > 0 && is_file_in(fs@, res.v_model@)
            &&& res.mmproj@.len() > 0 && is_file_in(fs@, res.mmproj@)
        },
{
    let res = OcrResources {
        cli_exe: resolve_executable(config.cli_exe.as_str(), ctx, ex, fs),
        mtmd_exe: resolve_executable(config.mtmd_exe.as_str(), ctx, ex, fs),
        text_model: resolve_model_path(config.text_model.as_str(), ctx, ex, fs),
        v_model: resolve_model_path(config.v_model.as_str(), ctx, ex, fs),
        mmproj: resolve_model_path(config.mmproj.as_str(), ctx, ex, fs),
        ocr_prompt: config.ocr_prompt.clone(),
        trans_prompt: config.trans_prompt.clone(),
    };
    let ghost items = resolved_resources(*config, *ctx, ex@, fs@);
    assert(items.drop_first()[0] == items[1]);
    assert(items.drop_first().drop_first()[0] == items[2]);
    assert(items.drop_first().drop_first().drop_first()[0] == items[3]);
    assert(items.drop_first().drop_first().drop_first().drop_first()[0] == items[4]);
    assert(items.drop_first().drop_first().drop_first().drop_first().drop_first().len() == 0);
    proof {
        reveal_with_fuel(first_problem, 6);
    }
    if let Some(e) = check_resource(ResourceKind::TextCli, &res.cli_exe, fs) {
        return Err(e);
    }
    if let Some(e) = check_resource(ResourceKind::VisionCli, &res.mtmd_exe, fs) {
        return Err(e);
    }
    if let Some(e) = check_resource(ResourceKind::TextModel, &res.text_model, fs) {
        return Err(e);
    }
    if let Some(e) = check_resource(ResourceKind::VisionModel, &res.v_model, fs) {
        return Err(e);
    }
    if let Some(e) = check_resource(ResourceKind::VisionProjector, &res.mmproj, fs) {
        return Err(e);
    }
    proof {
        law_resources_found_only_as_files(*config, *ctx, ex@, fs@);
    }
    Ok(res)
}

/// The resources of a run are found exactly when each of the five resolved
/// paths (the two programs, the text model, the vision model and the vision
/// projector) is non-empty and names a regular file in `fs`; when one is not,
/// the error names the first such resource in that order, with its path unless
/// the path is empty.
pub proof fn law_resources_found_only_as_files(
    config: AppConfig,
    ctx: SearchContext,
    ex: Seq<Expansion>,
    fs: Seq<PathFacts>,
)
    ensures
        ({
            let items = resolved_resources(config, ctx, ex, fs);
            &&& items.len() == 5
            &&& (first_problem(items, fs) is None <==> forall|i: int|
                0 <= i < 5 ==> #[trigger] items[i].1.len() > 0 && is_file_in(fs, items[i].1))
            &&& forall|i: int|
                0 <= i < 5 && (forall|j: int| 0 <= j < i ==> #[trigger] items[j].1.len() > 0
                    && is_file_in(fs, items[j].1)) && !(#[trigger] items[i].1.len() > 0
                    && is_file_in(fs, items[i].1)) ==> first_problem(items, fs) == Some(
                    (
                        items[i].0,
                        if items[i].1.len() == 0 {
                            None
                        } else {
                            Some(items[i].1)
                        },
                    ),
                )
        }),
{
    let items = resolved_resources(config, ctx, ex, fs);
    let d1 = items.drop_first();
    let d2 = d1.drop_first();
    let d3 = d2.drop_first();
    let d4 = d3.drop_first();
    let d5 = d4.drop_first();
    assert(d1[0] == items[1]);
    assert(d2[0] == items[2]);
    assert(d3[0] == items[3]);
    assert(d4[0] == items[4]);
    assert(d5.len() == 0);
    reveal_with_fuel(first_problem, 6);
    assert(first_problem(d5, fs) is None);
}

} // verus!

verus! {

/// std's `Debug` rendering of a path (quoted, with escapes).
pub uninterp spec fn path_debug_text(p: Seq<char>) -> Seq<char>;

/// Renders the path `p` as std's `Debug` for `Path` does (`format!("{:?}")`).
/// The contract only names the result; the quoting and escaping rules are std's.
#[verifier::external_body]
fn debug_path(p: &str) -> (s: String)
    ensures
        s@ == path_debug_text(p@),
{
    format!("{:?}", std::path::Path::new(p))
}

impl ResourceError {
    /// The text shown for this error.
    pub open spec fn message_spec(&self) -> Seq<char> {
        match self {
            ResourceError::EmptyPath(k) => "❌ "@ + resource_label_spec(*k) + " 路径不能为空"@,
            ResourceError::NotAFile(k, p) => "❌ 资源未找到或不是文件 ["@ + resource_label_spec(*k)
                + "]\n路径: "@ + path_debug_text(p@),
        }
    }

    /// The text shown for this error.
    pub fn message(&self) -> (s: String)
        ensures
            s@ == self.message_spec(),
    {
        match self {
            ResourceError::EmptyPath(k) => {
                let mut s = String::from_str("❌ ");
                s.append(resource_label(*k).as_str());
                s.append(" 路径不能为空");
                s
            },
            ResourceError::NotAFile(k, p) => {
                let mut s = String::from_str("❌ 资源未找到或不是文件 [");
                s.append(resource_label(*k).as_str());
                s.append("]\n路径: ");
                s.append(debug_path(p.as_str()).as_str());
                s
            },
        }
    }
}

/// The paths a program setting is looked up at: its expansion if written as a
/// path; otherwise each search place and then its expansion.
pub open spec fn program_probes_spec(name: Seq<char>, ctx: SearchContext, ex: Seq<Expansion>) -> Seq<
    Seq<char>,
> {
    let t = trim_seq(name);
    if is_path_like(t) {
        seq![expansion_lookup(ex, t)]
    } else {
        program_candidates(t, ex, ctx.search_dirs()).push(expansion_lookup(ex, t))
    }
}

/// Every path resolving and checking `config`'s resources looks at.
pub open spec fn probe_paths_spec(config: AppConfig, ctx: SearchContext, ex: Seq<Expansion>) -> Seq<
    Seq<char>,
> {
    program_probes_spec(config.cli_exe@, ctx, ex) + program_probes_spec(config.mtmd_exe@, ctx, ex)
        + model_probes_spec(config.text_model@, ctx, ex) + model_probes_spec(
        config.v_model@,
        ctx,
        ex,
    ) + model_probes_spec(config.mmproj@, ctx, ex)
}

fn program_probe_list(name: &str, ctx: &SearchContext, ex: &Vec<Expansion>) -> (v: Vec<String>)
    ensures
        string_views(v@) == program_probes_spec(name@, *ctx, ex@),
{
    let t = trim(name);
    if path_like(t.as_str()) {
        let mut v: Vec<String> = Vec::new();
        v.push(expanded(ex, t.as_str()));
        assert(string_views(v@) =~= seq![expansion_lookup(ex@, t@)]);
        return v;
    }
    let mut v = program_candidate_list(t.as_str(), ctx, ex);
    let ghost before = v@;
    v.push(expanded(ex, t.as_str()));
    assert(string_views(v@) =~= string_views(before).push(expansion_lookup(ex@, t@)));
    v
}

fn append_strings(out: &mut Vec<String>, more: Vec<String>)
    ensures
        string_views(final(out)@) == string_views(old(out)@) + string_views(more@),
{
    let mut i: usize = 0;
    while i < more.len()
        invariant
            i <= more.len(),
            string_views(out@) == string_views(old(out)@) + string_views(more@).take(i as int),
        decreases more.len() - i,
    {
        push_str_copy(out, more[i].as_str());
        assert(string_views(old(out)@) + string_views(more@).take(i + 1) =~= (string_views(old(out)@)
            + string_views(more@).take(i as int)).push(more@[i as int]@));
        i += 1;
    }
    assert(string_views(more@).take(more.len() as int) =~= string_views(more@));
}

/// Every path that resolving and checking `config`'s resources looks at, in the
/// order it looks at them (paths may repeat).
pub fn paths_to_probe(config: &AppConfig, ctx: &SearchContext, ex: &Vec<Expansion>) -> (v: Vec<
    String,
>)
    ensures
        string_views(v@) == probe_paths_spec(*config, *ctx, ex@),
{
    let mut v = program_probe_list(config.cli_exe.as_str(), ctx, ex);
    append_strings(&mut v, program_probe_list(config.mtmd_exe.as_str(), ctx, ex));
    append_strings(&mut v, model_candidate_list(config.text_model.as_str(), ctx, ex));
    append_strings(&mut v, model_candidate_list(config.v_model.as_str(), ctx, ex));
    append_strings(&mut v, model_candidate_list(config.mmproj.as_str(), ctx, ex));
    v
}

} // verus!

verus! {

// ---------------------------------------------------------------------------
// The probed paths are all the search needs
// ---------------------------------------------------------------------------

/// Two file-system snapshots that agree on every path of `paths`.
pub open spec fn agree_on(fs1: Seq<PathFacts>, fs2: Seq<PathFacts>, paths: Seq<Seq<char>>) -> bool {
    forall|p: Seq<char>| paths.contains(p) ==> facts_lookup(fs1, p) == facts_lookup(fs2, p)
}

proof fn lemma_first_existing_agree(
    fs1: Seq<PathFacts>,
    fs2: Seq<PathFacts>,
    cands: Seq<Seq<char>>,
    fallback: Seq<char>,
)
    requires
        agree_on(fs1, fs2, cands),
    ensures
        first_existing(fs1, cands, fallback) == first_existing(fs2, cands, fallback),
        cands.contains(first_existing(fs1, cands, fallback)) || first_existing(fs1, cands, fallback)
            == fallback,
    decreases cands.len(),
{
    if cands.len() > 0 {
        assert(cands.contains(cands[0]));
        assert(agree_on(fs1, fs2, cands.drop_first())) by {
            assert forall|p: Seq<char>| cands.drop_first().contains(p) implies facts_lookup(fs1, p)
                == facts_lookup(fs2, p) by {
                let j = choose|j: int| 0 <= j < cands.drop_first().len() && cands.drop_first()[j] == p;
                assert(cands[j + 1] == p);
                assert(cands.contains(p));
            }
        }
        lemma_first_existing_agree(fs1, fs2, cands.drop_first(), fallback);
        let r = first_existing(fs1, cands.drop_first(), fallback);
        if cands.drop_first().contains(r) {
            let j = choose|j: int| 0 <= j < cands.drop_first().len() && cands.drop_first()[j] == r;
            assert(cands[j + 1] == r);
        }
    }
}

proof fn lemma_first_runnable_agree(
    fs1: Seq<PathFacts>,
    fs2: Seq<PathFacts>,
    cands: Seq<Seq<char>>,
    fallback: Seq<char>,
)
    requires
        agree_on(fs1, fs2, cands),
    ensures
        first_runnable(fs1, cands, fallback) == first_runnable(fs2, cands, fallback),
        cands.contains(first_runnable(fs1, cands, fallback)) || first_runnable(fs1, cands, fallback)
            == fallback,
    decreases cands.len(),
{
    if cands.len() > 0 {
        assert(cands.contains(cands[0]));
        assert(agree_on(fs1, fs2, cands.drop_first())) by {
            assert forall|p: Seq<char>| cands.drop_first().contains(p) implies facts_lookup(fs1, p)
                == facts_lookup(fs2, p) by {
                let j = choose|j: int| 0 <= j < cands.drop_first().len() && cands.drop_first()[j] == p;
                assert(cands[j + 1] == p);
                assert(cands.contains(p));
            }
        }
        lemma_first_runnable_agree(fs1, fs2, cands.drop_first(), fallback);
        let r = first_runnable(fs1, cands.drop_first(), fallback);
        if cands.drop_first().contains(r) {
            let j = choose|j: int| 0 <= j < cands.drop_first().len() && cands.drop_first()[j] == r;
            assert(cands[j + 1] == r);
        }
    }
}

proof fn lemma_agree_sub(fs1: Seq<PathFacts>, fs2: Seq<PathFacts>, all: Seq<Seq<char>>, part: Seq<Seq<char>>)
    requires
        agree_on(fs1, fs2, all),
        forall|p: Seq<char>| part.contains(p) ==> all.contains(p),
    ensures
        agree_on(fs1, fs2, part),
{
}

proof fn lemma_contains_concat(a: Seq<Seq<char>>, b: Seq<Seq<char>>)
    ensures
        forall|p: Seq<char>| a.contains(p) ==> (a + b).contains(p),
        forall|p: Seq<char>| b.contains(p) ==> (a + b).contains(p),
{
    assert forall|p: Seq<char>| a.contains(p) implies (a + b).contains(p) by {
        let j = choose|j: int| 0 <= j < a.len() && a[j] == p;
        assert((a + b)[j] == p);
    }
    assert forall|p: Seq<char>| b.contains(p) implies (a + b).contains(p) by {
        let j = choose|j: int| 0 <= j < b.len() && b[j] == p;
        assert((a + b)[a.len() + j] == p);
    }
}

proof fn lemma_program_reads_probes(
    name: Seq<char>,
    ctx: SearchContext,
    ex: Seq<Expansion>,
    fs1: Seq<PathFacts>,
    fs2: Seq<PathFacts>,
)
    requires
        agree_on(fs1, fs2, program_probes_spec(name, ctx, ex)),
    ensures
        resolve_executable_spec(name, ctx, ex, fs1) == resolve_executable_spec(name, ctx, ex, fs2),
        program_probes_spec(name, ctx, ex).contains(resolve_executable_spec(name, ctx, ex, fs1)),
{
    let t = trim_seq(name);
    let probes = program_probes_spec(name, ctx, ex);
    if is_path_like(t) {
        assert(probes[0] == expansion_lookup(ex, t));
    } else {
        let cands = program_candidates(t, ex, ctx.search_dirs());
        let fb = expansion_lookup(ex, t);
        assert forall|p: Seq<char>| cands.contains(p) implies probes.contains(p) by {
            let j = choose|j: int| 0 <= j < cands.len() && cands[j] == p;
            assert(probes[j] == p);
        }
        lemma_agree_sub(fs1, fs2, probes, cands);
        lemma_first_runnable_agree(fs1, fs2, cands, fb);
        let r = first_runnable(fs1, cands, fb);
        assert(probes[probes.len() - 1] == fb);
        if cands.contains(r) {
            let j = choose|j: int| 0 <= j < cands.len() && cands[j] == r;
            assert(probes[j] == r);
        }
    }
}

proof fn lemma_model_reads_probes(
    input: Seq<char>,
    ctx: SearchContext,
    ex: Seq<Expansion>,
    fs1: Seq<PathFacts>,
    fs2: Seq<PathFacts>,
)
    requires
        agree_on(fs1, fs2, model_probes_spec(input, ctx, ex)),
    ensures
        resolve_model_spec(input, ctx, ex, fs1) == resolve_model_spec(input, ctx, ex, fs2),
        model_probes_spec(input, ctx, ex).contains(resolve_model_spec(input, ctx, ex, fs1)),
{
    let cands = model_probes_spec(input, ctx, ex);
    let path = expansion_lookup(ex, input);
    lemma_first_existing_agree(fs1, fs2, cands, path);
    assert(cands[0] == path);
}

/// Resolving and checking the resources looks only at the paths
/// [`paths_to_probe`] lists: every resolved path is one of them, and two
/// snapshots of the file system that agree on those paths give the same resolved
/// paths and the same verdict.
pub proof fn law_resolution_reads_only_probed_paths(
    config: AppConfig,
    ctx: SearchContext,
    ex: Seq<Expansion>,
    fs1: Seq<PathFacts>,
    fs2: Seq<PathFacts>,
)
    requires
        agree_on(fs1, fs2, probe_paths_spec(config, ctx, ex)),
    ensures
        resolved_resources(config, ctx, ex, fs1) == resolved_resources(config, ctx, ex, fs2),
        first_problem(resolved_resources(config, ctx, ex, fs1), fs1) == first_problem(
            resolved_resources(config, ctx, ex, fs2),
            fs2,
        ),
        forall|k: int|
            0 <= k < 5 ==> probe_paths_spec(config, ctx, ex).contains(
                #[trigger] resolved_resources(config, ctx, ex, fs1)[k].1,
            ),
{
    let p1 = program_probes_spec(config.cli_exe@, ctx, ex);
    let p2 = program_probes_spec(config.mtmd_exe@, ctx, ex);
    let m1 = model_probes_spec(config.text_model@, ctx, ex);
    let m2 = model_probes_spec(config.v_model@, ctx, ex);
    let m3 = model_probes_spec(config.mmproj@, ctx, ex);
    let all = probe_paths_spec(config, ctx, ex);
    assert(all == p1 + p2 + m1 + m2 + m3);
    lemma_contains_concat(p1, p2);
    lemma_contains_concat(p1 + p2, m1);
    lemma_contains_concat(p1 + p2 + m1, m2);
    lemma_contains_concat(p1 + p2 + m1 + m2, m3);
    lemma_agree_sub(fs1, fs2, all, p1);
    lemma_agree_sub(fs1, fs2, all, p2);
    lemma_agree_sub(fs1, fs2, all, m1);
    lemma_agree_sub(fs1, fs2, all, m2);
    lemma_agree_sub(fs1, fs2, all, m3);
    lemma_program_reads_probes(config.cli_exe@, ctx, ex, fs1, fs2);
    lemma_program_reads_probes(config.mtmd_exe@, ctx, ex, fs1, fs2);
    lemma_model_reads_probes(config.text_model@, ctx, ex, fs1, fs2);
    lemma_model_reads_probes(config.v_model@, ctx, ex, fs1, fs2);
    lemma_model_reads_probes(config.mmproj@, ctx, ex, fs1, fs2);
    let items = resolved_resources(config, ctx, ex, fs1);
    assert(items =~= resolved_resources(config, ctx, ex, fs2));
    assert(all.contains(items[0].1));
    assert(all.contains(items[1].1));
    assert(all.contains(items[2].1));
    assert(all.contains(items[3].1));
    assert(all.contains(items[4].1));
    reveal_with_fuel(first_problem, 6);
    assert(items.drop_first()[0] == items[1]);
    assert(items.drop_first().drop_first()[0] == items[2]);
    assert(items.drop_first().drop_first().drop_first()[0] == items[3]);
    assert(items.drop_first().drop_first().drop_first().drop_first()[0] == items[4]);
    assert(items.drop_first().drop_first().drop_first().drop_first().drop_first().len() == 0);
}

} // verus!

verus! {

// ---------------------------------------------------------------------------
// Where the file pickers start
// ---------------------------------------------------------------------------

/// The user's own program directory, `~/.local/bin`.
pub fn user_bin_dir(home: &str) -> (p: String)
    ensures
        p@ == join_path_seq(home@, ".local/bin"@),
{
    join_path(home, ".local/bin")
}

/// The directory models are kept in, `~/.local/share/llama_models`.
pub fn model_store_dir(home: &str) -> (p: String)
    ensures
        p@ == join_path_seq(home@, ".local/share/llama_models"@),
{
    join_path(home, ".local/share/llama_models")
}

/// Where the picker for a program starts: the user's program directory if it
/// exists, else `/usr/local/bin` if it exists, else the current directory.
pub fn default_bin_dir(user_bin: String, user_bin_exists: bool, system_bin_exists: bool, current_dir: String) -> (p: String)
    ensures
        p@ == (if user_bin_exists {
            user_bin@
        } else if system_bin_exists {
            "/usr/local/bin"@
        } else {
            current_dir@
        }),
{
    if user_bin_exists {
        user_bin
    } else if system_bin_exists {
        String::from_str("/usr/local/bin")
    } else {
        current_dir
    }
}

} // verus!

verus! {

/// Every entry of `ex` is an expansion its input allows.
pub open spec fn expansions_allowed(ex: Seq<Expansion>) -> bool {
    forall|i: int| 0 <= i < ex.len() ==> expansion_allowed(#[trigger] ex[i].input@, ex[i].output@)
}

proof fn lemma_lookup_allowed(ex: Seq<Expansion>, s: Seq<char>)
    requires
        expansions_allowed(ex),
    ensures
        expansion_allowed(s, expansion_lookup(ex, s)),
    decreases ex.len(),
{
    if ex.len() == 0 {
        law_trim_idempotent(s);
    } else if ex[0].input@ == s {
    } else {
        assert forall|i: int| 0 <= i < ex.drop_first().len() implies expansion_allowed(
            #[trigger] ex.drop_first()[i].input@,
            ex.drop_first()[i].output@,
        ) by {
            assert(ex.drop_first()[i] == ex[i + 1]);
        }
        lemma_lookup_allowed(ex.drop_first(), s);
    }
}

/// A program setting that is already a trimmed absolute path without `'$'`
/// resolves to itself, whatever the search context and the file system show, as
/// long as the expansions are ones their inputs allow (as
/// [`gather_expansions`] gives them). In particular a resolved absolute path
/// resolves to itself again.
pub proof fn law_absolute_program_path_resolves_to_itself(
    q: Seq<char>,
    ctx: SearchContext,
    ex: Seq<Expansion>,
    fs: Seq<PathFacts>,
)
    requires
        q.len() > 0,
        q[0] == '/',
        !q.contains('$'),
        trim_seq(q) == q,
        expansions_allowed(ex),
    ensures
        resolve_executable_spec(q, ctx, ex, fs) == q,
{
    reveal_strlit("/");
    reveal_strlit("~");
    assert(q.take(1) =~= "/"@);
    assert(is_path_like(q));
    assert(!seq_starts_with(q, "~"@)) by {
        assert(q.take(1)[0] == '/');
    }
    lemma_lookup_allowed(ex, q);
}

} // verus!
