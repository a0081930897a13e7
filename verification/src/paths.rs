use vstd::prelude::*;

use crate::text::{
    ascii_lower, chars_eq, chars_of, ends_with, extend_chars, lower_ascii, seq_ends_with,
    seq_starts_with, string_of,
};

verus! {

/// `s` cut at every occurrence of `sep`; always at least one piece, and a piece
/// is empty where two separators meet or at an end (std's `split`).
pub open spec fn split_seq(s: Seq<char>, sep: char) -> Seq<Seq<char>>
    decreases s.len(),
{
    if s.len() == 0 {
        seq![Seq::empty()]
    } else {
        let prev = split_seq(s.drop_last(), sep);
        if s.last() == sep {
            prev.push(Seq::empty())
        } else {
            prev.update(prev.len() - 1, prev.last().push(s.last()))
        }
    }
}

/// The pieces joined with `sep` between them.
pub open spec fn join_seq(parts: Seq<Seq<char>>, sep: char) -> Seq<char>
    decreases parts.len(),
{
    if parts.len() == 0 {
        Seq::empty()
    } else if parts.len() == 1 {
        parts[0]
    } else {
        join_seq(parts.drop_last(), sep) + seq![sep] + parts.last()
    }
}

/// The views of a vector of character vectors.
pub open spec fn views_of(v: Seq<Vec<char>>) -> Seq<Seq<char>> {
    v.map_values(|x: Vec<char>| x@)
}

/// The views of a vector of strings.
pub open spec fn string_views(v: Seq<String>) -> Seq<Seq<char>> {
    v.map_values(|x: String| x@)
}

pub proof fn lemma_split_nonempty(s: Seq<char>, sep: char)
    ensures
        split_seq(s, sep).len() >= 1,
    decreases s.len(),
{
    if s.len() > 0 {
        lemma_split_nonempty(s.drop_last(), sep);
    }
}

/// Cuts `s` at every `sep`.
pub fn split_chars(s: &Vec<char>, sep: char) -> (parts: Vec<Vec<char>>)
    ensures
        views_of(parts@) == split_seq(s@, sep),
{
    let mut parts: Vec<Vec<char>> = Vec::new();
    let mut cur: Vec<char> = Vec::new();
    let mut i: usize = 0;
    while i < s.len()
        invariant
            i <= s.len(),
            views_of(parts@).push(cur@) == split_seq(s@.take(i as int), sep),
        decreases s.len() - i,
    {
        let ghost before = views_of(parts@);
        assert(s@.take(i + 1).drop_last() =~= s@.take(i as int));
        if s[i] == sep {
            parts.push(cur);
            cur = Vec::new();
            assert(views_of(parts@) =~= before.push(views_of(parts@).last()));
        } else {
            cur.push(s[i]);
            assert(views_of(parts@).push(cur@) =~= before.push(cur@.drop_last()).update(
                before.len() as int,
                cur@,
            ));
        }
        i += 1;
    }
    assert(s@.take(s.len() as int) =~= s@);
    parts.push(cur);
    assert(views_of(parts@) =~= split_seq(s@, sep));
    parts
}

proof fn lemma_join_push_char(parts: Seq<Seq<char>>, sep: char, c: char)
    requires
        parts.len() >= 1,
    ensures
        join_seq(parts.update(parts.len() - 1, parts.last().push(c)), sep) == join_seq(parts, sep).push(
            c,
        ),
{
    let up = parts.update(parts.len() - 1, parts.last().push(c));
    if parts.len() >= 2 {
        assert(up.drop_last() =~= parts.drop_last());
        assert(join_seq(up, sep) == join_seq(parts.drop_last(), sep) + seq![sep] + parts.last().push(c));
        assert(join_seq(up, sep) =~= join_seq(parts, sep).push(c));
    }
}

/// Splitting at a separator loses nothing: joining the pieces with that separator
/// gives the text back, and no piece holds the separator.
pub proof fn law_split_join_roundtrip(s: Seq<char>, sep: char)
    ensures
        join_seq(split_seq(s, sep), sep) == s,
        forall|k: int|
            0 <= k < split_seq(s, sep).len() ==> !(#[trigger] split_seq(s, sep)[k]).contains(sep),
    decreases s.len(),
{
    if s.len() == 0 {
        assert(join_seq(split_seq(s, sep), sep) =~= s);
        assert(split_seq(s, sep)[0] =~= Seq::<char>::empty());
    } else {
        let prev = split_seq(s.drop_last(), sep);
        law_split_join_roundtrip(s.drop_last(), sep);
        lemma_split_nonempty(s.drop_last(), sep);
        if s.last() == sep {
            let cur = prev.push(Seq::empty());
            assert(cur.drop_last() =~= prev);
            assert(join_seq(cur, sep) =~= s);
            assert forall|k: int| 0 <= k < cur.len() implies !(#[trigger] cur[k]).contains(sep) by {
                if k < prev.len() {
                    assert(cur[k] == prev[k]);
                }
            }
        } else {
            lemma_join_push_char(prev, sep, s.last());
            assert(s.drop_last().push(s.last()) =~= s);
            let cur = prev.update(prev.len() - 1, prev.last().push(s.last()));
            assert forall|k: int| 0 <= k < cur.len() implies !(#[trigger] cur[k]).contains(sep) by {
                if k < prev.len() - 1 {
                    assert(cur[k] == prev[k]);
                } else {
                    assert(cur[k] == prev[k].push(s.last()));
                    if cur[k].contains(sep) {
                        let j = choose|j: int| 0 <= j < cur[k].len() && cur[k][j] == sep;
                        assert(prev[k][j] == sep);
                    }
                }
            }
        }
    }
}

/// A list of directories as the `PATH` variable holds it, cut at every `':'`
/// (an empty piece stands for the current directory).
pub fn split_path_list(list: &str) -> (dirs: Vec<String>)
    ensures
        string_views(dirs@) == split_seq(list@, ':'),
{
    let cs = chars_of(list);
    let parts = split_chars(&cs, ':');
    let mut dirs: Vec<String> = Vec::new();
    let mut i: usize = 0;
    while i < parts.len()
        invariant
            i <= parts.len(),
            string_views(dirs@) == views_of(parts@).take(i as int),
        decreases parts.len() - i,
    {
        let d = string_of(&parts[i]);
        assert(d@ == views_of(parts@)[i as int]);
        let ghost before = dirs@;
        dirs.push(d);
        assert(string_views(dirs@) =~= string_views(before).push(d@));
        assert(string_views(dirs@) =~= views_of(parts@).take(i + 1));
        i += 1;
    }
    assert(views_of(parts@).take(parts.len() as int) =~= views_of(parts@));
    dirs
}

} // verus!

verus! {

/// `part` appended to the path `base` (std's `PathBuf::push` on Unix): an
/// absolute `part` replaces `base`; otherwise a `'/'` goes between the two unless
/// `base` is empty or already ends in one.
pub open spec fn join_path_seq(base: Seq<char>, part: Seq<char>) -> Seq<char> {
    if part.len() > 0 && part[0] == '/' {
        part
    } else if base.len() == 0 || base.last() == '/' {
        base + part
    } else {
        base + seq!['/'] + part
    }
}

/// The path `part` below `base` (std's `Path::join` on Unix).
pub fn join_path(base: &str, part: &str) -> (p: String)
    ensures
        p@ == join_path_seq(base@, part@),
{
    let b = chars_of(base);
    let q = chars_of(part);
    if q.len() > 0 && q[0] == '/' {
        return string_of(&q);
    }
    let mut out = b;
    if out.len() > 0 && out[out.len() - 1] != '/' {
        out.push('/');
    }
    extend_chars(&mut out, &q);
    string_of(&out)
}

/// A path component that names something: not empty and not `"."`.
pub open spec fn is_named_segment(seg: Seq<char>) -> bool {
    seg.len() > 0 && seg != "."@
}

/// The components of a path that name something, in order (`'/'`-separated,
/// empty and `"."` components dropped).
pub open spec fn named_segments(p: Seq<char>) -> Seq<Seq<char>> {
    split_seq(p, '/').filter(|g: Seq<char>| is_named_segment(g))
}

/// The final component of a path, if it names a file or directory (std's
/// `Path::file_name` on Unix): none for a root, an empty path, `"."` or a path
/// ending in `".."`.
pub open spec fn file_name_of(p: Seq<char>) -> Option<Seq<char>> {
    let g = named_segments(p);
    if g.len() == 0 {
        None
    } else if g.last() == ".."@ {
        None
    } else {
        Some(g.last())
    }
}

proof fn lemma_filter_take_step(parts: Seq<Seq<char>>, j: int)
    requires
        0 < j <= parts.len(),
    ensures
        named_segments_of(parts.take(j)) == if is_named_segment(parts[j - 1]) {
            named_segments_of(parts.take(j - 1)).push(parts[j - 1])
        } else {
            named_segments_of(parts.take(j - 1))
        },
{
    reveal(Seq::filter);
    assert(parts.take(j).drop_last() =~= parts.take(j - 1));
}

/// The named components among `parts`.
pub open spec fn named_segments_of(parts: Seq<Seq<char>>) -> Seq<Seq<char>> {
    parts.filter(|g: Seq<char>| is_named_segment(g))
}

/// The final component of the path `p`, if it names something.
pub fn file_name(p: &str) -> (r: Option<String>)
    ensures
        r matches Some(n) ==> file_name_of(p@) == Some(n@),
        r is None ==> file_name_of(p@) is None,
{
    let cs = chars_of(p);
    let parts = split_chars(&cs, '/');
    let ghost pv = views_of(parts@);
    let dot = chars_of(".");
    let dotdot = chars_of("..");
    let mut j: usize = parts.len();
    assert(pv.take(j as int) =~= pv);
    while j > 0 && (parts[j - 1].len() == 0 || chars_eq(&parts[j - 1], &dot))
        invariant
            j <= parts.len(),
            pv == views_of(parts@),
            dot@ == "."@,
            named_segments_of(pv) == named_segments_of(pv.take(j as int)),
        decreases j,
    {
        assert(pv[j - 1] == parts@[j - 1]@);
        proof {
            lemma_filter_take_step(pv, j as int);
        }
        j -= 1;
    }
    assert(named_segments(p@) == named_segments_of(pv));
    if j == 0 {
        assert(pv.take(0) =~= Seq::<Seq<char>>::empty());
        assert(named_segments_of(Seq::<Seq<char>>::empty()) =~= Seq::<Seq<char>>::empty()) by {
            reveal(Seq::filter);
        }
        return None;
    }
    assert(pv[j - 1] == parts@[j - 1]@);
    proof {
        lemma_filter_take_step(pv, j as int);
    }
    if chars_eq(&parts[j - 1], &dotdot) {
        None
    } else {
        Some(string_of(&parts[j - 1]))
    }
}

/// The extension of a file name (std's `Path::extension`): what follows its last
/// `'.'`, unless it has no `'.'` or its only `'.'` is its first character.
pub open spec fn extension_of(name: Seq<char>) -> Option<Seq<char>> {
    let pieces = split_seq(name, '.');
    if pieces.len() < 2 || (pieces.len() == 2 && pieces[0].len() == 0) {
        None
    } else {
        Some(pieces.last())
    }
}

/// A model file, as the model list shows them: its file name has the extension
/// `gguf` (exactly, case counts).
pub open spec fn is_model_file_spec(p: Seq<char>) -> bool {
    match file_name_of(p) {
        Some(n) => extension_of(n) == Some("gguf"@),
        None => false,
    }
}

/// Whether the path `p` names a `.gguf` model file.
pub fn is_model_file(p: &str) -> (b: bool)
    ensures
        b == is_model_file_spec(p@),
{
    match file_name(p) {
        None => false,
        Some(n) => {
            let cs = chars_of(n.as_str());
            let pieces = split_chars(&cs, '.');
            proof {
                lemma_split_nonempty(n@, '.');
            }
            if pieces.len() < 2 || (pieces.len() == 2 && pieces[0].len() == 0) {
                assert(pieces.len() == 2 ==> pieces@[0]@ == views_of(pieces@)[0]);
                false
            } else {
                assert(pieces@[pieces.len() - 1]@ == views_of(pieces@).last());
                assert(pieces.len() == 2 ==> pieces@[0]@ == views_of(pieces@)[0]);
                chars_eq(&pieces[pieces.len() - 1], &chars_of("gguf"))
            }
        },
    }
}

/// The name under which the model list shows a model: its file name, or
/// `"未知模型"` (unknown model) when the path has none.
pub open spec fn model_display_name_spec(p: Seq<char>) -> Seq<char> {
    match file_name_of(p) {
        Some(n) => n,
        None => "未知模型"@,
    }
}

/// The name under which the model list shows the model at `p`.
pub fn model_display_name(p: &str) -> (s: String)
    ensures
        s@ == model_display_name_spec(p@),
{
    match file_name(p) {
        Some(n) => n,
        None => String::from_str("未知模型"),
    }
}

/// A picture that dropping it on the window starts recognition for: its path
/// ends in `.png`, `.jpg`, `.jpeg` or `.webp`, ignoring case (for these ASCII
/// endings, lowering all of Unicode and lowering ASCII letters agree).
pub open spec fn is_droppable_image_spec(p: Seq<char>) -> bool {
    let l = ascii_lower(p);
    ||| seq_ends_with(l, ".png"@)
    ||| seq_ends_with(l, ".jpg"@)
    ||| seq_ends_with(l, ".jpeg"@)
    ||| seq_ends_with(l, ".webp"@)
}

/// Whether dropping the file at `p` on the window starts recognition.
pub fn is_droppable_image(p: &str) -> (b: bool)
    ensures
        b == is_droppable_image_spec(p@),
{
    let l = lower_ascii(&chars_of(p));
    ends_with(&l, &chars_of(".png")) || ends_with(&l, &chars_of(".jpg")) || ends_with(
        &l,
        &chars_of(".jpeg"),
    ) || ends_with(&l, &chars_of(".webp"))
}

/// Of the dropped files, the first one that is a picture, if any.
pub fn first_droppable_image(paths: &Vec<String>) -> (r: Option<usize>)
    ensures
        r matches Some(i) ==> i < paths.len() && is_droppable_image_spec(paths@[i as int]@)
            && forall|k: int| 0 <= k < i ==> !is_droppable_image_spec(#[trigger] paths@[k]@),
        r is None ==> forall|k: int|
            0 <= k < paths.len() ==> !is_droppable_image_spec(#[trigger] paths@[k]@),
{
    let mut i: usize = 0;
    while i < paths.len()
        invariant
            i <= paths.len(),
            forall|k: int| 0 <= k < i ==> !is_droppable_image_spec(#[trigger] paths@[k]@),
        decreases paths.len() - i,
    {
        if is_droppable_image(paths[i].as_str()) {
            return Some(i);
        }
        i += 1;
    }
    None
}

} // verus!

verus! {

proof fn lemma_split_append_plain(a: Seq<char>, b: Seq<char>, sep: char)
    requires
        !b.contains(sep),
    ensures
        split_seq(a + b, sep) == split_seq(a, sep).update(
            split_seq(a, sep).len() - 1,
            split_seq(a, sep).last() + b,
        ),
    decreases b.len(),
{
    lemma_split_nonempty(a, sep);
    if b.len() == 0 {
        assert(a + b =~= a);
        assert(split_seq(a, sep).last() + b =~= split_seq(a, sep).last());
        assert(split_seq(a, sep).update(split_seq(a, sep).len() - 1, split_seq(a, sep).last())
            =~= split_seq(a, sep));
    } else {
        let bl = b.drop_last();
        assert(!bl.contains(sep)) by {
            if bl.contains(sep) {
                let j = choose|j: int| 0 <= j < bl.len() && bl[j] == sep;
                assert(b[j] == sep);
            }
        }
        lemma_split_append_plain(a, bl, sep);
        assert((a + b).drop_last() =~= a + bl);
        assert((a + b).last() == b.last());
        assert(b.last() != sep) by {
            assert(b[b.len() - 1] == b.last());
        }
        let prev = split_seq(a + bl, sep);
        let sa = split_seq(a, sep);
        assert(split_seq((a + b).drop_last(), sep) == prev);
        assert(split_seq(a + b, sep) == prev.update(prev.len() - 1, prev.last().push(b.last())));
        assert(prev.len() == sa.len());
        assert(prev.last() == sa.last() + bl);
        assert(sa.last() + bl + seq![b.last()] =~= sa.last() + b);
        assert(prev.last().push(b.last()) =~= sa.last() + b);
        assert(prev.update(prev.len() - 1, sa.last() + b) =~= sa.update(sa.len() - 1, sa.last() + b));
    }
}

proof fn lemma_split_last_empty(a: Seq<char>, sep: char)
    requires
        a.len() == 0 || a.last() == sep,
    ensures
        split_seq(a, sep).last() == Seq::<char>::empty(),
{
}

/// A plain file name joined onto a directory is the file name of the result:
/// the name a model is looked for under is the name it is found by.
pub proof fn law_join_then_file_name(base: Seq<char>, name: Seq<char>)
    requires
        name.len() > 0,
        !name.contains('/'),
        name != "."@,
        name != ".."@,
    ensures
        file_name_of(join_path_seq(base, name)) == Some(name),
{
    let dir = if base.len() == 0 || base.last() == '/' {
        base
    } else {
        base + seq!['/']
    };
    assert(name[0] != '/') by {
        if name[0] == '/' {
            assert(name.contains('/'));
        }
    }
    assert(join_path_seq(base, name) =~= dir + name);
    assert(dir.len() == 0 || dir.last() == '/');
    lemma_split_last_empty(dir, '/');
    lemma_split_nonempty(dir, '/');
    lemma_split_append_plain(dir, name, '/');
    let parts = split_seq(dir + name, '/');
    assert(parts.last() =~= name);
    assert(is_named_segment(name));
    reveal(Seq::filter);
    assert(parts.len() > 0);
    assert(named_segments(dir + name) == parts.drop_last().filter(
        |g: Seq<char>| is_named_segment(g),
    ).push(name));
}

} // verus!
