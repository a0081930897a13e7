use vstd::prelude::*;

use crate::config::OcrResources;
use crate::paths::string_views;
use crate::resources::ResourceError;
use crate::text::{
    chars_of, contains, decimal_text, extend_chars, seq_contains, seq_starts_with, signed_text,
    starts_with, string_of, trim, trim_chars, trim_seq,
};
use vstd::utf8::{decode_utf8, valid_utf8};

verus! {

/// `line` without one trailing carriage return, if it has one.
pub open spec fn strip_cr(line: Seq<char>) -> Seq<char> {
    if line.len() > 0 && line.last() == '\r' {
        line.drop_last()
    } else {
        line
    }
}

/// Scans `s` left to right, cutting it at each `'\n'`: the lines finished so far
/// (each without its line ending, a `"\r\n"` ending counting as one) and the
/// characters of the line still open.
pub open spec fn scan_lines(s: Seq<char>) -> (Seq<Seq<char>>, Seq<char>)
    decreases s.len(),
{
    if s.len() == 0 {
        (Seq::empty(), Seq::empty())
    } else {
        let prev = scan_lines(s.drop_last());
        if s.last() == '\n' {
            (prev.0.push(strip_cr(prev.1)), Seq::empty())
        } else {
            (prev.0, prev.1.push(s.last()))
        }
    }
}

/// The lines of `s` as std's `str::lines` yields them: split at `"\n"` or
/// `"\r\n"`, the final line ending being optional.
pub open spec fn lines_of(s: Seq<char>) -> Seq<Seq<char>> {
    let (done, open) = scan_lines(s);
    if open.len() == 0 {
        done
    } else {
        done.push(open)
    }
}

/// Lines joined with `"\n"` between them (std's `join("\n")`).
pub open spec fn join_lines(ls: Seq<Seq<char>>) -> Seq<char>
    decreases ls.len(),
{
    if ls.len() == 0 {
        Seq::empty()
    } else if ls.len() == 1 {
        ls[0]
    } else {
        join_lines(ls.drop_last()) + seq!['\n'] + ls.last()
    }
}

/// Whether a line of the text model's output is part of the answer, as opposed to
/// an empty line or one of the tool's own banner, prompt, help or statistics lines.
pub open spec fn is_answer_line(line: Seq<char>) -> bool {
    let l = trim_seq(line);
    &&& l.len() > 0
    &&& !seq_starts_with(l, ">"@)
    &&& !seq_starts_with(l, "Loading model"@)
    &&& !seq_starts_with(l, "build      :"@)
    &&& !seq_starts_with(l, "model      :"@)
    &&& !seq_starts_with(l, "modalities :"@)
    &&& !seq_contains(l, "available commands:"@)
    &&& !seq_starts_with(l, "/"@)
    &&& !seq_contains(l, "Ctrl+C"@)
    &&& !seq_starts_with(l, "["@)
    &&& !seq_contains(l, "Exiting"@)
}

/// The answer lines of `ls`, in order.
pub open spec fn answer_lines(ls: Seq<Seq<char>>) -> Seq<Seq<char>> {
    ls.filter(|l: Seq<char>| is_answer_line(l))
}

/// What is left of the text model's raw output once the non-answer lines are
/// dropped: the answer lines joined by `"\n"`, trimmed.
pub open spec fn cleaned_output(raw: Seq<char>) -> Seq<char> {
    trim_seq(join_lines(answer_lines(lines_of(raw))))
}

/// Whether `line` is an answer line (see [`is_answer_line`]).
pub fn is_answer(line: &Vec<char>) -> (b: bool)
    ensures
        b == is_answer_line(line@),
{
    let l = trim_chars(line);
    if l.len() == 0 {
        return false;
    }
    !starts_with(&l, &chars_of(">")) && !starts_with(&l, &chars_of("Loading model"))
        && !starts_with(&l, &chars_of("build      :")) && !starts_with(
        &l,
        &chars_of("model      :"),
    ) && !starts_with(&l, &chars_of("modalities :")) && !contains(
        &l,
        &chars_of("available commands:"),
    ) && !starts_with(&l, &chars_of("/")) && !contains(&l, &chars_of("Ctrl+C")) && !starts_with(
        &l,
        &chars_of("["),
    ) && !contains(&l, &chars_of("Exiting"))
}

proof fn lemma_filter_push(ls: Seq<Seq<char>>, l: Seq<char>)
    ensures
        answer_lines(ls.push(l)) == if is_answer_line(l) {
            answer_lines(ls).push(l)
        } else {
            answer_lines(ls)
        },
{
    reveal(Seq::filter);
    assert(ls.push(l).drop_last() =~= ls);
}

proof fn lemma_join_push(ls: Seq<Seq<char>>, l: Seq<char>)
    ensures
        join_lines(ls.push(l)) == if ls.len() == 0 {
            l
        } else {
            join_lines(ls) + seq!['\n'] + l
        },
{
    assert(ls.push(l).drop_last() =~= ls);
}

/// Keeps the answer lines of the text model's raw output, joined by `"\n"` and
/// trimmed.
pub fn clean_translation_output(raw: &str) -> (r: String)
    ensures
        r@ == cleaned_output(raw@),
{
    let cs = chars_of(raw);
    let n = cs.len();
    let mut out: Vec<char> = Vec::new();
    let mut any_kept = false;
    let mut open: Vec<char> = Vec::new();
    let mut i: usize = 0;
    while i < n
        invariant
            i <= n,
            n == cs@.len(),
            open@ == scan_lines(cs@.take(i as int)).1,
            out@ == join_lines(answer_lines(scan_lines(cs@.take(i as int)).0)),
            any_kept == (answer_lines(scan_lines(cs@.take(i as int)).0).len() > 0),
        decreases n - i,
    {
        let ghost prefix = cs@.take(i as int);
        let ghost done = scan_lines(prefix).0;
        assert(cs@.take(i + 1).drop_last() =~= prefix);
        let c = cs[i];
        if c == '\n' {
            let mut line = open;
            if line.len() > 0 && line[line.len() - 1] == '\r' {
                line.pop();
            }
            assert(line@ =~= strip_cr(scan_lines(prefix).1));
            proof {
                lemma_filter_push(done, line@);
                lemma_join_push(answer_lines(done), line@);
            }
            if is_answer(&line) {
                if any_kept {
                    out.push('\n');
                }
                extend_chars(&mut out, &line);
                any_kept = true;
            }
            open = Vec::new();
        } else {
            open.push(c);
        }
        i += 1;
    }
    assert(cs@.take(n as int) =~= cs@);
    let ghost done = scan_lines(cs@).0;
    if open.len() > 0 {
        proof {
            lemma_filter_push(done, open@);
            lemma_join_push(answer_lines(done), open@);
        }
        if is_answer(&open) {
            if any_kept {
                out.push('\n');
            }
            extend_chars(&mut out, &open);
        }
    }
    assert(out@ == join_lines(answer_lines(lines_of(cs@))));
    let t = trim_chars(&out);
    string_of(&t)
}

proof fn lemma_scan_append_line(x: Seq<char>, y: Seq<char>)
    requires
        !y.contains('\n'),
    ensures
        scan_lines(x + y) == (scan_lines(x).0, scan_lines(x).1 + y),
    decreases y.len(),
{
    if y.len() == 0 {
        assert(x + y =~= x);
        assert(scan_lines(x).1 + y =~= scan_lines(x).1);
    } else {
        assert(!y.drop_last().contains('\n')) by {
            if y.drop_last().contains('\n') {
                let j = choose|j: int| 0 <= j < y.drop_last().len() && y.drop_last()[j] == '\n';
                assert(y[j] == '\n');
            }
        }
        lemma_scan_append_line(x, y.drop_last());
        assert(y[y.len() - 1] != '\n');
        assert((x + y).drop_last() =~= x + y.drop_last());
        assert((x + y).last() == y.last());
        assert((scan_lines(x).1 + y.drop_last()).push(y.last()) =~= scan_lines(x).1 + y);
    }
}

proof fn lemma_scan_ended_line(x: Seq<char>)
    ensures
        scan_lines(x + seq!['\n']) == (scan_lines(x).0.push(strip_cr(scan_lines(x).1)), Seq::<char>::empty()),
{
    assert((x + seq!['\n']).drop_last() =~= x);
}

proof fn lemma_scan_single_line(l: Seq<char>)
    requires
        !l.contains('\n'),
    ensures
        scan_lines(l) == (Seq::<Seq<char>>::empty(), l),
{
    lemma_scan_append_line(Seq::empty(), l);
    assert(Seq::<char>::empty() + l =~= l);
}

/// The lines of one line `l` ended by a line feed: `l` alone.
proof fn lemma_lines_of_one(l: Seq<char>)
    requires
        !l.contains('\n'),
        l.len() == 0 || l.last() != '\r',
    ensures
        lines_of(l + seq!['\n']) == seq![l],
{
    lemma_scan_single_line(l);
    lemma_scan_ended_line(l);
    assert(strip_cr(l) == l);
    assert(Seq::<Seq<char>>::empty().push(l) =~= seq![l]);
}

/// A line of the text model's output that is an answer is kept, trimmed: a line
/// (no line feed, no carriage return ending it) whose trimmed form is not empty,
/// does not begin with `'>'`, `'/'` or `'['` or with one of the banner headings
/// `"Loading model"`, `"build      :"`, `"model      :"`, `"modalities :"`, and
/// holds none of `"available commands:"`, `"Ctrl+C"`, `"Exiting"`, comes out of
/// the cleaning as itself, trimmed. Other characters anywhere in it (a `'/'`
/// after the first, say) do not matter.
pub proof fn law_answer_line_is_kept(l: Seq<char>)
    requires
        !l.contains('\n'),
        l.len() == 0 || l.last() != '\r',
        trim_seq(l).len() > 0,
        !seq_starts_with(trim_seq(l), ">"@),
        !seq_starts_with(trim_seq(l), "/"@),
        !seq_starts_with(trim_seq(l), "["@),
        !seq_starts_with(trim_seq(l), "Loading model"@),
        !seq_starts_with(trim_seq(l), "build      :"@),
        !seq_starts_with(trim_seq(l), "model      :"@),
        !seq_starts_with(trim_seq(l), "modalities :"@),
        !seq_contains(trim_seq(l), "available commands:"@),
        !seq_contains(trim_seq(l), "Ctrl+C"@),
        !seq_contains(trim_seq(l), "Exiting"@),
    ensures
        cleaned_output(l + seq!['\n']) == trim_seq(l),
{
    lemma_lines_of_one(l);
    lemma_filter_push(Seq::empty(), l);
    assert(Seq::<Seq<char>>::empty().push(l) =~= seq![l]);
    assert(answer_lines(Seq::empty()) =~= Seq::<Seq<char>>::empty()) by {
        reveal(Seq::filter);
    }
    assert(answer_lines(seq![l]) =~= seq![l]);
}

/// A line that is not an answer is dropped: a line whose trimmed form is empty,
/// begins with `'>'`, `'/'`, `'['` or one of the banner headings, or holds
/// `"available commands:"`, `"Ctrl+C"` or `"Exiting"` leaves nothing.
pub proof fn law_other_line_is_dropped(l: Seq<char>)
    requires
        !l.contains('\n'),
        l.len() == 0 || l.last() != '\r',
        ({
            let t = trim_seq(l);
            ||| t.len() == 0
            ||| seq_starts_with(t, ">"@)
            ||| seq_starts_with(t, "/"@)
            ||| seq_starts_with(t, "["@)
            ||| seq_starts_with(t, "Loading model"@)
            ||| seq_starts_with(t, "build      :"@)
            ||| seq_starts_with(t, "model      :"@)
            ||| seq_starts_with(t, "modalities :"@)
            ||| seq_contains(t, "available commands:"@)
            ||| seq_contains(t, "Ctrl+C"@)
            ||| seq_contains(t, "Exiting"@)
        }),
    ensures
        cleaned_output(l + seq!['\n']).len() == 0,
{
    lemma_lines_of_one(l);
    lemma_filter_push(Seq::empty(), l);
    assert(Seq::<Seq<char>>::empty().push(l) =~= seq![l]);
    assert(answer_lines(Seq::empty()) =~= Seq::<Seq<char>>::empty()) by {
        reveal(Seq::filter);
    }
    assert(answer_lines(seq![l]).len() == 0);
    assert(trim_seq(Seq::<char>::empty()) =~= Seq::<char>::empty());
}

/// Dropping a line changes nothing around it: appending to a text that is empty
/// or ends with a line feed a line that is not an answer (as in
/// [`law_other_line_is_dropped`]), ended by a line feed, leaves the cleaned
/// output as it was.
pub proof fn law_dropped_line_changes_nothing(x: Seq<char>, l: Seq<char>)
    requires
        x.len() == 0 || x.last() == '\n',
        !l.contains('\n'),
        l.len() == 0 || l.last() != '\r',
        ({
            let t = trim_seq(l);
            ||| t.len() == 0
            ||| seq_starts_with(t, ">"@)
            ||| seq_starts_with(t, "/"@)
            ||| seq_starts_with(t, "["@)
            ||| seq_starts_with(t, "Loading model"@)
            ||| seq_starts_with(t, "build      :"@)
            ||| seq_starts_with(t, "model      :"@)
            ||| seq_starts_with(t, "modalities :"@)
            ||| seq_contains(t, "available commands:"@)
            ||| seq_contains(t, "Ctrl+C"@)
            ||| seq_contains(t, "Exiting"@)
        }),
    ensures
        cleaned_output(x + l + seq!['\n']) == cleaned_output(x),
{
    assert(scan_lines(x).1 =~= Seq::<char>::empty());
    lemma_scan_append_line(x, l);
    assert(Seq::<char>::empty() + l =~= l);
    lemma_scan_ended_line(x + l);
    assert(strip_cr(l) == l);
    assert(lines_of(x) == scan_lines(x).0);
    assert(lines_of(x + l + seq!['\n']) == scan_lines(x).0.push(l));
    lemma_filter_push(scan_lines(x).0, l);
}

/// Answer lines keep their order and are joined by a line feed: two answer lines
/// `a` and `b`, each ended by a line feed, come out as `a`, a line feed and `b`,
/// the whole trimmed (so the inner indentation of `b` stays).
pub proof fn law_answer_lines_are_joined(a: Seq<char>, b: Seq<char>)
    requires
        !a.contains('\n'),
        !b.contains('\n'),
        a.len() == 0 || a.last() != '\r',
        b.len() == 0 || b.last() != '\r',
        is_answer_line(a),
        is_answer_line(b),
    ensures
        cleaned_output(a + seq!['\n'] + b + seq!['\n']) == trim_seq(a + seq!['\n'] + b),
{
    let x = a + seq!['\n'];
    lemma_lines_of_one(a);
    lemma_scan_single_line(a);
    lemma_scan_ended_line(a);
    lemma_scan_append_line(x, b);
    assert(Seq::<char>::empty() + b =~= b);
    lemma_scan_ended_line(x + b);
    assert(strip_cr(b) == b);
    assert(lines_of(x + b + seq!['\n']) =~= seq![a, b]);
    assert(seq![a] =~= Seq::<Seq<char>>::empty().push(a));
    assert(seq![a, b] =~= seq![a].push(b));
    lemma_filter_push(Seq::empty(), a);
    lemma_filter_push(seq![a], b);
    assert(answer_lines(Seq::empty()) =~= Seq::<Seq<char>>::empty()) by {
        reveal(Seq::filter);
    }
    assert(answer_lines(seq![a, b]) =~= seq![a, b]);
    lemma_join_push(seq![a], b);
    assert(join_lines(seq![a]) == a);
    assert(join_lines(seq![a, b]) =~= a + seq!['\n'] + b);
}

} // verus!

verus! {

// ---------------------------------------------------------------------------
// Decoding what an engine printed
// ---------------------------------------------------------------------------

/// std's lossy UTF-8 decoding (`String::from_utf8_lossy`) of `bytes`.
pub uninterp spec fn lossy_utf8(bytes: Seq<u8>) -> Seq<char>;

/// Decodes `bytes` as UTF-8, each invalid sequence becoming U+FFFD (std's
/// `String::from_utf8_lossy`). The contract names the result and states the one
/// short fact std documents: valid UTF-8 decodes to exactly its characters. How
/// invalid input is replaced is left to the name.
#[verifier::external_body]
fn decode_lossy(bytes: &Vec<u8>) -> (s: String)
    ensures
        s@ == lossy_utf8(bytes@),
        valid_utf8(bytes@) ==> s@ == decode_utf8(bytes@),
{
    String::from_utf8_lossy(bytes.as_slice()).into_owned()
}

// ---------------------------------------------------------------------------
// Why a run failed
// ---------------------------------------------------------------------------

/// Why a recognition or a translation run produced no text.
pub enum EngineError {
    /// A program or model could not be found.
    Resources(ResourceError),
    /// The engine could not be started; the system's reason.
    Launch(String),
    /// The vision engine reported failure; what it wrote to its error stream.
    OcrFailed(String),
    /// The vision engine succeeded but printed nothing but white space.
    OcrNoOutput,
    /// The text engine reported failure, with its exit code if it had one.
    TranslatorExit(Option<i32>),
    /// Nothing of the text engine's output was an answer; its raw output.
    NothingExtracted(String),
}

/// How an exit code is shown: `Some(<code>)` or `None` (std's `Debug` of
/// `Option<i32>`).
pub open spec fn exit_code_text_spec(code: Option<i32>) -> Seq<char> {
    match code {
        Some(n) => "Some("@ + decimal_text(n as int) + ")"@,
        None => "None"@,
    }
}

/// How an exit code is shown.
pub fn exit_code_text(code: Option<i32>) -> (s: String)
    ensures
        s@ == exit_code_text_spec(code),
{
    match code {
        Some(n) => {
            let mut s = String::from_str("Some(");
            s.append(signed_text(n as i64).as_str());
            s.append(")");
            s
        },
        None => String::from_str("None"),
    }
}

impl EngineError {
    /// The text of this error.
    pub open spec fn message_spec(&self) -> Seq<char> {
        match self {
            EngineError::Resources(e) => e.message_spec(),
            EngineError::Launch(reason) => reason@,
            EngineError::OcrFailed(err) => "OCR 引擎执行失败: "@ + err@,
            EngineError::OcrNoOutput => "模型完全没有输出任何内容"@,
            EngineError::TranslatorExit(code) => "进程异常退出: "@ + exit_code_text_spec(*code),
            EngineError::NothingExtracted(raw) => "内容提取失败。Raw: "@ + raw@,
        }
    }

    /// The text of this error.
    pub fn message(&self) -> (s: String)
        ensures
            s@ == self.message_spec(),
    {
        match self {
            EngineError::Resources(e) => e.message(),
            EngineError::Launch(reason) => reason.clone(),
            EngineError::OcrFailed(err) => {
                let mut s = String::from_str("OCR 引擎执行失败: ");
                s.append(err.as_str());
                s
            },
            EngineError::OcrNoOutput => String::from_str("模型完全没有输出任何内容"),
            EngineError::TranslatorExit(code) => {
                let mut s = String::from_str("进程异常退出: ");
                s.append(exit_code_text(*code).as_str());
                s
            },
            EngineError::NothingExtracted(raw) => {
                let mut s = String::from_str("内容提取失败。Raw: ");
                s.append(raw.as_str());
                s
            },
        }
    }

    /// What the result area shows in place of the text when a run fails.
    pub open spec fn failure_text_spec(&self) -> Seq<char> {
        "❌ 错误: "@ + self.message_spec()
    }

    /// What the result area shows in place of the text when a run fails.
    pub fn failure_text(&self) -> (s: String)
        ensures
            s@ == self.failure_text_spec(),
    {
        let mut s = String::from_str("❌ 错误: ");
        s.append(self.message().as_str());
        s
    }
}

// ---------------------------------------------------------------------------
// Reading the engines' results
// ---------------------------------------------------------------------------

/// The vision engine's result, from whether it exited successfully and what it
/// wrote to its output and error streams: on failure, the error stream; else its
/// output trimmed, which must not be empty.
pub fn ocr_outcome(success: bool, stdout: &str, stderr: &str) -> (r: Result<String, EngineError>)
    ensures
        !success ==> (r matches Err(EngineError::OcrFailed(e)) && e@ == stderr@),
        success && trim_seq(stdout@).len() == 0 ==> (r matches Err(EngineError::OcrNoOutput)),
        success && trim_seq(stdout@).len() > 0 ==> (r matches Ok(t) && t@ == trim_seq(stdout@)),
{
    if !success {
        return Err(EngineError::OcrFailed(String::from_str(stderr)));
    }
    let raw = trim(stdout);
    if raw.as_str().is_empty() {
        Err(EngineError::OcrNoOutput)
    } else {
        Ok(raw)
    }
}

/// The vision engine's result from its raw output bytes (see [`ocr_outcome`]),
/// both streams decoded as lossy UTF-8.
pub fn read_ocr_output(success: bool, stdout: &Vec<u8>, stderr: &Vec<u8>) -> (r: Result<
    String,
    EngineError,
>)
    ensures
        !success ==> (r matches Err(EngineError::OcrFailed(e)) && e@ == lossy_utf8(stderr@)),
        success && trim_seq(lossy_utf8(stdout@)).len() == 0 ==> (r matches Err(
            EngineError::OcrNoOutput,
        )),
        success && trim_seq(lossy_utf8(stdout@)).len() > 0 ==> (r matches Ok(t) && t@ == trim_seq(
            lossy_utf8(stdout@),
        )),
{
    let out = decode_lossy(stdout);
    let err = decode_lossy(stderr);
    ocr_outcome(success, out.as_str(), err.as_str())
}

/// The text engine's result, from whether it exited successfully, its exit
/// code and what it wrote to its output: on failure, the exit code; else the
/// cleaned output (see [`cleaned_output`]), which must not be empty.
pub fn translation_outcome(success: bool, code: Option<i32>, stdout: &str) -> (r: Result<
    String,
    EngineError,
>)
    ensures
        !success ==> (r matches Err(EngineError::TranslatorExit(c)) && c == code),
        success && cleaned_output(stdout@).len() == 0 ==> (r matches Err(
            EngineError::NothingExtracted(raw),
        ) && raw@ == stdout@),
        success && cleaned_output(stdout@).len() > 0 ==> (r matches Ok(t) && t@ == cleaned_output(
            stdout@,
        )),
{
    if !success {
        return Err(EngineError::TranslatorExit(code));
    }
    let clean = clean_translation_output(stdout);
    if clean.as_str().is_empty() {
        Err(EngineError::NothingExtracted(String::from_str(stdout)))
    } else {
        Ok(clean)
    }
}

/// The text engine's result from its raw output bytes (see
/// [`translation_outcome`]), decoded as lossy UTF-8.
pub fn read_translation_output(success: bool, code: Option<i32>, stdout: &Vec<u8>) -> (r: Result<
    String,
    EngineError,
>)
    ensures
        !success ==> (r matches Err(EngineError::TranslatorExit(c)) && c == code),
        success && cleaned_output(lossy_utf8(stdout@)).len() == 0 ==> (r matches Err(
            EngineError::NothingExtracted(raw),
        ) && raw@ == lossy_utf8(stdout@)),
        success && cleaned_output(lossy_utf8(stdout@)).len() > 0 ==> (r matches Ok(t) && t@
            == cleaned_output(lossy_utf8(stdout@))),
{
    let out = decode_lossy(stdout);
    translation_outcome(success, code, out.as_str())
}

// ---------------------------------------------------------------------------
// Starting the engines
// ---------------------------------------------------------------------------

/// A program to start and its arguments.
pub struct Command {
    pub program: String,
    pub args: Vec<String>,
}

fn push_arg(args: &mut Vec<String>, a: &str)
    ensures
        string_views(final(args)@) == string_views(old(args)@).push(a@),
{
    args.push(String::from_str(a));
    assert(string_views(final(args)@) =~= string_views(old(args)@).push(a@));
}

/// The vision engine's arguments for recognising the picture at `image`.
pub open spec fn ocr_args_spec(res: OcrResources, image: Seq<char>) -> Seq<Seq<char>> {
    seq![
        "-m"@,
        res.v_model@,
        "--jinja"@,
        "--mmproj"@,
        res.mmproj@,
        "--image"@,
        image,
        "--temp"@,
        "0.1"@,
        "-p"@,
        res.ocr_prompt@,
        "-n"@,
        "4096"@,
        "-c"@,
        "16384"@,
    ]
}

/// The command that recognises the text in the picture at `image`.
pub fn ocr_command(res: &OcrResources, image: &str) -> (c: Command)
    ensures
        c.program@ == res.mtmd_exe@,
        string_views(c.args@) == ocr_args_spec(*res, image@),
{
    let mut args: Vec<String> = Vec::new();
    push_arg(&mut args, "-m");
    push_arg(&mut args, res.v_model.as_str());
    push_arg(&mut args, "--jinja");
    push_arg(&mut args, "--mmproj");
    push_arg(&mut args, res.mmproj.as_str());
    push_arg(&mut args, "--image");
    push_arg(&mut args, image);
    push_arg(&mut args, "--temp");
    push_arg(&mut args, "0.1");
    push_arg(&mut args, "-p");
    push_arg(&mut args, res.ocr_prompt.as_str());
    push_arg(&mut args, "-n");
    push_arg(&mut args, "4096");
    push_arg(&mut args, "-c");
    push_arg(&mut args, "16384");
    assert(string_views(args@) =~= ocr_args_spec(*res, image@));
    Command { program: res.mtmd_exe.clone(), args }
}

/// `c` with a line feed turned into a space.
pub open spec fn flatten_char(c: char) -> char {
    if c == '\n' {
        ' '
    } else {
        c
    }
}

/// The prompt for translating `source`: the configured prompt, a space, and
/// `source` in double quotes with its line feeds turned into spaces.
pub open spec fn translate_prompt_spec(prompt: Seq<char>, source: Seq<char>) -> Seq<char> {
    prompt + " \""@ + source.map_values(|c: char| flatten_char(c)) + "\""@
}

/// The prompt for translating `source`.
pub fn translate_prompt(prompt: &str, source: &str) -> (s: String)
    ensures
        s@ == translate_prompt_spec(prompt@, source@),
{
    let cs = chars_of(source);
    let mut flat: Vec<char> = Vec::new();
    let mut i: usize = 0;
    while i < cs.len()
        invariant
            i <= cs.len(),
            flat@ == cs@.take(i as int).map_values(|c: char| flatten_char(c)),
        decreases cs.len() - i,
    {
        let c = if cs[i] == '\n' {
            ' '
        } else {
            cs[i]
        };
        flat.push(c);
        assert(cs@.take(i + 1).map_values(|c: char| flatten_char(c)) =~= cs@.take(
            i as int,
        ).map_values(|c: char| flatten_char(c)).push(c));
        i += 1;
    }
    assert(cs@.take(cs.len() as int) =~= cs@);
    let mut s = String::from_str(prompt);
    s.append(" \"");
    s.append(string_of(&flat).as_str());
    s.append("\"");
    s
}

/// The translation prompt is the configured prompt, a space, an opening quote,
/// `source` character for character with every line feed (not only the first)
/// turned into a space, and a closing quote: after the configured prompt no line
/// feed is left.
pub proof fn law_translate_prompt_flattens_every_line_feed(prompt: Seq<char>, source: Seq<char>)
    ensures
        ({
            let p = translate_prompt_spec(prompt, source);
            let n = prompt.len() as int;
            &&& p.len() == prompt.len() + source.len() + 3
            &&& p.take(n) == prompt
            &&& p[n] == ' ' && p[n + 1] == '"' && p.last() == '"'
            &&& forall|k: int|
                0 <= k < source.len() ==> #[trigger] p[n + 2 + k] == (if source[k] == '\n' {
                    ' '
                } else {
                    source[k]
                })
            &&& !p.skip(n).contains('\n')
        }),
{
    reveal_strlit(" \"");
    reveal_strlit("\"");
    let p = translate_prompt_spec(prompt, source);
    let n = prompt.len() as int;
    assert(p.take(n) =~= prompt);
    assert forall|k: int| 0 <= k < source.len() implies #[trigger] p[n + 2 + k] == (if source[k]
        == '\n' {
        ' '
    } else {
        source[k]
    }) by {}
    if p.skip(n).contains('\n') {
        let j = choose|j: int| 0 <= j < p.skip(n).len() && p.skip(n)[j] == '\n';
        assert(p[n + j] == '\n');
        if 2 <= j < source.len() + 2 {
            assert(p[n + 2 + (j - 2)] == '\n');
        }
    }
}

/// The text engine's arguments for answering `prompt`.
pub open spec fn translate_args_spec(res: OcrResources, prompt: Seq<char>) -> Seq<Seq<char>> {
    seq![
        "-m"@,
        res.text_model@,
        "-n"@,
        "4096"@,
        "-c"@,
        "16384"@,
        "-ngl"@,
        "100"@,
        "--jinja"@,
        "--reasoning"@,
        "off"@,
        "--log-disable"@,
        "--no-display-prompt"@,
        "--simple-io"@,
        "--single-turn"@,
        "-p"@,
        prompt,
    ]
}

/// The command that translates `source` with the configured translation prompt.
pub fn translate_command(res: &OcrResources, source: &str) -> (c: Command)
    ensures
        c.program@ == res.cli_exe@,
        string_views(c.args@) == translate_args_spec(
            *res,
            translate_prompt_spec(res.trans_prompt@, source@),
        ),
{
    let prompt = translate_prompt(res.trans_prompt.as_str(), source);
    let mut args: Vec<String> = Vec::new();
    push_arg(&mut args, "-m");
    push_arg(&mut args, res.text_model.as_str());
    push_arg(&mut args, "-n");
    push_arg(&mut args, "4096");
    push_arg(&mut args, "-c");
    push_arg(&mut args, "16384");
    push_arg(&mut args, "-ngl");
    push_arg(&mut args, "100");
    push_arg(&mut args, "--jinja");
    push_arg(&mut args, "--reasoning");
    push_arg(&mut args, "off");
    push_arg(&mut args, "--log-disable");
    push_arg(&mut args, "--no-display-prompt");
    push_arg(&mut args, "--simple-io");
    push_arg(&mut args, "--single-turn");
    push_arg(&mut args, "-p");
    push_arg(&mut args, prompt.as_str());
    assert(string_views(args@) =~= translate_args_spec(*res, prompt@));
    Command { program: res.cli_exe.clone(), args }
}

/// The shell line that runs the text engine on a model interactively and then
/// leaves an interactive shell open.
pub open spec fn chat_shell_line_spec(cli: Seq<char>, model: Seq<char>) -> Seq<char> {
    "'"@ + cli + "' -m '"@ + model + "' -cnv --color on --reasoning off; exec zsh"@
}

/// The command that opens a terminal chatting with the model at `model`.
pub fn chat_terminal_command(cli: &str, model: &str) -> (c: Command)
    ensures
        c.program@ == "mate-terminal"@,
        string_views(c.args@) == seq!["--"@, "zsh"@, "-lc"@, chat_shell_line_spec(cli@, model@)],
{
    let mut line = String::from_str("'");
    line.append(cli);
    line.append("' -m '");
    line.append(model);
    line.append("' -cnv --color on --reasoning off; exec zsh");
    let mut args: Vec<String> = Vec::new();
    push_arg(&mut args, "--");
    push_arg(&mut args, "zsh");
    push_arg(&mut args, "-lc");
    push_arg(&mut args, line.as_str());
    assert(string_views(args@) =~= seq!["--"@, "zsh"@, "-lc"@, chat_shell_line_spec(cli@, model@)]);
    Command { program: String::from_str("mate-terminal"), args }
}

} // verus!
