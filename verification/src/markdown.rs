//! Rewriting the relative links of an article's markdown so that they point
//! at the address the article is published under.
use vstd::prelude::*;

use crate::text::{chars_of, string_of};

verus! {

/// An ASCII letter.
pub open spec fn is_letter(c: char) -> bool {
    ('a' as u32 <= c as u32 <= 'z' as u32) || ('A' as u32 <= c as u32 <= 'Z' as u32)
}

/// A character that may follow the first letter of a URL scheme.
pub open spec fn is_scheme_char(c: char) -> bool {
    is_letter(c) || ('0' as u32 <= c as u32 <= '9' as u32) || c == '+' || c == '-' || c == '.'
}

/// `t` starts with a URL scheme such as `http:`: a letter, more scheme
/// characters, then `:`.
pub open spec fn starts_with_scheme(t: Seq<char>) -> bool {
    exists|k: int|
        #![trigger t[k]]
        1 <= k < t.len() && t[k] == ':' && is_letter(t[0]) && forall|j: int|
            0 <= j < k ==> #[trigger] is_scheme_char(t[j])
}

/// A character that cannot start a relative link target: the start of an
/// absolute path, of a fragment, of a bracketed target, the end of a
/// bracketed target or of the link, or white space.
pub open spec fn is_non_relative_start(c: char) -> bool {
    c == '/' || c == '#' || c == '<' || c == '>' || c == ')' || c == ' ' || c == '\t' || c == '\n'
        || c == '\r'
}

/// The link target at the start of `t` is relative: it is not empty, is no
/// absolute path, fragment or bracketed target, and has no scheme.
pub open spec fn is_relative_target(t: Seq<char>) -> bool {
    t.len() > 0 && !is_non_relative_start(t[0]) && !starts_with_scheme(t)
}

/// `t` starts with `./`.
pub open spec fn starts_with_dot_slash(t: Seq<char>) -> bool {
    t.len() >= 2 && t[0] == '.' && t[1] == '/'
}

fn is_letter_exec(c: char) -> (res: bool)
    ensures
        res == is_letter(c),
{
    ('a' as u32 <= c as u32 && c as u32 <= 'z' as u32) || ('A' as u32 <= c as u32 && c as u32
        <= 'Z' as u32)
}

fn is_scheme_char_exec(c: char) -> (res: bool)
    ensures
        res == is_scheme_char(c),
{
    is_letter_exec(c) || ('0' as u32 <= c as u32 && c as u32 <= '9' as u32) || c == '+' || c
        == '-' || c == '.'
}

/// Whether the link target that starts at position `j` of `s` is relative.
fn is_relative_at(s: &Vec<char>, j: usize) -> (res: bool)
    requires
        j <= s.len(),
    ensures
        res == is_relative_target(s@.skip(j as int)),
{
    let ghost t = s@.skip(j as int);
    if j >= s.len() {
        return false;
    }
    let c = s[j];
    if c == '/' || c == '#' || c == '<' || c == '>' || c == ')' || c == ' ' || c == '\t' || c
        == '\n' || c == '\r' {
        return false;
    }
    if !is_letter_exec(c) {
        assert(!starts_with_scheme(t));
        return true;
    }
    let mut k: usize = j + 1;
    while k < s.len() && is_scheme_char_exec(s[k])
        invariant
            j < k <= s.len(),
            t == s@.skip(j as int),
            forall|m: int| 0 <= m < k - j ==> #[trigger] is_scheme_char(t[m]),
        decreases s.len() - k,
    {
        k = k + 1;
    }
    if k < s.len() && s[k] == ':' {
        assert(t[(k - j) as int] == ':');
        assert(starts_with_scheme(t));
        false
    } else {
        assert(!starts_with_scheme(t)) by {
            if starts_with_scheme(t) {
                let w = choose|w: int|
                    #![trigger t[w]]
                    1 <= w < t.len() && t[w] == ':' && is_letter(t[0]) && forall|m: int|
                        0 <= m < w ==> #[trigger] is_scheme_char(t[m]);
                if w > k - j {
                    assert(is_scheme_char(t[(k - j) as int]));
                } else if w < k - j {
                    assert(is_scheme_char(t[w]));
                }
            }
        }
        true
    }
}


/// `t` without a leading `./`.
pub open spec fn strip_dot_slash(t: Seq<char>) -> Seq<char> {
    if starts_with_dot_slash(t) {
        t.skip(2)
    } else {
        t
    }
}

/// Where the scan of a markdown text stands.
pub struct MdState {
    /// Inside a fenced code block (opened and closed by ```` ``` ```` indented
    /// at most three columns).
    pub fence: bool,
    /// Inside an inline code span (opened by a run of backticks).
    pub code: bool,
    /// How many backticks opened the code span: a run of as many closes it.
    pub ticks: nat,
    /// How many `[` of link texts are open in the paragraph.
    pub depth: nat,
    /// Nothing but spaces and tabs so far on the current line.
    pub blank: bool,
    /// How many columns of spaces and tabs begin the current line, counted
    /// up to 4.
    pub indent: nat,
    /// The current line belongs to an indented code block.
    pub icode: bool,
    /// A link target may start here (after `](` or after the `]:` of a
    /// reference definition, spaces allowed).
    pub target: bool,
    /// The outermost open `[` began a line, so its `]:` starts a reference
    /// definition.
    pub def_label: bool,
    /// A paragraph is open: a line of text came before this one with no
    /// blank line since, so a `[` here starts no reference definition and
    /// an indented line starts no code block.
    pub para: bool,
    /// The current line is a reference definition.
    pub def_line: bool,
}

/// The state at the start of a markdown text.
pub open spec fn md_start() -> MdState {
    MdState {
        fence: false,
        code: false,
        ticks: 0,
        depth: 0,
        blank: true,
        indent: 0,
        icode: false,
        target: false,
        def_label: false,
        para: false,
        def_line: false,
    }
}

/// At most three columns of white space so far on the line: a code fence
/// or a reference definition may start here.
pub open spec fn in_margin(st: MdState) -> bool {
    st.blank && st.indent <= 3
}

/// A code fence ```` ``` ```` opens or closes at the start of `s`.
pub open spec fn opens_fence(s: Seq<char>, st: MdState) -> bool {
    in_margin(st) && s.len() >= 3 && s[0] == '`' && s[1] == '`' && s[2] == '`'
}

/// The state after a line break. A blank line ends the paragraph, and
/// with it every open `[` and an unclosed code span.
pub open spec fn after_newline(st: MdState) -> MdState {
    MdState {
        code: st.code && !st.blank,
        depth: if st.blank {
            0
        } else {
            st.depth
        },
        blank: true,
        indent: 0,
        icode: false,
        target: false,
        def_label: false,
        para: if st.blank {
            false
        } else if st.def_line || st.icode {
            st.para
        } else {
            true
        },
        def_line: false,
        ..st
    }
}

/// The state after the white space `c` at the start of a line: four
/// columns of it outside a paragraph and a fenced block begin an indented
/// code line.
pub open spec fn after_margin_space(c: char, st: MdState) -> MdState {
    let indent: nat = if c == ' ' && st.indent < 4 {
        st.indent + 1
    } else {
        4
    };
    MdState { indent, icode: st.icode || (indent >= 4 && !st.para && !st.fence), ..st }
}

/// How many backticks `s` starts with.
pub open spec fn tick_run(s: Seq<char>) -> nat
    decreases s.len(),
{
    if s.len() > 0 && s[0] == '`' {
        1 + tick_run(s.skip(1))
    } else {
        0
    }
}

/// A run of backticks is as long as `tick_run` says, and no longer.
pub proof fn lemma_tick_run_bounds(s: Seq<char>)
    ensures
        tick_run(s) <= s.len(),
        forall|j: int| 0 <= j < tick_run(s) ==> s[j] == '`',
        tick_run(s) < s.len() ==> s[tick_run(s) as int] != '`',
        s.len() > 0 && s[0] == '`' ==> tick_run(s) >= 1,
    decreases s.len(),
{
    if s.len() > 0 && s[0] == '`' {
        lemma_tick_run_bounds(s.skip(1));
        assert forall|j: int| 0 <= j < tick_run(s) implies s[j] == '`' by {
            if j > 0 {
                assert(s[j] == s.skip(1)[j - 1]);
            }
        }
    }
}

/// The state after a run of `k` backticks outside fenced and indented
/// code: the run opens a code span, or closes the open one if that was
/// opened by a run as long; a run of another length inside a code span is
/// part of it.
pub open spec fn after_ticks(k: nat, st: MdState) -> MdState {
    if st.code && k != st.ticks {
        MdState { blank: false, def_label: false, ..st }
    } else {
        MdState { code: !st.code, ticks: k, blank: false, def_label: false, ..st }
    }
}

/// The markdown `s`, scanned from state `st`, with every relative link
/// target put under `url`.
///
/// A link target is the text after the `](` that closes the text `[...]`
/// of an inline link or image, or after the `]:` of a reference definition
/// (whose `[` is indented at most three columns on a line that continues
/// no paragraph), past spaces and tabs; inside `<...>` it starts after the
/// `<`. A relative target gets `url` in front and loses a leading `./`.
/// Text in code spans (closed by a run of as many backticks as opened
/// them), fenced code blocks and indented code blocks, escaped characters
/// (`\[`), and every `](` or `]:` that closes no open `[` are kept as they
/// are, as is all other text. A blank line ends a paragraph, and with it
/// every open `[`.
pub open spec fn rewrite_md(s: Seq<char>, url: Seq<char>, st: MdState) -> Seq<char>
    decreases s.len(), if st.target { 1int } else { 0int },
{
    if s.len() == 0 {
        s
    } else if opens_fence(s, st) {
        s.take(3) + rewrite_md(
            s.skip(3),
            url,
            MdState {
                fence: !st.fence,
                code: false,
                ticks: 0,
                depth: 0,
                blank: false,
                indent: 0,
                icode: false,
                target: false,
                def_label: false,
                para: false,
                def_line: false,
            },
        )
    } else if s[0] == '\n' {
        seq!['\n'] + rewrite_md(s.skip(1), url, after_newline(st))
    } else if st.blank && (s[0] == ' ' || s[0] == '\t') {
        seq![s[0]] + rewrite_md(s.skip(1), url, after_margin_space(s[0], st))
    } else if st.fence || st.icode {
        seq![s[0]] + rewrite_md(s.skip(1), url, MdState { blank: false, ..st })
    } else if st.target {
        if s[0] == ' ' || s[0] == '\t' {
            seq![s[0]] + rewrite_md(s.skip(1), url, MdState { blank: false, ..st })
        } else {
            let plain = MdState { blank: false, target: false, ..st };
            if s[0] == '<' && is_relative_target(s.skip(1)) {
                seq!['<'] + url + rewrite_md(strip_dot_slash(s.skip(1)), url, plain)
            } else if s[0] == '<' {
                seq!['<'] + rewrite_md(s.skip(1), url, plain)
            } else if is_relative_target(s) {
                url + rewrite_md(strip_dot_slash(s), url, plain)
            } else {
                rewrite_md(s, url, plain)
            }
        }
    } else if s[0] == '`' {
        proof {
            lemma_tick_run_bounds(s);
        }
        s.take(tick_run(s) as int) + rewrite_md(
            s.skip(tick_run(s) as int),
            url,
            after_ticks(tick_run(s), st),
        )
    } else if st.code {
        seq![s[0]] + rewrite_md(s.skip(1), url, MdState { blank: false, ..st })
    } else if s[0] == '\\' && s.len() >= 2 && s[1] != '\n' {
        s.take(2) + rewrite_md(s.skip(2), url, MdState { blank: false, ..st })
    } else if s[0] == '[' {
        seq!['['] + rewrite_md(
            s.skip(1),
            url,
            MdState {
                depth: st.depth + 1,
                def_label: in_margin(st) && !st.para,
                blank: false,
                ..st
            },
        )
    } else if s[0] == ']' && st.depth > 0 && s.len() >= 2 && (s[1] == '(' || (s[1] == ':'
        && st.def_label)) {
        s.take(2) + rewrite_md(
            s.skip(2),
            url,
            MdState {
                depth: (st.depth - 1) as nat,
                target: true,
                def_label: false,
                blank: false,
                def_line: s[1] == ':' || st.def_line,
                ..st
            },
        )
    } else if s[0] == ']' && st.depth > 0 {
        seq![']'] + rewrite_md(
            s.skip(1),
            url,
            MdState { depth: (st.depth - 1) as nat, def_label: false, blank: false, ..st },
        )
    } else {
        seq![s[0]] + rewrite_md(s.skip(1), url, MdState { blank: false, ..st })
    }
}

/// The markdown `content` with every relative link target put under `url`.
pub open spec fn rewritten_markdown(content: Seq<char>, url: Seq<char>) -> Seq<char> {
    rewrite_md(content, url, md_start())
}

/// Text that holds none of `[`, `]`, a backtick, `\` or a line break: it
/// can open or close no link text, code span or line.
pub open spec fn is_plain_text(t: Seq<char>) -> bool {
    forall|i: int|
        0 <= i < t.len() ==> t[i] != '[' && t[i] != ']' && t[i] != '`' && t[i] != '\\' && t[i]
            != '\n'
}

/// With no link target pending, text without `[` is kept as it is when no
/// link text is open or the text has no `]` either: no `](` or `]:` in it
/// closes a link or starts a target.
pub proof fn lemma_no_link_text_kept(s: Seq<char>, url: Seq<char>, st: MdState)
    requires
        !st.target,
        forall|i: int| 0 <= i < s.len() ==> s[i] != '[',
        st.depth == 0 || forall|i: int| 0 <= i < s.len() ==> s[i] != ']',
    ensures
        rewrite_md(s, url, st) == s,
    decreases s.len(),
{
    if s.len() > 0 {
        lemma_plain_step(s, url, st);
        let k = step_len(s, st);
        if st.depth != 0 {
            assert forall|i: int| 0 <= i < s.skip(k).len() implies s.skip(k)[i] != ']' by {
                assert(s.skip(k)[i] == s[i + k]);
            }
        }
        lemma_no_link_text_kept(s.skip(k), url, step_state(s, st));
        assert(s.take(k) + s.skip(k) =~= s);
    }
}

/// Markdown without `[` has no links, and the rewrite gives it back
/// unchanged, whatever `](` or `]:` it holds.
pub proof fn lemma_text_without_links_unchanged(content: Seq<char>, url: Seq<char>)
    requires
        forall|i: int| 0 <= i < content.len() ==> content[i] != '[',
    ensures
        rewritten_markdown(content, url) == content,
{
    lemma_no_link_text_kept(content, url, md_start());
}

/// Inside a fenced code block, text without a backtick is kept as it is,
/// links and all.
pub proof fn lemma_fenced_code_kept(s: Seq<char>, url: Seq<char>, st: MdState)
    requires
        st.fence,
        !st.target,
        forall|i: int| 0 <= i < s.len() ==> s[i] != '`',
    ensures
        rewrite_md(s, url, st) == s,
    decreases s.len(),
{
    if s.len() > 0 {
        lemma_plain_step(s, url, st);
        lemma_fenced_code_kept(s.skip(1), url, step_state(s, st));
        assert(s.take(1) + s.skip(1) =~= s);
    }
}

/// A markdown text that opens with a code fence and holds no other
/// backtick is one fenced code block, and the rewrite keeps it as it is.
pub proof fn lemma_fenced_block_unchanged(code: Seq<char>, url: Seq<char>)
    requires
        forall|i: int| 0 <= i < code.len() ==> code[i] != '`',
    ensures
        rewritten_markdown("```"@ + code, url) == "```"@ + code,
{
    reveal_strlit("```");
    let s = "```"@ + code;
    let next = MdState {
        fence: true,
        code: false,
        ticks: 0,
        depth: 0,
        blank: false,
        indent: 0,
        icode: false,
        target: false,
        def_label: false,
        para: false,
        def_line: false,
    };
    assert(s.skip(3) =~= code);
    assert(s.take(3) =~= "```"@);
    lemma_fenced_code_kept(code, url, next);
}

/// Plain text (see `is_plain_text`) outside code and link targets, and not
/// starting with white space at the start of a line, is copied as it is,
/// and the scan goes on after it in the same state, now past the start of
/// the line.
pub proof fn lemma_plain_run(x: Seq<char>, rest: Seq<char>, url: Seq<char>, st: MdState)
    requires
        !st.fence,
        !st.code,
        !st.icode,
        !st.target,
        is_plain_text(x),
        x.len() > 0 && st.blank ==> x[0] != ' ' && x[0] != '\t',
    ensures
        rewrite_md(x + rest, url, st) == x + rewrite_md(
            rest,
            url,
            if x.len() > 0 {
                MdState { blank: false, ..st }
            } else {
                st
            },
        ),
    decreases x.len(),
{
    if x.len() > 0 {
        let s = x + rest;
        let next = MdState { blank: false, ..st };
        assert(s[0] == x[0]);
        assert(s.skip(1) =~= x.skip(1) + rest);
        lemma_plain_run(x.skip(1), rest, url, next);
        assert(MdState { blank: false, ..next } == next);
        assert(seq![x[0]] + (x.skip(1) + rewrite_md(rest, url, next)) =~= x + rewrite_md(
            rest,
            url,
            next,
        ));
    } else {
        assert(x + rest =~= rest);
    }
}

/// White space `w` at the start of a line that starts no indented code
/// (at most three spaces, or any inside a paragraph) is copied, and the
/// scan goes on at the start of the line's text, only its indentation
/// changed.
proof fn lemma_margin(w: Seq<char>, rest: Seq<char>, url: Seq<char>, st: MdState) -> (ind: nat)
    requires
        st.blank,
        !st.fence,
        !st.icode,
        !st.target,
        forall|i: int| 0 <= i < w.len() ==> w[i] == ' ' || w[i] == '\t',
        st.para || (st.indent + w.len() <= 3 && forall|i: int| 0 <= i < w.len() ==> w[i] == ' '),
    ensures
        rewrite_md(w + rest, url, st) == w + rewrite_md(rest, url, MdState { indent: ind, ..st }),
    decreases w.len(),
{
    if w.len() == 0 {
        assert(w + rest =~= rest);
        assert(MdState { indent: st.indent, ..st } == st);
        st.indent
    } else {
        let s = w + rest;
        let st1 = after_margin_space(w[0], st);
        assert(s[0] == w[0]);
        assert(s.skip(1) =~= w.skip(1) + rest);
        assert(rewrite_md(s, url, st) == seq![w[0]] + rewrite_md(s.skip(1), url, st1));
        let ind = lemma_margin(w.skip(1), rest, url, st1);
        assert(MdState { indent: ind, ..st1 } == MdState { indent: ind, ..st });
        let r = rewrite_md(rest, url, MdState { indent: ind, ..st });
        assert(seq![w[0]] + (w.skip(1) + r) =~= w + r);
        ind
    }
}

/// A link or image on a line of text is rewritten however the line is
/// indented, as long as the indentation starts no indented code: at most
/// three spaces, or any spaces and tabs inside a paragraph. From any state
/// a line starts in outside code and link targets, the line `w`, plain text
/// `pre`, then `[x](./t)`, becomes `w`, `pre`, then `[x](` `url` `t`.
#[verifier::rlimit(60)]
pub proof fn lemma_link_on_a_line(
    w: Seq<char>,
    pre: Seq<char>,
    x: Seq<char>,
    t: Seq<char>,
    url: Seq<char>,
    st: MdState,
)
    requires
        st.blank,
        st.indent == 0,
        !st.fence,
        !st.code,
        !st.icode,
        !st.target,
        forall|i: int| 0 <= i < w.len() ==> w[i] == ' ' || w[i] == '\t',
        st.para || (w.len() <= 3 && forall|i: int| 0 <= i < w.len() ==> w[i] == ' '),
        is_plain_text(pre),
        pre.len() > 0 ==> pre[0] != ' ' && pre[0] != '\t',
        is_plain_text(x),
        forall|i: int| 0 <= i < t.len() ==> t[i] != '[',
        st.depth == 0 || forall|i: int| 0 <= i < t.len() ==> t[i] != ']',
    ensures
        rewrite_md(w + pre + seq!['['] + x + seq![']', '(', '.', '/'] + t, url, st) == w + pre
            + seq!['['] + x + seq![']', '('] + url + t,
{
    let r5 = seq!['.', '/'] + t;
    let r4 = seq![']', '('] + r5;
    let r3 = x + r4;
    let r2 = seq!['['] + r3;
    let r1 = pre + r2;
    assert(w + pre + seq!['['] + x + seq![']', '(', '.', '/'] + t =~= w + r1);
    // the indentation
    let ind = lemma_margin(w, r1, url, st);
    let st1 = MdState { indent: ind, ..st };
    // the text before the link
    lemma_plain_run(pre, r2, url, st1);
    let st2 = if pre.len() > 0 {
        MdState { blank: false, ..st1 }
    } else {
        st1
    };
    // the opening `[`
    let st3 = MdState {
        depth: st2.depth + 1,
        def_label: in_margin(st2) && !st2.para,
        blank: false,
        ..st2
    };
    assert(r2.skip(1) =~= r3);
    assert(rewrite_md(r2, url, st2) == seq!['['] + rewrite_md(r3, url, st3));
    // the link text
    lemma_plain_run(x, r4, url, st3);
    assert(MdState { blank: false, ..st3 } == st3);
    // the `](` that closes it
    let st4 = MdState {
        depth: (st3.depth - 1) as nat,
        target: true,
        def_label: false,
        blank: false,
        def_line: r4[1] == ':' || st3.def_line,
        ..st3
    };
    assert(r4.skip(2) =~= r5);
    assert(r4.take(2) =~= seq![']', '(']);
    assert(rewrite_md(r4, url, st3) == seq![']', '('] + rewrite_md(r5, url, st4));
    // the relative target `./t`
    let plain = MdState { blank: false, target: false, ..st4 };
    assert(r5[0] == '.');
    assert(is_relative_target(r5));
    assert(r5.skip(2) =~= t);
    assert(rewrite_md(r5, url, st4) == url + rewrite_md(t, url, plain));
    lemma_no_link_text_kept(t, url, plain);
    assert(w + (pre + (seq!['['] + (x + (seq![']', '('] + (url + t)))))
        =~= w + pre + seq!['['] + x + seq![']', '('] + url + t);
}

/// Two states in the middle of a line that differ only in what the scan
/// reads at a line start: the line's indentation, and whether a paragraph
/// is open when the line is no reference definition.
spec fn mid_line_alike(a: MdState, b: MdState) -> bool {
    &&& !a.blank
    &&& !b.blank
    &&& a.fence == b.fence
    &&& a.code == b.code
    &&& a.ticks == b.ticks
    &&& a.depth == b.depth
    &&& a.icode == b.icode
    &&& a.target == b.target
    &&& a.def_label == b.def_label
    &&& a.def_line == b.def_line
    &&& (a.para == b.para || (!a.def_line && !a.icode && !a.def_label))
}

/// Mid-line states that are alike rewrite every text alike.
proof fn lemma_alike_rewrite(s: Seq<char>, url: Seq<char>, a: MdState, b: MdState)
    requires
        mid_line_alike(a, b),
    ensures
        rewrite_md(s, url, a) == rewrite_md(s, url, b),
    decreases s.len(), if a.target {
        1int
    } else {
        0int
    },
{
    if s.len() == 0 {
    } else if s[0] == '\n' {
        assert(after_newline(a) == after_newline(b));
    } else if a.fence || a.icode {
        lemma_alike_rewrite(s.skip(1), url, MdState { blank: false, ..a }, MdState { blank: false, ..b });
    } else if !a.target {
        lemma_plain_step(s, url, a);
        lemma_plain_step(s, url, b);
        let k = step_len(s, a);
        assert(step_len(s, b) == k);
        lemma_alike_rewrite(s.skip(k), url, step_state(s, a), step_state(s, b));
    } else if s[0] == ' ' || s[0] == '\t' {
        lemma_alike_rewrite(s.skip(1), url, MdState { blank: false, ..a }, MdState { blank: false, ..b });
    } else {
        let pa = MdState { blank: false, target: false, ..a };
        let pb = MdState { blank: false, target: false, ..b };
        if s[0] == '<' && is_relative_target(s.skip(1)) {
            lemma_alike_rewrite(strip_dot_slash(s.skip(1)), url, pa, pb);
        } else if s[0] == '<' {
            lemma_alike_rewrite(s.skip(1), url, pa, pb);
        } else if is_relative_target(s) {
            lemma_alike_rewrite(strip_dot_slash(s), url, pa, pb);
        } else {
            lemma_alike_rewrite(s, url, pa, pb);
        }
    }
}

/// A code span may go on past a line break of its paragraph: the line
/// break is rewritten as a space would be, so the span closes at the next
/// run of as many backticks on the next line, and the text after it is
/// rewritten as if the span stood on one line. `b` is the next line (it
/// starts with text, neither white space nor a backtick).
pub proof fn lemma_code_span_crosses_line_break(b: Seq<char>, url: Seq<char>, st: MdState)
    requires
        st.code,
        !st.blank,
        !st.fence,
        !st.icode,
        !st.target,
        !st.def_label,
        !st.def_line,
        b.len() > 0,
        b[0] != ' ' && b[0] != '\t' && b[0] != '\n' && b[0] != '`',
    ensures
        rewrite_md(seq!['\n'] + b, url, st) == seq!['\n'] + rewrite_md(seq![' '] + b, url, st).skip(
            1,
        ),
        rewrite_md(seq![' '] + b, url, st)[0] == ' ',
{
    let n = seq!['\n'] + b;
    let sp = seq![' '] + b;
    let a1 = after_newline(st);
    let s1 = MdState { blank: false, ..st };
    assert(n.skip(1) =~= b);
    assert(sp.skip(1) =~= b);
    assert(rewrite_md(n, url, st) == seq!['\n'] + rewrite_md(b, url, a1));
    assert(rewrite_md(sp, url, st) == seq![' '] + rewrite_md(b, url, s1));
    let a2 = MdState { blank: false, ..a1 };
    assert(rewrite_md(b, url, a1) == seq![b[0]] + rewrite_md(b.skip(1), url, a2));
    assert(rewrite_md(b, url, s1) == seq![b[0]] + rewrite_md(b.skip(1), url, s1));
    lemma_alike_rewrite(b.skip(1), url, a2, s1);
    assert((seq![' '] + rewrite_md(b, url, s1)).skip(1) =~= rewrite_md(b, url, s1));
}

/// A state the scan can reach: a link target is pending only mid-line and
/// outside code.
pub open spec fn md_state_ok(st: MdState) -> bool {
    st.target ==> !st.blank && !st.fence && !st.code && !st.icode
}

/// Outside a link target, how many characters of `s` the next step of the
/// scan copies.
spec fn step_len(s: Seq<char>, st: MdState) -> int {
    if opens_fence(s, st) {
        3
    } else if !st.fence && !st.icode && s[0] == '`' {
        tick_run(s) as int
    } else if !st.fence && !st.icode && !st.code && s[0] == '\\' && s.len() >= 2 && s[1] != '\n' {
        2
    } else if !st.fence && !st.icode && !st.code && s[0] == ']' && st.depth > 0 && s.len() >= 2
        && (s[1] == '(' || (s[1] == ':' && st.def_label)) {
        2
    } else {
        1
    }
}

/// Outside a link target, the state after the next step of the scan.
spec fn step_state(s: Seq<char>, st: MdState) -> MdState {
    if opens_fence(s, st) {
        MdState {
            fence: !st.fence,
            code: false,
            ticks: 0,
            depth: 0,
            blank: false,
            indent: 0,
            icode: false,
            target: false,
            def_label: false,
            para: false,
            def_line: false,
        }
    } else if s[0] == '\n' {
        after_newline(st)
    } else if st.blank && (s[0] == ' ' || s[0] == '\t') {
        after_margin_space(s[0], st)
    } else if st.fence || st.icode {
        MdState { blank: false, ..st }
    } else if s[0] == '`' {
        after_ticks(tick_run(s), st)
    } else if st.code {
        MdState { blank: false, ..st }
    } else if s[0] == '\\' && s.len() >= 2 && s[1] != '\n' {
        MdState { blank: false, ..st }
    } else if s[0] == '[' {
        MdState {
            depth: st.depth + 1,
            def_label: in_margin(st) && !st.para,
            blank: false,
            ..st
        }
    } else if s[0] == ']' && st.depth > 0 && s.len() >= 2 && (s[1] == '(' || (s[1] == ':'
        && st.def_label)) {
        MdState {
            depth: (st.depth - 1) as nat,
            target: true,
            def_label: false,
            blank: false,
            def_line: s[1] == ':' || st.def_line,
            ..st
        }
    } else if s[0] == ']' && st.depth > 0 {
        MdState { depth: (st.depth - 1) as nat, def_label: false, blank: false, ..st }
    } else {
        MdState { blank: false, ..st }
    }
}

/// Outside a link target, a step of the scan copies `step_len` characters
/// and goes on in `step_state`, which awaits a link target only after `](`
/// or `]:`.
proof fn lemma_plain_step(s: Seq<char>, url: Seq<char>, st: MdState)
    requires
        !st.target,
        s.len() > 0,
    ensures
        1 <= step_len(s, st) <= s.len(),
        rewrite_md(s, url, st) == s.take(step_len(s, st)) + rewrite_md(
            s.skip(step_len(s, st)),
            url,
            step_state(s, st),
        ),
        step_state(s, st).target ==> s[0] == ']' && step_len(s, st) == 2,
        md_state_ok(step_state(s, st)),
{
    lemma_tick_run_bounds(s);
    assert(s.take(1) =~= seq![s[0]]);
}

/// A run of backticks followed by no backtick is as long as it looks.
proof fn lemma_tick_run_concat(p: Seq<char>, y: Seq<char>)
    requires
        forall|j: int| 0 <= j < p.len() ==> p[j] == '`',
        y.len() == 0 || y[0] != '`',
    ensures
        tick_run(p + y) == p.len(),
    decreases p.len(),
{
    if p.len() > 0 {
        assert((p + y).skip(1) =~= p.skip(1) + y);
        lemma_tick_run_concat(p.skip(1), y);
    } else {
        assert(p + y =~= y);
    }
}

/// Outside a link target, the rewrite keeps every character of `t` up to
/// and including the first `]`, and the text is no shorter there.
proof fn lemma_prefix_agrees(t: Seq<char>, url: Seq<char>, st: MdState, j: int)
    requires
        !st.target,
        0 <= j,
        forall|i: int| 0 <= i < j && i < t.len() ==> t[i] != ']',
    ensures
        (j < t.len()) == (j < rewrite_md(t, url, st).len()),
        j < t.len() ==> rewrite_md(t, url, st)[j] == t[j],
    decreases t.len(),
{
    if t.len() > 0 {
        lemma_plain_step(t, url, st);
        let k = step_len(t, st);
        if j >= k {
            assert forall|i: int| 0 <= i < j - k && i < t.skip(k).len() implies t.skip(k)[i]
                != ']' by {
                assert(t.skip(k)[i] == t[i + k]);
            }
            lemma_prefix_agrees(t.skip(k), url, step_state(t, st), j - k);
        }
    }
}

/// While the rewrite shows scheme characters, it shows the characters of
/// `t`.
proof fn lemma_scheme_prefix_back(t: Seq<char>, url: Seq<char>, st: MdState, j: int)
    requires
        !st.target,
        0 <= j < rewrite_md(t, url, st).len(),
        forall|i: int| 0 <= i < j ==> is_scheme_char(#[trigger] rewrite_md(t, url, st)[i]),
    ensures
        forall|i: int| 0 <= i <= j ==> i < t.len() && t[i] == #[trigger] rewrite_md(t, url, st)[i],
    decreases j,
{
    if j > 0 {
        lemma_scheme_prefix_back(t, url, st, j - 1);
    }
    let r = rewrite_md(t, url, st);
    assert forall|i: int| 0 <= i < j && i < t.len() implies t[i] != ']' by {
        assert(is_scheme_char(r[i]));
    }
    lemma_prefix_agrees(t, url, st, j);
}

/// Outside a link target, the rewrite of a text starts with a relative
/// link target exactly when the text does.
proof fn lemma_relative_kept(t: Seq<char>, url: Seq<char>, st: MdState)
    requires
        !st.target,
    ensures
        is_relative_target(rewrite_md(t, url, st)) == is_relative_target(t),
{
    let r = rewrite_md(t, url, st);
    lemma_prefix_agrees(t, url, st, 0);
    if t.len() > 0 {
        if starts_with_scheme(t) {
            let k = choose|k: int|
                #![trigger t[k]]
                1 <= k < t.len() && t[k] == ':' && is_letter(t[0]) && forall|j: int|
                    0 <= j < k ==> #[trigger] is_scheme_char(t[j]);
            assert forall|i: int| 0 <= i <= k implies i < r.len() && r[i] == t[i] by {
                assert forall|m: int| 0 <= m < i && m < t.len() implies t[m] != ']' by {
                    assert(is_scheme_char(t[m]));
                }
                lemma_prefix_agrees(t, url, st, i);
            }
            assert(r[k] == ':');
            assert forall|j: int| 0 <= j < k implies #[trigger] is_scheme_char(r[j]) by {
                assert(is_scheme_char(t[j]));
            }
            assert(starts_with_scheme(r));
        }
        if starts_with_scheme(r) {
            let k = choose|k: int|
                #![trigger r[k]]
                1 <= k < r.len() && r[k] == ':' && is_letter(r[0]) && forall|j: int|
                    0 <= j < k ==> #[trigger] is_scheme_char(r[j]);
            lemma_scheme_prefix_back(t, url, st, k);
            assert(t[k] == ':');
            assert forall|j: int| 0 <= j < k implies #[trigger] is_scheme_char(t[j]) by {
                assert(is_scheme_char(r[j]));
            }
            assert(starts_with_scheme(t));
        }
    }
}

/// Outside a link target, the scan takes the same step on the rewrite of a
/// text as on the text.
proof fn lemma_step_repeats(s: Seq<char>, url: Seq<char>, st: MdState)
    requires
        !st.target,
        s.len() > 0,
    ensures
        rewrite_md(s, url, st).len() > 0,
        step_len(rewrite_md(s, url, st), st) == step_len(s, st),
        step_state(rewrite_md(s, url, st), st) == step_state(s, st),
{
    lemma_plain_step(s, url, st);
    let k = step_len(s, st);
    let st2 = step_state(s, st);
    let y = rewrite_md(s.skip(k), url, st2);
    let r = rewrite_md(s, url, st);
    lemma_tick_run_bounds(s);
    assert(r.take(k) =~= s.take(k));
    assert(r.skip(k) =~= y);
    if !st2.target {
        lemma_prefix_agrees(s.skip(k), url, st2, 0);
        if s.len() >= k + 1 && s[k] != ']' {
            lemma_prefix_agrees(s.skip(k), url, st2, 1);
        }
    }
    assert(r[0] == s[0]);
    if opens_fence(s, st) {
        assert(r[1] == s[1] && r[2] == s[2]);
        assert(opens_fence(r, st));
    } else if !st.fence && !st.icode && s[0] == '`' {
        assert(!st2.target);
        if s.len() > k {
            assert(y.len() > 0 && y[0] == s[k]);
        } else {
            assert(y.len() == 0);
        }
        lemma_tick_run_concat(s.take(k), y);
        assert(s.take(k) + y == r);
        assert(tick_run(r) == k);
        if k < 3 {
            assert(r.len() == k || r[k as int] != '`');
        } else {
            assert(s[1] == '`' && s[2] == '`');
        }
        assert(!opens_fence(r, st));
    }
}

/// An address with a scheme keeps it in front of any text.
proof fn lemma_scheme_extends(u: Seq<char>, x: Seq<char>)
    requires
        starts_with_scheme(u),
    ensures
        starts_with_scheme(u + x),
        (u + x)[0] == u[0],
        is_letter(u[0]),
        u.len() >= 2,
{
    let k = choose|k: int|
        #![trigger u[k]]
        1 <= k < u.len() && u[k] == ':' && is_letter(u[0]) && forall|j: int|
            0 <= j < k ==> #[trigger] is_scheme_char(u[j]);
    let t = u + x;
    assert(t[k] == ':');
    assert forall|j: int| 0 <= j < k implies #[trigger] is_scheme_char(t[j]) by {
        assert(is_scheme_char(u[j]));
    }
}

/// Rewriting what a rewrite gave, from the same state, changes nothing when
/// the address has a scheme and is plain text.
proof fn lemma_rewrite_idempotent(s: Seq<char>, url: Seq<char>, st: MdState)
    requires
        md_state_ok(st),
        starts_with_scheme(url),
        is_plain_text(url),
    ensures
        rewrite_md(rewrite_md(s, url, st), url, st) == rewrite_md(s, url, st),
    decreases s.len(), if st.target {
        1int
    } else {
        0int
    },
{
    let r = rewrite_md(s, url, st);
    if s.len() == 0 {
    } else if !st.target {
        lemma_plain_step(s, url, st);
        lemma_step_repeats(s, url, st);
        let k = step_len(s, st);
        let st2 = step_state(s, st);
        let y = rewrite_md(s.skip(k), url, st2);
        lemma_plain_step(r, url, st);
        assert(r.take(k) =~= s.take(k));
        assert(r.skip(k) =~= y);
        lemma_rewrite_idempotent(s.skip(k), url, st2);
    } else if s[0] == '\n' {
        let st2 = after_newline(st);
        let y = rewrite_md(s.skip(1), url, st2);
        assert(r == seq!['\n'] + y);
        assert(r[0] == '\n');
        assert(r.skip(1) =~= y);
        lemma_rewrite_idempotent(s.skip(1), url, st2);
    } else if s[0] == ' ' || s[0] == '\t' {
        let y = rewrite_md(s.skip(1), url, st);
        assert(MdState { blank: false, ..st } == st);
        assert(r == seq![s[0]] + y);
        assert(r[0] == s[0]);
        assert(r.skip(1) =~= y);
        lemma_rewrite_idempotent(s.skip(1), url, st);
    } else {
        let plain = MdState { blank: false, target: false, ..st };
        if s[0] == '<' && is_relative_target(s.skip(1)) {
            let x = rewrite_md(strip_dot_slash(s.skip(1)), url, plain);
            assert(r == seq!['<'] + url + x);
            lemma_scheme_extends(url, x);
            assert(r[0] == '<');
            assert(r.skip(1) =~= url + x);
            lemma_plain_run(url, x, url, plain);
            assert(MdState { blank: false, ..plain } == plain);
            lemma_rewrite_idempotent(strip_dot_slash(s.skip(1)), url, plain);
            assert(seq!['<'] + (url + x) =~= seq!['<'] + url + x);
        } else if s[0] == '<' {
            let y = rewrite_md(s.skip(1), url, plain);
            assert(r == seq!['<'] + y);
            assert(r[0] == '<');
            assert(r.skip(1) =~= y);
            lemma_relative_kept(s.skip(1), url, plain);
            lemma_rewrite_idempotent(s.skip(1), url, plain);
        } else if is_relative_target(s) {
            let x = rewrite_md(strip_dot_slash(s), url, plain);
            assert(r == url + x);
            lemma_scheme_extends(url, x);
            lemma_plain_run(url, x, url, plain);
            assert(MdState { blank: false, ..plain } == plain);
            lemma_rewrite_idempotent(strip_dot_slash(s), url, plain);
        } else {
            assert(r == rewrite_md(s, url, plain));
            lemma_prefix_agrees(s, url, plain, 0);
            lemma_relative_kept(s, url, plain);
            lemma_rewrite_idempotent(s, url, plain);
        }
    }
}

/// Rewriting twice gives what rewriting once gives, for an address `url`
/// that starts with a scheme (such as `http:`) and holds no `[`, `]`,
/// backtick, `\` or line break: every target the first rewrite produced is
/// absolute, and the address it put in opens or closes nothing.
pub proof fn lemma_rewrite_twice_is_once(content: Seq<char>, url: Seq<char>)
    requires
        starts_with_scheme(url),
        is_plain_text(url),
    ensures
        rewritten_markdown(rewritten_markdown(content, url), url) == rewritten_markdown(
            content,
            url,
        ),
{
    lemma_rewrite_idempotent(content, url, md_start());
}

/// Facts about the suffixes of `s` that the scan steps over.
proof fn lemma_suffix(s: Seq<char>, i: int)
    requires
        0 <= i < s.len(),
    ensures
        s.skip(i)[0] == s[i],
        s.skip(i).len() == s.len() - i,
        s.skip(i).skip(1) == s.skip(i + 1),
        i + 2 <= s.len() ==> s.skip(i)[1] == s[i + 1] && s.skip(i).skip(2) == s.skip(i + 2)
            && s.skip(i).take(2) == s.subrange(i, i + 2),
        i + 3 <= s.len() ==> s.skip(i)[2] == s[i + 2] && s.skip(i).skip(3) == s.skip(i + 3)
            && s.skip(i).take(3) == s.subrange(i, i + 3) && s.skip(i + 1).skip(2) == s.skip(
            i + 3,
        ),
{
    assert(s.skip(i).skip(1) =~= s.skip(i + 1));
    if i + 2 <= s.len() {
        assert(s.skip(i).skip(2) =~= s.skip(i + 2));
        assert(s.skip(i).take(2) =~= s.subrange(i, i + 2));
    }
    if i + 3 <= s.len() {
        assert(s.skip(i).skip(3) =~= s.skip(i + 3));
        assert(s.skip(i).take(3) =~= s.subrange(i, i + 3));
        assert(s.skip(i + 1).skip(2) =~= s.skip(i + 3));
    }
}

/// Appends every character of `src` to `dst`.
fn push_all(dst: &mut Vec<char>, src: &Vec<char>)
    ensures
        final(dst)@ == old(dst)@ + src@,
{
    let mut k: usize = 0;
    while k < src.len()
        invariant
            k <= src.len(),
            dst@ == old(dst)@ + src@.take(k as int),
        decreases src.len() - k,
    {
        dst.push(src[k]);
        assert(src@.take(k + 1) == src@.take(k as int).push(src@[k as int]));
        k = k + 1;
    }
    assert(src@.take(src.len() as int) =~= src@);
}

/// The scan state held in executable values.
#[derive(Clone, Copy)]
struct Scan {
    fence: bool,
    code: bool,
    ticks: usize,
    depth: usize,
    blank: bool,
    indent: usize,
    icode: bool,
    target: bool,
    def_label: bool,
    para: bool,
    def_line: bool,
}

impl Scan {
    spec fn state(self) -> MdState {
        MdState {
            fence: self.fence,
            code: self.code,
            ticks: self.ticks as nat,
            depth: self.depth as nat,
            blank: self.blank,
            indent: self.indent as nat,
            icode: self.icode,
            target: self.target,
            def_label: self.def_label,
            para: self.para,
            def_line: self.def_line,
        }
    }
}

/// `a + (p + r)` is `b + r` when `b` is `a + p`.
proof fn lemma_emit(a: Seq<char>, p: Seq<char>, r: Seq<char>, b: Seq<char>)
    requires
        b == a + p,
    ensures
        a + (p + r) == b + r,
{
    assert(a + (p + r) =~= (a + p) + r);
}

/// One step of the scan of `sv` at position `i` in state `st`: it appends
/// to `out` what the rewrite gives for the characters it consumes, and
/// returns where and in which state the scan goes on.
#[verifier::rlimit(40)]
fn md_step(sv: &Vec<char>, uv: &Vec<char>, i: usize, st: Scan, out: &mut Vec<char>) -> (res: (
    usize,
    Scan,
))
    requires
        i < sv.len(),
        st.depth <= i,
        st.indent <= 4,
    ensures
        res.0 <= sv.len(),
        res.1.depth <= res.0,
        res.1.indent <= 4,
        i < res.0 || (res.0 == i && st.target && !res.1.target),
        old(out)@ + rewrite_md(sv@.skip(i as int), uv@, st.state()) == final(out)@ + rewrite_md(
            sv@.skip(res.0 as int),
            uv@,
            res.1.state(),
        ),
{
    let n = sv.len();
    let ghost s = sv@.skip(i as int);
    let ghost u = uv@;
    let ghost a = out@;
    proof {
        lemma_suffix(sv@, i as int);
    }
    let c = sv[i];
    if st.blank && st.indent <= 3 && n - i > 2 && c == '`' && sv[i + 1] == '`' && sv[i + 2] == '`' {
        let next = Scan {
            fence: !st.fence,
            code: false,
            ticks: 0,
            depth: 0,
            blank: false,
            indent: 0,
            icode: false,
            target: false,
            def_label: false,
            para: false,
            def_line: false,
        };
        out.push('`');
        out.push('`');
        out.push('`');
        proof {
            assert(out@ =~= a + s.take(3));
            lemma_emit(a, s.take(3), rewrite_md(sv@.skip(i + 3), u, next.state()), out@);
        }
        (i + 3, next)
    } else if c == '\n' {
        let next = Scan {
            code: st.code && !st.blank,
            depth: if st.blank {
                0
            } else {
                st.depth
            },
            blank: true,
            indent: 0,
            icode: false,
            target: false,
            def_label: false,
            para: if st.blank {
                false
            } else if st.def_line || st.icode {
                st.para
            } else {
                true
            },
            def_line: false,
            ..st
        };
        out.push(c);
        proof {
            assert(out@ =~= a + seq![c]);
            lemma_emit(a, seq![c], rewrite_md(sv@.skip(i + 1), u, next.state()), out@);
        }
        (i + 1, next)
    } else if st.blank && (c == ' ' || c == '\t') {
        let indent: usize = if c == ' ' && st.indent < 4 {
            st.indent + 1
        } else {
            4
        };
        let next = Scan { indent, icode: st.icode || (indent >= 4 && !st.para && !st.fence), ..st };
        out.push(c);
        proof {
            assert(out@ =~= a + seq![c]);
            lemma_emit(a, seq![c], rewrite_md(sv@.skip(i + 1), u, next.state()), out@);
        }
        (i + 1, next)
    } else if st.fence || st.icode || (st.code && c != '`' && !st.target) {
        let next = Scan { blank: false, ..st };
        out.push(c);
        proof {
            assert(out@ =~= a + seq![c]);
            lemma_emit(a, seq![c], rewrite_md(sv@.skip(i + 1), u, next.state()), out@);
        }
        (i + 1, next)
    } else if st.target {
        target_step(sv, uv, i, st, out)
    } else if c == '`' {
        tick_step(sv, uv, i, st, out)
    } else if c == '\\' && n - i > 1 && sv[i + 1] != '\n' {
        let next = Scan { blank: false, ..st };
        out.push(c);
        out.push(sv[i + 1]);
        proof {
            assert(out@ =~= a + s.take(2));
            lemma_emit(a, s.take(2), rewrite_md(sv@.skip(i + 2), u, next.state()), out@);
        }
        (i + 2, next)
    } else {
        bracket_step(sv, uv, i, st, out)
    }
}

/// The step of `md_step` on a run of backticks outside fenced and indented
/// code.
fn tick_step(sv: &Vec<char>, uv: &Vec<char>, i: usize, st: Scan, out: &mut Vec<char>) -> (res: (
    usize,
    Scan,
))
    requires
        i < sv.len(),
        st.depth <= i,
        st.indent <= 4,
        !st.target,
        !st.fence,
        !st.icode,
        sv@[i as int] == '`',
        !opens_fence(sv@.skip(i as int), st.state()),
    ensures
        res.0 <= sv.len(),
        res.1.depth <= res.0,
        res.1.indent <= 4,
        i < res.0,
        old(out)@ + rewrite_md(sv@.skip(i as int), uv@, st.state()) == final(out)@ + rewrite_md(
            sv@.skip(res.0 as int),
            uv@,
            res.1.state(),
        ),
{
    let n = sv.len();
    let ghost s = sv@.skip(i as int);
    let ghost u = uv@;
    let ghost a = out@;
    proof {
        lemma_suffix(sv@, i as int);
    }
    let mut k: usize = i;
    while k < n && sv[k] == '`'
        invariant
            i <= k <= n,
            n == sv.len(),
            s == sv@.skip(i as int),
            out@ == a + s.take(k - i),
            tick_run(s) == (k - i) + tick_run(sv@.skip(k as int)),
        decreases n - k,
    {
        proof {
            lemma_suffix(sv@, k as int);
            assert(s.take(k + 1 - i) =~= s.take(k - i).push('`'));
        }
        out.push('`');
        k = k + 1;
    }
    proof {
        if k < n {
            lemma_suffix(sv@, k as int);
        } else {
            assert(sv@.skip(k as int).len() == 0);
        }
        assert(s.skip(k - i) =~= sv@.skip(k as int));
    }
    let run = k - i;
    let next = if st.code && run != st.ticks {
        Scan { blank: false, def_label: false, ..st }
    } else {
        Scan { code: !st.code, ticks: run, blank: false, def_label: false, ..st }
    };
    proof {
        assert(next.state() == after_ticks(tick_run(s), st.state()));
        lemma_emit(a, s.take(run as int), rewrite_md(sv@.skip(k as int), u, next.state()), out@);
    }
    (k, next)
}

/// The step of `md_step` where a link target may start at `i`.
#[verifier::rlimit(40)]
fn target_step(sv: &Vec<char>, uv: &Vec<char>, i: usize, st: Scan, out: &mut Vec<char>) -> (res: (
    usize,
    Scan,
))
    requires
        i < sv.len(),
        st.depth <= i,
        st.indent <= 4,
        st.target,
        !st.fence,
        !st.icode,
        sv@[i as int] != '\n',
        !(st.blank && st.indent <= 3 && sv.len() - i > 2 && sv@[i as int] == '`' && sv@[i + 1]
            == '`' && sv@[i + 2] == '`'),
        !(st.blank && (sv@[i as int] == ' ' || sv@[i as int] == '\t')),
    ensures
        res.0 <= sv.len(),
        res.1.depth <= res.0,
        res.1.indent <= 4,
        i < res.0 || (res.0 == i && !res.1.target),
        old(out)@ + rewrite_md(sv@.skip(i as int), uv@, st.state()) == final(out)@ + rewrite_md(
            sv@.skip(res.0 as int),
            uv@,
            res.1.state(),
        ),
{
    let n = sv.len();
    let ghost s = sv@.skip(i as int);
    let ghost u = uv@;
    let ghost a = out@;
    proof {
        lemma_suffix(sv@, i as int);
    }
    let c = sv[i];
    if c == ' ' || c == '\t' {
        let next = Scan { blank: false, ..st };
        out.push(c);
        proof {
            assert(out@ =~= a + seq![c]);
            lemma_emit(a, seq![c], rewrite_md(sv@.skip(i + 1), u, next.state()), out@);
        }
        return (i + 1, next);
    }
    let next = Scan { blank: false, target: false, ..st };
    if c == '<' {
        out.push('<');
        if is_relative_at(sv, i + 1) {
            push_all(out, uv);
            let j = if n - i > 2 && sv[i + 1] == '.' && sv[i + 2] == '/' {
                i + 3
            } else {
                i + 1
            };
            proof {
                assert(strip_dot_slash(s.skip(1)) == sv@.skip(j as int));
                assert(out@ =~= a + (seq!['<'] + u));
                lemma_emit(a, seq!['<'] + u, rewrite_md(sv@.skip(j as int), u, next.state()), out@);
                assert(seq!['<'] + u + rewrite_md(sv@.skip(j as int), u, next.state()) =~= seq![
                    '<',
                ] + (u + rewrite_md(sv@.skip(j as int), u, next.state())));
            }
            (j, next)
        } else {
            proof {
                assert(out@ =~= a + seq!['<']);
                lemma_emit(a, seq!['<'], rewrite_md(sv@.skip(i + 1), u, next.state()), out@);
            }
            (i + 1, next)
        }
    } else if is_relative_at(sv, i) {
        push_all(out, uv);
        let j = if n - i > 1 && c == '.' && sv[i + 1] == '/' {
            i + 2
        } else {
            i
        };
        proof {
            assert(strip_dot_slash(s) == sv@.skip(j as int));
            lemma_emit(a, u, rewrite_md(sv@.skip(j as int), u, next.state()), out@);
        }
        (j, next)
    } else {
        (i, next)
    }
}

/// The step of `md_step` on plain text outside code: brackets and other
/// characters.
#[verifier::rlimit(40)]
fn bracket_step(sv: &Vec<char>, uv: &Vec<char>, i: usize, st: Scan, out: &mut Vec<char>) -> (res: (
    usize,
    Scan,
))
    requires
        i < sv.len(),
        st.depth <= i,
        st.indent <= 4,
        !st.target,
        !st.fence,
        !st.icode,
        !st.code,
        sv@[i as int] != '\n',
        sv@[i as int] != '`',
        !(sv@[i as int] == '\\' && sv.len() - i > 1 && sv@[i + 1] != '\n'),
        !(st.blank && (sv@[i as int] == ' ' || sv@[i as int] == '\t')),
    ensures
        res.0 <= sv.len(),
        res.1.depth <= res.0,
        res.1.indent <= 4,
        i < res.0,
        old(out)@ + rewrite_md(sv@.skip(i as int), uv@, st.state()) == final(out)@ + rewrite_md(
            sv@.skip(res.0 as int),
            uv@,
            res.1.state(),
        ),
{
    let n = sv.len();
    let ghost s = sv@.skip(i as int);
    let ghost u = uv@;
    let ghost a = out@;
    proof {
        lemma_suffix(sv@, i as int);
    }
    let c = sv[i];
    if c == '[' {
        let next = Scan {
            depth: st.depth + 1,
            def_label: st.blank && st.indent <= 3 && !st.para,
            blank: false,
            ..st
        };
        out.push(c);
        proof {
            assert(out@ =~= a + seq![c]);
            lemma_emit(a, seq![c], rewrite_md(sv@.skip(i + 1), u, next.state()), out@);
        }
        (i + 1, next)
    } else if c == ']' && st.depth > 0 && n - i > 1 && (sv[i + 1] == '(' || (sv[i + 1] == ':'
        && st.def_label)) {
        let next = Scan {
            depth: st.depth - 1,
            target: true,
            def_label: false,
            blank: false,
            def_line: sv[i + 1] == ':' || st.def_line,
            ..st
        };
        out.push(c);
        out.push(sv[i + 1]);
        proof {
            assert(out@ =~= a + s.take(2));
            lemma_emit(a, s.take(2), rewrite_md(sv@.skip(i + 2), u, next.state()), out@);
        }
        (i + 2, next)
    } else if c == ']' && st.depth > 0 {
        let next = Scan { depth: st.depth - 1, def_label: false, blank: false, ..st };
        out.push(c);
        proof {
            assert(out@ =~= a + seq![c]);
            lemma_emit(a, seq![c], rewrite_md(sv@.skip(i + 1), u, next.state()), out@);
        }
        (i + 1, next)
    } else {
        let next = Scan { blank: false, ..st };
        out.push(c);
        proof {
            assert(out@ =~= a + seq![c]);
            lemma_emit(a, seq![c], rewrite_md(sv@.skip(i + 1), u, next.state()), out@);
        }
        (i + 1, next)
    }
}

/// Puts every relative link target of the markdown `content` under the
/// address `url` an article is published under (`url` ends with `/`).
pub fn edit_md_relative_urls(content: &str, url: &str) -> (res: String)
    ensures
        res@ == rewritten_markdown(content@, url@),
{
    let sv = chars_of(content);
    let uv = chars_of(url);
    let n = sv.len();
    let mut out: Vec<char> = Vec::new();
    let mut i: usize = 0;
    let mut st = Scan {
        fence: false,
        code: false,
        ticks: 0,
        depth: 0,
        blank: true,
        indent: 0,
        icode: false,
        target: false,
        def_label: false,
        para: false,
        def_line: false,
    };
    assert(sv@.skip(0) =~= sv@);
    assert(out@ + rewrite_md(sv@, uv@, st.state()) =~= rewritten_markdown(content@, url@));
    while i < n
        invariant
            n == sv@.len(),
            sv@ == content@,
            uv@ == url@,
            i <= n,
            st.depth <= i,
            st.indent <= 4,
            out@ + rewrite_md(sv@.skip(i as int), uv@, st.state()) == rewritten_markdown(
                content@,
                url@,
            ),
        decreases 2 * (n - i) + if st.target {
            1int
        } else {
            0int
        },
    {
        let (j, next) = md_step(&sv, &uv, i, st, &mut out);
        i = j;
        st = next;
    }
    assert(sv@.skip(n as int) =~= Seq::<char>::empty());
    assert(out@ + rewrite_md(Seq::<char>::empty(), uv@, st.state()) =~= out@);
    string_of(&out)
}

} // verus!
