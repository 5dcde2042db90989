use vstd::prelude::*;
use vstd::utf8::{char_is_scalar, encode_utf8};

verus! {

/// Whether `c` has the Unicode `White_Space` property, which is what
/// `char::is_whitespace` tests.
pub open spec fn is_space_spec(c: char) -> bool {
    let u = c as u32;
    ||| 0x09 <= u <= 0x0D
    ||| u == 0x20
    ||| u == 0x85
    ||| u == 0xA0
    ||| u == 0x1680
    ||| 0x2000 <= u <= 0x200A
    ||| u == 0x2028
    ||| u == 0x2029
    ||| u == 0x202F
    ||| u == 0x205F
    ||| u == 0x3000
}

/// Tests whether `c` is a whitespace character.
pub fn is_space(c: char) -> (r: bool)
    ensures
        r == is_space_spec(c),
{
    let u = c as u32;
    (0x09 <= u && u <= 0x0D) || u == 0x20 || u == 0x85 || u == 0xA0 || u == 0x1680 || (0x2000
        <= u && u <= 0x200A) || u == 0x2028 || u == 0x2029 || u == 0x202F || u == 0x205F || u
        == 0x3000
}

/// `s` read from the left: the words it completes, and the run of
/// non-whitespace characters that it ends with.
pub open spec fn scan_words(s: Seq<char>) -> (Seq<Seq<char>>, Seq<char>)
    decreases s.len(),
{
    if s.len() == 0 {
        (seq![], seq![])
    } else {
        let (done, run) = scan_words(s.drop_last());
        if is_space_spec(s.last()) {
            (if run.len() > 0 { done.push(run) } else { done }, seq![])
        } else {
            (done, run.push(s.last()))
        }
    }
}

/// The words of `s`: its maximal runs of non-whitespace characters, in order.
pub open spec fn words(s: Seq<char>) -> Seq<Seq<char>> {
    let (done, run) = scan_words(s);
    if run.len() > 0 {
        done.push(run)
    } else {
        done
    }
}

/// `w` is a word: not empty, and without whitespace.
pub open spec fn is_word(w: Seq<char>) -> bool {
    w.len() > 0 && forall|i: int| 0 <= i < w.len() ==> !is_space_spec(#[trigger] w[i])
}

/// The words joined by single spaces: the whitespace-normalised form of a text.
pub open spec fn join_words(ws: Seq<Seq<char>>) -> Seq<char>
    decreases ws.len(),
{
    if ws.len() == 0 {
        seq![]
    } else if ws.len() == 1 {
        ws[0]
    } else {
        join_words(ws.drop_last()) + seq![' '] + ws.last()
    }
}

/// The number of bytes in the UTF-8 encoding of `s`.
pub open spec fn byte_len(s: Seq<char>) -> nat {
    encode_utf8(s).len()
}

/// The number of bytes in the UTF-8 encoding of `c`.
pub open spec fn char_width(c: char) -> nat {
    if c as u32 <= 0x7F {
        1
    } else if c as u32 <= 0x7FF {
        2
    } else if c as u32 <= 0xFFFF {
        3
    } else {
        4
    }
}

/// The lesser of `a` and `b`.
pub open spec fn min_nat(a: nat, b: nat) -> nat {
    if a < b {
        a
    } else {
        b
    }
}

/// The views of a sequence of strings.
pub open spec fn views(v: Seq<String>) -> Seq<Seq<char>> {
    v.map_values(|s: String| s@)
}

proof fn lemma_scan_words_are_words(s: Seq<char>)
    ensures
        forall|k: int| 0 <= k < scan_words(s).0.len() ==> is_word(#[trigger] scan_words(s).0[k]),
        forall|i: int|
            0 <= i < scan_words(s).1.len() ==> !is_space_spec(#[trigger] scan_words(s).1[i]),
    decreases s.len(),
{
    if s.len() > 0 {
        lemma_scan_words_are_words(s.drop_last());
        let (done, run) = scan_words(s.drop_last());
        if !is_space_spec(s.last()) {
            assert forall|i: int| 0 <= i < run.push(s.last()).len() implies !is_space_spec(
                #[trigger] run.push(s.last())[i],
            ) by {
                if i < run.len() {
                    assert(run.push(s.last())[i] == run[i]);
                }
            }
        }
    }
}

/// Every word of a text is a word: non-empty and free of whitespace.
pub proof fn lemma_words_are_words(s: Seq<char>)
    ensures
        forall|k: int| 0 <= k < words(s).len() ==> is_word(#[trigger] words(s)[k]),
{
    lemma_scan_words_are_words(s);
}

proof fn lemma_encode_utf8_concat(a: Seq<char>, b: Seq<char>)
    ensures
        encode_utf8(a + b) == encode_utf8(a) + encode_utf8(b),
    decreases a.len(),
{
    if a.len() == 0 {
        assert(a + b =~= b);
    } else {
        lemma_encode_utf8_concat(a.drop_first(), b);
        assert((a + b).drop_first() =~= a.drop_first() + b);
        assert(encode_utf8(a) + encode_utf8(b) =~= encode_utf8(seq![a[0]]) + encode_utf8(a.drop_first()) + encode_utf8(b)) by {
            assert(encode_utf8(seq![a[0]]) =~= vstd::utf8::encode_scalar(a[0] as u32) + encode_utf8(seq![a[0]].drop_first()));
            assert(seq![a[0]].drop_first() =~= Seq::<char>::empty());
        }
    }
}

/// The byte length of a concatenation is the sum of the byte lengths.
pub proof fn lemma_byte_len_concat(a: Seq<char>, b: Seq<char>)
    ensures
        byte_len(a + b) == byte_len(a) + byte_len(b),
{
    lemma_encode_utf8_concat(a, b);
}

proof fn lemma_byte_len_char(c: char)
    ensures
        byte_len(seq![c]) == char_width(c),
{
    broadcast use char_is_scalar;

    assert(seq![c].drop_first() =~= Seq::<char>::empty());
    assert(encode_utf8(seq![c]) =~= vstd::utf8::encode_scalar(c as u32) + encode_utf8(
        Seq::<char>::empty(),
    ));
}

proof fn lemma_byte_len_push(s: Seq<char>, c: char)
    ensures
        byte_len(s.push(c)) == byte_len(s) + char_width(c),
{
    assert(s.push(c) =~= s + seq![c]);
    lemma_byte_len_concat(s, seq![c]);
    lemma_byte_len_char(c);
}

fn width_of(c: char) -> (r: usize)
    ensures
        r == char_width(c),
{
    let u = c as u32;
    if u <= 0x7F {
        1
    } else if u <= 0x7FF {
        2
    } else if u <= 0xFFFF {
        3
    } else {
        4
    }
}

/// The byte length of `s` in UTF-8, or `cap` where that is less.
pub fn byte_len_capped(s: &str, cap: usize) -> (r: usize)
    ensures
        r == if byte_len(s@) < cap { byte_len(s@) } else { cap as nat },
{
    let mut n: usize = 0;
    let ghost mut i: int = 0;
    for c in it: s.chars()
        invariant
            i == it.index(),
            it.seq() == s@,
            0 <= i <= s@.len(),
            n == if byte_len(s@.subrange(0, i)) < cap {
                byte_len(s@.subrange(0, i))
            } else {
                cap as nat
            },
    {
        proof {
            assert(s@.subrange(0, i + 1) =~= s@.subrange(0, i).push(c));
            lemma_byte_len_push(s@.subrange(0, i), c);
        }
        let w = width_of(c);
        if w >= cap - n {
            n = cap;
        } else {
            n = n + w;
        }
        proof {
            i = i + 1;
        }
    }
    proof {
        assert(s@.subrange(0, i) =~= s@);
    }
    n
}

/// Splits `s` into its words, as `str::split_whitespace` does.
pub fn split_words(s: &str) -> (r: Vec<String>)
    ensures
        views(r@) == words(s@),
{
    let len = s.unicode_len();
    let mut r: Vec<String> = Vec::new();
    let mut start: usize = 0;
    let mut i: usize = 0;
    for c in it: s.chars()
        invariant
            i == it.index(),
            it.seq() == s@,
            len == s@.len(),
            start <= i <= len,
            views(r@) == scan_words(s@.subrange(0, i as int)).0,
            scan_words(s@.subrange(0, i as int)).1 == s@.subrange(start as int, i as int),
    {
        proof {
            assert(s@.subrange(0, i + 1).drop_last() =~= s@.subrange(0, i as int));
            assert(s@.subrange(0, i + 1).last() == c);
        }
        if is_space(c) {
            if start < i {
                let w = s.substring_char(start, i).to_owned();
                r.push(w);
                assert(views(r@) =~= scan_words(s@.subrange(0, i as int)).0.push(w@));
            }
            start = i + 1;
            assert(s@.subrange(start as int, i + 1) =~= Seq::<char>::empty());
        } else {
            assert(s@.subrange(start as int, i + 1) =~= s@.subrange(start as int, i as int).push(c));
        }
        i = i + 1;
    }
    proof {
        assert(s@.subrange(0, i as int) =~= s@);
    }
    if start < len {
        let w = s.substring_char(start, len).to_owned();
        r.push(w);
        assert(views(r@) =~= scan_words(s@).0.push(w@));
    }
    r
}

/// The column width that replies are wrapped to.
pub const WIDTH: usize = 80;

/// Words laid out in lines of at most `width` bytes: the text, and the byte
/// length of its last line. Each word after the first goes on the current
/// line after a space, unless the line would then be longer than `width`;
/// then it starts a new line.
pub open spec fn layout(ws: Seq<Seq<char>>, width: nat) -> (Seq<char>, nat)
    decreases ws.len(),
{
    if ws.len() == 0 {
        (seq![], 0)
    } else if ws.len() == 1 {
        (ws[0], byte_len(ws[0]))
    } else {
        let (t, n) = layout(ws.drop_last(), width);
        let w = ws.last();
        if n + 1 + byte_len(w) > width {
            (t + seq!['\n'] + w, byte_len(w))
        } else {
            (t + seq![' '] + w, n + 1 + byte_len(w))
        }
    }
}

/// `s` with its whitespace normalised and wrapped to `width` bytes a line.
pub open spec fn wrap_spec(s: Seq<char>, width: nat) -> Seq<char> {
    layout(words(s), width).0
}

/// Replaces each newline of `t` by a space.
pub open spec fn newlines_to_spaces(t: Seq<char>) -> Seq<char> {
    t.map_values(|c: char| if c == '\n' { ' ' } else { c })
}

/// The lines of `t`: the pieces between its newlines.
pub open spec fn lines(t: Seq<char>) -> Seq<Seq<char>>
    decreases t.len(),
{
    if t.len() == 0 {
        seq![seq![]]
    } else {
        let ls = lines(t.drop_last());
        if t.last() == '\n' {
            ls.push(seq![])
        } else {
            ls.update(ls.len() - 1, ls.last().push(t.last()))
        }
    }
}

/// Normalises the whitespace of `text` to single spaces and wraps it to
/// `width` bytes a line, never splitting a word: a word longer than the width
/// stands alone on its line.
pub fn wrap(text: &str, width: usize) -> (r: String)
    ensures
        r@ == wrap_spec(text@, width as nat),
{
    let ws = split_words(text);
    let ghost wv = words(text@);
    let mut r = String::new();
    // The byte length of the last line, or `width` where that is less.
    let mut line: usize = 0;
    let mut k: usize = 0;
    while k < ws.len()
        invariant
            views(ws@) == wv,
            k <= ws.len(),
            k > 0 ==> r@ == layout(wv.subrange(0, k as int), width as nat).0,
            k > 0 ==> line == min_nat(layout(wv.subrange(0, k as int), width as nat).1, width as nat),
            k == 0 ==> r@ == Seq::<char>::empty(),
        decreases ws.len() - k,
    {
        let w = &ws[k];
        let n = byte_len_capped(w.as_str(), width);
        let ghost prev = wv.subrange(0, k as int);
        let ghost next = wv.subrange(0, k + 1);
        proof {
            assert(next.drop_last() =~= prev);
            assert(next.last() == w@);
            assert(w@ == wv[k as int]);
        }
        if k == 0 {
            r.append(w.as_str());
            line = n;
            assert(r@ =~= w@);
        } else if line >= width || n >= width - line {
            r.append("\n");
            proof {
                reveal_strlit("\n");
                assert("\n"@ =~= seq!['\n']);
            }
            r.append(w.as_str());
            line = n;
            assert(r@ =~= layout(prev, width as nat).0 + seq!['\n'] + w@);

        } else {
            r.append(" ");
            proof {
                reveal_strlit(" ");
                assert(" "@ =~= seq![' ']);
            }
            r.append(w.as_str());
            line = line + 1 + n;
            assert(r@ =~= layout(prev, width as nat).0 + seq![' '] + w@);
        }
        k = k + 1;
    }
    proof {
        assert(wv.subrange(0, k as int) =~= wv);
    }
    r
}

/// Wraps `s` to the standard width of replies.
pub fn justify_string(s: &str) -> (r: String)
    ensures
        r@ == wrap_spec(s@, WIDTH as nat),
{
    wrap(s, WIDTH)
}

proof fn lemma_layout_keeps_words(ws: Seq<Seq<char>>, width: nat)
    requires
        forall|k: int| 0 <= k < ws.len() ==> is_word(#[trigger] ws[k]),
    ensures
        newlines_to_spaces(layout(ws, width).0) == join_words(ws),
    decreases ws.len(),
{
    if ws.len() == 1 {
        assert(is_word(ws[0]));
        assert(newlines_to_spaces(ws[0]) =~= ws[0]);
    } else if ws.len() >= 2 {
        let prev = ws.drop_last();
        assert forall|k: int| 0 <= k < prev.len() implies is_word(#[trigger] prev[k]) by {
            assert(prev[k] == ws[k]);
        }
        lemma_layout_keeps_words(prev, width);
        let (t, n) = layout(prev, width);
        let w = ws.last();
        assert(is_word(ws[ws.len() - 1]));
        assert(newlines_to_spaces(w) =~= w);
        if n + 1 + byte_len(w) > width {
            assert(newlines_to_spaces(t + seq!['\n'] + w) =~= newlines_to_spaces(t) + seq![' ']
                + newlines_to_spaces(w));
        } else {
            assert(newlines_to_spaces(t + seq![' '] + w) =~= newlines_to_spaces(t) + seq![' ']
                + newlines_to_spaces(w));
        }
    }
}

/// Wrapping keeps the words of the text: with its newlines turned back into
/// spaces, the wrapped text is the text with its whitespace normalised. So a
/// newline only ever stands where a separating space would, never inside a
/// word.
pub proof fn lemma_wrap_keeps_words(s: Seq<char>, width: nat)
    ensures
        newlines_to_spaces(wrap_spec(s, width)) == join_words(words(s)),
        wrap_spec(s, width).len() == join_words(words(s)).len(),
        forall|i: int|
            0 <= i < wrap_spec(s, width).len() && #[trigger] wrap_spec(s, width)[i] == '\n'
                ==> join_words(words(s))[i] == ' ',
{
    lemma_words_are_words(s);
    lemma_layout_keeps_words(words(s), width);
    let t = wrap_spec(s, width);
    assert forall|i: int| 0 <= i < t.len() && #[trigger] t[i] == '\n' implies join_words(
        words(s),
    )[i] == ' ' by {
        assert(newlines_to_spaces(t)[i] == ' ');
    }
}

proof fn lemma_lines_len(t: Seq<char>)
    ensures
        lines(t).len() >= 1,
    decreases t.len(),
{
    if t.len() > 0 {
        lemma_lines_len(t.drop_last());
    }
}

proof fn lemma_lines_append(a: Seq<char>, b: Seq<char>)
    requires
        forall|i: int| 0 <= i < b.len() ==> #[trigger] b[i] != '\n',
    ensures
        lines(a + b) == lines(a).update(lines(a).len() - 1, lines(a).last() + b),
    decreases b.len(),
{
    lemma_lines_len(a);
    if b.len() == 0 {
        assert(a + b =~= a);
        assert(lines(a).last() + b =~= lines(a).last());
        assert(lines(a).update(lines(a).len() - 1, lines(a).last()) =~= lines(a));
    } else {
        let b0 = b.drop_last();
        lemma_lines_append(a, b0);
        assert((a + b).drop_last() =~= a + b0);
        assert((a + b).last() == b.last());
        assert(b.last() != '\n');
        assert(lines(a).last() + b =~= (lines(a).last() + b0).push(b.last()));
        assert(lines(a + b) =~= lines(a).update(lines(a).len() - 1, lines(a).last() + b));
    }
}

proof fn lemma_lines_break(a: Seq<char>, b: Seq<char>)
    requires
        forall|i: int| 0 <= i < b.len() ==> #[trigger] b[i] != '\n',
    ensures
        lines(a + seq!['\n'] + b) == lines(a).push(b),
{
    let a1 = a + seq!['\n'];
    assert(a1.drop_last() =~= a);
    lemma_lines_append(a1, b);
    assert(seq![] + b =~= b);
    assert(lines(a1).update(lines(a1).len() - 1, lines(a1).last() + b) =~= lines(a).push(b));
}

proof fn lemma_layout_lines(ws: Seq<Seq<char>>, width: nat)
    requires
        forall|k: int| 0 <= k < ws.len() ==> is_word(#[trigger] ws[k]),
    ensures
        lines(layout(ws, width).0).len() >= 1,
        byte_len(lines(layout(ws, width).0).last()) == layout(ws, width).1,
        forall|j: int|
            0 <= j < lines(layout(ws, width).0).len() ==> byte_len(
                #[trigger] lines(layout(ws, width).0)[j],
            ) <= width || ws.contains(lines(layout(ws, width).0)[j]),
    decreases ws.len(),
{
    lemma_lines_len(layout(ws, width).0);
    if ws.len() == 0 {
        assert(lines(Seq::<char>::empty()) == seq![Seq::<char>::empty()]);
        assert(encode_utf8(Seq::<char>::empty()) =~= Seq::<u8>::empty());
    } else if ws.len() == 1 {
        let w = ws[0];
        assert(is_word(w));
        lemma_lines_append(Seq::<char>::empty(), w);
        assert(Seq::<char>::empty() + w =~= w);
        assert(lines(Seq::<char>::empty()) == seq![Seq::<char>::empty()]);
        assert(lines(w) =~= seq![w]);
        assert(ws.contains(ws[0]));
    } else {
        let prev = ws.drop_last();
        assert forall|k: int| 0 <= k < prev.len() implies is_word(#[trigger] prev[k]) by {
            assert(prev[k] == ws[k]);
        }
        lemma_layout_lines(prev, width);
        let (t, n) = layout(prev, width);
        let w = ws.last();
        assert(is_word(ws[ws.len() - 1]));
        let ls = lines(t);
        assert forall|j: int| 0 <= j < ls.len() - 1 implies byte_len(#[trigger] ls[j]) <= width
            || ws.contains(ls[j]) by {
            if !(byte_len(ls[j]) <= width) {
                let x = choose|x: int| 0 <= x < prev.len() && prev[x] == ls[j];
                assert(ws[x] == ls[j]);
            }
        }
        if n + 1 + byte_len(w) > width {
            lemma_lines_break(t, w);
            assert(ws.contains(ws[ws.len() - 1]));
            let nl = lines(layout(ws, width).0);
            assert forall|j: int| 0 <= j < nl.len() implies byte_len(#[trigger] nl[j]) <= width
                || ws.contains(nl[j]) by {
                if j < nl.len() - 1 {
                    assert(nl[j] == ls[j]);
                }
            }
        } else {
            let b = seq![' '] + w;
            assert forall|i: int| 0 <= i < b.len() implies #[trigger] b[i] != '\n' by {
                if i > 0 {
                    assert(b[i] == w[i - 1]);
                }
            }
            assert(t + seq![' '] + w =~= t + b);
            lemma_lines_append(t, b);
            assert(ls.last() + b =~= ls.last() + seq![' '] + w);
            lemma_byte_len_concat(ls.last(), seq![' ']);
            lemma_byte_len_concat(ls.last() + seq![' '], w);
            lemma_byte_len_char(' ');
            let nl = lines(layout(ws, width).0);
            assert forall|j: int| 0 <= j < nl.len() implies byte_len(#[trigger] nl[j]) <= width
                || ws.contains(nl[j]) by {
                if j < nl.len() - 1 {
                    assert(nl[j] == ls[j]);
                }
            }
        }
    }
}

/// No line of a wrapped text is longer than the width, unless it is one of
/// the text's words standing alone: a word longer than the width by itself.
pub proof fn lemma_wrap_line_width(s: Seq<char>, width: nat)
    ensures
        forall|j: int|
            0 <= j < lines(wrap_spec(s, width)).len() ==> byte_len(
                #[trigger] lines(wrap_spec(s, width))[j],
            ) <= width || words(s).contains(lines(wrap_spec(s, width))[j]),
{
    lemma_words_are_words(s);
    lemma_layout_lines(words(s), width);
}

/// The lines of a reply as `str::split_terminator('\n')` gives them: the
/// pieces between its newlines, without the empty piece after a final newline.
pub open spec fn reply_lines(t: Seq<char>) -> Seq<Seq<char>> {
    let ls = lines(t);
    if ls.last().len() == 0 {
        ls.drop_last()
    } else {
        ls
    }
}

/// Each of `ls` wrapped to the standard width.
pub open spec fn wrap_all(ls: Seq<Seq<char>>) -> Seq<Seq<char>> {
    ls.map_values(|l: Seq<char>| wrap_spec(l, WIDTH as nat))
}

/// What is displayed of a reply: each of its lines wrapped to the standard width.
pub open spec fn render_spec(t: Seq<char>) -> Seq<Seq<char>> {
    wrap_all(reply_lines(t))
}

proof fn lemma_wrap_all_last(ls: Seq<Seq<char>>)
    requires
        ls.len() >= 1,
    ensures
        wrap_all(ls) == wrap_all(ls.drop_last()).push(wrap_spec(ls.last(), WIDTH as nat)),
{
    assert(wrap_all(ls) =~= wrap_all(ls.drop_last()).push(wrap_spec(ls.last(), WIDTH as nat)));
}

/// The display lines of a reply: each line of `text` wrapped to the standard
/// width.
pub fn render_reply(text: &str) -> (r: Vec<String>)
    ensures
        views(r@) == render_spec(text@),
{
    let len = text.unicode_len();
    let mut r: Vec<String> = Vec::new();
    let mut start: usize = 0;
    let mut i: usize = 0;
    for c in it: text.chars()
        invariant
            i == it.index(),
            it.seq() == text@,
            len == text@.len(),
            start <= i <= len,
            lines(text@.subrange(0, i as int)).len() >= 1,
            views(r@) == wrap_all(lines(text@.subrange(0, i as int)).drop_last()),
            lines(text@.subrange(0, i as int)).last() == text@.subrange(start as int, i as int),
    {
        let ghost ls = lines(text@.subrange(0, i as int));
        proof {
            assert(text@.subrange(0, i + 1).drop_last() =~= text@.subrange(0, i as int));
            assert(text@.subrange(0, i + 1).last() == c);
        }
        if c == '\n' {
            let piece = text.substring_char(start, i);
            let w = justify_string(piece);
            let ghost before = views(r@);
            r.push(w);
            start = i + 1;
            proof {
                let nl = lines(text@.subrange(0, i + 1));
                assert(nl == ls.push(Seq::<char>::empty()));
                assert(nl.drop_last() =~= ls);
                assert(views(r@) =~= before.push(w@));
                lemma_wrap_all_last(ls);
                assert(text@.subrange(start as int, i + 1) =~= Seq::<char>::empty());
            }
        } else {
            proof {
                let nl = lines(text@.subrange(0, i + 1));
                assert(nl.drop_last() =~= ls.drop_last());
                assert(text@.subrange(start as int, i + 1) =~= text@.subrange(
                    start as int,
                    i as int,
                ).push(c));
            }
        }
        i = i + 1;
    }
    proof {
        assert(text@.subrange(0, i as int) =~= text@);
    }
    let ghost ls = lines(text@);
    if start < len {
        let piece = text.substring_char(start, len);
        let w = justify_string(piece);
        let ghost before = views(r@);
        r.push(w);
        proof {
            assert(views(r@) =~= before.push(w@));
            lemma_wrap_all_last(ls);
        }
    }
    r
}

/// `s` without its leading whitespace.
pub open spec fn trim_start_spec(s: Seq<char>) -> Seq<char>
    decreases s.len(),
{
    if s.len() > 0 && is_space_spec(s[0]) {
        trim_start_spec(s.drop_first())
    } else {
        s
    }
}

/// `s` without its leading whitespace, as `str::trim_start` gives it.
pub fn trim_start(s: &str) -> (r: &str)
    ensures
        r@ == trim_start_spec(s@),
{
    let len = s.unicode_len();
    let mut i: usize = 0;
    assert(s@.subrange(0, len as int) =~= s@);
    while i < len && is_space(s.get_char(i))
        invariant
            len == s@.len(),
            i <= len,
            trim_start_spec(s@) == trim_start_spec(s@.subrange(i as int, len as int)),
        decreases len - i,
    {
        assert(s@.subrange(i as int, len as int).drop_first() =~= s@.subrange(
            i + 1,
            len as int,
        ));
        i = i + 1;
    }
    s.substring_char(i, len)
}

/// The character of the decimal digit `d`.
pub open spec fn digit_char(d: nat) -> char {
    seq!['0', '1', '2', '3', '4', '5', '6', '7', '8', '9'][d as int]
}

/// The decimal digits of `n`, most significant first, without leading zeros.
pub open spec fn decimal_spec(n: nat) -> Seq<char>
    decreases n,
{
    if n < 10 {
        seq![digit_char(n)]
    } else {
        decimal_spec(n / 10).push(digit_char(n % 10))
    }
}

fn digit(d: u64) -> (r: &'static str)
    requires
        d < 10,
    ensures
        r@ == seq![digit_char(d as nat)],
{
    proof {
        reveal_strlit("0");
        reveal_strlit("1");
        reveal_strlit("2");
        reveal_strlit("3");
        reveal_strlit("4");
        reveal_strlit("5");
        reveal_strlit("6");
        reveal_strlit("7");
        reveal_strlit("8");
        reveal_strlit("9");
    }
    let r = if d == 0 {
        "0"
    } else if d == 1 {
        "1"
    } else if d == 2 {
        "2"
    } else if d == 3 {
        "3"
    } else if d == 4 {
        "4"
    } else if d == 5 {
        "5"
    } else if d == 6 {
        "6"
    } else if d == 7 {
        "7"
    } else if d == 8 {
        "8"
    } else {
        "9"
    };
    assert(r@ =~= seq![digit_char(d as nat)]);
    r
}

/// `n` written in decimal.
pub fn decimal(n: u64) -> (r: String)
    ensures
        r@ == decimal_spec(n as nat),
    decreases n,
{
    let d = digit(n % 10);
    if n < 10 {
        String::from_str(d)
    } else {
        let mut r = decimal(n / 10);
        r.append(d);
        assert(r@ =~= decimal_spec(n as nat / 10).push(digit_char(n as nat % 10)));
        r
    }
}

} // verus!
