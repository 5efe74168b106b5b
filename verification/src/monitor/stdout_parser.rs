//! Recognition of WeChat login QR codes in the bridge's standard output.
use vstd::prelude::*;
use crate::text::{
    chars_of, find, find_spec, first_white_from, first_white_from_spec, join,
    join_spec, lemma_trim_end_prefix, rfind_before, rfind_spec, slice_chars, string_of,
    is_white_spec, strings_view, trim_end, trim_end_spec,
};

verus! {

/// How a QR code was printed: as a block of text characters, or as a URL.
#[derive(Debug, Clone, Copy, PartialEq, Eq, Structural)]
pub enum QrKind {
    Ascii,
    Url,
}

/// A QR code found in the output.
#[derive(Debug, Clone, PartialEq)]
pub struct WechatQrEvent {
    pub kind: QrKind,
    pub data: String,
}

/// A QR event as plain values.
pub struct QrEventView {
    pub kind: QrKind,
    pub data: Seq<char>,
}

impl View for WechatQrEvent {
    type V = QrEventView;

    open spec fn view(&self) -> QrEventView {
        QrEventView { kind: self.kind, data: self.data@ }
    }
}

/// The view of an optional event.
pub open spec fn opt_event_view(e: Option<WechatQrEvent>) -> Option<QrEventView> {
    match e {
        Some(ev) => Some(ev@),
        None => None,
    }
}

/// Collects the lines of a text QR code across calls.
pub struct StdoutParser {
    ascii_buffer: Vec<String>,
    collecting_ascii: bool,
}

/// The parser's state: the QR lines gathered so far and whether a block is open.
pub struct ParserView {
    pub lines: Seq<Seq<char>>,
    pub collecting: bool,
}

impl View for StdoutParser {
    type V = ParserView;

    closed spec fn view(&self) -> ParserView {
        ParserView { lines: strings_view(self.ascii_buffer@), collecting: self.collecting_ascii }
    }
}

/// The characters that QR blocks are drawn with.
pub open spec fn is_block_char(c: char) -> bool {
    ||| c == '█'
    ||| c == '▀'
    ||| c == '▄'
    ||| c == '▌'
    ||| c == '▐'
    ||| c == '■'
    ||| c == '□'
}

/// How many characters of `s` are block characters.
pub open spec fn block_count(s: Seq<char>) -> nat
    decreases s.len(),
{
    if s.len() == 0 {
        0
    } else {
        block_count(s.drop_last()) + if is_block_char(s.last()) {
            1nat
        } else {
            0nat
        }
    }
}

/// A line that is part of a QR code drawn with block characters: it holds at
/// least ten of them.
pub open spec fn is_qr_line_spec(s: Seq<char>) -> bool {
    block_count(s) >= 10
}

/// The hosts whose presence marks a WeChat login URL, in the order they are tried.
pub open spec fn marker_spec(k: int) -> Seq<char> {
    if k == 0 {
        "login.weixin.qq.com"@
    } else if k == 1 {
        "wx.qq.com"@
    } else {
        "login.wechat.com"@
    }
}

/// The URL around the marker found at `pos`: it starts at the last `https://`
/// (else the last `http://`, else the line's start) before the marker and ends
/// before the first whitespace after that start.
pub open spec fn url_around(line: Seq<char>, pos: int) -> Seq<char> {
    let prefix = line.take(pos);
    let start = match rfind_spec(prefix, "https://"@) {
        Some(i) => i,
        None => match rfind_spec(prefix, "http://"@) {
            Some(i) => i,
            None => 0,
        },
    };
    let end = match first_white_from_spec(line, start) {
        Some(e) => e,
        None => line.len() as int,
    };
    line.subrange(start, end)
}

/// The WeChat login URL in `line`, by the first marker (in the order of
/// `marker_spec`) that occurs in it.
pub open spec fn wechat_url_spec(line: Seq<char>) -> Option<Seq<char>> {
    match find_spec(line, marker_spec(0)) {
        Some(p) => Some(url_around(line, p)),
        None => match find_spec(line, marker_spec(1)) {
            Some(p) => Some(url_around(line, p)),
            None => match find_spec(line, marker_spec(2)) {
                Some(p) => Some(url_around(line, p)),
                None => None,
            },
        },
    }
}

/// The next state and event after one line of output: a login URL always wins
/// and drops any partial block; a QR line joins the block, which is emitted once
/// it has 21 lines; any other line closes a block of at least 10 lines, and is
/// otherwise ignored.
pub open spec fn feed_spec(st: ParserView, raw: Seq<char>) -> (ParserView, Option<QrEventView>) {
    let line = trim_end_spec(raw);
    match wechat_url_spec(line) {
        Some(url) => (
            ParserView { lines: Seq::empty(), collecting: false },
            Some(QrEventView { kind: QrKind::Url, data: url }),
        ),
        None => if is_qr_line_spec(line) {
            let lines = if st.collecting {
                st.lines.push(line)
            } else {
                seq![line]
            };
            if lines.len() >= 21 {
                (
                    ParserView { lines: Seq::empty(), collecting: false },
                    Some(QrEventView { kind: QrKind::Ascii, data: join_spec(lines, "\n"@) }),
                )
            } else {
                (ParserView { lines, collecting: true }, None)
            }
        } else if st.collecting && st.lines.len() >= 10 {
            (
                ParserView { lines: Seq::empty(), collecting: false },
                Some(QrEventView { kind: QrKind::Ascii, data: join_spec(st.lines, "\n"@) }),
            )
        } else {
            (st, None)
        },
    }
}

/// Whether `line` is a line of a QR code drawn with block characters.
fn is_ascii_qr_line(line: &Vec<char>) -> (r: bool)
    ensures
        r == is_qr_line_spec(line@),
{
    let mut count: usize = 0;
    let mut i: usize = 0;
    while i < line.len()
        invariant
            i <= line.len(),
            count == block_count(line@.take(i as int)),
            count <= i,
        decreases line.len() - i,
    {
        let c = line[i];
        assert(line@.take(i + 1).drop_last() =~= line@.take(i as int));
        if c == '█' || c == '▀' || c == '▄' || c == '▌' || c == '▐' || c == '■' || c == '□' {
            count += 1;
        }
        i += 1;
    }
    assert(line@.take(line.len() as int) =~= line@);
    count >= 10
}

fn url_at(line: &Vec<char>, pos: usize) -> (r: Vec<char>)
    requires
        pos <= line.len(),
    ensures
        r@ == url_around(line@, pos as int),
{
    let https = chars_of("https://");
    let http = chars_of("http://");
    let start = match rfind_before(line, &https, pos) {
        Some(i) => i,
        None => match rfind_before(line, &http, pos) {
            Some(i) => i,
            None => 0,
        },
    };
    let end = match first_white_from(line, start) {
        Some(e) => e,
        None => line.len(),
    };
    slice_chars(line, start, end)
}

/// The WeChat login URL in `line`, if it holds one.
fn extract_wechat_url(line: &Vec<char>) -> (r: Option<Vec<char>>)
    ensures
        match r {
            Some(u) => wechat_url_spec(line@) == Some(u@),
            None => wechat_url_spec(line@) is None,
        },
{
    let m0 = chars_of("login.weixin.qq.com");
    let m1 = chars_of("wx.qq.com");
    let m2 = chars_of("login.wechat.com");
    proof {
        crate::text::lemma_find_from_occurs(line@, m0@, 0);
        crate::text::lemma_find_from_occurs(line@, m1@, 0);
        crate::text::lemma_find_from_occurs(line@, m2@, 0);
    }
    if let Some(p) = find(line, &m0) {
        return Some(url_at(line, p));
    }
    if let Some(p) = find(line, &m1) {
        return Some(url_at(line, p));
    }
    if let Some(p) = find(line, &m2) {
        return Some(url_at(line, p));
    }
    None
}

impl StdoutParser {
    /// The state holding no lines and no open block.
    pub open spec fn wf(&self) -> bool {
        &&& self@.collecting || self@.lines.len() == 0
        &&& self@.lines.len() < 21
    }

    /// A parser with no lines gathered.
    pub fn new() -> (p: Self)
        ensures
            p@.lines == Seq::<Seq<char>>::empty(),
            !p@.collecting,
            p.wf(),
    {
        let p = StdoutParser { ascii_buffer: Vec::new(), collecting_ascii: false };
        assert(p@.lines =~= Seq::<Seq<char>>::empty());
        p
    }

    fn reset(&mut self)
        ensures
            final(self)@.lines == Seq::<Seq<char>>::empty(),
            !final(self)@.collecting,
    {
        self.collecting_ascii = false;
        self.ascii_buffer.clear();
        assert(self@.lines =~= Seq::<Seq<char>>::empty());
    }

    /// Reads one line of output; returns a QR code when one is complete.
    pub fn feed_line(&mut self, line: &str) -> (ev: Option<WechatQrEvent>)
        ensures
            (final(self)@, opt_event_view(ev)) == feed_spec(old(self)@, line@),
            old(self).wf() ==> final(self).wf(),
    {
        let trimmed = trim_end(line);
        if let Some(url) = extract_wechat_url(&trimmed) {
            self.reset();
            return Some(WechatQrEvent { kind: QrKind::Url, data: string_of(&url) });
        }
        if is_ascii_qr_line(&trimmed) {
            if !self.collecting_ascii {
                self.collecting_ascii = true;
                self.ascii_buffer.clear();
            }
            let ghost before = self@.lines;
            self.ascii_buffer.push(string_of(&trimmed));
            assert(self@.lines =~= before.push(trimmed@));
            assert(!old(self)@.collecting ==> before =~= Seq::<Seq<char>>::empty());
            if self.ascii_buffer.len() >= 21 {
                let data = join(&self.ascii_buffer, "\n");
                self.reset();
                return Some(WechatQrEvent { kind: QrKind::Ascii, data });
            }
            return None;
        }
        if self.collecting_ascii && self.ascii_buffer.len() >= 10 {
            let data = join(&self.ascii_buffer, "\n");
            self.reset();
            return Some(WechatQrEvent { kind: QrKind::Ascii, data });
        }
        None
    }
}


/// The parser's state after reading each of `lines`, in order.
pub open spec fn state_after(st: ParserView, lines: Seq<Seq<char>>) -> ParserView
    decreases lines.len(),
{
    if lines.len() == 0 {
        st
    } else {
        feed_spec(state_after(st, lines.drop_last()), lines.last()).0
    }
}

/// A line that is drawn with block characters and holds no login URL.
pub open spec fn plain_qr_line(l: Seq<char>) -> bool {
    wechat_url_spec(trim_end_spec(l)) is None && is_qr_line_spec(trim_end_spec(l))
}

proof fn lemma_qr_lines_collect(st: ParserView, ls: Seq<Seq<char>>, k: int)
    requires
        !st.collecting,
        1 <= k <= 20,
        k <= ls.len(),
        forall|i: int| 0 <= i < ls.len() ==> plain_qr_line(#[trigger] ls[i]),
    ensures
        state_after(st, ls.take(k)) == (ParserView {
            lines: ls.take(k).map_values(|l: Seq<char>| trim_end_spec(l)),
            collecting: true,
        }),
    decreases k,
{
    assert(ls.take(k).drop_last() =~= ls.take(k - 1));
    assert(ls.take(k).last() == ls[k - 1]);
    assert(plain_qr_line(ls[k - 1]));
    let line = trim_end_spec(ls[k - 1]);
    let prev = state_after(st, ls.take(k - 1));
    assert(state_after(st, ls.take(k)) == feed_spec(prev, ls[k - 1]).0);
    let want = ls.take(k).map_values(|l: Seq<char>| trim_end_spec(l));
    if k == 1 {
        assert(ls.take(0) =~= Seq::<Seq<char>>::empty());
        assert(prev == st);
        assert(want =~= seq![line]);
    } else {
        lemma_qr_lines_collect(st, ls, k - 1);
        assert(want =~= ls.take(k - 1).map_values(|l: Seq<char>| trim_end_spec(l)).push(line));
        assert(prev.lines.push(line) =~= want);
    }
    assert(feed_spec(prev, ls[k - 1]).0.lines =~= want);
}

/// Law: from a parser with no open block, 21 lines drawn with block
/// characters and holding no login URL yield nothing for the first 20, and a
/// text QR code on the 21st made of the 21 lines (trailing whitespace
/// removed) joined by newlines, after which no block is open.
pub proof fn law_qr_block_of_21_lines(st: ParserView, ls: Seq<Seq<char>>)
    requires
        !st.collecting,
        ls.len() == 21,
        forall|i: int| 0 <= i < ls.len() ==> plain_qr_line(#[trigger] ls[i]),
    ensures
        forall|k: int| 0 <= k < 20 ==> (#[trigger] feed_spec(state_after(st, ls.take(k)), ls[k])).1 is None,
        feed_spec(state_after(st, ls.take(20)), ls[20]) == (
            ParserView { lines: Seq::empty(), collecting: false },
            Some(
                QrEventView {
                    kind: QrKind::Ascii,
                    data: join_spec(ls.map_values(|l: Seq<char>| trim_end_spec(l)), "\n"@),
                },
            ),
        ),
{
    assert forall|k: int| 0 <= k < 20 implies (#[trigger] feed_spec(state_after(st, ls.take(k)), ls[k])).1 is None by {
        assert(plain_qr_line(ls[k]));
        if k == 0 {
            assert(ls.take(0) =~= Seq::<Seq<char>>::empty());
        } else {
            lemma_qr_lines_collect(st, ls, k);
        }
    }
    lemma_qr_lines_collect(st, ls, 20);
    assert(plain_qr_line(ls[20]));
    assert(ls.take(20).map_values(|l: Seq<char>| trim_end_spec(l)).push(trim_end_spec(ls[20]))
        =~= ls.map_values(|l: Seq<char>| trim_end_spec(l)));
}

/// Law: a line holding a login URL always yields that URL and leaves no
/// block open, whatever was gathered before.
pub proof fn law_url_resets_collection(st: ParserView, raw: Seq<char>)
    requires
        wechat_url_spec(trim_end_spec(raw)) is Some,
    ensures
        feed_spec(st, raw).0 == (ParserView { lines: Seq::empty(), collecting: false }),
        feed_spec(st, raw).1 == Some(
            QrEventView { kind: QrKind::Url, data: wechat_url_spec(trim_end_spec(raw))->0 },
        ),
{
}

/// A gathered line of a text QR code: drawn with block characters, without
/// trailing whitespace, within one line.
pub open spec fn block_line(l: Seq<char>) -> bool {
    &&& is_qr_line_spec(l)
    &&& trim_end_spec(l) == l
    &&& !l.contains('\n')
}

/// A state the parser can be in: at most 20 gathered lines, none while no
/// block is open, each a block line.
pub open spec fn reachable(st: ParserView) -> bool {
    &&& st.lines.len() < 21
    &&& !st.collecting ==> st.lines.len() == 0
    &&& forall|i: int| 0 <= i < st.lines.len() ==> block_line(#[trigger] st.lines[i])
}

/// The state of a new parser.
pub open spec fn fresh_parser() -> ParserView {
    ParserView { lines: Seq::empty(), collecting: false }
}

/// Law: from any state a new parser can reach, a line of output (holding no
/// newline) leads to such a state again; after any event the parser is as
/// new; and a text QR code is made of 10 to 21 block lines joined by
/// newlines, 21 only when the line just read completes the block.
pub proof fn law_events_hold_10_to_21_block_lines(st: ParserView, raw: Seq<char>)
    requires
        reachable(st),
        !raw.contains('\n'),
    ensures
        reachable(fresh_parser()),
        reachable(feed_spec(st, raw).0),
        feed_spec(st, raw).1 is Some ==> feed_spec(st, raw).0 == fresh_parser(),
        feed_spec(st, raw).1 matches Some(e) ==> (e.kind == QrKind::Ascii ==> exists|ls: Seq<Seq<char>>|
            #![trigger join_spec(ls, "\n"@)]
            {
                &&& 10 <= ls.len() <= 21
                &&& e.data == join_spec(ls, "\n"@)
                &&& forall|i: int| 0 <= i < ls.len() ==> block_line(#[trigger] ls[i])
                &&& ls.len() == 21 ==> ls.last() == trim_end_spec(raw) && block_line(
                    trim_end_spec(raw),
                )
            }),
{
    let line = trim_end_spec(raw);
    lemma_trim_end_prefix(raw);
    assert(!line.contains('\n')) by {
        if line.contains('\n') {
            let j = choose|j: int| 0 <= j < line.len() && line[j] == '\n';
            assert(raw[j] == line[j]);
        }
    }
    match wechat_url_spec(line) {
        Some(url) => {},
        None => {
            if is_qr_line_spec(line) {
                assert(block_line(line));
                let lines = if st.collecting {
                    st.lines.push(line)
                } else {
                    seq![line]
                };
                assert forall|i: int| 0 <= i < lines.len() implies block_line(#[trigger] lines[i]) by {
                    if st.collecting && i < st.lines.len() {
                        assert(lines[i] == st.lines[i]);
                    }
                }
                if lines.len() >= 21 {
                    assert(st.collecting);
                    assert(lines.len() == 21);
                    assert(join_spec(lines, "\n"@) == join_spec(lines, "\n"@));
                }
            } else if st.collecting && st.lines.len() >= 10 {
                assert(join_spec(st.lines, "\n"@) == join_spec(st.lines, "\n"@));
            }
        },
    }
}

/// The seven characters half-block and full-block QR renderers draw with:
/// full block, upper half, lower half, left half, right half, black square,
/// white square.
pub open spec fn qr_block_chars() -> Seq<char> {
    seq!['\u{2588}', '\u{2580}', '\u{2584}', '\u{258C}', '\u{2590}', '\u{25A0}', '\u{25A1}']
}

/// Law: a character counts towards a QR line exactly when it is one of the
/// seven block characters.
pub proof fn law_block_chars_are_the_seven(c: char)
    ensures
        is_block_char(c) <==> qr_block_chars().contains(c),
{
    let bs = qr_block_chars();
    if is_block_char(c) {
        if c == '\u{2588}' {
            assert(bs[0] == c);
        } else if c == '\u{2580}' {
            assert(bs[1] == c);
        } else if c == '\u{2584}' {
            assert(bs[2] == c);
        } else if c == '\u{258C}' {
            assert(bs[3] == c);
        } else if c == '\u{2590}' {
            assert(bs[4] == c);
        } else if c == '\u{25A0}' {
            assert(bs[5] == c);
        } else {
            assert(bs[6] == c);
        }
    }
    if bs.contains(c) {
        let k = choose|k: int| 0 <= k < bs.len() && bs[k] == c;
        assert(0 <= k < 7);
    }
}

proof fn lemma_all_blocks_count(l: Seq<char>)
    requires
        forall|i: int| 0 <= i < l.len() ==> qr_block_chars().contains(#[trigger] l[i]),
    ensures
        block_count(l) == l.len(),
    decreases l.len(),
{
    if l.len() > 0 {
        lemma_all_blocks_count(l.drop_last());
        law_block_chars_are_the_seven(l.last());
        assert(qr_block_chars().contains(l[l.len() - 1]));
    }
}

proof fn lemma_no_marker_in_blocks(l: Seq<char>, m: Seq<char>)
    requires
        forall|i: int| 0 <= i < l.len() ==> qr_block_chars().contains(#[trigger] l[i]),
        m.len() > 0,
        !qr_block_chars().contains(m[0]),
    ensures
        find_spec(l, m) is None,
{
    crate::text::lemma_find_from_occurs(l, m, 0);
    if let Some(j) = find_spec(l, m) {
        assert(l.subrange(j, j + m.len())[0] == l[j]);
        assert(qr_block_chars().contains(l[j]));
    }
}

/// Law: a line of at least ten characters, all of them block characters, is
/// a QR line, holds no login URL and has no trailing whitespace.
pub proof fn law_block_lines_are_qr_lines(l: Seq<char>)
    requires
        l.len() >= 10,
        forall|i: int| 0 <= i < l.len() ==> qr_block_chars().contains(#[trigger] l[i]),
    ensures
        is_qr_line_spec(l),
        trim_end_spec(l) == l,
        wechat_url_spec(l) is None,
        plain_qr_line(l),
{
    lemma_all_blocks_count(l);
    let bs = qr_block_chars();
    assert(bs.contains(l.last()));
    let k = choose|k: int| 0 <= k < bs.len() && bs[k] == l.last();
    assert(!is_white_spec(l.last())) by {
        assert(0 <= k < 7);
    }
    reveal_strlit("login.weixin.qq.com");
    reveal_strlit("wx.qq.com");
    reveal_strlit("login.wechat.com");
    assert(!bs.contains('l')) by {
        if bs.contains('l') {
            let j = choose|j: int| 0 <= j < bs.len() && bs[j] == 'l';
            assert(0 <= j < 7);
        }
    }
    assert(!bs.contains('w')) by {
        if bs.contains('w') {
            let j = choose|j: int| 0 <= j < bs.len() && bs[j] == 'w';
            assert(0 <= j < 7);
        }
    }
    lemma_no_marker_in_blocks(l, marker_spec(0));
    lemma_no_marker_in_blocks(l, marker_spec(1));
    lemma_no_marker_in_blocks(l, marker_spec(2));
}

/// Law: from a new parser, 21 lines of at least ten block characters each
/// give nothing for the first 20 and, on the 21st, a text QR code made of
/// the 21 lines joined by newlines, after which the parser is as new.
pub proof fn law_21_block_lines_make_a_qr_code(ls: Seq<Seq<char>>)
    requires
        ls.len() == 21,
        forall|k: int| 0 <= k < 21 ==> (#[trigger] ls[k]).len() >= 10,
        forall|k: int, i: int|
            0 <= k < 21 && 0 <= i < ls[k].len() ==> qr_block_chars().contains(#[trigger] ls[k][i]),
    ensures
        forall|k: int| 0 <= k < 20 ==> (#[trigger] feed_spec(state_after(fresh_parser(), ls.take(k)), ls[k])).1 is None,
        feed_spec(state_after(fresh_parser(), ls.take(20)), ls[20]) == (
            fresh_parser(),
            Some(QrEventView { kind: QrKind::Ascii, data: join_spec(ls, "\n"@) }),
        ),
{
    assert forall|k: int| 0 <= k < ls.len() implies plain_qr_line(#[trigger] ls[k]) && trim_end_spec(ls[k]) == ls[k] by {
        assert forall|i: int| 0 <= i < ls[k].len() implies qr_block_chars().contains(#[trigger] ls[k][i]) by {
        }
        law_block_lines_are_qr_lines(ls[k]);
    }
    law_qr_block_of_21_lines(fresh_parser(), ls);
    assert(ls.map_values(|l: Seq<char>| trim_end_spec(l)) =~= ls);
}

} // verus!
