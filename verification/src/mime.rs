//! The table of MIME types read from text in the `mime.types` format: each
//! line names a MIME type followed by the file extensions that carry it;
//! lines whose first non-blank character is `#` are comments.
use vstd::prelude::*;
use vstd::hash_map::StringHashMap;
use crate::text::{is_ws, is_ascii_ws, unicode_ws, ascii_ws, push_char, chars_of};
use crate::error::Error;
use crate::sql::join;

verus! {

/// The segments of `t` between line feeds, in order (one more than the
/// number of line feeds).
pub open spec fn split_lines(t: Seq<char>) -> Seq<Seq<char>>
    decreases t.len(),
{
    if t.len() == 0 {
        seq![Seq::empty()]
    } else {
        let segs = split_lines(t.drop_last());
        if t.last() == '\n' {
            segs.push(Seq::empty())
        } else {
            segs.update(segs.len() - 1, segs.last().push(t.last()))
        }
    }
}

/// `s` without its leading Unicode whitespace.
pub open spec fn trim_start(s: Seq<char>) -> Seq<char>
    decreases s.len(),
{
    if s.len() > 0 && is_ws(s[0]) {
        trim_start(s.drop_first())
    } else {
        s
    }
}

/// `s` without its trailing Unicode whitespace.
pub open spec fn trim_end(s: Seq<char>) -> Seq<char>
    decreases s.len(),
{
    if s.len() > 0 && is_ws(s.last()) {
        trim_end(s.drop_last())
    } else {
        s
    }
}

/// `s` without leading and trailing Unicode whitespace, as `str::trim` gives it.
pub open spec fn trim(s: Seq<char>) -> Seq<char> {
    trim_end(trim_start(s))
}

/// The maximal runs of non-ASCII-whitespace characters of `s`, in order, as
/// `str::split_ascii_whitespace` yields them.
pub open spec fn words(s: Seq<char>) -> Seq<Seq<char>>
    decreases s.len(),
{
    if s.len() == 0 {
        Seq::empty()
    } else {
        let w = words(s.drop_last());
        let c = s.last();
        if is_ascii_ws(c) {
            w
        } else if s.len() >= 2 && !is_ascii_ws(s[s.len() - 2]) {
            w.update(w.len() - 1, w.last().push(c))
        } else {
            w.push(seq![c])
        }
    }
}

/// A (trimmed) line that is a comment.
pub open spec fn is_comment(t: Seq<char>) -> bool {
    t.len() > 0 && t[0] == '#'
}

/// The two tables: extension to MIME type, and MIME type to its extensions.
pub type Tables = (Map<Seq<char>, Seq<char>>, Map<Seq<char>, Seq<Seq<char>>>);

/// `m` after mapping each of `exts`, in order, to `mimetype`.
pub open spec fn register_extensions(
    m: Map<Seq<char>, Seq<char>>,
    exts: Seq<Seq<char>>,
    mimetype: Seq<char>,
) -> Map<Seq<char>, Seq<char>>
    decreases exts.len(),
{
    if exts.len() == 0 {
        m
    } else {
        register_extensions(m, exts.drop_last(), mimetype).insert(exts.last(), mimetype)
    }
}

/// The tables after reading one line: a comment or a blank line changes
/// nothing; otherwise the first word is a MIME type, the others are its
/// extensions.
pub open spec fn apply_line(tables: Tables, line: Seq<char>) -> Tables {
    let t = trim(line);
    let ws = words(t);
    if is_comment(t) || ws.len() == 0 {
        tables
    } else {
        (
            register_extensions(tables.0, ws.drop_first(), ws[0]),
            tables.1.insert(ws[0], ws.drop_first()),
        )
    }
}

/// The tables after reading `lines` in order, starting from empty ones.
pub open spec fn apply_lines(lines: Seq<Seq<char>>) -> Tables
    decreases lines.len(),
{
    if lines.len() == 0 {
        (Map::empty(), Map::empty())
    } else {
        apply_line(apply_lines(lines.drop_last()), lines.last())
    }
}

/// The tables that the text `text` describes.
pub open spec fn parse_tables(text: Seq<char>) -> Tables {
    apply_lines(split_lines(text))
}

/// The characters of each string, in order.
pub open spec fn strings_view(v: Seq<String>) -> Seq<Seq<char>> {
    v.map_values(|s: String| s@)
}

pub open spec fn ext_table(m: Map<Seq<char>, String>) -> Map<Seq<char>, Seq<char>> {
    m.map_values(|s: String| s@)
}

pub open spec fn type_table(m: Map<Seq<char>, Vec<String>>) -> Map<Seq<char>, Seq<Seq<char>>> {
    m.map_values(|v: Vec<String>| strings_view(v@))
}

/// MIME types by file extension, and file extensions by MIME type.
pub struct MimeTypes {
    mimetypes: StringHashMap<String>,
    extensions: StringHashMap<Vec<String>>,
}

impl View for MimeTypes {
    type V = Tables;

    closed spec fn view(&self) -> Tables {
        (ext_table(self.mimetypes@), type_table(self.extensions@))
    }
}

proof fn lemma_split_lines_nonempty(t: Seq<char>)
    ensures
        split_lines(t).len() >= 1,
    decreases t.len(),
{
    if t.len() > 0 {
        lemma_split_lines_nonempty(t.drop_last());
    }
}

/// Appending characters other than a line feed extends the last segment.
proof fn lemma_split_lines_extend(p: Seq<char>, l: Seq<char>)
    requires
        forall|j: int| 0 <= j < l.len() ==> l[j] != '\n',
    ensures
        split_lines(p + l) == split_lines(p).update(
            split_lines(p).len() - 1,
            split_lines(p).last() + l,
        ),
    decreases l.len(),
{
    lemma_split_lines_nonempty(p);
    if l.len() == 0 {
        assert(p + l =~= p);
        assert(split_lines(p).last() + l =~= split_lines(p).last());
        assert(split_lines(p).update(split_lines(p).len() - 1, split_lines(p).last())
            =~= split_lines(p));
    } else {
        let l0 = l.drop_last();
        lemma_split_lines_extend(p, l0);
        assert((p + l).drop_last() =~= p + l0);
        assert((p + l).last() == l.last());
        lemma_split_lines_nonempty(p + l0);
        assert(split_lines(p).last() + l =~= (split_lines(p).last() + l0).push(l.last()));
        assert(split_lines(p + l) =~= split_lines(p).update(
            split_lines(p).len() - 1,
            split_lines(p).last() + l,
        ));
    }
}

proof fn lemma_trim_start_skip(s: Seq<char>, a: int)
    requires
        0 <= a < s.len(),
        is_ws(s[a]),
    ensures
        trim_start(s.subrange(a, s.len() as int)) == trim_start(s.subrange(a + 1, s.len() as int)),
{
    assert(s.subrange(a, s.len() as int).drop_first() =~= s.subrange(a + 1, s.len() as int));
}

proof fn lemma_trim_end_skip(s: Seq<char>, b: int)
    requires
        0 < b <= s.len(),
        is_ws(s[b - 1]),
    ensures
        trim_end(s.subrange(0, b)) == trim_end(s.subrange(0, b - 1)),
{
    assert(s.subrange(0, b).drop_last() =~= s.subrange(0, b - 1));
}

/// The bounds of `chars[start..end]` without surrounding Unicode whitespace.
fn trim_bounds(chars: &Vec<char>, start: usize, end: usize) -> (r: (usize, usize))
    requires
        start <= end <= chars@.len(),
    ensures
        start <= r.0 <= r.1 <= end,
        chars@.subrange(r.0 as int, r.1 as int) == trim(chars@.subrange(start as int, end as int)),
{
    let ghost line = chars@.subrange(start as int, end as int);
    assert(line.subrange(0, line.len() as int) =~= line);
    let mut a = start;
    while a < end && unicode_ws(chars[a])
        invariant
            start <= a <= end <= chars@.len(),
            line == chars@.subrange(start as int, end as int),
            trim_start(line) == trim_start(line.subrange(a - start, line.len() as int)),
        decreases end - a,
    {
        proof {
            lemma_trim_start_skip(line, a - start);
        }
        a = a + 1;
    }
    let ghost rest = line.subrange(a - start, line.len() as int);
    assert(rest =~= chars@.subrange(a as int, end as int));
    assert(trim_start(rest) == rest);
    assert(rest.subrange(0, rest.len() as int) =~= rest);
    let mut b = end;
    while b > a && unicode_ws(chars[b - 1])
        invariant
            start <= a <= b <= end <= chars@.len(),
            rest == chars@.subrange(a as int, end as int),
            trim_end(rest) == trim_end(rest.subrange(0, b - a)),
        decreases b - a,
    {
        proof {
            lemma_trim_end_skip(rest, b - a);
        }
        b = b - 1;
    }
    assert(rest.subrange(0, b - a) =~= chars@.subrange(a as int, b as int));
    (a, b)
}


/// The words of `chars[a..b]`, as owned strings.
fn split_words(chars: &Vec<char>, a: usize, b: usize) -> (ws: Vec<String>)
    requires
        a <= b <= chars@.len(),
    ensures
        strings_view(ws@) == words(chars@.subrange(a as int, b as int)),
{
    let mut ws: Vec<String> = Vec::new();
    let mut cur = String::new();
    let mut in_word = false;
    let mut k = a;
    assert(chars@.subrange(a as int, a as int) =~= Seq::<char>::empty());
    assert(strings_view(ws@) =~= Seq::<Seq<char>>::empty());
    while k < b
        invariant
            a <= k <= b <= chars@.len(),
            in_word == (k > a && !is_ascii_ws(chars@[k - 1])),
            !in_word ==> cur@ == Seq::<char>::empty() && strings_view(ws@) == words(
                chars@.subrange(a as int, k as int),
            ),
            in_word ==> strings_view(ws@).push(cur@) == words(
                chars@.subrange(a as int, k as int),
            ),
        decreases b - k,
    {
        let c = chars[k];
        let ghost prev = chars@.subrange(a as int, k as int);
        let ghost next = chars@.subrange(a as int, k + 1);
        assert(next.drop_last() =~= prev);
        assert(next.last() == c);
        if ascii_ws(c) {
            if in_word {
                let ghost old_ws = ws@;
                ws.push(cur);
                assert(strings_view(ws@) =~= strings_view(old_ws).push(cur@));
                cur = String::new();
                in_word = false;
            }
        } else {
            let ghost old_cur = cur@;
            push_char(&mut cur, c);
            if in_word {
                assert(next[next.len() - 2] == chars@[k - 1]);
                assert(strings_view(ws@).push(cur@) =~= strings_view(ws@).push(old_cur).update(
                    strings_view(ws@).len() as int,
                    old_cur.push(c),
                ));
            } else {
                assert(k > a ==> next[next.len() - 2] == chars@[k - 1]);
                assert(cur@ =~= seq![c]);
            }
            in_word = true;
        }
        k = k + 1;
    }
    if in_word {
        let ghost old_ws = ws@;
        ws.push(cur);
        assert(strings_view(ws@) =~= strings_view(old_ws).push(cur@));
    }
    ws
}


/// With `p` ending a line (or empty), reading the characters `l` of one more
/// line adds `l` as the last segment.
proof fn lemma_lines_step(p: Seq<char>, l: Seq<char>)
    requires
        split_lines(p).last() == Seq::<char>::empty(),
        forall|j: int| 0 <= j < l.len() ==> l[j] != '\n',
    ensures
        split_lines(p + l) == split_lines(p).drop_last().push(l),
        split_lines((p + l).push('\n')) == split_lines(p).drop_last().push(l).push(Seq::empty()),
{
    lemma_split_lines_nonempty(p);
    lemma_split_lines_extend(p, l);
    assert(Seq::<char>::empty() + l =~= l);
    assert(split_lines(p).update(split_lines(p).len() - 1, l) =~= split_lines(p).drop_last().push(
        l,
    ));
    assert((p + l).push('\n').drop_last() =~= p + l);
}

/// Reads the line `chars[start..end]` into the two tables.
fn read_line(
    mimetypes: &mut StringHashMap<String>,
    extensions: &mut StringHashMap<Vec<String>>,
    chars: &Vec<char>,
    start: usize,
    end: usize,
)
    requires
        start <= end <= chars@.len(),
    ensures
        (ext_table(final(mimetypes)@), type_table(final(extensions)@)) == apply_line(
            (ext_table(old(mimetypes)@), type_table(old(extensions)@)),
            chars@.subrange(start as int, end as int),
        ),
{
    let (a, b) = trim_bounds(chars, start, end);
    if a < b && chars[a] == '#' {
        return ;
    }
    let ws = split_words(chars, a, b);
    if ws.len() == 0 {
        return ;
    }
    let ghost all = strings_view(ws@);
    let mimetype = ws[0].clone();
    let mut rest: Vec<String> = Vec::new();
    let mut i: usize = 1;
    assert(strings_view(rest@) =~= all.subrange(1, 1));
    while i < ws.len()
        invariant
            1 <= i <= ws@.len(),
            all == strings_view(ws@),
            strings_view(rest@) == all.subrange(1, i as int),
        decreases ws@.len() - i,
    {
        let ghost old_rest = rest@;
        rest.push(ws[i].clone());
        assert(strings_view(rest@) =~= strings_view(old_rest).push(ws@[i as int]@));
        assert(all.subrange(1, i + 1) =~= all.subrange(1, i as int).push(all[i as int]));
        i = i + 1;
    }
    assert(all.subrange(1, all.len() as int) =~= all.drop_first());
    let ghost old_types = extensions@;
    extensions.insert(mimetype.clone(), rest);
    assert(type_table(extensions@) =~= type_table(old_types).insert(all[0], all.drop_first()));
    let mut j: usize = 1;
    let ghost start_exts = ext_table(mimetypes@);
    assert(all.subrange(1, 1) =~= Seq::<Seq<char>>::empty());
    while j < ws.len()
        invariant
            1 <= j <= ws@.len(),
            all == strings_view(ws@),
            mimetype@ == all[0],
            ext_table(mimetypes@) == register_extensions(
                start_exts,
                all.subrange(1, j as int),
                all[0],
            ),
        decreases ws@.len() - j,
    {
        let ghost before = mimetypes@;
        mimetypes.insert(ws[j].clone(), mimetype.clone());
        assert(ext_table(mimetypes@) =~= ext_table(before).insert(all[j as int], all[0]));
        assert(all.subrange(1, j + 1).drop_last() =~= all.subrange(1, j as int));
        j = j + 1;
    }
}

impl MimeTypes {
    /// Reads a table of MIME types from text in the `mime.types` format.
    /// The later of two lines that name the same extension (or the same MIME
    /// type) decides its entry.
    pub fn from_text(text: &str) -> (r: Result<MimeTypes, Error>)
        ensures
            r matches Ok(m) && m@ == parse_tables(text@),
    {
        let chars = chars_of(text);
        let n = chars.len();
        let mut mimetypes: StringHashMap<String> = StringHashMap::new();
        let mut extensions: StringHashMap<Vec<String>> = StringHashMap::new();
        let mut start: usize = 0;
        let mut k: usize = 0;
        assert(chars@.take(0) =~= Seq::<char>::empty());
        assert(ext_table(mimetypes@) =~= Map::empty());
        assert(type_table(extensions@) =~= Map::empty());
        assert(split_lines(Seq::<char>::empty()).drop_last() =~= Seq::<Seq<char>>::empty());
        while k < n
            invariant
                start <= k <= n,
                n == chars@.len(),
                forall|j: int| start <= j < k ==> chars@[j] != '\n',
                split_lines(chars@.take(start as int)).last() == Seq::<char>::empty(),
                (ext_table(mimetypes@), type_table(extensions@)) == apply_lines(
                    split_lines(chars@.take(start as int)).drop_last(),
                ),
            decreases n - k,
        {
            if chars[k] == '\n' {
                let ghost p = chars@.take(start as int);
                let ghost l = chars@.subrange(start as int, k as int);
                read_line(&mut mimetypes, &mut extensions, &chars, start, k);
                proof {
                    lemma_lines_step(p, l);
                    assert(chars@.take(k + 1) =~= (p + l).push('\n'));
                    let lines = split_lines(p).drop_last().push(l);
                    assert(lines.drop_last() =~= split_lines(p).drop_last());
                    assert(lines.push(Seq::<char>::empty()).drop_last() =~= lines);
                }
                start = k + 1;
            }
            k = k + 1;
        }
        let ghost p = chars@.take(start as int);
        let ghost l = chars@.subrange(start as int, n as int);
        read_line(&mut mimetypes, &mut extensions, &chars, start, n);
        proof {
            lemma_lines_step(p, l);
            assert(chars@ =~= p + l);
            let lines = split_lines(p).drop_last().push(l);
            assert(lines.drop_last() =~= split_lines(p).drop_last());
        }
        Ok(MimeTypes { mimetypes, extensions })
    }

    /// The MIME type of files with the given extension, if the table names one.
    pub fn mimetype(&self, extension: &str) -> (r: Option<&String>)
        ensures
            match r {
                Some(t) => self@.0.contains_key(extension@) && t@ == self@.0[extension@],
                None => !self@.0.contains_key(extension@),
            },
    {
        self.mimetypes.get(extension)
    }

    /// The extensions listed for the given MIME type, if the table names it.
    pub fn extensions(&self, mimetype: &str) -> (r: Option<&Vec<String>>)
        ensures
            match r {
                Some(v) => self@.1.contains_key(mimetype@) && strings_view(v@) == self@.1[mimetype@],
                None => !self@.1.contains_key(mimetype@),
            },
    {
        self.extensions.get(mimetype)
    }
}


proof fn lemma_register_extensions(
    m: Map<Seq<char>, Seq<char>>,
    exts: Seq<Seq<char>>,
    mimetype: Seq<char>,
    e: Seq<char>,
)
    ensures
        exts.contains(e) ==> register_extensions(m, exts, mimetype).contains_key(e)
            && register_extensions(m, exts, mimetype)[e] == mimetype,
        !exts.contains(e) ==> register_extensions(m, exts, mimetype).contains_key(e)
            == m.contains_key(e) && register_extensions(m, exts, mimetype)[e] == m[e],
    decreases exts.len(),
{
    if exts.len() > 0 {
        lemma_register_extensions(m, exts.drop_last(), mimetype, e);
        if e != exts.last() {
            assert(exts.contains(e) ==> exts.drop_last().contains(e)) by {
                if exts.contains(e) {
                    let i = choose|i: int| 0 <= i < exts.len() && exts[i] == e;
                    assert(i != exts.len() - 1);
                    assert(exts.drop_last()[i] == e);
                }
            }
            assert(exts.drop_last().contains(e) ==> exts.contains(e)) by {
                if exts.drop_last().contains(e) {
                    let i = choose|i: int| 0 <= i < exts.len() - 1 && exts.drop_last()[i] == e;
                    assert(exts[i] == e);
                }
            }
        } else {
            assert(exts[exts.len() - 1] == e);
        }
    }
}

/// Reading a line after `text` gives the tables of `text` updated by that
/// line alone: the text is read line by line, in order.
pub proof fn law_lines_read_in_order(text: Seq<char>, line: Seq<char>)
    requires
        forall|j: int| 0 <= j < line.len() ==> line[j] != '\n',
    ensures
        parse_tables(text.push('\n') + line) == apply_line(parse_tables(text), line),
{
    let p = text.push('\n');
    assert(p.drop_last() =~= text);
    lemma_split_lines_nonempty(text);
    assert(split_lines(p) == split_lines(text).push(Seq::<char>::empty()));
    lemma_lines_step(p, line);
    assert(split_lines(p).drop_last() =~= split_lines(text));
    assert(split_lines(text).push(line).drop_last() =~= split_lines(text));
}

/// A comment line, or a line with no word, leaves the tables as they were.
pub proof fn law_comments_and_blank_lines_ignored(text: Seq<char>, line: Seq<char>)
    requires
        forall|j: int| 0 <= j < line.len() ==> line[j] != '\n',
        is_comment(trim(line)) || words(trim(line)).len() == 0,
    ensures
        parse_tables(text.push('\n') + line) == parse_tables(text),
{
    law_lines_read_in_order(text, line);
}

/// After a line `type ext1 ... extn`, each `exti` maps to `type`, `type` maps
/// to `ext1 ... extn`, and every other entry is what it was before the line.
pub proof fn law_last_line_decides(text: Seq<char>, line: Seq<char>)
    requires
        forall|j: int| 0 <= j < line.len() ==> line[j] != '\n',
        !is_comment(trim(line)),
        words(trim(line)).len() > 0,
    ensures
        ({
            let ws = words(trim(line));
            let before = parse_tables(text);
            let after = parse_tables(text.push('\n') + line);
            &&& after.1.contains_key(ws[0])
            &&& after.1[ws[0]] == ws.drop_first()
            &&& forall|i: int|
                1 <= i < ws.len() ==> after.0.contains_key(#[trigger] ws[i]) && after.0[ws[i]]
                    == ws[0]
            &&& forall|e: Seq<char>|
                !ws.drop_first().contains(e) ==> after.0.contains_key(e) == before.0.contains_key(
                    e,
                ) && after.0[e] == before.0[e]
            &&& forall|t: Seq<char>|
                t != ws[0] ==> after.1.contains_key(t) == before.1.contains_key(t) && after.1[t]
                    == before.1[t]
        }),
{
    law_lines_read_in_order(text, line);
    let ws = words(trim(line));
    let before = parse_tables(text);
    assert forall|i: int| 1 <= i < ws.len() implies parse_tables(text.push('\n') + line).0.contains_key(
        #[trigger] ws[i],
    ) && parse_tables(text.push('\n') + line).0[ws[i]] == ws[0] by {
        assert(ws.drop_first()[i - 1] == ws[i]);
        lemma_register_extensions(before.0, ws.drop_first(), ws[0], ws[i]);
    }
    assert forall|e: Seq<char>| !ws.drop_first().contains(e) implies parse_tables(
        text.push('\n') + line,
    ).0.contains_key(e) == before.0.contains_key(e) && parse_tables(text.push('\n') + line).0[e]
        == before.0[e] by {
        lemma_register_extensions(before.0, ws.drop_first(), ws[0], e);
    }
}

/// Every tables value that some extension maps to is itself a MIME type of
/// the second table.
pub open spec fn tables_consistent(tables: Tables) -> bool {
    forall|e: Seq<char>| #[trigger]
        tables.0.contains_key(e) ==> tables.1.contains_key(tables.0[e])
}

proof fn lemma_apply_lines_consistent(lines: Seq<Seq<char>>)
    ensures
        tables_consistent(apply_lines(lines)),
    decreases lines.len(),
{
    if lines.len() > 0 {
        lemma_apply_lines_consistent(lines.drop_last());
        let before = apply_lines(lines.drop_last());
        let t = trim(lines.last());
        let ws = words(t);
        if !(is_comment(t) || ws.len() == 0) {
            let after = apply_lines(lines);
            assert forall|e: Seq<char>| #[trigger] after.0.contains_key(e) implies after.1.contains_key(
                after.0[e],
            ) by {
                lemma_register_extensions(before.0, ws.drop_first(), ws[0], e);
            }
        }
    }
}

/// Whatever the text, the MIME type that an extension maps to has an entry
/// of its own in the table of extensions by MIME type.
pub proof fn law_mimetypes_have_extension_entries(text: Seq<char>)
    ensures
        tables_consistent(parse_tables(text)),
{
    lemma_apply_lines_consistent(split_lines(text));
}


/// A word: at least one character, none of them ASCII whitespace.
pub open spec fn is_word(w: Seq<char>) -> bool {
    w.len() > 0 && forall|j: int| 0 <= j < w.len() ==> !is_ascii_ws(#[trigger] w[j])
}

proof fn lemma_words_nonempty(s: Seq<char>)
    requires
        s.len() > 0,
        !is_ascii_ws(s.last()),
    ensures
        words(s).len() >= 1,
    decreases s.len(),
{
    if s.len() >= 2 && !is_ascii_ws(s[s.len() - 2]) {
        let p = s.drop_last();
        assert(p.last() == s[s.len() - 2]);
        lemma_words_nonempty(p);
    }
}

proof fn lemma_words_are_words(s: Seq<char>)
    ensures
        forall|i: int| 0 <= i < words(s).len() ==> is_word(#[trigger] words(s)[i]),
    decreases s.len(),
{
    if s.len() > 0 {
        let p = s.drop_last();
        lemma_words_are_words(p);
        let c = s.last();
        if !is_ascii_ws(c) && s.len() >= 2 && !is_ascii_ws(s[s.len() - 2]) {
            assert(p.last() == s[s.len() - 2]);
            lemma_words_nonempty(p);
            let w = words(p);
            let last = w.last().push(c);
            assert(is_word(w[w.len() - 1]));
            assert forall|j: int| 0 <= j < last.len() implies !is_ascii_ws(#[trigger] last[j]) by {
                if j < last.len() - 1 {
                    assert(last[j] == w[w.len() - 1][j]);
                }
            }
            assert forall|i: int| 0 <= i < words(s).len() implies is_word(#[trigger] words(s)[i]) by {
                if i < w.len() - 1 {
                    assert(words(s)[i] == w[i]);
                }
            }
        } else if !is_ascii_ws(c) {
            assert(is_word(seq![c]));
            assert forall|i: int| 0 <= i < words(s).len() implies is_word(#[trigger] words(s)[i]) by {
                if i < words(p).len() {
                    assert(words(s)[i] == words(p)[i]);
                }
            }
        }
    }
}

/// Every key of both tables is a word.
pub open spec fn keys_are_words(tables: Tables) -> bool {
    &&& forall|e: Seq<char>| #[trigger] tables.0.contains_key(e) ==> is_word(e)
    &&& forall|t: Seq<char>| #[trigger] tables.1.contains_key(t) ==> is_word(t)
}

proof fn lemma_apply_lines_keys(lines: Seq<Seq<char>>)
    ensures
        keys_are_words(apply_lines(lines)),
    decreases lines.len(),
{
    if lines.len() > 0 {
        lemma_apply_lines_keys(lines.drop_last());
        let before = apply_lines(lines.drop_last());
        let t = trim(lines.last());
        let ws = words(t);
        if !(is_comment(t) || ws.len() == 0) {
            lemma_words_are_words(t);
            let after = apply_lines(lines);
            assert(is_word(ws[0]));
            assert forall|e: Seq<char>| #[trigger] after.0.contains_key(e) implies is_word(e) by {
                lemma_register_extensions(before.0, ws.drop_first(), ws[0], e);
                if ws.drop_first().contains(e) {
                    let i = choose|i: int| 0 <= i < ws.drop_first().len() && ws.drop_first()[i] == e;
                    assert(ws[i + 1] == e);
                }
            }
        }
    }
}

/// Whatever the text, every extension and every MIME type in the tables is a
/// word: not empty and free of ASCII whitespace. Looking up a blank key, or
/// one with a space in it, finds nothing.
pub proof fn law_keys_are_words(text: Seq<char>)
    ensures
        keys_are_words(parse_tables(text)),
{
    lemma_apply_lines_keys(split_lines(text));
}


proof fn lemma_split_lines_append(a: Seq<char>, b: Seq<char>)
    ensures
        split_lines(a.push('\n') + b) == split_lines(a) + split_lines(b),
    decreases b.len(),
{
    let p = a.push('\n');
    lemma_split_lines_nonempty(a);
    assert(p.drop_last() =~= a);
    if b.len() == 0 {
        assert(p + b =~= p);
        assert(split_lines(a).push(Seq::<char>::empty()) =~= split_lines(a) + split_lines(b));
    } else {
        let b0 = b.drop_last();
        lemma_split_lines_append(a, b0);
        lemma_split_lines_nonempty(b0);
        assert((p + b).drop_last() =~= p + b0);
        assert((p + b).last() == b.last());
        let sa = split_lines(a);
        let sb0 = split_lines(b0);
        if b.last() == '\n' {
            assert((sa + sb0).push(Seq::<char>::empty()) =~= sa + sb0.push(Seq::<char>::empty()));
        } else {
            assert((sa + sb0).update((sa + sb0).len() - 1, (sa + sb0).last().push(b.last())) =~= sa
                + sb0.update(sb0.len() - 1, sb0.last().push(b.last())));
        }
    }
}

/// The tables `a` with every entry of `b` put over them.
pub open spec fn override_tables(a: Tables, b: Tables) -> Tables {
    (a.0.union_prefer_right(b.0), a.1.union_prefer_right(b.1))
}

proof fn lemma_register_over(
    a: Map<Seq<char>, Seq<char>>,
    b: Map<Seq<char>, Seq<char>>,
    exts: Seq<Seq<char>>,
    mimetype: Seq<char>,
)
    ensures
        register_extensions(a.union_prefer_right(b), exts, mimetype) == a.union_prefer_right(
            register_extensions(b, exts, mimetype),
        ),
    decreases exts.len(),
{
    if exts.len() > 0 {
        lemma_register_over(a, b, exts.drop_last(), mimetype);
        assert(register_extensions(a.union_prefer_right(b), exts.drop_last(), mimetype).insert(
            exts.last(),
            mimetype,
        ) =~= a.union_prefer_right(
            register_extensions(b, exts.drop_last(), mimetype).insert(exts.last(), mimetype),
        ));
    }
}

proof fn lemma_apply_line_over(a: Tables, b: Tables, line: Seq<char>)
    ensures
        apply_line(override_tables(a, b), line) == override_tables(a, apply_line(b, line)),
{
    let t = trim(line);
    let ws = words(t);
    if !(is_comment(t) || ws.len() == 0) {
        lemma_register_over(a.0, b.0, ws.drop_first(), ws[0]);
        assert(a.1.union_prefer_right(b.1).insert(ws[0], ws.drop_first()) =~= a.1.union_prefer_right(
            b.1.insert(ws[0], ws.drop_first()),
        ));
    }
}

proof fn lemma_apply_lines_concat(x: Seq<Seq<char>>, y: Seq<Seq<char>>)
    ensures
        apply_lines(x + y) == override_tables(apply_lines(x), apply_lines(y)),
    decreases y.len(),
{
    if y.len() == 0 {
        assert(x + y =~= x);
        let t = apply_lines(x);
        assert(t.0.union_prefer_right(Map::empty()) =~= t.0);
        assert(t.1.union_prefer_right(Map::empty()) =~= t.1);
    } else {
        lemma_apply_lines_concat(x, y.drop_last());
        assert((x + y).drop_last() =~= x + y.drop_last());
        assert((x + y).last() == y.last());
        lemma_apply_line_over(apply_lines(x), apply_lines(y.drop_last()), y.last());
    }
}

/// Reading `b` after `a` (on a line of its own) gives the tables of `a` with
/// every entry of the tables of `b` put over them: an extension or a MIME type
/// that `b` names takes its entry from `b`, any other keeps its entry from `a`.
pub proof fn law_appended_text_overrides(a: Seq<char>, b: Seq<char>)
    ensures
        parse_tables(a.push('\n') + b) == override_tables(parse_tables(a), parse_tables(b)),
{
    lemma_split_lines_append(a, b);
    lemma_apply_lines_concat(split_lines(a), split_lines(b));
}

proof fn lemma_trim_start_first(s: Seq<char>)
    ensures
        trim_start(s).len() > 0 ==> !is_ws(trim_start(s)[0]),
    decreases s.len(),
{
    if s.len() > 0 && is_ws(s[0]) {
        lemma_trim_start_first(s.drop_first());
    }
}

proof fn lemma_trim_end_prefix(s: Seq<char>)
    ensures
        trim_end(s).len() <= s.len(),
        forall|i: int| 0 <= i < trim_end(s).len() ==> trim_end(s)[i] == s[i],
    decreases s.len(),
{
    if s.len() > 0 && is_ws(s.last()) {
        let p = s.drop_last();
        lemma_trim_end_prefix(p);
        assert forall|i: int| 0 <= i < trim_end(s).len() implies trim_end(s)[i] == s[i] by {
            assert(trim_end(s)[i] == p[i]);
        }
    }
}

proof fn lemma_first_word(s: Seq<char>)
    requires
        s.len() > 0,
        !is_ascii_ws(s[0]),
    ensures
        words(s).len() >= 1,
        words(s)[0].len() > 0,
        words(s)[0][0] == s[0],
    decreases s.len(),
{
    lemma_words_are_words(s);
    if s.len() == 1 {
        assert(s.drop_last() =~= Seq::<char>::empty());
        assert(s.last() == s[0]);
    } else {
        let p = s.drop_last();
        assert(p[0] == s[0]);
        lemma_first_word(p);
        lemma_words_are_words(p);
    }
}

/// Every MIME type in the second table starts with something other than `#`,
/// and every extension it lists is a word.
pub open spec fn type_entries_well_formed(tables: Tables) -> bool {
    forall|t: Seq<char>| #[trigger]
        tables.1.contains_key(t) ==> t.len() > 0 && t[0] != '#' && forall|i: int|
            0 <= i < tables.1[t].len() ==> is_word(#[trigger] tables.1[t][i])
}

proof fn lemma_apply_lines_type_entries(lines: Seq<Seq<char>>)
    ensures
        type_entries_well_formed(apply_lines(lines)),
    decreases lines.len(),
{
    if lines.len() > 0 {
        lemma_apply_lines_type_entries(lines.drop_last());
        let t = trim(lines.last());
        let ws = words(t);
        if !(is_comment(t) || ws.len() == 0) {
            lemma_words_are_words(t);
            assert(t.len() > 0);
            lemma_trim_start_first(lines.last());
            lemma_trim_end_prefix(trim_start(lines.last()));
            assert(t[0] == trim_start(lines.last())[0]);
            assert(!is_ws(t[0]));
            assert(!is_ascii_ws(t[0]));
            lemma_first_word(t);
            let after = apply_lines(lines);
            assert forall|i: int| 0 <= i < ws.drop_first().len() implies is_word(
                #[trigger] ws.drop_first()[i],
            ) by {
                assert(ws.drop_first()[i] == ws[i + 1]);
            }
        }
    }
}

/// Whatever the text, every MIME type of the second table starts with
/// something other than `#` (a comment sign starts no entry), and every
/// extension listed for it is a word.
pub proof fn law_type_entries_well_formed(text: Seq<char>)
    ensures
        type_entries_well_formed(parse_tables(text)),
{
    lemma_apply_lines_type_entries(split_lines(text));
}


proof fn lemma_ascii_ws_is_ws(c: char)
    ensures
        is_ascii_ws(c) ==> is_ws(c),
{
}

proof fn lemma_words_extend_word(p: Seq<char>, w: Seq<char>, k: int)
    requires
        is_word(w),
        p.len() == 0 || is_ascii_ws(p.last()),
        1 <= k <= w.len(),
    ensures
        words(p + w.take(k)) == words(p).push(w.take(k)),
    decreases k,
{
    let s = p + w.take(k);
    assert(s.drop_last() =~= p + w.take(k - 1));
    assert(s.last() == w[k - 1]);
    if k == 1 {
        assert(p + w.take(0) =~= p);
        assert(w.take(1) =~= seq![w[0]]);
        if s.len() >= 2 {
            assert(s[s.len() - 2] == p.last());
        }
    } else {
        lemma_words_extend_word(p, w, k - 1);
        assert(s[s.len() - 2] == w[k - 2]);
        assert(w.take(k - 1).push(w[k - 1]) =~= w.take(k));
        assert(words(p).push(w.take(k - 1)).update(words(p).len() as int, w.take(k)) =~= words(
            p,
        ).push(w.take(k)));
    }
}

/// Adding a word after nothing or after whitespace adds it as the last word.
proof fn lemma_words_append(p: Seq<char>, w: Seq<char>)
    requires
        is_word(w),
        p.len() == 0 || is_ascii_ws(p.last()),
    ensures
        words(p + w) == words(p).push(w),
{
    lemma_words_extend_word(p, w, w.len() as int);
    assert(w.take(w.len() as int) =~= w);
}

/// Splitting words joined by single spaces gives the same words back, however
/// many there are: each maximal run of non-whitespace is a word of its own,
/// never glued to its neighbours.
pub proof fn law_words_split_at_spaces(ws: Seq<Seq<char>>)
    requires
        forall|i: int| 0 <= i < ws.len() ==> is_word(#[trigger] ws[i]),
    ensures
        words(join(ws, seq![' '])) == ws,
    decreases ws.len(),
{
    if ws.len() == 0 {
        assert(words(Seq::<char>::empty()) =~= ws);
    } else if ws.len() == 1 {
        lemma_words_append(Seq::<char>::empty(), ws[0]);
        assert(Seq::<char>::empty() + ws[0] =~= ws[0]);
        assert(Seq::<Seq<char>>::empty().push(ws[0]) =~= ws);
    } else {
        let init = ws.drop_last();
        assert forall|i: int| 0 <= i < init.len() implies is_word(#[trigger] init[i]) by {
            assert(init[i] == ws[i]);
        }
        law_words_split_at_spaces(init);
        let p = join(init, seq![' ']) + seq![' '];
        assert(p.drop_last() =~= join(init, seq![' ']));
        assert(p.last() == ' ');
        assert(words(p) == words(join(init, seq![' '])));
        lemma_words_append(p, ws.last());
        assert(init.push(ws.last()) =~= ws);
    }
}

/// A word with no Unicode whitespace in it.
pub open spec fn is_plain_word(w: Seq<char>) -> bool {
    w.len() > 0 && forall|j: int| 0 <= j < w.len() ==> !is_ws(#[trigger] w[j])
}

proof fn lemma_join_chars(ws: Seq<Seq<char>>)
    requires
        ws.len() >= 1,
        forall|i: int| 0 <= i < ws.len() ==> is_plain_word(#[trigger] ws[i]),
    ensures
        join(ws, seq![' ']).len() > 0,
        join(ws, seq![' '])[0] == ws[0][0],
        join(ws, seq![' ']).last() == ws.last().last(),
        forall|j: int|
            0 <= j < join(ws, seq![' ']).len() ==> #[trigger] join(ws, seq![' '])[j] == ' '
                || !is_ws(join(ws, seq![' '])[j]),
    decreases ws.len(),
{
    let t = join(ws, seq![' ']);
    if ws.len() == 1 {
        assert(is_plain_word(ws[0]));
    } else {
        let init = ws.drop_last();
        assert forall|i: int| 0 <= i < init.len() implies is_plain_word(#[trigger] init[i]) by {
            assert(init[i] == ws[i]);
        }
        lemma_join_chars(init);
        let a = join(init, seq![' ']);
        let w = ws.last();
        assert(is_plain_word(w));
        assert(t == a + seq![' '] + w);
        assert(t[0] == a[0]);
        assert(init[0] == ws[0]);
        assert(t.last() == w.last());
        assert forall|j: int| 0 <= j < t.len() implies #[trigger] t[j] == ' ' || !is_ws(t[j]) by {
            if j < a.len() {
                assert(t[j] == a[j]);
            } else if j > a.len() {
                assert(t[j] == w[j - a.len() - 1]);
            }
        }
    }
}

/// The facts about a line of plain words joined by single spaces that reading
/// it depends on: it holds no line feed, trimming leaves it as it is, it is no
/// comment, and its words are the given ones.
proof fn lemma_line_of_words(ws: Seq<Seq<char>>)
    requires
        ws.len() >= 1,
        forall|i: int| 0 <= i < ws.len() ==> is_plain_word(#[trigger] ws[i]),
        ws[0][0] != '#',
    ensures
        forall|j: int|
            0 <= j < join(ws, seq![' ']).len() ==> #[trigger] join(ws, seq![' '])[j] != '\n',
        trim(join(ws, seq![' '])) == join(ws, seq![' ']),
        !is_comment(trim(join(ws, seq![' ']))),
        words(trim(join(ws, seq![' ']))) == ws,
{
    let line = join(ws, seq![' ']);
    lemma_join_chars(ws);
    assert forall|i: int| 0 <= i < ws.len() implies is_word(#[trigger] ws[i]) by {
        assert(is_plain_word(ws[i]));
        assert forall|j: int| 0 <= j < ws[i].len() implies !is_ascii_ws(#[trigger] ws[i][j]) by {
            lemma_ascii_ws_is_ws(ws[i][j]);
        }
    }
    law_words_split_at_spaces(ws);
    assert forall|j: int| 0 <= j < line.len() implies line[j] != '\n' by {
        assert(line[j] == ' ' || !is_ws(line[j]));
    }
    assert(!is_ws(line[0]));
    assert(!is_ws(line.last()));
    assert(trim_start(line) == line);
    assert(trim_end(line) == line);
    assert(trim(line) == line);
}

/// A line made of words joined by single spaces, the first not starting with
/// `#`, maps every word after the first to the first, and lists exactly those
/// words, in order, as the first word's extensions; the last such line wins.
pub proof fn law_line_of_words(text: Seq<char>, ws: Seq<Seq<char>>)
    requires
        ws.len() >= 1,
        forall|i: int| 0 <= i < ws.len() ==> is_plain_word(#[trigger] ws[i]),
        ws[0][0] != '#',
    ensures
        ({
            let after = parse_tables(text.push('\n') + join(ws, seq![' ']));
            &&& after.1.contains_key(ws[0])
            &&& after.1[ws[0]] == ws.drop_first()
            &&& forall|i: int|
                1 <= i < ws.len() ==> after.0.contains_key(#[trigger] ws[i]) && after.0[ws[i]]
                    == ws[0]
        }),
{
    lemma_line_of_words(ws);
    law_last_line_decides(text, join(ws, seq![' ']));
}

/// A text of one line of words joined by single spaces, the first not
/// starting with `#`, describes exactly one MIME type, the first word, whose
/// extensions are the other words, in order, each mapping back to it (so the
/// text `t a b c` maps `a`, `b` and `c` to `t`, and nothing else).
pub proof fn law_one_line_of_words(ws: Seq<Seq<char>>)
    requires
        ws.len() >= 1,
        forall|i: int| 0 <= i < ws.len() ==> is_plain_word(#[trigger] ws[i]),
        ws[0][0] != '#',
    ensures
        ({
            let tables = parse_tables(join(ws, seq![' ']));
            &&& tables.1 == Map::<Seq<char>, Seq<Seq<char>>>::empty().insert(ws[0], ws.drop_first())
            &&& forall|e: Seq<char>|
                tables.0.contains_key(e) <==> ws.drop_first().contains(e)
            &&& forall|i: int|
                1 <= i < ws.len() ==> tables.0.contains_key(#[trigger] ws[i]) && tables.0[ws[i]]
                    == ws[0]
        }),
{
    let line = join(ws, seq![' ']);
    lemma_line_of_words(ws);
    let empty = Seq::<char>::empty();
    assert(split_lines(empty) == seq![empty]);
    lemma_lines_step(empty, line);
    assert(empty + line =~= line);
    assert(split_lines(empty).drop_last().push(line) =~= seq![line]);
    assert(seq![line].drop_last() =~= Seq::<Seq<char>>::empty());
    assert(split_lines(line) == seq![line]);
    assert(apply_lines(Seq::<Seq<char>>::empty()) == (
        Map::<Seq<char>, Seq<char>>::empty(),
        Map::<Seq<char>, Seq<Seq<char>>>::empty(),
    ));
    let start: Map<Seq<char>, Seq<char>> = Map::empty();
    assert(apply_lines(seq![line]) == apply_line(apply_lines(Seq::<Seq<char>>::empty()), line));
    assert(parse_tables(line) == apply_line((start, Map::empty()), line));
    let exts = ws.drop_first();
    assert forall|e: Seq<char>| parse_tables(line).0.contains_key(e) <==> exts.contains(e) by {
        lemma_register_extensions(start, exts, ws[0], e);
    }
    assert forall|i: int| 1 <= i < ws.len() implies parse_tables(line).0.contains_key(
        #[trigger] ws[i],
    ) && parse_tables(line).0[ws[i]] == ws[0] by {
        assert(exts[i - 1] == ws[i]);
        lemma_register_extensions(start, exts, ws[0], ws[i]);
    }
}

} // verus!
