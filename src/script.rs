//! An ordered list of command-line tokens and its shell-safe rendering.
use vstd::prelude::*;

verus! {

/// Characters that a POSIX shell takes literally inside an unquoted word.
pub open spec fn is_plain_char(c: char) -> bool {
    ('a' <= c && c <= 'z') || ('A' <= c && c <= 'Z') || ('0' <= c && c <= '9') || c == '-'
        || c == '_' || c == '.' || c == '/' || c == ':' || c == ',' || c == '@' || c == '+'
        || c == '%'
}

/// A token that can be written without any quoting.
pub open spec fn is_plain(t: Seq<char>) -> bool {
    t.len() > 0 && forall|i: int| 0 <= i < t.len() ==> is_plain_char(#[trigger] t[i])
}

/// The body of a single-quoted word: each quote closes the quoting, is written
/// escaped, and opens it again.
pub open spec fn escape_quotes(t: Seq<char>) -> Seq<char>
    decreases t.len(),
{
    if t.len() == 0 {
        Seq::empty()
    } else {
        escape_quotes(t.drop_last()) + if t.last() == '\'' {
            seq!['\'', '\\', '\'', '\'']
        } else {
            seq![t.last()]
        }
    }
}

/// How one token is written in the rendered command line.
pub open spec fn quote(t: Seq<char>) -> Seq<char> {
    if is_plain(t) {
        t
    } else {
        seq!['\''] + escape_quotes(t) + seq!['\'']
    }
}

/// The rendered command line: the quoted tokens, separated by single spaces.
pub open spec fn render_tokens(ts: Seq<Seq<char>>) -> Seq<char>
    decreases ts.len(),
{
    if ts.len() == 0 {
        Seq::empty()
    } else if ts.len() == 1 {
        quote(ts[0])
    } else {
        render_tokens(ts.drop_last()) + seq![' '] + quote(ts.last())
    }
}

/// Where a shell reader stands with respect to quoting.
pub enum QuoteMode {
    Unquoted,
    SingleQuoted,
    Escaped,
}

/// The state of a POSIX shell reader that splits a command line into words.
pub struct SplitState {
    /// Words finished so far.
    pub words: Seq<Seq<char>>,
    /// The word being read.
    pub word: Seq<char>,
    /// Whether a word has begun (an empty quoted word counts).
    pub in_word: bool,
    pub mode: QuoteMode,
    /// Set once the reader meets a character that the shell would not take
    /// literally (an expansion, an operator, a glob, a line break).
    pub broken: bool,
}

pub open spec fn split_start() -> SplitState {
    SplitState {
        words: Seq::empty(),
        word: Seq::empty(),
        in_word: false,
        mode: QuoteMode::Unquoted,
        broken: false,
    }
}

/// The reader's state after one more character.
pub open spec fn split_step(st: SplitState, c: char) -> SplitState {
    if st.broken {
        st
    } else {
        match st.mode {
            QuoteMode::Escaped => if c == '\n' {
                SplitState { broken: true, ..st }
            } else {
                SplitState { word: st.word.push(c), in_word: true, mode: QuoteMode::Unquoted, ..st }
            },
            QuoteMode::SingleQuoted => if c == '\'' {
                SplitState { mode: QuoteMode::Unquoted, ..st }
            } else {
                SplitState { word: st.word.push(c), ..st }
            },
            QuoteMode::Unquoted => if c == ' ' || c == '\t' {
                if st.in_word {
                    SplitState { words: st.words.push(st.word), word: Seq::empty(), in_word: false, ..st }
                } else {
                    st
                }
            } else if c == '\'' {
                SplitState { in_word: true, mode: QuoteMode::SingleQuoted, ..st }
            } else if c == '\\' {
                SplitState { in_word: true, mode: QuoteMode::Escaped, ..st }
            } else if is_plain_char(c) {
                SplitState { word: st.word.push(c), in_word: true, ..st }
            } else {
                SplitState { broken: true, ..st }
            },
        }
    }
}

/// The reader's state after a sequence of characters.
pub open spec fn split_run(st: SplitState, s: Seq<char>) -> SplitState
    decreases s.len(),
{
    if s.len() == 0 {
        st
    } else {
        split_step(split_run(st, s.drop_last()), s.last())
    }
}

/// The words a POSIX shell reads from `s`, or `None` where `s` holds something
/// that the shell would not take literally or leaves a quote open.
pub open spec fn split_words(s: Seq<char>) -> Option<Seq<Seq<char>>> {
    let st = split_run(split_start(), s);
    if st.broken || st.mode != QuoteMode::Unquoted {
        None
    } else if st.in_word {
        Some(st.words.push(st.word))
    } else {
        Some(st.words)
    }
}

proof fn lemma_split_run_concat(st: SplitState, a: Seq<char>, b: Seq<char>)
    ensures
        split_run(st, a + b) == split_run(split_run(st, a), b),
    decreases b.len(),
{
    if b.len() == 0 {
        assert(a + b =~= a);
    } else {
        assert((a + b).drop_last() =~= a + b.drop_last());
        lemma_split_run_concat(st, a, b.drop_last());
    }
}

proof fn lemma_split_run_push(st: SplitState, s: Seq<char>, c: char)
    ensures
        split_run(st, s.push(c)) == split_step(split_run(st, s), c),
{
    assert(s.push(c).drop_last() =~= s);
}

proof fn lemma_split_run_one(st: SplitState, c: char)
    ensures
        split_run(st, seq![c]) == split_step(st, c),
{
    lemma_split_run_push(st, Seq::empty(), c);
    assert(Seq::<char>::empty().push(c) =~= seq![c]);
}

proof fn lemma_split_run_plain(st: SplitState, t: Seq<char>)
    requires
        !st.broken,
        st.mode == QuoteMode::Unquoted,
        forall|i: int| 0 <= i < t.len() ==> is_plain_char(#[trigger] t[i]),
    ensures
        split_run(st, t) == (SplitState {
            word: st.word + t,
            in_word: st.in_word || t.len() > 0,
            ..st
        }),
    decreases t.len(),
{
    if t.len() == 0 {
        assert(st.word + t =~= st.word);
    } else {
        let p = t.drop_last();
        assert forall|i: int| 0 <= i < p.len() implies is_plain_char(#[trigger] p[i]) by {
            assert(p[i] == t[i]);
        }
        lemma_split_run_plain(st, p);
        assert(is_plain_char(t[t.len() - 1]));
        assert((st.word + p).push(t.last()) =~= st.word + t);
    }
}

proof fn lemma_split_run_escaped(st: SplitState, t: Seq<char>)
    requires
        !st.broken,
        st.mode == QuoteMode::SingleQuoted,
        st.in_word,
    ensures
        split_run(st, escape_quotes(t)) == (SplitState { word: st.word + t, ..st }),
    decreases t.len(),
{
    if t.len() == 0 {
        assert(st.word + t =~= st.word);
        assert(escape_quotes(t) =~= Seq::empty());
    } else {
        let p = t.drop_last();
        let c = t.last();
        let tail = if c == '\'' {
            seq!['\'', '\\', '\'', '\'']
        } else {
            seq![c]
        };
        lemma_split_run_concat(st, escape_quotes(p), tail);
        lemma_split_run_escaped(st, p);
        let mid = SplitState { word: st.word + p, ..st };
        if c == '\'' {
            lemma_split_run_one(mid, '\'');
            lemma_split_run_push(mid, seq!['\''], '\\');
            assert(seq!['\''].push('\\') =~= seq!['\'', '\\']);
            lemma_split_run_push(mid, seq!['\'', '\\'], '\'');
            assert(seq!['\'', '\\'].push('\'') =~= seq!['\'', '\\', '\'']);
            lemma_split_run_push(mid, seq!['\'', '\\', '\''], '\'');
            assert(seq!['\'', '\\', '\''].push('\'') =~= tail);
        } else {
            lemma_split_run_one(mid, c);
        }
        assert((st.word + p).push(c) =~= st.word + t);
    }
}

proof fn lemma_split_run_quote(st: SplitState, t: Seq<char>)
    requires
        !st.broken,
        st.mode == QuoteMode::Unquoted,
        !st.in_word,
        st.word.len() == 0,
    ensures
        split_run(st, quote(t)) == (SplitState { word: t, in_word: true, ..st }),
{
    if is_plain(t) {
        lemma_split_run_plain(st, t);
        assert(st.word + t =~= t);
    } else {
        let open = seq!['\''];
        lemma_split_run_concat(st, open + escape_quotes(t), seq!['\'']);
        lemma_split_run_concat(st, open, escape_quotes(t));
        lemma_split_run_one(st, '\'');
        let quoted = SplitState { in_word: true, mode: QuoteMode::SingleQuoted, ..st };
        assert(split_run(st, open) == quoted);
        lemma_split_run_escaped(quoted, t);
        lemma_split_run_one(SplitState { word: st.word + t, ..quoted }, '\'');
        assert(st.word + t =~= t);
    }
}

proof fn lemma_split_run_render(ts: Seq<Seq<char>>)
    requires
        ts.len() > 0,
    ensures
        split_run(split_start(), render_tokens(ts)) == (SplitState {
            words: ts.drop_last(),
            word: ts.last(),
            in_word: true,
            mode: QuoteMode::Unquoted,
            broken: false,
        }),
    decreases ts.len(),
{
    if ts.len() == 1 {
        lemma_split_run_quote(split_start(), ts[0]);
        assert(ts.drop_last() =~= Seq::<Seq<char>>::empty());
    } else {
        let p = ts.drop_last();
        lemma_split_run_render(p);
        lemma_split_run_concat(split_start(), render_tokens(p) + seq![' '], quote(ts.last()));
        lemma_split_run_concat(split_start(), render_tokens(p), seq![' ']);
        lemma_split_run_one(split_run(split_start(), render_tokens(p)), ' ');
        let between = SplitState {
            words: p,
            word: Seq::empty(),
            in_word: false,
            mode: QuoteMode::Unquoted,
            broken: false,
        };
        assert(p.drop_last().push(p.last()) =~= p);
        assert(split_run(split_start(), render_tokens(p) + seq![' ']) == between);
        lemma_split_run_quote(between, ts.last());
    }
}

/// Rendering is safe: a POSIX shell splits the rendered command line back into
/// exactly the original tokens, whatever spaces, quotes or metacharacters they
/// hold, and no character of a token reaches the shell unquoted where the shell
/// would give it a meaning.
pub proof fn lemma_render_round_trip(ts: Seq<Seq<char>>)
    ensures
        split_words(render_tokens(ts)) == Some(ts),
{
    if ts.len() == 0 {
        assert(split_run(split_start(), render_tokens(ts)) == split_start());
    } else {
        lemma_split_run_render(ts);
        assert(ts.drop_last().push(ts.last()) =~= ts);
    }
}

/// The character views of a list of strings.
pub open spec fn token_views(v: Seq<String>) -> Seq<Seq<char>> {
    v.map_values(|t: String| t@)
}

fn is_plain_char_exec(c: char) -> (r: bool)
    ensures
        r == is_plain_char(c),
{
    ('a' <= c && c <= 'z') || ('A' <= c && c <= 'Z') || ('0' <= c && c <= '9') || c == '-'
        || c == '_' || c == '.' || c == '/' || c == ':' || c == ',' || c == '@' || c == '+'
        || c == '%'
}

fn is_plain_exec(t: &str) -> (r: bool)
    ensures
        r == is_plain(t@),
{
    let n = t.unicode_len();
    if n == 0 {
        return false;
    }
    let mut i: usize = 0;
    while i < n
        invariant
            n == t@.len(),
            i <= n,
            forall|j: int| 0 <= j < i ==> is_plain_char(#[trigger] t@[j]),
        decreases n - i,
    {
        if !is_plain_char_exec(t.get_char(i)) {
            return false;
        }
        i = i + 1;
    }
    true
}

/// Writes one token so that the shell reads it back as one word.
pub fn quote_token(t: &str) -> (r: String)
    ensures
        r@ == quote(t@),
{
    if is_plain_exec(t) {
        return String::from_str(t);
    }
    let n = t.unicode_len();
    proof {
        reveal_strlit("'");
    }
    let mut out = String::from_str("'");
    let mut i: usize = 0;
    while i < n
        invariant
            n == t@.len(),
            i <= n,
            out@ == seq!['\''] + escape_quotes(t@.take(i as int)),
        decreases n - i,
    {
        let c = t.get_char(i);
        assert(t@.take(i + 1).drop_last() =~= t@.take(i as int));
        assert(t@.take(i + 1).last() == c);
        if c == '\'' {
            proof {
                reveal_strlit("'\\''");
            }
            assert("'\\''"@.len() == 4);
            assert("'\\''"@ =~= seq!['\'', '\\', '\'', '\'']);
            out.append("'\\''");
        } else {
            let one = t.substring_char(i, i + 1);
            assert(one@ =~= seq![c]);
            out.append(one);
        }
        i = i + 1;
        assert(out@ =~= seq!['\''] + escape_quotes(t@.take(i as int)));
    }
    out.append("'");
    assert(t@.take(n as int) =~= t@);
    out
}

/// A command line as an ordered list of tokens, each one argument.
pub struct Script {
    tokens: Vec<String>,
}

impl View for Script {
    type V = Seq<Seq<char>>;

    closed spec fn view(&self) -> Seq<Seq<char>> {
        token_views(self.tokens@)
    }
}

impl Script {
    /// The script whose arguments are `tokens`, in order.
    pub fn from_vec(tokens: Vec<String>) -> (r: Script)
        ensures
            r@ == token_views(tokens@),
    {
        Script { tokens }
    }

    /// The arguments, in order.
    pub fn tokens(&self) -> (r: &Vec<String>)
        ensures
            token_views(r@) == self@,
    {
        &self.tokens
    }

    /// The printable command line: each token quoted on its own, separated by
    /// single spaces.
    pub fn render(&self) -> (r: String)
        ensures
            r@ == render_tokens(self@),
    {
        let n = self.tokens.len();
        let mut out = String::new();
        let mut i: usize = 0;
        while i < n
            invariant
                n == self.tokens@.len(),
                i <= n,
                out@ == render_tokens(token_views(self.tokens@).take(i as int)),
            decreases n - i,
        {
            let ghost ts = token_views(self.tokens@);
            assert(ts.take(i + 1).drop_last() =~= ts.take(i as int));
            if i > 0 {
                proof {
                    reveal_strlit(" ");
                }
                assert(" "@ =~= seq![' ']);
                out.append(" ");
            } else {
                assert(out@ =~= Seq::<char>::empty());
            }
            assert(ts.take(i + 1).last() == self.tokens@[i as int]@);
            let q = quote_token(self.tokens[i].as_str());
            out.append(q.as_str());
            i = i + 1;
            assert(out@ =~= render_tokens(ts.take(i as int)));
        }
        assert(token_views(self.tokens@).take(n as int) =~= self@);
        out
    }
}

} // verus!
