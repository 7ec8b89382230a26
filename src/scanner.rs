//! Splitting text into whitespace-separated tokens.

use vstd::prelude::*;

verus! {

/// ASCII whitespace: space, tab, line feed, form feed and carriage return.
pub open spec fn is_ascii_space(c: char) -> bool {
    c == ' ' || c == '\t' || c == '\n' || c == '\u{0C}' || c == '\r'
}

/// The maximal runs of non-whitespace characters of `s`, left to right,
/// built up one character at a time.
pub open spec fn tokens_of(s: Seq<char>) -> Seq<Seq<char>>
    decreases s.len(),
{
    if s.len() == 0 {
        Seq::empty()
    } else {
        let prefix = s.drop_last();
        let c = s.last();
        let before = tokens_of(prefix);
        if is_ascii_space(c) {
            before
        } else if prefix.len() > 0 && !is_ascii_space(prefix.last()) {
            before.update(before.len() - 1, before.last().push(c))
        } else {
            before.push(seq![c])
        }
    }
}

fn is_space_char(c: char) -> (r: bool)
    ensures
        r == is_ascii_space(c),
{
    c == ' ' || c == '\t' || c == '\n' || c == '\u{0C}' || c == '\r'
}

/// Hands out the whitespace-separated tokens of a text one at a time.
pub struct Scanner {
    tokens: Vec<String>,
    pos: usize,
}

impl View for Scanner {
    /// The tokens not yet handed out.
    type V = Seq<Seq<char>>;

    closed spec fn view(&self) -> Seq<Seq<char>> {
        self.tokens@.subrange(self.pos as int, self.tokens@.len() as int).map_values(
            |t: String| t@,
        )
    }
}

impl Scanner {
    #[verifier::type_invariant]
    spec fn inv(&self) -> bool {
        self.pos <= self.tokens@.len()
    }

    /// A scanner over the tokens of `s`.
    pub fn new(s: &str) -> (r: Scanner)
        ensures
            r@ == tokens_of(s@),
    {
        let n = s.unicode_len();
        let mut done: Vec<String> = Vec::new();
        let mut start: Option<usize> = None;
        let mut i: usize = 0;
        while i < n
            invariant
                n == s@.len(),
                i <= n,
                match start {
                    None => {
                        &&& tokens_of(s@.take(i as int)) == done@.map_values(|t: String| t@)
                        &&& (i == 0 || is_ascii_space(s@[i - 1]))
                    },
                    Some(st) => {
                        &&& st < i
                        &&& !is_ascii_space(s@[i - 1])
                        &&& tokens_of(s@.take(i as int)) == done@.map_values(|t: String| t@).push(
                            s@.subrange(st as int, i as int),
                        )
                    },
                },
            decreases n - i,
        {
            let c = s.get_char(i);
            let ghost prev = done@.map_values(|t: String| t@);
            assert(s@.take(i + 1).drop_last() =~= s@.take(i as int));
            assert(s@.take(i + 1).last() == c);
            if is_space_char(c) {
                if let Some(st) = start {
                    let tok = s.substring_char(st, i).to_owned();
                    done.push(tok);
                    assert(done@.map_values(|t: String| t@) =~= prev.push(
                        s@.subrange(st as int, i as int),
                    ));
                    start = None;
                }
            } else {
                match start {
                    Some(st) => {
                        assert(s@.subrange(st as int, i + 1) =~= s@.subrange(
                            st as int,
                            i as int,
                        ).push(c));
                        assert(tokens_of(s@.take(i + 1)) =~= prev.push(
                            s@.subrange(st as int, i + 1),
                        ));
                    },
                    None => {
                        assert(s@.subrange(i as int, i + 1) =~= seq![c]);
                        start = Some(i);
                    },
                }
            }
            i += 1;
        }
        assert(s@.take(n as int) =~= s@);
        if let Some(st) = start {
            let tok = s.substring_char(st, n).to_owned();
            let ghost prev = done@.map_values(|t: String| t@);
            done.push(tok);
            assert(done@.map_values(|t: String| t@) =~= prev.push(s@.subrange(st as int, n as int)));
        }
        let r = Scanner { tokens: done, pos: 0 };
        assert(r.tokens@.subrange(0, r.tokens@.len() as int) =~= r.tokens@);
        r
    }

    /// Whether a token is left to hand out.
    pub fn has_next(&self) -> (r: bool)
        ensures
            r == (self@.len() > 0),
    {
        proof {
            use_type_invariant(self);
        }
        self.pos < self.tokens.len()
    }

    /// The next token; at least one must be left.
    pub fn next(&mut self) -> (r: String)
        requires
            old(self)@.len() > 0,
        ensures
            r@ == old(self)@[0],
            final(self)@ == old(self)@.drop_first(),
    {
        proof {
            use_type_invariant(&*self);
        }
        let count = self.tokens.len();
        assert(self.pos < count);
        let t = self.tokens[self.pos].clone();
        let ghost before = self@;
        self.pos = self.pos + 1;
        assert(self@ =~= before.drop_first());
        t
    }
}

} // verus!
