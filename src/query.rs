//! Query submission: the options a query carries and the shape of the answer
//! that the server will give for it.
use vstd::prelude::*;
use vstd::string::StringSliceAdditionalSpecFns;

verus! {

/// Options that affect only the timing and batching of a query.
#[derive(Clone, Copy, Debug, PartialEq, Eq, Structural)]
pub struct QueryOptions {
    pub transaction_timeout_millis: Option<u64>,
    pub query_timeout_millis: Option<u64>,
    pub explain: bool,
    pub prefetch_size: Option<u64>,
}

impl QueryOptions {
    /// No timeouts, no explanation, the server's default batch size.
    pub fn new() -> (r: QueryOptions)
        ensures
            r.transaction_timeout_millis.is_none(),
            r.query_timeout_millis.is_none(),
            !r.explain,
            r.prefetch_size.is_none(),
    {
        QueryOptions {
            transaction_timeout_millis: None,
            query_timeout_millis: None,
            explain: false,
            prefetch_size: None,
        }
    }
}

/// What a query answers with.
#[derive(Clone, Copy, Debug, PartialEq, Eq, Structural)]
pub enum AnswerShape {
    /// A single acknowledgement (schema queries).
    Ack,
    /// A stream of rows.
    Rows,
    /// A stream of documents (queries with a `fetch` clause).
    Documents,
}

/// Where the lexer stands before reading a byte of query text.
pub enum Lex {
    Code,
    Text { quote: u8 },
    Escape { quote: u8 },
    Comment,
}

pub open spec fn lex_step(st: Lex, b: u8) -> Lex {
    match st {
        Lex::Code => if b == 0x22 || b == 0x27 {
            Lex::Text { quote: b }
        } else if b == 0x23 {
            Lex::Comment
        } else {
            Lex::Code
        },
        Lex::Text { quote } => if b == 0x5c {
            Lex::Escape { quote }
        } else if b == quote {
            Lex::Code
        } else {
            Lex::Text { quote }
        },
        Lex::Escape { quote } => Lex::Text { quote },
        Lex::Comment => if b == 0x0a {
            Lex::Code
        } else {
            Lex::Comment
        },
    }
}

/// The lexical context at position `i`, that is after reading `s[0..i]`.
pub open spec fn lex_at(s: Seq<u8>, i: int) -> Lex
    decreases i,
{
    if i <= 0 {
        Lex::Code
    } else {
        lex_step(lex_at(s, i - 1), s[i - 1])
    }
}

pub open spec fn is_space(b: u8) -> bool {
    b == 0x20 || b == 0x09 || b == 0x0a || b == 0x0d || b == 0x0c
}

/// Bytes that may continue a keyword or a label.
pub open spec fn is_word_byte(b: u8) -> bool {
    (0x30 <= b <= 0x39) || (0x41 <= b <= 0x5a) || (0x61 <= b <= 0x7a) || b == 0x5f || b == 0x2d
}

/// `w` stands in `s` at `i` as a whole word.
pub open spec fn word_at(s: Seq<u8>, i: int, w: Seq<u8>) -> bool {
    &&& 0 <= i
    &&& i + w.len() <= s.len()
    &&& s.subrange(i, i + w.len()) == w
    &&& (i == 0 || !is_word_byte(s[i - 1]))
    &&& (i + w.len() == s.len() || !is_word_byte(s[i + w.len()]))
}

/// Position `i` holds white space or comment text outside any string.
pub open spec fn blank_at(s: Seq<u8>, i: int) -> bool {
    lex_at(s, i) is Comment || (lex_at(s, i) is Code && (is_space(s[i]) || s[i] == 0x23))
}

pub open spec fn define_word() -> Seq<u8> {
    seq![0x64u8, 0x65, 0x66, 0x69, 0x6e, 0x65]
}

pub open spec fn undefine_word() -> Seq<u8> {
    seq![0x75u8, 0x6e, 0x64, 0x65, 0x66, 0x69, 0x6e, 0x65]
}

pub open spec fn redefine_word() -> Seq<u8> {
    seq![0x72u8, 0x65, 0x64, 0x65, 0x66, 0x69, 0x6e, 0x65]
}

pub open spec fn fetch_word() -> Seq<u8> {
    seq![0x66u8, 0x65, 0x74, 0x63, 0x68]
}

pub open spec fn is_schema_word_at(s: Seq<u8>, i: int) -> bool {
    word_at(s, i, define_word()) || word_at(s, i, undefine_word()) || word_at(s, i, redefine_word())
}

/// The first token of the query starts at `i`: all before it is blank, and it is not.
pub open spec fn first_token_at(s: Seq<u8>, i: int) -> bool {
    0 <= i < s.len() && !blank_at(s, i) && forall|j: int| 0 <= j < i ==> blank_at(s, j)
}

/// The first token of the query is `define`, `undefine` or `redefine`.
pub open spec fn is_schema_query(s: Seq<u8>) -> bool {
    exists|i: int| #[trigger] first_token_at(s, i) && is_schema_word_at(s, i)
}

/// The query holds a `fetch` clause, outside strings and comments.
pub open spec fn has_fetch_clause(s: Seq<u8>) -> bool {
    exists|i: int| 0 <= i < s.len() && lex_at(s, i) is Code && #[trigger] word_at(s, i, fetch_word())
}

/// The shape of the answer to a query with text `s`.
pub open spec fn shape_of(s: Seq<u8>) -> AnswerShape {
    if is_schema_query(s) {
        AnswerShape::Ack
    } else if has_fetch_clause(s) {
        AnswerShape::Documents
    } else {
        AnswerShape::Rows
    }
}

fn is_word_byte_exec(b: u8) -> (r: bool)
    ensures
        r == is_word_byte(b),
{
    (0x30 <= b && b <= 0x39) || (0x41 <= b && b <= 0x5a) || (0x61 <= b && b <= 0x7a) || b == 0x5f
        || b == 0x2d
}

fn word_at_exec(s: &[u8], i: usize, w: &[u8]) -> (r: bool)
    requires
        i <= s@.len(),
    ensures
        r == word_at(s@, i as int, w@),
{
    let n = s.len();
    if w.len() > n - i {
        return false;
    }
    let mut k: usize = 0;
    while k < w.len()
        invariant
            k <= w@.len(),
            n == s@.len(),
            i + w@.len() <= s@.len(),
            forall|j: int| 0 <= j < k ==> s@[i + j] == w@[j],
        decreases w@.len() - k,
    {
        if s[i + k] != w[k] {
            assert(s@.subrange(i as int, i + w@.len())[k as int] != w@[k as int]);
            return false;
        }
        k = k + 1;
    }
    assert(s@.subrange(i as int, i + w@.len()) =~= w@);
    let before = i == 0 || !is_word_byte_exec(s[i - 1]);
    let end = i + w.len();
    let after = end == s.len() || !is_word_byte_exec(s[end]);
    before && after
}

fn lex_step_exec(st: &Lex, b: u8) -> (r: Lex)
    ensures
        r == lex_step(*st, b),
{
    match st {
        Lex::Code => if b == 0x22 || b == 0x27 {
            Lex::Text { quote: b }
        } else if b == 0x23 {
            Lex::Comment
        } else {
            Lex::Code
        },
        Lex::Text { quote } => if b == 0x5c {
            Lex::Escape { quote: *quote }
        } else if b == *quote {
            Lex::Code
        } else {
            Lex::Text { quote: *quote }
        },
        Lex::Escape { quote } => Lex::Text { quote: *quote },
        Lex::Comment => if b == 0x0a {
            Lex::Code
        } else {
            Lex::Comment
        },
    }
}

/// Classifies a query by the answer the server gives for it: schema queries
/// are acknowledged, queries with a `fetch` clause stream documents, and all
/// others stream rows.
pub fn answer_shape(query: &str) -> (r: AnswerShape)
    ensures
        r == shape_of(query.spec_bytes()),
{
    let s = query.as_bytes();
    let ghost sb = s@;
    let define: [u8; 6] = [0x64, 0x65, 0x66, 0x69, 0x6e, 0x65];
    let undefine: [u8; 8] = [0x75, 0x6e, 0x64, 0x65, 0x66, 0x69, 0x6e, 0x65];
    let redefine: [u8; 8] = [0x72, 0x65, 0x64, 0x65, 0x66, 0x69, 0x6e, 0x65];
    let fetch: [u8; 5] = [0x66, 0x65, 0x74, 0x63, 0x68];
    assert(define@ =~= define_word());
    assert(undefine@ =~= undefine_word());
    assert(redefine@ =~= redefine_word());
    assert(fetch@ =~= fetch_word());
    let mut st = Lex::Code;
    let mut leading = true;
    let mut schema = false;
    let mut found_fetch = false;
    let ghost mut first: int = 0;
    let mut i: usize = 0;
    while i < s.len()
        invariant
            sb == query.spec_bytes(),
            s@ == sb,
            define@ == define_word(),
            undefine@ == undefine_word(),
            redefine@ == redefine_word(),
            fetch@ == fetch_word(),
            i <= sb.len(),
            st == lex_at(sb, i as int),
            leading == (forall|j: int| 0 <= j < i ==> blank_at(sb, j)),
            !leading ==> 0 <= first < i && first_token_at(sb, first),
            schema == (!leading && is_schema_word_at(sb, first)),
            found_fetch == (exists|j: int|
                0 <= j < i && lex_at(sb, j) is Code && #[trigger] word_at(sb, j, fetch_word())),
        decreases sb.len() - i,
    {
        let b = s[i];
        let code = matches!(st, Lex::Code);
        if code && !found_fetch {
            found_fetch = word_at_exec(s, i, fetch.as_slice());
        }
        if leading {
            let blank = match st {
                Lex::Comment => true,
                Lex::Code => b == 0x20 || b == 0x09 || b == 0x0a || b == 0x0d || b == 0x0c || b == 0x23,
                _ => false,
            };
            if !blank {
                assert(!blank_at(sb, i as int));
                schema = word_at_exec(s, i, define.as_slice()) || word_at_exec(s, i, undefine.as_slice())
                    || word_at_exec(s, i, redefine.as_slice());
                leading = false;
                proof {
                    first = i as int;
                }
            } else {
                assert(blank_at(sb, i as int));
            }
        }
        st = lex_step_exec(&st, b);
        i = i + 1;
    }
    proof {
        if is_schema_query(sb) {
            let j = choose|j: int| #[trigger] first_token_at(sb, j) && is_schema_word_at(sb, j);
            if leading {
                assert(blank_at(sb, j));
            } else if j < first {
                assert(blank_at(sb, j));
            } else if j > first {
                assert(blank_at(sb, first));
            }
        }
        if schema {
            assert(first_token_at(sb, first));
        }
    }
    if schema {
        AnswerShape::Ack
    } else if found_fetch {
        AnswerShape::Documents
    } else {
        AnswerShape::Rows
    }
}

} // verus!
