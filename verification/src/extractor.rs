//! Paths into measurements: an extractor such as `"foo.5.bar"` names the
//! value under key `bar` of the sixth element of the list under `foo`.
use vstd::prelude::*;

use crate::measurement::map_get;
use crate::measurement::map_lookup;
use crate::measurement::Measurement;
use crate::measurement::MeasurementValue;
use crate::text::chars_of;
use crate::text::concat_strings;
use crate::text::decimal_repr;
use crate::text::format_usize;
use crate::text::lemma_parse_decimal_repr;
use crate::text::lemma_split_first_empty;
use crate::text::lemma_split_nonempty;
use crate::text::parse_usize;
use crate::text::parse_usize_spec;
use crate::text::split_seq;
use crate::text::split_str;
use crate::text::views;

verus! {

/// One step of an extractor: a key into a map, or an index into a list.
#[derive(Debug, PartialEq, Eq)]
pub enum Token {
    Key(String),
    Index(usize),
}

/// A path into a measurement, as a list of tokens.
#[derive(Debug, PartialEq, Eq)]
pub struct Extractor(pub Vec<Token>);

/// `t` is the token that the text `piece` denotes: an index if the text is a
/// number (as `usize::from_str` reads it), a key otherwise.
pub open spec fn token_from(t: Token, piece: Seq<char>) -> bool {
    match t {
        Token::Index(n) => parse_usize_spec(piece) == Some(n),
        Token::Key(k) => parse_usize_spec(piece) is None && k@ == piece,
    }
}

/// The text of a token.
pub open spec fn token_text(t: Token) -> Seq<char> {
    match t {
        Token::Key(k) => k@,
        Token::Index(n) => decimal_repr(n as nat),
    }
}

/// The texts of a list of tokens, one after the other, with nothing between
/// them.
pub open spec fn tokens_text(ts: Seq<Token>) -> Seq<char>
    decreases ts.len(),
{
    if ts.len() == 0 {
        Seq::empty()
    } else {
        tokens_text(ts.drop_last()) + token_text(ts.last())
    }
}

impl Token {
    /// Whether this is a key with no text.
    pub fn is_empty(&self) -> (b: bool)
        ensures
            b == (self matches Token::Key(k) && k@.len() == 0),
    {
        match self {
            Token::Key(s) => chars_of(s.as_str()).len() == 0,
            _ => false,
        }
    }

    /// The token a piece of an extractor denotes; this never fails.
    pub fn try_from(s: &str) -> (r: Result<Token, String>)
        ensures
            r matches Ok(t) && token_from(t, s@),
    {
        match parse_usize(s) {
            Some(u) => Ok(Token::Index(u)),
            None => Ok(Token::Key(s.to_string())),
        }
    }

    /// The text of the token: the key itself, or the index in decimal.
    pub fn to_string(&self) -> (s: String)
        ensures
            s@ == token_text(*self),
    {
        match self {
            Token::Key(s) => s.clone(),
            Token::Index(u) => format_usize(*u),
        }
    }
}

/// What `Extractor::from_str` accepts: the first `.`-separated piece of the
/// text is not empty (so the text is not empty and does not start with `.`).
pub open spec fn extractor_accepts(s: Seq<char>) -> bool {
    split_seq(s, '.')[0].len() > 0
}

impl Extractor {
    /// Parses an extractor: the text is split at `.` and every piece becomes
    /// a token (see `token_from`). An empty first piece is refused.
    pub fn from_str(s: &str) -> (r: Result<Extractor, String>)
        ensures
            r is Ok <==> extractor_accepts(s@),
            r matches Err(e) ==> e@ == "Empty extractor"@,
            r matches Ok(e) ==> e.0@.len() == split_seq(s@, '.').len() && forall|i: int|
                0 <= i < e.0@.len() ==> token_from(#[trigger] e.0@[i], split_seq(s@, '.')[i]),
    {
        let pieces = split_str(s, '.');
        proof {
            lemma_split_nonempty(s@, '.');
        }
        let mut v: Vec<Token> = Vec::new();
        for i in 0..pieces.len()
            invariant
                views(pieces@) == split_seq(s@, '.'),
                v@.len() == i,
                forall|j: int| 0 <= j < i ==> token_from(#[trigger] v@[j], split_seq(s@, '.')[j]),
        {
            assert(pieces@[i as int]@ == split_seq(s@, '.')[i as int]);
            let t = Token::try_from(pieces[i].as_str());
            match t {
                Ok(t) => v.push(t),
                Err(e) => {
                    return Err(e);
                },
            }
        }
        if v.len() == 0 || v[0].is_empty() {
            proof {
                if v@.len() > 0 {
                    assert(token_from(v@[0], split_seq(s@, '.')[0]));
                    if split_seq(s@, '.')[0].len() == 0 {
                    } else {
                        match v@[0] {
                            Token::Key(k) => {},
                            Token::Index(n) => {},
                        }
                    }
                }
                reveal_strlit("Empty extractor");
            }
            return Err("Empty extractor".to_string());
        }
        proof {
            assert(token_from(v@[0], split_seq(s@, '.')[0]));
            if split_seq(s@, '.')[0].len() == 0 {
                assert(parse_usize_spec(split_seq(s@, '.')[0]) is None);
            }
        }
        Ok(Extractor(v))
    }

    /// The texts of the tokens, concatenated without separator.
    pub fn into_string(self) -> (s: String)
        ensures
            s@ == tokens_text(self.0@),
    {
        let mut out = "".to_string();
        proof {
            reveal_strlit("");
        }
        let v = self.0;
        for i in 0..v.len()
            invariant
                out@ == tokens_text(v@.take(i as int)),
        {
            let piece = v[i].to_string();
            out = concat_strings(out.as_str(), piece.as_str());
            assert(v@.take(i + 1).drop_last() == v@.take(i as int));
        }
        assert(v@.take(v@.len() as int) == v@);
        out
    }
}

// ---------------------------------------------------------------------------
// Extraction
// ---------------------------------------------------------------------------

/// The value that the path `ts` leads to inside `v`: an index selects an
/// element of a list, a key selects the value stored under it in a map,
/// and the empty path selects `v` itself. A step that does not fit the
/// value (an index into a map, a key into a list, any step into a boolean,
/// number or text, an index past the end or a missing key) leads nowhere.
pub open spec fn extract_value(v: MeasurementValue, ts: Seq<Token>) -> Option<MeasurementValue>
    decreases ts.len(),
{
    if ts.len() == 0 {
        Some(v)
    } else {
        match (ts[0], v) {
            (Token::Index(i), MeasurementValue::List(l)) => {
                if i < l@.len() {
                    extract_value(l@[i as int], ts.drop_first())
                } else {
                    None
                }
            },
            (Token::Key(k), MeasurementValue::Dict(m)) => match map_lookup(m@, k@) {
                Some(x) => extract_value(x, ts.drop_first()),
                None => None,
            },
            _ => None,
        }
    }
}

/// The value that the path `ts` leads to inside a measurement: the first
/// token must be a key equal to the measurement's name, the rest leads into
/// its value. The empty path leads nowhere.
pub open spec fn extract_measurement(m: Measurement, ts: Seq<Token>) -> Option<MeasurementValue> {
    if ts.len() == 0 {
        None
    } else {
        match ts[0] {
            Token::Key(k) => if k@ == m.name@ {
                extract_value(m.value, ts.drop_first())
            } else {
                None
            },
            Token::Index(_) => None,
        }
    }
}

/// Something a path of tokens can lead into.
pub trait Extractable: Sized {
    /// What the path `ts` leads to inside `self`.
    spec fn extracted(&self, ts: Seq<Token>) -> Option<MeasurementValue>;

    fn extract<'a>(&'a self, extractor: &[Token]) -> (r: Option<&'a MeasurementValue>)
        ensures
            match r {
                Some(v) => self.extracted(extractor@) == Some(*v),
                None => self.extracted(extractor@) is None,
            },
    ;
}

fn extract_from<'a>(v: &'a MeasurementValue, ts: &[Token], start: usize) -> (r: Option<
    &'a MeasurementValue,
>)
    requires
        start <= ts@.len(),
    ensures
        match r {
            Some(x) => extract_value(*v, ts@.skip(start as int)) == Some(*x),
            None => extract_value(*v, ts@.skip(start as int)) is None,
        },
    decreases ts@.len() - start,
{
    let ghost rest = ts@.skip(start as int);
    if start == ts.len() {
        assert(rest.len() == 0);
        return Some(v);
    }
    assert(rest[0] == ts@[start as int]);
    assert(rest.drop_first() == ts@.skip(start + 1));
    match (&ts[start], v) {
        (Token::Index(idx), MeasurementValue::List(lst)) => {
            if *idx < lst.len() {
                extract_from(&lst[*idx], ts, start + 1)
            } else {
                None
            }
        },
        (Token::Key(key), MeasurementValue::Dict(map)) => match map_get(map, key) {
            Some(x) => extract_from(x, ts, start + 1),
            None => None,
        },
        (_, MeasurementValue::Bool(_)) => None,
        (_, MeasurementValue::Float(_)) => None,
        (_, MeasurementValue::Text(_)) => None,
        (Token::Index(_), _) => None,
        (Token::Key(_), _) => None,
    }
}

impl Extractable for MeasurementValue {
    open spec fn extracted(&self, ts: Seq<Token>) -> Option<MeasurementValue> {
        extract_value(*self, ts)
    }

    fn extract<'a>(&'a self, extractor: &[Token]) -> (r: Option<&'a MeasurementValue>) {
        assert(extractor@.skip(0) == extractor@);
        extract_from(self, extractor, 0)
    }
}

impl Extractable for Measurement {
    open spec fn extracted(&self, ts: Seq<Token>) -> Option<MeasurementValue> {
        extract_measurement(*self, ts)
    }

    fn extract<'a>(&'a self, extractor: &[Token]) -> (r: Option<&'a MeasurementValue>) {
        if extractor.len() == 0 {
            return None;
        }
        match &extractor[0] {
            Token::Index(_) => None,
            Token::Key(key) => {
                if *key == self.name {
                    assert(extractor@.skip(1) == extractor@.drop_first());
                    extract_from(&self.value, extractor, 1)
                } else {
                    None
                }
            },
        }
    }
}

// ---------------------------------------------------------------------------
// Laws
// ---------------------------------------------------------------------------

/// The empty path leads to the value itself.
pub proof fn lemma_extract_empty_path(v: MeasurementValue)
    ensures
        extract_value(v, Seq::empty()) == Some(v),
{
}

/// Following a path `a + b` is following `a`, then `b` from where `a` led.
pub proof fn lemma_extract_concat(v: MeasurementValue, a: Seq<Token>, b: Seq<Token>)
    ensures
        extract_value(v, a + b) == match extract_value(v, a) {
            Some(x) => extract_value(x, b),
            None => None,
        },
    decreases a.len(),
{
    if a.len() == 0 {
        assert(a + b == b);
    } else {
        assert((a + b)[0] == a[0]);
        assert((a + b).drop_first() == a.drop_first() + b);
        match (a[0], v) {
            (Token::Index(i), MeasurementValue::List(l)) => {
                if i < l@.len() {
                    lemma_extract_concat(l@[i as int], a.drop_first(), b);
                }
            },
            (Token::Key(k), MeasurementValue::Dict(m)) => {
                if let Some(x) = map_lookup(m@, k@) {
                    lemma_extract_concat(x, a.drop_first(), b);
                }
            },
            _ => {},
        }
    }
}

/// An extractor is accepted exactly when its text is not empty and does not
/// begin with `.`.
pub proof fn lemma_extractor_accepts(s: Seq<char>)
    ensures
        extractor_accepts(s) <==> (s.len() > 0 && s[0] != '.'),
{
    lemma_split_first_empty(s, '.');
}

/// The text of an index token reads back as the same index, and the text of
/// a key token reads back as that key exactly when the key is not a number.
pub proof fn lemma_token_text_roundtrip(t: Token)
    ensures
        t matches Token::Index(_) ==> token_from(t, token_text(t)),
        t matches Token::Key(k) ==> (token_from(t, token_text(t)) <==> parse_usize_spec(k@) is None),
{
    if let Token::Index(n) = t {
        lemma_parse_decimal_repr(n);
    }
}

} // verus!
