//! The two path syntaxes that come with the library.
use vstd::prelude::*;

use crate::error::{IndexError, IndexErrorView, KeyError, KeyErrorView};
use crate::numeral::{is_usize_numeral, numeral_value, parse_usize, usize_parse_error};
use crate::types::{State, StateView, Tokenizer};

verus! {

/// A character with Unicode's `White_Space` property.
pub open spec fn is_white_space(c: char) -> bool {
    let n = c as u32;
    ||| 0x09 <= n <= 0x0d
    ||| n == 0x20
    ||| n == 0x85
    ||| n == 0xa0
    ||| n == 0x1680
    ||| 0x2000 <= n <= 0x200a
    ||| n == 0x2028
    ||| n == 0x2029
    ||| n == 0x202f
    ||| n == 0x205f
    ||| n == 0x3000
}

/// Whether `c` is whitespace, as `char::is_whitespace` decides it.
fn is_whitespace(c: char) -> (r: bool)
    ensures
        r == is_white_space(c),
{
    let n = c as u32;
    (0x09 <= n && n <= 0x0d) || n == 0x20 || n == 0x85 || n == 0xa0 || n == 0x1680
        || (0x2000 <= n && n <= 0x200a) || n == 0x2028 || n == 0x2029 || n == 0x202f
        || n == 0x205f || n == 0x3000
}

/// Every character of `s` is whitespace (so is an empty `s`).
pub open spec fn is_blank(s: Seq<char>) -> bool {
    forall|i: int| 0 <= i < s.len() ==> is_white_space(#[trigger] s[i])
}

/// Some character of `s` is whitespace.
pub open spec fn has_white_space(s: Seq<char>) -> bool {
    exists|i: int| 0 <= i < s.len() && is_white_space(#[trigger] s[i])
}

/// `i` is the position of the first `c` in `s`.
pub open spec fn is_first_index(s: Seq<char>, c: char, i: int) -> bool {
    &&& 0 <= i < s.len()
    &&& s[i] == c
    &&& forall|j: int| 0 <= j < i ==> s[j] != c
}

/// A step with the rest of the path, once both are checked, in this order:
/// an empty or whitespace-only step is `EmptyKey`; a step that is followed by
/// a remainder and holds whitespace is a `ParseError` carrying the step; an
/// empty remainder (a separator that ends the path) is `EmptyKey`. The last
/// step of a path may hold whitespace.
pub open spec fn checked_step(step: Seq<char>, rest: Option<Seq<char>>) -> Result<StateView, KeyErrorView> {
    if is_blank(step) {
        Err(KeyErrorView::EmptyKey)
    } else if rest is Some && has_white_space(step) {
        Err(KeyErrorView::ParseError(step))
    } else if rest == Some(Seq::<char>::empty()) {
        Err(KeyErrorView::EmptyKey)
    } else {
        Ok((Some(step), rest))
    }
}

/// Cuts `path` at its first `sep`: the text before it, and the text from
/// `keep` characters after it on; `None` for the rest where `path` has no `sep`.
pub open spec fn cut_at_first(path: Seq<char>, sep: char, keep: int) -> (Seq<char>, Option<Seq<char>>) {
    if exists|i: int| is_first_index(path, sep, i) {
        let i = choose|i: int| is_first_index(path, sep, i);
        (path.take(i), Some(path.skip(i + keep)))
    } else {
        (path, None)
    }
}

/// The position of the first `c` in `s`, or the length of `s` where it has none.
fn first_index_of(s: &str, c: char) -> (r: usize)
    ensures
        r <= s@.len(),
        forall|j: int| 0 <= j < r ==> s@[j] != c,
        r < s@.len() ==> s@[r as int] == c,
{
    let len = s.unicode_len();
    let mut chars = s.chars();
    let mut i: usize = 0;
    while i < len
        invariant
            len == s@.len(),
            i <= len,
            vstd::std_specs::iter::IteratorSpec::remaining(&chars) == s@.skip(i as int),
            forall|j: int| 0 <= j < i ==> s@[j] != c,
        decreases len - i,
    {
        let next = chars.next();
        assert(s@.skip(i as int)[0] == s@[i as int]);
        assert(s@.skip(i as int).drop_first() == s@.skip(i + 1));
        if next == Some(c) {
            return i;
        }
        i = i + 1;
    }
    i
}

proof fn lemma_first_index_unique(s: Seq<char>, c: char, i: int, k: int)
    requires
        is_first_index(s, c, i),
        is_first_index(s, c, k),
    ensures
        i == k,
{
}

proof fn lemma_first_index_exists(s: Seq<char>, c: char, k: int)
    requires
        0 <= k < s.len(),
        s[k] == c,
    ensures
        exists|i: int| is_first_index(s, c, i),
    decreases k,
{
    if exists|j: int| 0 <= j < k && s[j] == c {
        let j = choose|j: int| 0 <= j < k && s[j] == c;
        lemma_first_index_exists(s, c, j);
    } else {
        assert(is_first_index(s, c, k));
    }
}

/// What [cut_at_first] leaves before the cut holds no `sep`.
proof fn lemma_cut_step_has_no_sep(path: Seq<char>, sep: char, keep: int)
    ensures
        forall|j: int| 0 <= j < cut_at_first(path, sep, keep).0.len() ==> #[trigger] cut_at_first(path, sep, keep).0[j] != sep,
{
    if exists|i: int| is_first_index(path, sep, i) {
        let i = choose|i: int| is_first_index(path, sep, i);
        assert(cut_at_first(path, sep, keep).0 == path.take(i));
    } else {
        assert forall|j: int| 0 <= j < path.len() implies path[j] != sep by {
            if path[j] == sep {
                lemma_first_index_exists(path, sep, j);
            }
        }
    }
}

/// Checks a step as [checked_step] does.
fn check_step<'a>(step: &'a str, rest: Option<&'a str>) -> (r: Result<State<'a>, KeyError>)
    ensures
        crate::types::split_result_view(r) == checked_step(step@, crate::types::opt_str_view(rest)),
        r matches Ok((_, Some(x))) ==> rest == Some(x) && x@.len() > 0,
{
    let len = step.unicode_len();
    let mut chars = step.chars();
    let mut blank = true;
    let mut spaced = false;
    let mut i: usize = 0;
    while i < len
        invariant
            len == step@.len(),
            i <= len,
            vstd::std_specs::iter::IteratorSpec::remaining(&chars) == step@.skip(i as int),
            blank == (forall|j: int| 0 <= j < i ==> is_white_space(#[trigger] step@[j])),
            spaced == (exists|j: int| 0 <= j < i && is_white_space(#[trigger] step@[j])),
        decreases len - i,
    {
        let next = chars.next();
        assert(step@.skip(i as int)[0] == step@[i as int]);
        assert(step@.skip(i as int).drop_first() == step@.skip(i + 1));
        if let Some(d) = next {
            if is_whitespace(d) {
                spaced = true;
            } else {
                blank = false;
            }
        }
        i = i + 1;
    }
    let trailing = match rest {
        Some(r) => {
            proof {
                if r@.len() == 0 {
                    assert(r@ =~= Seq::<char>::empty());
                }
            }
            r.is_empty()
        },
        None => false,
    };
    if blank {
        Err(KeyError::EmptyKey)
    } else if rest.is_some() && spaced {
        Err(KeyError::ParseError(step.to_owned()))
    } else if trailing {
        Err(KeyError::EmptyKey)
    } else {
        Ok((Some(step), rest))
    }
}

/// The default syntax: `[N]` for a position, `.` between steps.
///
/// ```
/// // [0].test.[1]
/// // test.test.[1]
/// ```
pub struct DefaultTokenizer;

impl Tokenizer for DefaultTokenizer {
    /// A position step is `[`, a decimal number, `]`; anything else is a
    /// `ParseError` carrying the step.
    open spec fn index_model(key: Seq<char>) -> Result<usize, IndexErrorView> {
        if key.len() > 2 && key[0] == '[' && key.last() == ']' {
            let inner = key.subrange(1, key.len() - 1);
            if is_usize_numeral(inner) {
                Ok(numeral_value(inner) as usize)
            } else {
                Err(IndexErrorView::IntError(usize_parse_error(inner)))
            }
        } else {
            Err(IndexErrorView::ParseError(key))
        }
    }

    /// The step runs to the first `.`; the remainder is what follows that `.`.
    open spec fn split_model(path: Seq<char>) -> Result<StateView, KeyErrorView> {
        let (step, rest) = cut_at_first(path, '.', 1);
        checked_step(step, rest)
    }

    fn index_parse(key: &str) -> (r: Result<usize, IndexError>) {
        let len = key.unicode_len();
        if len > 2 && key.get_char(0) == '[' && key.get_char(len - 1) == ']' {
            let index = key.substring_char(1, len - 1);
            match parse_usize(index) {
                Ok(n) => Ok(n),
                Err(e) => Err(IndexError::IntError(e)),
            }
        } else {
            Err(IndexError::ParseError(key.to_owned()))
        }
    }

    fn dict_parse(key: &str) -> (r: Result<State, KeyError>) {
        let len = key.unicode_len();
        let idx = first_index_of(key, '.');
        if idx < len {
            proof {
                assert(is_first_index(key@, '.', idx as int));
                let i = choose|i: int| is_first_index(key@, '.', i);
                lemma_first_index_unique(key@, '.', i, idx as int);
            }
            check_step(key.substring_char(0, idx), Some(key.substring_char(idx + 1, len)))
        } else {
            check_step(key, None)
        }
    }
}

/// The slash syntax: every step follows a `/`, and a position is a bare number.
///
/// ```
/// // /0/1/2/3
/// // /test/test/1/test/test/2
/// ```
pub struct SlashTokenizer;

impl Tokenizer for SlashTokenizer {
    /// A position step is a decimal number.
    open spec fn index_model(key: Seq<char>) -> Result<usize, IndexErrorView> {
        if is_usize_numeral(key) {
            Ok(numeral_value(key) as usize)
        } else {
            Err(IndexErrorView::IntError(usize_parse_error(key)))
        }
    }

    /// An empty path is `EmptyKey`; one that does not start with `/` is a
    /// `ParseError` carrying the path. Otherwise the step runs from after the
    /// leading `/` to the next `/`, and the remainder starts at that `/`.
    open spec fn split_model(path: Seq<char>) -> Result<StateView, KeyErrorView> {
        if path.len() == 0 {
            Err(KeyErrorView::EmptyKey)
        } else if path[0] != '/' {
            Err(KeyErrorView::ParseError(path))
        } else {
            let (step, rest) = cut_at_first(path.drop_first(), '/', 0);
            checked_step(step, rest)
        }
    }

    fn index_parse(key: &str) -> (r: Result<usize, IndexError>) {
        match parse_usize(key) {
            Ok(n) => Ok(n),
            Err(e) => Err(IndexError::IntError(e)),
        }
    }

    fn dict_parse(key: &str) -> (r: Result<State, KeyError>) {
        let len = key.unicode_len();
        if len == 0 {
            return Err(KeyError::EmptyKey);
        }
        if key.get_char(0) != '/' {
            return Err(KeyError::ParseError(key.to_owned()));
        }
        let body = key.substring_char(1, len);
        let body_len = len - 1;
        let idx = first_index_of(body, '/');
        if idx < body_len {
            proof {
                assert(is_first_index(body@, '/', idx as int));
                let i = choose|i: int| is_first_index(body@, '/', i);
                lemma_first_index_unique(body@, '/', i, idx as int);
            }
            check_step(body.substring_char(0, idx), Some(body.substring_char(idx, body_len)))
        } else {
            check_step(body, None)
        }
    }
}

/// Round trip of the default syntax: a path that splits is its step, then a
/// `.` and the remainder where there is one; a remainder is never empty.
pub proof fn lemma_default_split_round_trip(path: Seq<char>)
    requires
        DefaultTokenizer::split_model(path) is Ok,
    ensures
        ({
            let (step, rest) = DefaultTokenizer::split_model(path)->Ok_0;
            &&& step is Some
            &&& match rest {
                Some(r) => path == step->Some_0 + seq!['.'] + r && r.len() > 0,
                None => path == step->Some_0,
            }
        }),
{
    let (step, rest) = cut_at_first(path, '.', 1);
    if exists|i: int| is_first_index(path, '.', i) {
        let i = choose|i: int| is_first_index(path, '.', i);
        assert(path == path.take(i) + seq!['.'] + path.skip(i + 1));
        if path.skip(i + 1).len() == 0 {
            assert(path.skip(i + 1) =~= Seq::<char>::empty());
        }
    }
}

/// The default syntax splits at the leftmost `.`: the step holds none.
pub proof fn lemma_default_split_leftmost(path: Seq<char>)
    requires
        DefaultTokenizer::split_model(path) matches Ok((Some(_), _)),
    ensures
        forall|i: int|
            0 <= i < DefaultTokenizer::split_model(path)->Ok_0.0->Some_0.len()
                ==> #[trigger] DefaultTokenizer::split_model(path)->Ok_0.0->Some_0[i] != '.',
{
    lemma_cut_step_has_no_sep(path, '.', 1);
}

/// A path with no `.` that is not blank is split into itself and no remainder.
pub proof fn lemma_default_split_base_case(path: Seq<char>)
    requires
        forall|i: int| 0 <= i < path.len() ==> path[i] != '.',
        !is_blank(path),
    ensures
        DefaultTokenizer::split_model(path) == Ok::<StateView, KeyErrorView>((Some(path), None)),
{
}

/// Round trip of the slash syntax: a path that splits is a `/`, its step,
/// then the remainder (which starts with its own `/`) where there is one.
pub proof fn lemma_slash_split_round_trip(path: Seq<char>)
    requires
        SlashTokenizer::split_model(path) is Ok,
    ensures
        ({
            let (step, rest) = SlashTokenizer::split_model(path)->Ok_0;
            &&& step is Some
            &&& match rest {
                Some(r) => path == seq!['/'] + step->Some_0 + r && r.len() > 0 && r[0] == '/',
                None => path == seq!['/'] + step->Some_0,
            }
        }),
{
    let body = path.drop_first();
    assert(path == seq!['/'] + body);
    if exists|i: int| is_first_index(body, '/', i) {
        let i = choose|i: int| is_first_index(body, '/', i);
        assert(body == body.take(i) + body.skip(i));
    }
}

/// The slash syntax splits at the leftmost `/` after the leading one: the
/// step holds none.
pub proof fn lemma_slash_split_leftmost(path: Seq<char>)
    requires
        SlashTokenizer::split_model(path) matches Ok((Some(_), _)),
    ensures
        forall|i: int|
            0 <= i < SlashTokenizer::split_model(path)->Ok_0.0->Some_0.len()
                ==> #[trigger] SlashTokenizer::split_model(path)->Ok_0.0->Some_0[i] != '/',
{
    lemma_cut_step_has_no_sep(path.drop_first(), '/', 0);
}

/// A `/` followed by a step that is not blank and holds no further `/` is
/// split into that step and no remainder.
pub proof fn lemma_slash_split_base_case(step: Seq<char>)
    requires
        forall|i: int| 0 <= i < step.len() ==> step[i] != '/',
        !is_blank(step),
    ensures
        SlashTokenizer::split_model(seq!['/'] + step) == Ok::<StateView, KeyErrorView>((Some(step), None)),
{
    assert((seq!['/'] + step).drop_first() == step);
}

} // verus!
