//! The two strategies a lookup is generic over: how a path is tokenized
//! ([Tokenizer]) and how a value is descended ([Queryable]).
//!
//! [Query::query] is written once for every value type: an implementor of
//! [Queryable] only says what kind each value is and how to take one step into it.
use vstd::prelude::*;

use crate::error::{Error, ErrorView, IndexError, IndexErrorView, KeyError, KeyErrorView};
use crate::kind::QueryKind;

verus! {

/// What [Tokenizer::dict_parse] returns: the current step, and the rest of
/// the path after it (`None` when the current step is the last one).
pub type State<'a> = (Option<&'a str>, Option<&'a str>);

/// A [State] with each piece seen as its characters.
pub type StateView = (Option<Seq<char>>, Option<Seq<char>>);

pub open spec fn opt_str_view(s: Option<&str>) -> Option<Seq<char>> {
    match s {
        Some(t) => Some(t@),
        None => None,
    }
}

pub open spec fn state_view(s: State) -> StateView {
    (opt_str_view(s.0), opt_str_view(s.1))
}

pub open spec fn split_result_view(r: Result<State, KeyError>) -> Result<StateView, KeyErrorView> {
    match r {
        Ok(s) => Ok(state_view(s)),
        Err(e) => Err(e@),
    }
}

pub open spec fn index_result_view(r: Result<usize, IndexError>) -> Result<usize, IndexErrorView> {
    match r {
        Ok(i) => Ok(i),
        Err(e) => Err(e@),
    }
}

pub open spec fn query_result_view<V>(r: Result<V, Error>) -> Result<V, ErrorView> {
    match r {
        Ok(v) => Ok(v),
        Err(e) => Err(e@),
    }
}

/// The syntax of a path.
///
/// Implement it for a syntax of your own; [DefaultTokenizer](crate::default::DefaultTokenizer)
/// and [SlashTokenizer](crate::default::SlashTokenizer) are two.
///
/// An implementation verified with Verus defines the two spec functions below
/// as what its methods return. Their default bodies reject every input; they
/// are there so that a type implemented in plain Rust compiles, and nothing
/// is proved of such a type.
pub trait Tokenizer {
    /// What [Tokenizer::index_parse] returns for a step.
    open spec fn index_model(key: Seq<char>) -> Result<usize, IndexErrorView> {
        Err(IndexErrorView::ParseError(key))
    }

    /// What [Tokenizer::dict_parse] returns for a path.
    open spec fn split_model(path: Seq<char>) -> Result<StateView, KeyErrorView> {
        Err(KeyErrorView::ParseError(path))
    }

    /// Reads a step as an array index; called when the value at hand is a
    /// [QueryKind::Array].
    fn index_parse(key: &str) -> (r: Result<usize, IndexError>)
        ensures
            index_result_view(r) == Self::index_model(key@),
    ;

    /// Splits a path into its first step and the rest. A remainder is never
    /// empty (only `None` marks the last step), and always shorter than the
    /// path, so a lookup ends.
    fn dict_parse(key: &str) -> (r: Result<State, KeyError>)
        ensures
            split_result_view(r) == Self::split_model(key@),
            r matches Ok((_, Some(rest))) ==> 0 < rest@.len() < key@.len(),
    ;
}

/// A value that a path can be resolved against.
///
/// An implementation verified with Verus defines the three spec functions
/// below as what its methods return. Their default bodies describe a leaf;
/// they are there so that a type implemented in plain Rust compiles, and
/// nothing is proved of such a type.
pub trait Queryable where Self: Sized {
    /// What [Queryable::query_kind] returns.
    open spec fn kind_model(&self) -> Option<QueryKind> {
        None
    }

    /// What [Queryable::query_dict] returns.
    open spec fn dict_model(&self, key: Seq<char>) -> Result<Self, ErrorView> {
        Err(ErrorView::UnknownType(key))
    }

    /// What [Queryable::query_array] returns.
    open spec fn array_model(&self, idx: usize) -> Result<Self, ErrorView> {
        Err(ErrorView::IndexNotExist(idx))
    }

    /// Classifies `self`: `None` for a leaf.
    fn query_kind(&self) -> (r: Option<QueryKind>)
        ensures
            r == self.kind_model(),
    ;

    /// Takes the entry of `self` under the key `path`.
    fn query_dict(&self, path: &str) -> (r: Result<Self, Error>)
        ensures
            query_result_view(r) == self.dict_model(path@),
    ;

    /// Takes the element of `self` at position `idx`.
    fn query_array(&self, idx: usize) -> (r: Result<Self, Error>)
        ensures
            query_result_view(r) == self.array_model(idx),
    ;
}

/// Path resolution, for every [Queryable] type.
///
/// Kept apart from [Queryable] so that an implementor writes only the three
/// one-step methods; `value.query::<T>(path)` is available on every such value.
pub trait Query: Queryable {
    /// Resolves `path` against `self`, with the syntax of `T`.
    fn query<T: Tokenizer>(&self, path: &str) -> (r: Result<Self, Error>)
        ensures
            query_result_view(r) == query_model::<Self, T>(*self, path@),
    ;
}

impl<V: Queryable> Query for V {
    fn query<T: Tokenizer>(&self, path: &str) -> (r: Result<V, Error>) {
        resolve::<V, T>(self, path)
    }
}

/// The recursive descent behind [Query::query].
fn resolve<V: Queryable, T: Tokenizer>(v: &V, path: &str) -> (r: Result<V, Error>)
    ensures
        query_result_view(r) == query_model::<V, T>(*v, path@),
    decreases path@.len(),
{
    let kind = match v.query_kind() {
        Some(k) => k,
        None => return Err(Error::UnknownType(path.to_owned())),
    };
    let tokens = match T::dict_parse(path) {
        Ok(t) => t,
        Err(e) => return Err(Error::KeyError(e)),
    };
    let step = match tokens.0 {
        Some(s) => s,
        None => return Err(Error::EmptyPath(kind)),
    };
    let child = match kind {
        QueryKind::Dictionary => v.query_dict(step),
        QueryKind::Array => match T::index_parse(step) {
            Ok(idx) => v.query_array(idx),
            Err(e) => return Err(Error::IndexError(e)),
        },
    };
    match tokens.1 {
        // base case: the step just taken was the last one
        None => child,
        Some(next) => match child {
            Ok(c) => resolve::<V, T>(&c, next),
            Err(e) => Err(e),
        },
    }
}

/// The value one step takes `v` to: by key in a dictionary, by the index that
/// `T` reads from the step in an array.
pub open spec fn step_model<V: Queryable, T: Tokenizer>(v: V, kind: QueryKind, step: Seq<char>) -> Result<V, ErrorView> {
    match kind {
        QueryKind::Dictionary => v.dict_model(step),
        QueryKind::Array => match T::index_model(step) {
            Ok(idx) => v.array_model(idx),
            Err(e) => Err(ErrorView::IndexError(e)),
        },
    }
}

/// What resolving `path` against `v` gives with the syntax of `T`.
///
/// A leaf fails with `UnknownType` whatever the path. Otherwise the path is
/// split; the first step is taken; with no remainder its result is the
/// answer, else the remainder is resolved against the child. The first
/// error met is the answer.
pub open spec fn query_model<V: Queryable, T: Tokenizer>(v: V, path: Seq<char>) -> Result<V, ErrorView>
    decreases path.len(),
{
    match v.kind_model() {
        None => Err(ErrorView::UnknownType(path)),
        Some(kind) => match T::split_model(path) {
            Err(e) => Err(ErrorView::KeyError(e)),
            Ok((None, _)) => Err(ErrorView::EmptyPath(kind)),
            Ok((Some(step), rest)) => match step_model::<V, T>(v, kind, step) {
                Err(e) => Err(e),
                Ok(child) => match rest {
                    None => Ok(child),
                    Some(next) => if next.len() < path.len() {
                        query_model::<V, T>(child, next)
                    } else {
                        // not reached: Tokenizer::dict_parse only hands out shorter remainders
                        Err(ErrorView::EmptyPath(kind))
                    },
                },
            },
        },
    }
}

/// A leaf answers every path, the empty one included, with `UnknownType`
/// carrying that path: never `EmptyPath`, never `KeyNotExist`, whatever the syntax.
pub proof fn lemma_leaf_is_unknown_type<V: Queryable, T: Tokenizer>(v: V, path: Seq<char>)
    requires
        v.kind_model() is None,
    ensures
        query_model::<V, T>(v, path) == Err::<V, ErrorView>(ErrorView::UnknownType(path)),
{
}

/// When the tokenizer finds a last step (no remainder), the answer is what
/// that one step gives: the lookup descends once and goes no further.
pub proof fn lemma_last_step_is_terminal<V: Queryable, T: Tokenizer>(v: V, path: Seq<char>, step: Seq<char>)
    requires
        v.kind_model() is Some,
        T::split_model(path) == Ok::<StateView, KeyErrorView>((Some(step), None)),
    ensures
        query_model::<V, T>(v, path) == step_model::<V, T>(v, v.kind_model()->Some_0, step),
{
}

} // verus!
