//! Trusted boundary to the JSON parser, the filter engine and the path
//! enumerator.  Everything here either names what an outside call returns or
//! wraps the call itself; the logic around these calls is verified elsewhere.

use vstd::prelude::*;

use jaq_interpret::{Ctx, FilterT, ParseCtx, RcIter, Val};
use jaq_parse::{defs, main as parse_main, parse as parse_filter};
use core::iter::empty as no_inputs;
use serde_json::{from_str, Number, Value};

verus! {

/// Canonical texts of the JSON values parsed from `input`, in order, or
/// nothing when `input` is not a stream of JSON values.
pub uninterp spec fn json_docs_of(input: Seq<char>) -> Option<Seq<Seq<char>>>;

/// Canonical texts of the values the filter engine produces for `query` over
/// the single JSON document `doc`, or nothing when the engine rejects the
/// query or fails on this document.
pub uninterp spec fn jaq_eval(query: Seq<char>, doc: Seq<char>) -> Option<Seq<Seq<char>>>;

/// The JSON paths the path enumerator yields over the values parsed from
/// `input`, or nothing when `input` is not a stream of JSON values.
pub uninterp spec fn paths_of(input: Seq<char>) -> Option<Seq<Seq<char>>>;

/// Relies on serde_json's stream deserializer: it yields every JSON value of
/// the input text in order, and `Value::to_string` renders each one
/// canonically; both depend on the input text alone.
#[verifier::external_body]
pub fn parse_json_stream(input: &str) -> (r: Result<Vec<String>, String>)
    ensures
        match r {
            Ok(docs) => json_docs_of(input@) == Some(docs.deep_view()),
            Err(_) => json_docs_of(input@) is None,
        },
{
    let mut docs = Vec::new();
    for item in serde_json::Deserializer::from_str(input).into_iter::<serde_json::Value>() {
        match item {
            Ok(v) => docs.push(v.to_string()),
            Err(e) => return Err(e.to_string()),
        }
    }
    Ok(docs)
}

#[verifier::external_type_specification]
#[verifier::external_body]
pub struct ExValue(serde_json::Value);

#[verifier::external_type_specification]
#[verifier::external_body]
pub struct ExVal(jaq_interpret::Val);

#[verifier::external_type_specification]
#[verifier::external_body]
#[verifier::reject_recursive_types(V)]
pub struct ExJaqError<V>(jaq_interpret::Error<V>);

/// Relies on jaq's value type and serde_json: converts one produced value,
/// mirroring jaq's own conversion to serde_json values arm by arm, except
/// that a decimal literal outside serde_json's number range is reported as
/// an error where jaq's conversion would crash.
#[verifier::external_body]
fn val_to_value(v: &Val) -> Result<Value, String> {
    Ok(match v {
        Val::Null => Value::Null,
        Val::Bool(b) => Value::from(*b),
        Val::Int(i) => Value::from(*i),
        Val::Float(f) => Number::from_f64(*f).map_or(Value::Null, Value::Number),
        Val::Num(n) => Value::Number(n.parse().map_err(|_| String::new())?),
        Val::Str(s) => Value::from((**s).clone()),
        Val::Arr(a) => Value::Array(a.iter().map(val_to_value).collect::<Result<_, _>>()?),
        Val::Obj(_) => obj_to_value(v)?,
    })
}

/// Relies on jaq's object representation: converts one produced object's
/// entries in order, through the same fallible value conversion.
#[verifier::external_body]
fn obj_to_value(v: &Val) -> Result<Value, String> {
    match v {
        Val::Obj(o) => Ok(Value::Object(o.iter().map(|(k, x)| val_to_value(x).map(|u| ((**k).clone(), u))).collect::<Result<_, _>>()?)),
        _ => Err(String::new()),
    }
}

/// Relies on serde_json's canonical rendering of one converted value.
#[verifier::external_body]
fn val_to_text(v: Val) -> Result<String, String> {
    Ok(val_to_value(&v)?.to_string())
}

/// Relies on the jaq parser, compiler and interpreter, loaded with jaq's core
/// natives and standard definitions: evaluating `query` over the JSON value
/// in `doc` yields a sequence of values, each rendered canonically by
/// serde_json.  The two impure builtins, `env` and `now`, are shadowed by
/// failing definitions, so the result depends on the query and the document
/// alone; a produced number that serde_json cannot represent is an error,
/// where jaq's own conversion would crash.
#[verifier::external_body]
pub fn jaq_run_one(query: &str, doc: &str) -> (r: Result<Vec<String>, String>)
    ensures
        match r {
            Ok(vals) => jaq_eval(query@, doc@) == Some(vals.deep_view()),
            Err(_) => jaq_eval(query@, doc@) is None,
        },
{
    let d: Value = from_str(doc).map_err(|_| String::new())?;
    let mut ctx = ParseCtx::new(vec![]);
    ctx.insert_natives(jaq_core::core());
    ctx.insert_defs(jaq_std::std());
    ctx.insert_defs(parse_filter("def env: error; def now: error;", defs()).0.unwrap_or_default());
    let main = match parse_filter(query, parse_main()) {
        (Some(m), e) if e.is_empty() => m,
        _ => return Err(String::new()),
    };
    Ok(FilterT::run(&ctx.compile(main), (Ctx::new([], &RcIter::new(no_inputs())), Val::from(d))).map_while(|x| x.ok().map(val_to_text)).collect::<Result<_, _>>()?)
}

/// Relies on the path enumerator over parsed JSON values: the set of paths
/// it walks depends on the parsed values alone.
#[verifier::external_body]
pub fn enumerate_paths(input: &str) -> (r: Result<Vec<String>, String>)
    ensures
        match r {
            Ok(paths) => paths_of(input@) == Some(paths.deep_view()),
            Err(_) => paths_of(input@) is None,
        },
{
    let stream = serde_json::Deserializer::from_str(input).into_iter::<serde_json::Value>();
    let values = match stream.collect::<Result<Vec<serde_json::Value>, _>>() {
        Ok(values) => values,
        Err(e) => return Err(e.to_string()),
    };
    Ok(promkit::promkit_widgets::jsonstream::jsonz::get_all_paths(values.iter()).collect())
}

/// Evaluation over a whole document stream, starting at element `i`: the
/// per-document results are concatenated; the first engine failure aborts
/// the evaluation.
pub open spec fn eval_stream_from(query: Seq<char>, docs: Seq<Seq<char>>, i: int) -> Option<
    Seq<Seq<char>>,
>
    decreases docs.len() - i,
{
    if i < 0 || i >= docs.len() {
        Some(Seq::empty())
    } else {
        match jaq_eval(query, docs[i]) {
            Some(head) => match eval_stream_from(query, docs, i + 1) {
                Some(rest) => Some(head + rest),
                None => None,
            },
            None => None,
        }
    }
}

/// Evaluation of `query` over every document of the stream in order.
pub open spec fn eval_stream(query: Seq<char>, docs: Seq<Seq<char>>) -> Option<Seq<Seq<char>>> {
    eval_stream_from(query, docs, 0)
}

/// Appends every element of `src` to `dst`.
fn append_all(dst: &mut Vec<String>, src: Vec<String>)
    ensures
        final(dst).deep_view() == old(dst).deep_view() + src.deep_view(),
{
    let ghost before = *dst;
    let ghost src_before = src;
    let mut src = src;
    dst.append(&mut src);
    proof {
        crate::strutil::lemma_deep_view_pointwise(before);
        crate::strutil::lemma_deep_view_pointwise(src_before);
        crate::strutil::lemma_deep_view_pointwise(*dst);
        assert(dst@ == before@ + src_before@);
        assert forall|j: int| 0 <= j < dst@.len() implies dst.deep_view()[j] == (
        before.deep_view() + src_before.deep_view())[j] by {
            assert(dst.deep_view()[j] == dst@[j]@);
            if j < before@.len() {
                assert(dst@[j] == before@[j]);
            } else {
                assert(dst@[j] == src_before@[j - before@.len()]);
            }
        }
        assert(dst.deep_view() =~= before.deep_view() + src_before.deep_view());
    }
}

/// Runs the filter over each document of the stream and concatenates the
/// results; the first engine failure is returned as the error.
pub fn run_filter(query: &str, docs: &Vec<String>) -> (r: Result<Vec<String>, String>)
    ensures
        match r {
            Ok(vals) => eval_stream(query@, docs.deep_view()) == Some(vals.deep_view()),
            Err(_) => eval_stream(query@, docs.deep_view()) is None,
        },
{
    let n = docs.len();
    let mut acc: Vec<String> = Vec::new();
    let mut i: usize = 0;
    while i < n
        invariant
            i <= n,
            n == docs@.len(),
            docs.deep_view().len() == docs@.len(),
            eval_stream(query@, docs.deep_view()) == match eval_stream_from(
                query@,
                docs.deep_view(),
                i as int,
            ) {
                Some(rest) => Some(acc.deep_view() + rest),
                None => None::<Seq<Seq<char>>>,
            },
        decreases n - i,
    {
        proof {
            assert(docs.deep_view()[i as int] == docs@[i as int]@);
        }
        match jaq_run_one(query, docs[i].as_str()) {
            Ok(vals) => {
                let ghost acc_before = acc.deep_view();
                let ghost vals_view = vals.deep_view();
                append_all(&mut acc, vals);
                proof {
                    let dv = docs.deep_view();
                    assert(eval_stream_from(query@, dv, i as int) == match eval_stream_from(
                        query@,
                        dv,
                        i as int + 1,
                    ) {
                        Some(rest) => Some(vals_view + rest),
                        None => None::<Seq<Seq<char>>>,
                    });
                    match eval_stream_from(query@, dv, i as int + 1) {
                        Some(rest) => {
                            assert(acc.deep_view() + rest =~= acc_before + (vals_view + rest));
                        },
                        None => {},
                    }
                }
                i += 1;
            },
            Err(e) => {
                proof {
                    assert(eval_stream_from(query@, docs.deep_view(), i as int) is None);
                }
                return Err(e);
            },
        }
    }
    proof {
        assert(eval_stream_from(query@, docs.deep_view(), n as int) == Some(
            Seq::<Seq<char>>::empty(),
        ));
        assert(acc.deep_view() + Seq::<Seq<char>>::empty() =~= acc.deep_view());
    }
    Ok(acc)
}

} // verus!
