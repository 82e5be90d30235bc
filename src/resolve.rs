use vstd::prelude::*;
use crate::catalog::{all_have_source, has_source, Catalog};
use crate::env::Environment;
use crate::error::{Error, ErrorView};
use crate::field::{
    decimal_text, literal_text, parse_as, parse_text, DefaultLiteral, FieldSpec, FieldType, Value,
    ValueView,
};

verus! {

/// What resolving field `f` against the environment `env` yields.
///
/// An environment value, when the field names a key that is set, is parsed
/// as the field's type. Otherwise the default's canonical text is parsed.
/// A field whose key is unset and that has no default is missing.
pub open spec fn field_outcome(f: FieldSpec, env: Map<Seq<char>, Seq<char>>) -> Result<
    ValueView,
    ErrorView,
> {
    if f.env is Some && env.contains_key(f.env->Some_0@) {
        let key = f.env->Some_0@;
        match parse_text(f.ty, env[key]) {
            Some(v) => Ok(v),
            None => Err(ErrorView::EnvParse(key, env[key])),
        }
    } else if f.default is Some {
        let text = literal_text(f.default->Some_0);
        match parse_text(f.ty, text) {
            Some(v) => Ok(v),
            None => Err(ErrorView::DefaultParse(f.name@, text)),
        }
    } else {
        Err(ErrorView::MissingEnv(f.env->Some_0@))
    }
}

/// What resolving the fields in order yields: the value of every field, or
/// the error of the first field that fails.
pub open spec fn resolution(fields: Seq<FieldSpec>, env: Map<Seq<char>, Seq<char>>) -> Result<
    Seq<ValueView>,
    ErrorView,
>
    decreases fields.len(),
{
    if fields.len() == 0 {
        Ok(Seq::empty())
    } else {
        match resolution(fields.drop_last(), env) {
            Ok(values) => match field_outcome(fields.last(), env) {
                Ok(v) => Ok(values.push(v)),
                Err(e) => Err(e),
            },
            Err(e) => Err(e),
        }
    }
}

/// The models of a sequence of values.
pub open spec fn values_view(values: Seq<Value>) -> Seq<ValueView> {
    values.map_values(|v: Value| v@)
}

/// The model of a single field's result.
pub open spec fn field_result_view(r: Result<Value, Error>) -> Result<ValueView, ErrorView> {
    match r {
        Ok(v) => Ok(v@),
        Err(e) => Err(e@),
    }
}

/// The model of a record's result.
pub open spec fn record_result_view(r: Result<Vec<Value>, Error>) -> Result<
    Seq<ValueView>,
    ErrorView,
> {
    match r {
        Ok(values) => Ok(values_view(values@)),
        Err(e) => Err(e@),
    }
}

/// Resolves one field against the environment. The field must name an
/// environment key or a default, as every field of a [`Catalog`] does.
pub fn resolve_field(f: &FieldSpec, env: &Environment) -> (r: Result<Value, Error>)
    requires
        has_source(*f),
    ensures
        field_result_view(r) == field_outcome(*f, env@),
{
    let set = match &f.env {
        Some(key) => match env.get(key.as_str()) {
            Some(raw) => Some((key, raw)),
            None => None,
        },
        None => None,
    };
    match set {
        Some((key, raw)) => match parse_as(f.ty, raw.as_str()) {
            Some(v) => Ok(v),
            None => Err(Error::EnvParse(key.clone(), raw)),
        },
        None => match &f.default {
            Some(d) => {
                let text = d.normalize();
                match parse_as(f.ty, text.as_str()) {
                    Some(v) => Ok(v),
                    None => Err(Error::DefaultParse(f.name.clone(), text)),
                }
            },
            None => match &f.env {
                Some(key) => Err(Error::MissingEnv(key.clone())),
                // excluded by the precondition
                None => Err(Error::MissingEnv(String::new())),
            },
        },
    }
}

/// Once a prefix of the fields fails, every longer prefix fails with the
/// same error.
proof fn lemma_error_persists(fields: Seq<FieldSpec>, env: Map<Seq<char>, Seq<char>>, i: int)
    requires
        0 <= i <= fields.len(),
        resolution(fields.subrange(0, i), env) is Err,
    ensures
        resolution(fields, env) == resolution(fields.subrange(0, i), env),
    decreases fields.len(),
{
    if fields.len() > i {
        assert(fields.drop_last().subrange(0, i) =~= fields.subrange(0, i));
        lemma_error_persists(fields.drop_last(), env, i);
    } else {
        assert(fields.subrange(0, i) =~= fields);
    }
}

/// Resolves every field of the catalog in declaration order, stopping at the
/// first field that fails.
pub fn resolve(catalog: &Catalog, env: &Environment) -> (r: Result<Vec<Value>, Error>)
    ensures
        record_result_view(r) == resolution(catalog@, env@),
{
    let fields = catalog.fields();
    let mut values: Vec<Value> = Vec::new();
    let mut i: usize = 0;
    assert(fields@.subrange(0, 0) =~= Seq::<FieldSpec>::empty());
    assert(values_view(values@) =~= Seq::<ValueView>::empty());
    while i < fields.len()
        invariant
            i <= fields@.len(),
            fields@ == catalog@,
            all_have_source(fields@),
            resolution(fields@.subrange(0, i as int), env@) == Ok::<Seq<ValueView>, ErrorView>(values_view(values@)),
        decreases fields@.len() - i,
    {
        let r = resolve_field(&fields[i], env);
        proof {
            assert(fields@.subrange(0, i + 1).drop_last() =~= fields@.subrange(0, i as int));
        }
        match r {
            Ok(v) => {
                let ghost before = values@;
                values.push(v);
                assert(values_view(values@) =~= values_view(before).push(v@));
            },
            Err(e) => {
                proof {
                    lemma_error_persists(fields@, env@, i + 1);
                }
                return Err(e);
            },
        }
        i = i + 1;
    }
    assert(fields@.subrange(0, i as int) =~= fields@);
    Ok(values)
}

/// Fail-fast: when every field before `i` resolves and field `i` fails, the
/// record fails with the error of field `i`, and the fields after it play no
/// part in the result.
pub proof fn lemma_first_failure_decides(
    fields: Seq<FieldSpec>,
    env: Map<Seq<char>, Seq<char>>,
    i: int,
)
    requires
        0 <= i < fields.len(),
        resolution(fields.subrange(0, i), env) is Ok,
        field_outcome(fields[i], env) is Err,
    ensures
        resolution(fields, env) == Err::<Seq<ValueView>, ErrorView>(
            field_outcome(fields[i], env)->Err_0,
        ),
        resolution(fields, env) == resolution(fields.subrange(0, i + 1), env),
{
    assert(fields.subrange(0, i + 1).drop_last() =~= fields.subrange(0, i));
    lemma_error_persists(fields, env, i + 1);
}

/// A field with an environment key and no default, whose key is unset, makes
/// the record fail with `MissingEnv` of that key once the fields before it
/// resolve; no later field is looked at.
pub proof fn lemma_missing_env(fields: Seq<FieldSpec>, env: Map<Seq<char>, Seq<char>>, i: int)
    requires
        0 <= i < fields.len(),
        resolution(fields.subrange(0, i), env) is Ok,
        fields[i].env is Some,
        fields[i].default is None,
        !env.contains_key(fields[i].env->Some_0@),
    ensures
        resolution(fields, env) == Err::<Seq<ValueView>, ErrorView>(
            ErrorView::MissingEnv(fields[i].env->Some_0@),
        ),
        resolution(fields, env) == resolution(fields.subrange(0, i + 1), env),
{
    lemma_first_failure_decides(fields, env, i);
}

/// A field with a key and a default, whose key is set to text that does not
/// parse as the field's type, fails with `EnvParse` of the key and exactly
/// that text; the default is not used.
pub proof fn lemma_env_parse_error(f: FieldSpec, env: Map<Seq<char>, Seq<char>>)
    requires
        f.env is Some,
        f.default is Some,
        env.contains_key(f.env->Some_0@),
        parse_text(f.ty, env[f.env->Some_0@]) is None,
    ensures
        field_outcome(f, env) == Err::<ValueView, ErrorView>(
            ErrorView::EnvParse(f.env->Some_0@, env[f.env->Some_0@]),
        ),
{
}

/// A field with a key and a default, whose key is unset and whose default
/// text does not parse as the field's type, fails with `DefaultParse` of the
/// field name and the default text.
pub proof fn lemma_default_parse_error(f: FieldSpec, env: Map<Seq<char>, Seq<char>>)
    requires
        f.env is Some,
        f.default is Some,
        !env.contains_key(f.env->Some_0@),
        parse_text(f.ty, literal_text(f.default->Some_0)) is None,
    ensures
        field_outcome(f, env) == Err::<ValueView, ErrorView>(
            ErrorView::DefaultParse(f.name@, literal_text(f.default->Some_0)),
        ),
{
}

/// Two resolutions of the same catalog against the same environment give
/// equal results.
pub proof fn lemma_resolve_idempotent(
    catalog: Catalog,
    env: Environment,
    r1: Result<Vec<Value>, Error>,
    r2: Result<Vec<Value>, Error>,
)
    requires
        record_result_view(r1) == resolution(catalog@, env@),
        record_result_view(r2) == resolution(catalog@, env@),
    ensures
        record_result_view(r1) == record_result_view(r2),
{
}

/// Of two mandatory fields whose keys are both unset, the one declared first
/// is reported: `[a, b]` fails on `a`'s key and `[b, a]` on `b`'s.
pub proof fn lemma_order_decides(a: FieldSpec, b: FieldSpec, env: Map<Seq<char>, Seq<char>>)
    requires
        a.env is Some,
        a.default is None,
        !env.contains_key(a.env->Some_0@),
        b.env is Some,
        b.default is None,
        !env.contains_key(b.env->Some_0@),
    ensures
        resolution(seq![a, b], env) == Err::<Seq<ValueView>, ErrorView>(
            ErrorView::MissingEnv(a.env->Some_0@),
        ),
        resolution(seq![b, a], env) == Err::<Seq<ValueView>, ErrorView>(
            ErrorView::MissingEnv(b.env->Some_0@),
        ),
{
    assert(seq![a, b].subrange(0, 0) =~= Seq::<FieldSpec>::empty());
    assert(seq![b, a].subrange(0, 0) =~= Seq::<FieldSpec>::empty());
    lemma_missing_env(seq![a, b], env, 0);
    lemma_missing_env(seq![b, a], env, 0);
}

/// A text field whose default is a number literal, and whose value does not
/// come from the environment, resolves to the decimal text of that number.
pub proof fn lemma_number_default_as_text(f: FieldSpec, env: Map<Seq<char>, Seq<char>>, n: u64)
    requires
        f.ty == FieldType::Text,
        f.default == Some(DefaultLiteral::Number(n)),
        f.env is None || !env.contains_key(f.env->Some_0@),
    ensures
        field_outcome(f, env) == Ok::<ValueView, ErrorView>(ValueView::Text(decimal_text(n as nat))),
{
}

} // verus!
