//! A plain-data model of YAML documents, and the trusted boundary to the
//! outside YAML parser and emitter.
//!
//! Manifest schema logic in this crate works on [`Yaml`] values, which hold
//! only library types. The outside crate is entered in exactly two places:
//! [`parse_yaml`], whose result is named by the uninterpreted function
//! [`yaml_of`], and [`emit_yaml`], whose contract states that emitting a
//! well-formed, depth-bounded value (see [`emittable`]) succeeds with a text
//! that is a function of the value's model and parses back to the value.

use vstd::prelude::*;

verus! {

/// A YAML document as plain data. Numbers that do not fit `i64`, floats and
/// tagged values are collapsed into [`Yaml::Other`]: the manifest schema
/// rejects them wherever they appear.
#[derive(Debug, PartialEq, Eq)]
pub enum Yaml {
    Null,
    Bool(bool),
    Int(i64),
    Str(String),
    Sequence(Vec<Yaml>),
    Mapping(Vec<(Yaml, Yaml)>),
    Other,
}

/// The document a text parses to: what `serde_yaml::from_str` returns for it,
/// expressed as a [`Yaml`] value, or `None` when parsing fails.
pub uninterp spec fn yaml_of(s: Seq<char>) -> Option<Yaml>;

#[verifier::external_type_specification]
#[verifier::external_body]
pub struct ExYamlValue(serde_yaml::Value);

/// Convert a parsed `serde_yaml::Value` tree into the plain [`Yaml`] model,
/// node by node.
#[verifier::external_body]
fn yaml_from_value(v: serde_yaml::Value) -> Yaml {
    match v {
        serde_yaml::Value::Null => Yaml::Null,
        serde_yaml::Value::Bool(b) => Yaml::Bool(b),
        serde_yaml::Value::Number(n) => n.as_i64().map_or(Yaml::Other, Yaml::Int),
        serde_yaml::Value::String(s) => Yaml::Str(s),
        serde_yaml::Value::Sequence(xs) => Yaml::Sequence(xs.into_iter().map(yaml_from_value).collect()),
        serde_yaml::Value::Mapping(m) => Yaml::Mapping(
            m.into_iter().map(|(k, w)| (yaml_from_value(k), yaml_from_value(w))).collect(),
        ),
        serde_yaml::Value::Tagged(_) => Yaml::Other,
    }
}

/// Convert a plain [`Yaml`] value back into a `serde_yaml::Value` tree for
/// the emitter, node by node.
#[verifier::external_body]
fn value_from_yaml(y: &Yaml) -> serde_yaml::Value {
    match y {
        Yaml::Null => serde_yaml::Value::Null,
        Yaml::Bool(b) => serde_yaml::Value::Bool(*b),
        Yaml::Int(i) => serde_yaml::Value::Number(serde_yaml::Number::from(*i)),
        Yaml::Str(s) => serde_yaml::Value::String(s.clone()),
        Yaml::Sequence(xs) => serde_yaml::Value::Sequence(xs.iter().map(value_from_yaml).collect()),
        Yaml::Mapping(es) => serde_yaml::Value::Mapping(
            es.iter().map(|(k, w)| (value_from_yaml(k), value_from_yaml(w))).collect(),
        ),
        Yaml::Other => serde_yaml::Value::Null,
    }
}

/// Relies on `serde_yaml::from_str::<Value>`: the parsed document is a
/// function of the text alone; the result is converted node by node into a
/// [`Yaml`] value.
#[verifier::external_body]
pub fn parse_yaml(text: &str) -> (r: Option<Yaml>)
    ensures
        r == yaml_of(text@),
{
    match serde_yaml::from_str::<serde_yaml::Value>(text) {
        Ok(v) => Some(yaml_from_value(v)),
        Err(_) => None,
    }
}

/// Mathematical model of a YAML value: the same tree over sequences and
/// character strings.
#[verifier::ext_equal]
pub enum YamlModel {
    Null,
    Bool(bool),
    Int(i64),
    Str(Seq<char>),
    Sequence(Seq<YamlModel>),
    Mapping(Seq<(YamlModel, YamlModel)>),
    Other,
}

/// The model of a value.
pub open spec fn yaml_model(y: Yaml) -> YamlModel
    decreases y, 1int,
{
    match y {
        Yaml::Null => YamlModel::Null,
        Yaml::Bool(b) => YamlModel::Bool(b),
        Yaml::Int(i) => YamlModel::Int(i),
        Yaml::Str(s) => YamlModel::Str(s@),
        Yaml::Sequence(xs) => YamlModel::Sequence(yaml_models(xs@)),
        Yaml::Mapping(es) => YamlModel::Mapping(yaml_pair_models(es@)),
        Yaml::Other => YamlModel::Other,
    }
}

/// The models of a sequence node's children.
pub open spec fn yaml_models(xs: Seq<Yaml>) -> Seq<YamlModel>
    decreases xs, 0int,
{
    if xs.len() == 0 {
        Seq::empty()
    } else {
        yaml_models(xs.drop_last()).push(yaml_model(xs.last()))
    }
}

/// The models of a mapping node's entries.
pub open spec fn yaml_pair_models(es: Seq<(Yaml, Yaml)>) -> Seq<(YamlModel, YamlModel)>
    decreases es, 0int,
{
    if es.len() == 0 {
        Seq::empty()
    } else {
        yaml_pair_models(es.drop_last()).push((yaml_model(es.last().0), yaml_model(es.last().1)))
    }
}

/// Length and elements of the modelled children.
pub proof fn lemma_yaml_models_index(xs: Seq<Yaml>)
    ensures
        yaml_models(xs).len() == xs.len(),
        forall|i: int| 0 <= i < xs.len() ==> yaml_models(xs)[i] == yaml_model(xs[i]),
    decreases xs.len(),
{
    if xs.len() > 0 {
        lemma_yaml_models_index(xs.drop_last());
    }
}

/// Length and elements of the modelled entries.
pub proof fn lemma_yaml_pair_models_index(es: Seq<(Yaml, Yaml)>)
    ensures
        yaml_pair_models(es).len() == es.len(),
        forall|i: int|
            0 <= i < es.len() ==> yaml_pair_models(es)[i] == (
                yaml_model(es[i].0),
                yaml_model(es[i].1),
            ),
    decreases es.len(),
{
    if es.len() > 0 {
        lemma_yaml_pair_models_index(es.drop_last());
    }
}

/// The document text `serde_yaml::to_string` emits for a value with this
/// model: the emitted text is a function of the value's model alone.
pub uninterp spec fn yaml_text(m: YamlModel) -> Seq<char>;

/// A value the emitter handles within `d` nesting levels: no [`Yaml::Other`]
/// anywhere, every mapping keyed by distinct strings, and every scalar,
/// sequence or mapping level consuming one of the `d` levels.
pub open spec fn emittable_to_depth(y: Yaml, d: nat) -> bool
    decreases y,
{
    &&& d > 0
    &&& match y {
        Yaml::Null => true,
        Yaml::Bool(_) => true,
        Yaml::Int(_) => true,
        Yaml::Str(_) => true,
        Yaml::Sequence(xs) => forall|i: int|
            0 <= i < xs@.len() ==> emittable_to_depth(#[trigger] xs@[i], (d - 1) as nat),
        Yaml::Mapping(es) => {
            &&& forall|i: int|
                0 <= i < es@.len() ==> (#[trigger] es@[i].0) is Str && emittable_to_depth(
                    es@[i].1,
                    (d - 1) as nat,
                )
            &&& forall|i: int, j: int|
                0 <= i < j < es@.len() ==> (#[trigger] es@[i].0)->Str_0@ != (
                #[trigger] es@[j].0)->Str_0@
        },
        Yaml::Other => false,
    }
}

/// A value within a smaller depth budget is within a larger one.
pub proof fn lemma_emittable_depth_weaken(y: Yaml, d1: nat, d2: nat)
    requires
        d1 <= d2,
        emittable_to_depth(y, d1),
    ensures
        emittable_to_depth(y, d2),
    decreases y,
{
    match y {
        Yaml::Sequence(xs) => {
            assert forall|i: int|
                0 <= i < xs@.len() implies emittable_to_depth(
                #[trigger] xs@[i],
                (d2 - 1) as nat,
            ) by {
                lemma_emittable_depth_weaken(xs@[i], (d1 - 1) as nat, (d2 - 1) as nat);
            }
        },
        Yaml::Mapping(es) => {
            assert forall|i: int|
                0 <= i < es@.len() implies (#[trigger] es@[i].0) is Str && emittable_to_depth(
                es@[i].1,
                (d2 - 1) as nat,
            ) by {
                lemma_emittable_depth_weaken(es@[i].1, (d1 - 1) as nat, (d2 - 1) as nat);
            }
        },
        _ => {},
    }
}

/// A value the emitter is guaranteed to round-trip: well formed, and nested
/// no deeper than the parser's recursion limit allows to read back.
pub open spec fn emittable(y: Yaml) -> bool {
    emittable_to_depth(y, 100)
}

/// Relies on `serde_yaml::to_string`: emission into memory succeeds on a
/// well-formed value tree; the text is a function of the value's model alone
/// (named by [`yaml_text`]); and, because the emitter quotes scalars that
/// would re-resolve as numbers, booleans or null, the emitted document
/// parses back to the same value. The parser stops at a recursion limit of
/// 128 levels, which is why [`emittable`] bounds nesting depth.
#[verifier::external_body]
pub fn emit_yaml(y: &Yaml) -> (r: Option<String>)
    requires
        emittable(*y),
    ensures
        r is Some,
        match r {
            Some(s) => s@ == yaml_text(yaml_model(*y)) && yaml_of(s@) == Some(*y),
            None => true,
        },
{
    serde_yaml::to_string(&value_from_yaml(y)).ok()
}

/// The value under a string key: the first entry whose key is the string.
pub open spec fn map_lookup_spec(es: Seq<(Yaml, Yaml)>, key: Seq<char>) -> Option<Yaml>
    decreases es.len(),
{
    if es.len() == 0 {
        None
    } else if es.first().0 matches Yaml::Str(k) && k@ == key {
        Some(es.first().1)
    } else {
        map_lookup_spec(es.drop_first(), key)
    }
}

/// Look a string key up in a mapping's entry list.
pub fn map_lookup<'a>(es: &'a Vec<(Yaml, Yaml)>, key: &str) -> (r: Option<&'a Yaml>)
    ensures
        match r {
            Some(v) => map_lookup_spec(es@, key@) == Some(*v),
            None => map_lookup_spec(es@, key@) is None,
        },
{
    let mut i: usize = 0;
    proof {
        assert(es@.skip(0) =~= es@);
    }
    while i < es.len()
        invariant
            i <= es.len(),
            map_lookup_spec(es@, key@) == map_lookup_spec(es@.skip(i as int), key@),
        decreases es.len() - i,
    {
        proof {
            assert(es@.skip(i as int).first() == es@[i as int]);
            assert(es@.skip(i as int).drop_first() =~= es@.skip(i + 1));
        }
        match &es[i].0 {
            Yaml::Str(k) => {
                if crate::text::str_eq(k.as_str(), key) {
                    return Some(&es[i].1);
                }
            },
            _ => {},
        }
        i += 1;
    }
    proof {
        assert(es@.skip(es@.len() as int) =~= Seq::<(Yaml, Yaml)>::empty());
    }
    None
}

/// The string contents of a sequence node's elements, when every element is
/// a string.
pub open spec fn string_list_spec(xs: Seq<Yaml>) -> Option<Seq<Seq<char>>>
    decreases xs.len(),
{
    if xs.len() == 0 {
        Some(Seq::empty())
    } else {
        match string_list_spec(xs.drop_last()) {
            Some(rest) => match xs.last() {
                Yaml::Str(s) => Some(rest.push(s@)),
                _ => None,
            },
            None => None,
        }
    }
}

/// Extract a list of strings from a sequence node.
pub fn string_list(xs: &Vec<Yaml>) -> (r: Option<Vec<String>>)
    ensures
        match r {
            Some(v) => string_list_spec(xs@) == Some(crate::manifest::patterns_view(v@)),
            None => string_list_spec(xs@) is None,
        },
{
    let mut r: Vec<String> = Vec::new();
    let mut i: usize = 0;
    while i < xs.len()
        invariant
            i <= xs.len(),
            string_list_spec(xs@.take(i as int)) == Some(crate::manifest::patterns_view(r@)),
        decreases xs.len() - i,
    {
        proof {
            assert(xs@.take(i + 1).drop_last() =~= xs@.take(i as int));
            assert(xs@.take(i + 1).last() == xs@[i as int]);
        }
        match &xs[i] {
            Yaml::Str(s) => {
                r.push(s.clone());
                proof {
                    assert(crate::manifest::patterns_view(r@) =~= crate::manifest::patterns_view(
                        r@.drop_last(),
                    ).push(s@));
                }
            },
            _ => {
                proof {
                    lemma_string_list_none_extends(xs@, i + 1);
                }
                return None;
            },
        }
        i += 1;
    }
    proof {
        assert(xs@.take(xs@.len() as int) =~= xs@);
    }
    Some(r)
}

/// Once a prefix fails to be a string list, the whole sequence fails too.
proof fn lemma_string_list_none_extends(xs: Seq<Yaml>, i: int)
    requires
        0 <= i <= xs.len(),
        string_list_spec(xs.take(i)) is None,
    ensures
        string_list_spec(xs) is None,
    decreases xs.len() - i,
{
    if i < xs.len() {
        assert(xs.take(i + 1).drop_last() =~= xs.take(i));
        lemma_string_list_none_extends(xs, i + 1);
    } else {
        assert(xs.take(i) =~= xs);
    }
}

} // verus!
