//! Build attribute resolution: an explicit attribute list is prefixed for
//! the build tool, and an empty one is resolved by flattening the nested
//! result of evaluating all buildable attributes into dotted names.

use vstd::prelude::*;

use crate::errors::OrchestratorError;
use crate::strutil;

verus! {

/// The shape of the evaluated build output: nested string-keyed attribute
/// sets with arbitrary leaves.
pub enum AttrTree {
    Leaf,
    Attrs(Vec<(String, AttrTree)>),
}

/// What decoding the evaluated build output yields: its attribute shape,
/// every non-object collapsed to a leaf; `None` when the output is not
/// well-formed. It depends on the output text alone.
pub uninterp spec fn build_tree_of(s: Seq<char>) -> Option<AttrTree>;

#[verifier::external_type_specification]
#[verifier::external_body]
pub struct ExJsonValue(serde_json::Value);

/// Relies on serde_json::Value's object accessor: copies a decoded
/// value's attribute shape, one entry per object key in order, collapsing
/// every non-object value to a leaf.
#[verifier::external_body]
fn value_to_tree(v: &serde_json::Value) -> AttrTree {
    match v.as_object() {
        Some(m) => AttrTree::Attrs(
            m.iter().map(|(k, val)| (k.clone(), value_to_tree(val))).collect(),
        ),
        None => AttrTree::Leaf,
    }
}

/// Relies on serde_json's parser: decodes the evaluated build output into
/// its attribute shape; `None` when the output is not well-formed.
#[verifier::external_body]
fn parse_build_output(raw: &str) -> (r: Option<AttrTree>)
    ensures
        match r {
            Some(tree) => build_tree_of(raw@) == Some(tree),
            None => build_tree_of(raw@) is None,
        },
{
    let v: serde_json::Value = serde_json::from_str(raw).ok()?;
    Some(value_to_tree(&v))
}

/// The dotted names under one subtree: a leaf is the prefix itself, under
/// the fixed root namespace; an attribute set extends the prefix by each
/// key.
pub open spec fn flattened_tree(prefix: Seq<char>, t: AttrTree) -> Seq<Seq<char>>
    decreases t,
{
    match t {
        AttrTree::Leaf => seq!["devenv."@ + prefix],
        AttrTree::Attrs(entries) => flattened_entries(prefix, entries@),
    }
}

/// The dotted names under an attribute set's entries, in order.
pub open spec fn flattened_entries(prefix: Seq<char>, entries: Seq<(String, AttrTree)>) -> Seq<
    Seq<char>,
>
    decreases entries,
{
    if entries.len() == 0 {
        Seq::empty()
    } else {
        flattened_entries(prefix, entries.drop_last()) + flattened_tree(
            prefix + "."@ + entries.last().0@,
            entries.last().1,
        )
    }
}

/// The dotted names of a whole evaluated output: each top-level key starts
/// its own prefix.
pub open spec fn flattened_top(entries: Seq<(String, AttrTree)>) -> Seq<Seq<char>>
    decreases entries,
{
    if entries.len() == 0 {
        Seq::empty()
    } else {
        flattened_top(entries.drop_last()) + flattened_tree(
            entries.last().0@,
            entries.last().1,
        )
    }
}

/// Appends the dotted names under one subtree to `acc`.
fn flatten_tree_into(prefix: &str, t: &AttrTree, acc: &mut Vec<String>)
    ensures
        final(acc)@.map_values(|s: String| s@) == old(acc)@.map_values(|s: String| s@)
            + flattened_tree(prefix@, *t),
    decreases *t,
{
    match t {
        AttrTree::Leaf => {
            let ghost prev = acc@.map_values(|s: String| s@);
            let name = strutil::concat_strs("devenv.", prefix);
            acc.push(name);
            proof {
                assert(acc@.map_values(|s: String| s@) =~= prev + seq!["devenv."@ + prefix@]);
            }
        },
        AttrTree::Attrs(entries) => {
            let ghost base = acc@.map_values(|s: String| s@);
            let mut i: usize = 0;
            proof {
                assert(entries@.take(0) =~= Seq::<(String, AttrTree)>::empty());
                assert(base + flattened_entries(prefix@, entries@.take(0)) =~= base);
            }
            while i < entries.len()
                invariant
                    i <= entries@.len(),
                    *t == AttrTree::Attrs(*entries),
                    acc@.map_values(|s: String| s@) == base + flattened_entries(
                        prefix@,
                        entries@.take(i as int),
                    ),
                decreases entries@.len() - i,
            {
                let ghost before = acc@.map_values(|s: String| s@);
                let extended = {
                    let mut p = String::from_str(prefix);
                    p.append(".");
                    p.append(entries[i].0.as_str());
                    p
                };
                proof {
                    assert(t->Attrs_0 == *entries);
                    assert(decreases_to!(*t => t->Attrs_0));
                    assert(decreases_to!(*entries => entries@));
                    assert(decreases_to!(entries@ => entries@[i as int]));
                    assert(decreases_to!(entries@[i as int] => entries@[i as int].1));
                }
                flatten_tree_into(extended.as_str(), &entries[i].1, acc);
                proof {
                    assert(entries@.take(i + 1).drop_last() =~= entries@.take(i as int));
                    assert(entries@.take(i + 1).last() == entries@[i as int]);
                    assert(base + flattened_entries(prefix@, entries@.take(i + 1)) =~= (base
                        + flattened_entries(prefix@, entries@.take(i as int))) + flattened_tree(
                        prefix@ + "."@ + entries@[i as int].0@,
                        entries@[i as int].1,
                    ));
                }
                i = i + 1;
            }
            proof {
                assert(entries@.take(entries@.len() as int) =~= entries@);
            }
        },
    }
}

/// The dotted attribute names of an evaluated build output: the output
/// must be an attribute set; each of its leaves contributes one name.
pub fn flatten_build_attrs(tree: &AttrTree) -> (r: Result<Vec<String>, OrchestratorError>)
    ensures
        match r {
            Ok(names) => tree matches AttrTree::Attrs(entries) && names@.map_values(
                |s: String| s@,
            ) == flattened_top(entries@),
            Err(e) => tree is Leaf && e matches OrchestratorError::ParseError(_),
        },
{
    match tree {
        AttrTree::Leaf => Err(
            OrchestratorError::ParseError(String::from_str("build output is not an object")),
        ),
        AttrTree::Attrs(entries) => {
            let mut out: Vec<String> = Vec::new();
            let mut i: usize = 0;
            proof {
                assert(entries@.take(0) =~= Seq::<(String, AttrTree)>::empty());
                assert(out@.map_values(|s: String| s@) =~= flattened_top(entries@.take(0)));
            }
            while i < entries.len()
                invariant
                    i <= entries@.len(),
                    out@.map_values(|s: String| s@) == flattened_top(entries@.take(i as int)),
                decreases entries@.len() - i,
            {
                flatten_tree_into(entries[i].0.as_str(), &entries[i].1, &mut out);
                proof {
                    assert(entries@.take(i + 1).drop_last() =~= entries@.take(i as int));
                    assert(entries@.take(i + 1).last() == entries@[i as int]);
                }
                i = i + 1;
            }
            proof {
                assert(entries@.take(entries@.len() as int) =~= entries@);
            }
            Ok(out)
        },
    }
}

/// The explicit attribute list, each name put under the root namespace.
pub fn prefixed_attrs(attributes: &Vec<String>) -> (r: Vec<String>)
    ensures
        r@.map_values(|s: String| s@) == attributes@.map_values(
            |a: String| "devenv."@ + a@,
        ),
{
    let ghost target = attributes@.map_values(|a: String| "devenv."@ + a@);
    let mut out: Vec<String> = Vec::new();
    let mut i: usize = 0;
    proof {
        assert(out@.map_values(|s: String| s@) =~= target.take(0));
    }
    while i < attributes.len()
        invariant
            i <= attributes@.len(),
            target == attributes@.map_values(|a: String| "devenv."@ + a@),
            out@.map_values(|s: String| s@) == target.take(i as int),
        decreases attributes@.len() - i,
    {
        let ghost prev = out@.map_values(|s: String| s@);
        let name = strutil::concat_strs("devenv.", attributes[i].as_str());
        out.push(name);
        proof {
            assert(out@.map_values(|s: String| s@) =~= prev.push(target[i as int]));
            assert(target.take(i + 1) =~= target.take(i as int).push(target[i as int]));
        }
        i = i + 1;
    }
    proof {
        assert(target.take(attributes@.len() as int) =~= target);
    }
    out
}

/// Resolves the attribute names a `build` works on: an explicit list is
/// prefixed; an empty list is resolved from the evaluated build output,
/// which fails with `ParseError` when it cannot be decoded or is not an
/// attribute set.
pub fn resolve_build_attrs(attributes: &Vec<String>, eval_output: &str) -> (r: Result<
    Vec<String>,
    OrchestratorError,
>)
    ensures
        attributes@.len() > 0 ==> (r matches Ok(names) && names@.map_values(|s: String| s@)
            == attributes@.map_values(|a: String| "devenv."@ + a@)),
        attributes@.len() == 0 ==> match r {
            Ok(names) => build_tree_of(eval_output@) matches Some(tree) && tree matches
                AttrTree::Attrs(entries) && names@.map_values(|s: String| s@)
                == flattened_top(entries@),
            Err(e) => e matches OrchestratorError::ParseError(_) && (build_tree_of(eval_output@)
                is None || (build_tree_of(eval_output@) matches Some(t2) && t2 is Leaf)),
        },
{
    if attributes.len() > 0 {
        Ok(prefixed_attrs(attributes))
    } else {
        match parse_build_output(eval_output) {
            Some(tree) => flatten_build_attrs(&tree),
            None => Err(
                OrchestratorError::ParseError(String::from_str("build output", )),
            ),
        }
    }
}

} // verus!
