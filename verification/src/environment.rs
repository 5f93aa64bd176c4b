//! Shell environment capture: parsing `KEY=VALUE` lines dumped by the
//! materialized environment script, filtering the ambient environment under
//! a clean policy, and merging the captured variables over the ambient ones
//! so that captured values win on key collision.

use vstd::prelude::*;

use crate::strutil;

verus! {

/// The views of a vector of key/value pairs.
pub open spec fn env_views(ps: Seq<(String, String)>) -> Seq<(Seq<char>, Seq<char>)> {
    ps.map_values(|p: (String, String)| (p.0@, p.1@))
}

/// The key/value pairs parsed out of a sequence of lines: each line holding
/// a `=` contributes the part before its first `=` as key and the rest as
/// value; lines without `=` are skipped.
pub open spec fn captured_pairs(lines: Seq<Seq<char>>) -> Seq<(Seq<char>, Seq<char>)>
    decreases lines.len(),
{
    if lines.len() == 0 {
        Seq::empty()
    } else {
        let rest = captured_pairs(lines.drop_last());
        match strutil::after_sep(lines.last(), '=') {
            Some(v) => rest.push((strutil::upto_sep(lines.last(), '='), v)),
            None => rest,
        }
    }
}

/// Splits one `KEY=VALUE` line on its first `=`; `None` when the line holds
/// no `=` at all.
pub fn parse_env_line(line: &str) -> (r: Option<(String, String)>)
    ensures
        match r {
            Some(kv) => strutil::after_sep(line@, '=') == Some(kv.1@) && strutil::upto_sep(
                line@,
                '=',
            ) == kv.0@,
            None => strutil::after_sep(line@, '=') is None,
        },
{
    let chars = strutil::chars_of(line);
    match strutil::split_first(&chars, '=') {
        None => {
            proof {
                strutil::lemma_no_sep(line@, '=');
            }
            None
        },
        Some((key, value)) => {
            proof {
                strutil::lemma_sep_split(key@, value@, '=');
            }
            Some((strutil::string_of(&key), strutil::string_of(&value)))
        },
    }
}

/// Parses every `KEY=VALUE` line of the captured environment dump, skipping
/// lines without `=`.
pub fn parse_env_lines(lines: &Vec<String>) -> (r: Vec<(String, String)>)
    ensures
        env_views(r@) == captured_pairs(lines@.map_values(|l: String| l@)),
{
    let ghost line_views = lines@.map_values(|l: String| l@);
    let mut out: Vec<(String, String)> = Vec::new();
    let mut i: usize = 0;
    proof {
        assert(line_views.take(0) =~= Seq::<Seq<char>>::empty());
        assert(env_views(out@) =~= captured_pairs(line_views.take(0)));
    }
    while i < lines.len()
        invariant
            i <= lines@.len(),
            line_views == lines@.map_values(|l: String| l@),
            env_views(out@) == captured_pairs(line_views.take(i as int)),
        decreases lines@.len() - i,
    {
        let ghost prev = env_views(out@);
        proof {
            assert(line_views.take(i + 1).drop_last() =~= line_views.take(i as int));
            assert(line_views.take(i + 1).last() == lines@[i as int]@);
        }
        match parse_env_line(lines[i].as_str()) {
            Some(kv) => {
                out.push(kv);
                proof {
                    assert(env_views(out@) =~= prev.push((kv.0@, kv.1@)));
                }
            },
            None => {},
        }
        i = i + 1;
    }
    proof {
        assert(line_views.take(lines@.len() as int) =~= line_views);
    }
    out
}

/// The mapping an ordered list of key/value pairs denotes: a later pair with
/// the same key wins.
pub open spec fn env_map(pairs: Seq<(Seq<char>, Seq<char>)>) -> Map<Seq<char>, Seq<char>>
    decreases pairs.len(),
{
    if pairs.len() == 0 {
        Map::empty()
    } else {
        env_map(pairs.drop_last()).insert(pairs.last().0, pairs.last().1)
    }
}

/// Whether `keys` holds a string equal to `k`.
pub fn contains_key_str(keys: &Vec<String>, k: &str) -> (r: bool)
    ensures
        r == keys@.map_values(|s: String| s@).contains(k@),
{
    let ghost key_views = keys@.map_values(|s: String| s@);
    let mut i: usize = 0;
    while i < keys.len()
        invariant
            i <= keys@.len(),
            key_views == keys@.map_values(|s: String| s@),
            forall|j: int| 0 <= j < i ==> key_views[j] != k@,
        decreases keys@.len() - i,
    {
        if strutil::str_eq(keys[i].as_str(), k) {
            proof {
                assert(key_views[i as int] == k@);
            }
            return true;
        }
        i = i + 1;
    }
    proof {
        if key_views.contains(k@) {
            let j = choose|j: int| 0 <= j < key_views.len() && key_views[j] == k@;
            assert(key_views[j] != k@);
        }
    }
    false
}

/// Keeps only the pairs whose key the predicate list mentions (`keep` true)
/// or only those it does not mention (`keep` false).
pub open spec fn filtered_env(
    vars: Seq<(Seq<char>, Seq<char>)>,
    keys: Seq<Seq<char>>,
    keep: bool,
) -> Seq<(Seq<char>, Seq<char>)> {
    vars.filter(|p: (Seq<char>, Seq<char>)| keys.contains(p.0) == keep)
}

/// Filters the ambient environment by a key list: with `keep` true only the
/// listed keys survive (the allow-list used to reseed a clean shell); with
/// `keep` false the listed keys are dropped (the ambient side of a clean
/// capture merge).
pub fn filter_env(vars: &Vec<(String, String)>, keys: &Vec<String>, keep: bool) -> (r: Vec<
    (String, String),
>)
    ensures
        env_views(r@) == filtered_env(env_views(vars@), keys@.map_values(|s: String| s@), keep),
{
    let ghost key_views = keys@.map_values(|s: String| s@);
    let ghost vv = env_views(vars@);
    let ghost pred = |p: (Seq<char>, Seq<char>)| key_views.contains(p.0) == keep;
    let mut out: Vec<(String, String)> = Vec::new();
    let mut i: usize = 0;
    proof {
        reveal(Seq::filter);
        assert(vv.take(0) =~= Seq::<(Seq<char>, Seq<char>)>::empty());
        assert(env_views(out@) =~= vv.take(0).filter(pred));
    }
    while i < vars.len()
        invariant
            i <= vars@.len(),
            vv == env_views(vars@),
            key_views == keys@.map_values(|s: String| s@),
            pred == (|p: (Seq<char>, Seq<char>)| key_views.contains(p.0) == keep),
            env_views(out@) == vv.take(i as int).filter(pred),
        decreases vars@.len() - i,
    {
        let ghost prev = env_views(out@);
        let in_list = contains_key_str(keys, vars[i].0.as_str());
        if in_list == keep {
            let kv = (vars[i].0.clone(), vars[i].1.clone());
            out.push(kv);
            proof {
                assert(env_views(out@) =~= prev.push(vv[i as int]));
            }
        }
        proof {
            assert(vv.take(i + 1) =~= vv.take(i as int).push(vv[i as int]));
            strutil::lemma_filter_push(vv.take(i as int), pred, vv[i as int]);
            assert(pred(vv[i as int]) == (in_list == keep));
        }
        i = i + 1;
    }
    proof {
        assert(vv.take(vars@.len() as int) =~= vv);
    }
    out
}

/// The merged environment: the ambient pairs followed by the captured
/// pairs, so that under the last-wins reading a captured value shadows an
/// ambient one with the same key.
pub fn merge_environments(ambient: &Vec<(String, String)>, captured: &Vec<(String, String)>) -> (r:
    Vec<(String, String)>)
    ensures
        env_views(r@) == env_views(ambient@) + env_views(captured@),
{
    let mut out: Vec<(String, String)> = Vec::new();
    let mut i: usize = 0;
    proof {
        assert(env_views(ambient@).take(0) =~= Seq::<(Seq<char>, Seq<char>)>::empty());
        assert(env_views(out@) =~= env_views(ambient@).take(0));
    }
    while i < ambient.len()
        invariant
            i <= ambient@.len(),
            env_views(out@) == env_views(ambient@).take(i as int),
        decreases ambient@.len() - i,
    {
        let ghost prev = env_views(out@);
        let kv = (ambient[i].0.clone(), ambient[i].1.clone());
        out.push(kv);
        proof {
            assert(env_views(ambient@).take(i + 1) =~= env_views(ambient@).take(i as int).push(
                env_views(ambient@)[i as int],
            ));
            assert(env_views(out@) =~= prev.push(env_views(ambient@)[i as int]));
        }
        i = i + 1;
    }
    proof {
        assert(env_views(ambient@).take(ambient@.len() as int) =~= env_views(ambient@));
    }
    let mut j: usize = 0;
    while j < captured.len()
        invariant
            j <= captured@.len(),
            env_views(out@) == env_views(ambient@) + env_views(captured@).take(j as int),
        decreases captured@.len() - j,
    {
        let ghost prev = env_views(out@);
        let kv = (captured[j].0.clone(), captured[j].1.clone());
        out.push(kv);
        proof {
            assert(env_views(captured@).take(j + 1) =~= env_views(captured@).take(j as int).push(
                env_views(captured@)[j as int],
            ));
            assert(env_views(out@) =~= prev.push(env_views(captured@)[j as int]));
            assert(env_views(ambient@) + env_views(captured@).take(j + 1) =~= (env_views(ambient@)
                + env_views(captured@).take(j as int)).push(env_views(captured@)[j as int]));
        }
        j = j + 1;
    }
    proof {
        assert(env_views(captured@).take(captured@.len() as int) =~= env_views(captured@));
    }
    out
}

/// Environment capture precedence: in the merged list (ambient pairs then
/// captured pairs), a key that the captured environment defines takes its
/// captured value, and a key only the ambient environment defines keeps its
/// ambient value.
pub proof fn lemma_capture_precedence(
    ambient: Seq<(Seq<char>, Seq<char>)>,
    captured: Seq<(Seq<char>, Seq<char>)>,
    key: Seq<char>,
)
    ensures
        env_map(captured).contains_key(key) ==> env_map(ambient + captured).contains_key(key)
            && env_map(ambient + captured)[key] == env_map(captured)[key],
        !env_map(captured).contains_key(key) && env_map(ambient).contains_key(key) ==> env_map(
            ambient + captured,
        ).contains_key(key) && env_map(ambient + captured)[key] == env_map(ambient)[key],
    decreases captured.len(),
{
    if captured.len() == 0 {
        assert(ambient + captured =~= ambient);
    } else {
        lemma_capture_precedence(ambient, captured.drop_last(), key);
        assert((ambient + captured).drop_last() =~= ambient + captured.drop_last());
        assert((ambient + captured).last() == captured.last());
    }
}

/// Looks the key up under the last-wins reading of an ordered pair list.
pub fn env_value(pairs: &Vec<(String, String)>, key: &str) -> (r: Option<String>)
    ensures
        match r {
            Some(v) => env_map(env_views(pairs@)).contains_key(key@) && env_map(
                env_views(pairs@),
            )[key@] == v@,
            None => !env_map(env_views(pairs@)).contains_key(key@),
        },
{
    let ghost pv = env_views(pairs@);
    let mut found: Option<String> = None;
    let mut i: usize = 0;
    proof {
        assert(pv.take(0) =~= Seq::<(Seq<char>, Seq<char>)>::empty());
    }
    while i < pairs.len()
        invariant
            i <= pairs@.len(),
            pv == env_views(pairs@),
            match found {
                Some(v) => env_map(pv.take(i as int)).contains_key(key@) && env_map(
                    pv.take(i as int),
                )[key@] == v@,
                None => !env_map(pv.take(i as int)).contains_key(key@),
            },
        decreases pairs@.len() - i,
    {
        proof {
            assert(pv.take(i + 1).drop_last() =~= pv.take(i as int));
            assert(pv.take(i + 1).last() == pv[i as int]);
        }
        if strutil::str_eq(pairs[i].0.as_str(), key) {
            found = Some(pairs[i].1.clone());
        }
        i = i + 1;
    }
    proof {
        assert(pv.take(pairs@.len() as int) =~= pv);
    }
    found
}

} // verus!
